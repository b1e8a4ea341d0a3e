use wardstone::asymmetric::Asymmetric;
use wardstone::context::Context;
use wardstone::ecc;
use wardstone::ffc;
use wardstone::hash;
use wardstone::ifc;
use wardstone::standard::{verdict_parts, Standard};
use wardstone::symmetric;
use wardstone::testing::Testing;

#[test]
fn testing_standard_is_permissive() {
    let ctx = Context::default();
    assert_eq!(Testing::validate_ecc(ctx, ecc::p256()), Ok(ecc::p256()));
    assert_eq!(Testing::validate_ffc(ctx, ffc::ffc_1024_160()), Ok(ffc::ffc_1024_160()));
    assert_eq!(Testing::validate_ifc(ctx, ifc::ifc_2048()), Ok(ifc::ifc_2048()));
    assert_eq!(Testing::validate_hash(ctx, hash::md5()), Ok(hash::md5()));
    assert_eq!(Testing::validate_symmetric(ctx, symmetric::tdea2()), Ok(symmetric::tdea2()));
}

#[test]
fn asymmetric_dispatch_keeps_family() {
    let ctx = Context::default();
    let ecc_key = Asymmetric::Ecc(ecc::p384());
    let ifc_key = Asymmetric::Ifc(ifc::ifc_3072());
    let ffc_key = Asymmetric::Ffc(ffc::ffc_3072_256());
    assert_eq!(Testing::validate_asymmetric(ctx, ecc_key), Ok(ecc_key));
    assert_eq!(Testing::validate_asymmetric(ctx, ifc_key), Ok(ifc_key));
    assert_eq!(Testing::validate_asymmetric(ctx, ffc_key), Ok(ffc_key));
}

#[test]
fn asymmetric_round_trip() {
    let key = Asymmetric::Ffc(ffc::ffc_2048_224());
    assert_eq!(key.ffc(), Some(ffc::ffc_2048_224()));
    assert_eq!(key.ecc(), None);
    assert_eq!(key.ifc(), None);
    let key = Asymmetric::Ecc(ecc::ed25519());
    assert_eq!(key.ecc(), Some(ecc::ed25519()));
    let key = Asymmetric::Ifc(ifc::ifc_2048());
    assert_eq!(key.ifc(), Some(ifc::ifc_2048()));
}

#[test]
fn verdict_parts_splits_compliance_code() {
    let compliant: Result<u16, u16> = Ok(128);
    let non_compliant: Result<u16, u16> = Err(128);
    assert_eq!(verdict_parts(compliant), (128, 1));
    assert_eq!(verdict_parts(non_compliant), (128, 0));
}

#[test]
fn context_defaults() {
    let ctx = Context::default();
    assert_eq!(ctx.security(), 0);
    assert_eq!(ctx.year(), 2023);
}

#[test]
fn context_new_keeps_options() {
    let ctx = Context::new(192, 2030);
    assert_eq!(ctx.security(), 192);
    assert_eq!(ctx.year(), 2030);
}
