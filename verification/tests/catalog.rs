use frame_support::pallet_prelude::ConstU32;
use frame_support::BoundedVec;
use kumulus::types::{
    BillingPeriod, CustomResourceSpecs, GPUSpecs, ResourceCategory, BASE_MEMORY_GB, BASE_PRICE,
    BASE_STORAGE_GB, BASE_VCPU,
};

fn model(name: &[u8]) -> BoundedVec<u8, ConstU32<99>> {
    BoundedVec::try_from(name.to_vec()).unwrap()
}

#[test]
fn base_values() {
    assert_eq!(BASE_PRICE, 10_000_000_000);
    assert_eq!(BASE_MEMORY_GB, 2);
    assert_eq!(BASE_STORAGE_GB, 10);
    assert_eq!(BASE_VCPU, 2);
}

#[test]
fn weekly_price_is_the_base_price() {
    let nano = ResourceCategory::Nano(0, 0);
    assert_eq!(nano.price(&BillingPeriod::Weekly), 10_000_000_000);
}

#[test]
fn monthly_price_is_four_weeks() {
    let large = ResourceCategory::Large(3, 100);
    assert_eq!(large.price(&BillingPeriod::Monthly), 40_000_000_000);
}

#[test]
fn price_does_not_depend_on_the_category() {
    let custom = ResourceCategory::Custom(CustomResourceSpecs {
        vcpu: 64,
        memory_gb: 512,
        storage_gb: 10_000,
        gpu_specs: None,
    });
    for period in [BillingPeriod::Weekly, BillingPeriod::Monthly] {
        assert_eq!(custom.price(&period), ResourceCategory::Nano(0, 0).price(&period));
        assert_eq!(custom.price(&period), ResourceCategory::Medium(1, 1).price(&period));
    }
}

#[test]
fn tier_specs_add_the_extension_to_the_base() {
    assert_eq!(ResourceCategory::Nano(0, 0).specs(), (2, 2, 10));
    assert_eq!(ResourceCategory::Nano(1, 5).specs(), (3, 2, 15));
    assert_eq!(ResourceCategory::Micro(1, 5).specs(), (3, 4, 25));
    assert_eq!(ResourceCategory::Small(1, 5).specs(), (5, 8, 45));
    assert_eq!(ResourceCategory::Medium(1, 5).specs(), (5, 16, 85));
    assert_eq!(ResourceCategory::Large(1, 5).specs(), (9, 32, 165));
}

#[test]
fn custom_specs_are_returned_verbatim() {
    let custom = ResourceCategory::Custom(CustomResourceSpecs {
        vcpu: 7,
        memory_gb: 48,
        storage_gb: 2000,
        gpu_specs: Some(GPUSpecs {
            gpu_count: 2,
            gpu_memory_gb: Some(80),
            gpu_model: model(b"A100"),
        }),
    });
    assert!(custom.has_specs());
    assert_eq!(custom.specs(), (7, 48, 2000));
    let widest = ResourceCategory::Custom(CustomResourceSpecs {
        vcpu: u8::MAX,
        memory_gb: u32::MAX,
        storage_gb: u64::MAX,
        gpu_specs: None,
    });
    assert!(widest.has_specs());
    assert_eq!(widest.specs(), (u8::MAX, u32::MAX, u64::MAX));
}

#[test]
fn specs_at_the_edge_of_the_widths() {
    let edge = ResourceCategory::Large(u8::MAX - 8, u64::MAX - 160);
    assert!(edge.has_specs());
    assert_eq!(edge.specs(), (u8::MAX, 32, u64::MAX));
    let nano = ResourceCategory::Nano(u8::MAX - 2, u64::MAX - 10);
    assert!(nano.has_specs());
    assert_eq!(nano.specs(), (u8::MAX, 2, u64::MAX));
}

#[test]
fn specs_that_do_not_fit_are_told_apart() {
    assert!(!ResourceCategory::Nano(u8::MAX - 1, 0).has_specs());
    assert!(!ResourceCategory::Nano(0, u64::MAX - 9).has_specs());
    assert!(!ResourceCategory::Micro(u8::MAX, 0).has_specs());
    assert!(!ResourceCategory::Micro(0, u64::MAX - 19).has_specs());
    assert!(!ResourceCategory::Small(u8::MAX - 3, 0).has_specs());
    assert!(!ResourceCategory::Small(0, u64::MAX - 39).has_specs());
    assert!(!ResourceCategory::Medium(u8::MAX - 3, 0).has_specs());
    assert!(!ResourceCategory::Medium(0, u64::MAX - 79).has_specs());
    assert!(!ResourceCategory::Large(u8::MAX - 7, 0).has_specs());
    assert!(!ResourceCategory::Large(0, u64::MAX - 159).has_specs());
    assert!(ResourceCategory::Micro(u8::MAX - 2, u64::MAX - 20).has_specs());
    assert!(ResourceCategory::Small(u8::MAX - 4, u64::MAX - 40).has_specs());
    assert!(ResourceCategory::Medium(u8::MAX - 4, u64::MAX - 80).has_specs());
}
