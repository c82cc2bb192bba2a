//! The data model of the marketplace: resource categories and their catalog
//! of prices and hardware specifications, resources, rentals and providers.

use crate::bounded::bounded_bytes;
use frame_support::pallet_prelude::ConstU32;
use frame_support::BoundedVec;
use vstd::prelude::*;

verus! {

pub type AccountId = u64;

pub type Balance = u128;

pub type CountryCode = BoundedVec<u8, ConstU32<5>>;

pub type Website = BoundedVec<u8, ConstU32<99>>;

pub type ProviderName = BoundedVec<u8, ConstU32<99>>;

pub type ResourceId = u32;

pub type StorageExtension = u64;

pub type VCPUExtension = u8;

/// Price of one week of any resource.
pub const BASE_PRICE: u128 = 10_000_000_000;

pub const BASE_MEMORY_GB: u32 = 2;

pub const BASE_STORAGE_GB: u64 = 10;

pub const BASE_VCPU: u8 = 2;

#[derive(Clone, Copy, PartialEq, Eq, Structural, Debug)]
pub enum BillingPeriod {
    Weekly,
    Monthly,
}

#[derive(Clone, PartialEq, Debug)]
pub struct GPUSpecs {
    /// Number of GPUs.
    pub gpu_count: u32,
    /// Memory per GPU in gigabytes.
    pub gpu_memory_gb: Option<u32>,
    /// GPU model name.
    pub gpu_model: BoundedVec<u8, ConstU32<99>>,
}

#[derive(Clone, PartialEq, Debug)]
pub struct CustomResourceSpecs {
    pub vcpu: u8,
    pub memory_gb: u32,
    pub storage_gb: u64,
    pub gpu_specs: Option<GPUSpecs>,
}

/// Capacity tier of a resource. The tiers carry what the provider adds to the
/// tier's base: extra virtual CPUs and extra gigabytes of storage.
#[derive(Clone, PartialEq, Debug)]
pub enum ResourceCategory {
    Nano(VCPUExtension, StorageExtension),
    Micro(VCPUExtension, StorageExtension),
    Small(VCPUExtension, StorageExtension),
    Medium(VCPUExtension, StorageExtension),
    Large(VCPUExtension, StorageExtension),
    Custom(CustomResourceSpecs),
}

#[derive(Clone, PartialEq, Debug)]
pub struct Region {
    pub country_code: CountryCode,
    pub city: BoundedVec<u8, ConstU32<32>>,
}

/// A rentable compute resource. It belongs to one provider, and it is
/// available exactly while nobody rents it.
#[derive(Clone, PartialEq, Debug)]
pub struct Resource {
    pub id: ResourceId,
    pub provider: AccountId,
    pub category: ResourceCategory,
    pub location: Region,
    pub is_available: bool,
    /// Percentage of guaranteed uptime.
    pub uptime_guarantee: u8,
}

/// The lease of one resource to one renter.
#[derive(Clone, Copy, PartialEq, Eq, Structural, Debug)]
pub struct Rental {
    pub resource_id: ResourceId,
    pub renter: AccountId,
    pub start_block: u32,
    pub billing_period: BillingPeriod,
    /// The block up to which the provider has been paid.
    pub last_paid_block: u32,
    pub is_active: bool,
}

#[derive(Clone, Copy, PartialEq, Eq, Structural, Debug)]
pub enum ProviderStatus {
    Active,
    Inactive,
    Suspended,
    Terminated,
}

#[derive(Clone, PartialEq, Debug)]
pub struct ProviderInfo {
    pub account: AccountId,
    /// Name of the provider or of its organisation.
    pub name: ProviderName,
    pub website: Option<Website>,
    /// Total resources across all categories.
    pub total_resources: u32,
    /// Score from 0 to 100.
    pub reputation_score: u32,
    pub registration_block: u32,
    pub last_updated: u32,
    pub status: ProviderStatus,
}

#[derive(Clone, Copy, PartialEq, Eq, Structural, Debug)]
pub enum BootstrapperType {
    Kollectyve,
    Else,
}

#[derive(Clone, Copy, PartialEq, Eq, Structural, Debug)]
pub struct BootstrapperInfo {
    pub bootstrapper_info: AccountId,
    pub bootstrap_type: BootstrapperType,
}

/// What a `GPUSpecs` holds, with the model name as plain bytes.
pub struct GpuView {
    pub gpu_count: u32,
    pub gpu_memory_gb: Option<u32>,
    pub gpu_model: Seq<u8>,
}

/// What a `CustomResourceSpecs` holds.
pub struct CustomView {
    pub vcpu: u8,
    pub memory_gb: u32,
    pub storage_gb: u64,
    pub gpu_specs: Option<GpuView>,
}

/// What a `ResourceCategory` holds. Two categories are the same category
/// exactly when their views are equal.
pub enum CategoryView {
    Nano(u8, u64),
    Micro(u8, u64),
    Small(u8, u64),
    Medium(u8, u64),
    Large(u8, u64),
    Custom(CustomView),
}

impl View for GPUSpecs {
    type V = GpuView;

    open spec fn view(&self) -> GpuView {
        GpuView {
            gpu_count: self.gpu_count,
            gpu_memory_gb: self.gpu_memory_gb,
            gpu_model: bounded_bytes(self.gpu_model),
        }
    }
}

impl View for CustomResourceSpecs {
    type V = CustomView;

    open spec fn view(&self) -> CustomView {
        CustomView {
            vcpu: self.vcpu,
            memory_gb: self.memory_gb,
            storage_gb: self.storage_gb,
            gpu_specs: match self.gpu_specs {
                Some(gpu) => Some(gpu@),
                None => None,
            },
        }
    }
}

impl View for ResourceCategory {
    type V = CategoryView;

    open spec fn view(&self) -> CategoryView {
        match *self {
            ResourceCategory::Nano(v, s) => CategoryView::Nano(v, s),
            ResourceCategory::Micro(v, s) => CategoryView::Micro(v, s),
            ResourceCategory::Small(v, s) => CategoryView::Small(v, s),
            ResourceCategory::Medium(v, s) => CategoryView::Medium(v, s),
            ResourceCategory::Large(v, s) => CategoryView::Large(v, s),
            ResourceCategory::Custom(c) => CategoryView::Custom(c@),
        }
    }
}

/// The catalog price of one billing period. The weekly price is the base and
/// a month costs four weeks; the category does not enter into it.
pub open spec fn price_of(period: BillingPeriod) -> int {
    match period {
        BillingPeriod::Weekly => BASE_PRICE as int,
        BillingPeriod::Monthly => BASE_PRICE * 4,
    }
}

/// The hardware of a category as `(vcpu, memory_gb, storage_gb)`, computed
/// without any limit of width: a tier's base plus what the variant carries.
pub open spec fn specs_of(category: CategoryView) -> (int, int, int) {
    match category {
        CategoryView::Nano(v, s) => (BASE_VCPU + v, BASE_MEMORY_GB as int, BASE_STORAGE_GB + s),
        CategoryView::Micro(v, s) => (
            BASE_VCPU + v,
            BASE_MEMORY_GB * 2,
            BASE_STORAGE_GB * 2 + s,
        ),
        CategoryView::Small(v, s) => (
            BASE_VCPU * 2 + v,
            BASE_MEMORY_GB * 4,
            BASE_STORAGE_GB * 4 + s,
        ),
        CategoryView::Medium(v, s) => (
            BASE_VCPU * 2 + v,
            BASE_MEMORY_GB * 8,
            BASE_STORAGE_GB * 8 + s,
        ),
        CategoryView::Large(v, s) => (
            BASE_VCPU * 4 + v,
            BASE_MEMORY_GB * 16,
            BASE_STORAGE_GB * 16 + s,
        ),
        CategoryView::Custom(c) => (c.vcpu as int, c.memory_gb as int, c.storage_gb as int),
    }
}

/// Whether the hardware of a category can be written in the widths that
/// `specs` returns.
pub open spec fn specs_fit(category: CategoryView) -> bool {
    specs_of(category).0 <= u8::MAX && specs_of(category).2 <= u64::MAX
}

impl ResourceCategory {
    /// The price of one billing period of a resource of this category.
    pub fn price(&self, billing_period: &BillingPeriod) -> (cost: u128)
        ensures
            cost == price_of(*billing_period),
    {
        match billing_period {
            BillingPeriod::Weekly => BASE_PRICE,
            BillingPeriod::Monthly => BASE_PRICE * 4,
        }
    }

    /// Whether `specs` can be called on this category.
    pub fn has_specs(&self) -> (fits: bool)
        ensures
            fits == specs_fit(self@),
    {
        match self {
            ResourceCategory::Nano(v, s) => {
                *v <= u8::MAX - BASE_VCPU && *s <= u64::MAX - BASE_STORAGE_GB
            },
            ResourceCategory::Micro(v, s) => {
                *v <= u8::MAX - BASE_VCPU && *s <= u64::MAX - BASE_STORAGE_GB * 2
            },
            ResourceCategory::Small(v, s) => {
                *v <= u8::MAX - BASE_VCPU * 2 && *s <= u64::MAX - BASE_STORAGE_GB * 4
            },
            ResourceCategory::Medium(v, s) => {
                *v <= u8::MAX - BASE_VCPU * 2 && *s <= u64::MAX - BASE_STORAGE_GB * 8
            },
            ResourceCategory::Large(v, s) => {
                *v <= u8::MAX - BASE_VCPU * 4 && *s <= u64::MAX - BASE_STORAGE_GB * 16
            },
            ResourceCategory::Custom(_) => true,
        }
    }

    /// The hardware of this category as `(vcpu, memory_gb, storage_gb)`.
    pub fn specs(&self) -> (hardware: (u8, u32, u64))
        requires
            specs_fit(self@),
        ensures
            hardware.0 == specs_of(self@).0,
            hardware.1 == specs_of(self@).1,
            hardware.2 == specs_of(self@).2,
    {
        match self {
            ResourceCategory::Nano(vcpu_ext, storage_ext) => (
                BASE_VCPU + *vcpu_ext,
                BASE_MEMORY_GB,
                BASE_STORAGE_GB + *storage_ext,
            ),
            ResourceCategory::Micro(vcpu_ext, storage_ext) => (
                BASE_VCPU + *vcpu_ext,
                BASE_MEMORY_GB * 2,
                BASE_STORAGE_GB * 2 + *storage_ext,
            ),
            ResourceCategory::Small(vcpu_ext, storage_ext) => (
                (BASE_VCPU * 2) + *vcpu_ext,
                BASE_MEMORY_GB * 4,
                BASE_STORAGE_GB * 4 + *storage_ext,
            ),
            ResourceCategory::Medium(vcpu_ext, storage_ext) => (
                (BASE_VCPU * 2) + *vcpu_ext,
                BASE_MEMORY_GB * 8,
                BASE_STORAGE_GB * 8 + *storage_ext,
            ),
            ResourceCategory::Large(vcpu_ext, storage_ext) => (
                (BASE_VCPU * 4) + *vcpu_ext,
                BASE_MEMORY_GB * 16,
                BASE_STORAGE_GB * 16 + *storage_ext,
            ),
            ResourceCategory::Custom(specs) => (specs.vcpu, specs.memory_gb, specs.storage_gb),
        }
    }
}

} // verus!
