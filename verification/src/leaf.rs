//! The leaf taxonomy: the closed catalog of known leaf selectors, each
//! with its descriptive label and its hardware-defined selector value.

use vstd::prelude::*;

verus! {

/// The closed enumeration of known leaf kinds. Each kind corresponds to
/// exactly one selector value in the catalog.
#[derive(Debug, Clone, Copy, PartialEq, Eq, Structural)]
pub enum CpuIdLeaf {
    VendorInformation,
    FeatureInformation,
    CacheInformation,
    ProcessorSerial,
    CacheParameters,
    MonitorMwait,
    ThermalPowerManagement,
    StructuredExtendedFeature,
    DirectCacheAccess,
    PerformanceMonitoring,
    ExtendedTopology,
    ProcessorExtendedState,
    QualityofService,
    ExtendedFunction,
}

/// One catalog entry: a leaf kind, its descriptive label, and the
/// selector value to pass to the query primitive for it.
#[derive(Debug, Clone, Copy)]
pub struct LeafData {
    pub leaf: CpuIdLeaf,
    pub label: &'static str,
    pub selector: u32,
}

/// The selector value the hardware recognizes for each leaf kind.
pub open spec fn spec_leaf_selector(leaf: CpuIdLeaf) -> u32 {
    match leaf {
        CpuIdLeaf::VendorInformation => 0x0,
        CpuIdLeaf::FeatureInformation => 0x1,
        CpuIdLeaf::CacheInformation => 0x2,
        CpuIdLeaf::ProcessorSerial => 0x3,
        CpuIdLeaf::CacheParameters => 0x4,
        CpuIdLeaf::MonitorMwait => 0x5,
        CpuIdLeaf::ThermalPowerManagement => 0x6,
        CpuIdLeaf::StructuredExtendedFeature => 0x7,
        CpuIdLeaf::DirectCacheAccess => 0x9,
        CpuIdLeaf::PerformanceMonitoring => 0xa,
        CpuIdLeaf::ExtendedTopology => 0xb,
        CpuIdLeaf::ProcessorExtendedState => 0xd,
        CpuIdLeaf::QualityofService => 0xf,
        CpuIdLeaf::ExtendedFunction => 0x80000000,
    }
}

/// The descriptive label of each leaf kind.
pub open spec fn spec_leaf_label(leaf: CpuIdLeaf) -> Seq<char> {
    match leaf {
        CpuIdLeaf::VendorInformation => "GenuineIntel"@,
        CpuIdLeaf::FeatureInformation => "Version/Feature Information"@,
        CpuIdLeaf::CacheInformation => "Cache and TLB Information"@,
        CpuIdLeaf::ProcessorSerial => "Processor serial number"@,
        CpuIdLeaf::CacheParameters => "Deterministic Cache Parameters"@,
        CpuIdLeaf::MonitorMwait => "MONITOR/MWAIT"@,
        CpuIdLeaf::ThermalPowerManagement => "Thermal and Power Management"@,
        CpuIdLeaf::StructuredExtendedFeature => "Structured Extended Feature Flags"@,
        CpuIdLeaf::DirectCacheAccess => "Direct Cache Access Information"@,
        CpuIdLeaf::PerformanceMonitoring => "Architectural Performance Monitoring"@,
        CpuIdLeaf::ExtendedTopology => "Extended Topology Enumeration"@,
        CpuIdLeaf::ProcessorExtendedState => "Processor Extended State Enumeration"@,
        CpuIdLeaf::QualityofService => "Quality of Service"@,
        CpuIdLeaf::ExtendedFunction => "Extended Function CPUID Information"@,
    }
}

/// The catalog order: ascending by selector, with the extended-function
/// leaf last, at the start of the logically distinct extended range.
pub open spec fn spec_catalog_order() -> Seq<CpuIdLeaf> {
    seq![
        CpuIdLeaf::VendorInformation,
        CpuIdLeaf::FeatureInformation,
        CpuIdLeaf::CacheInformation,
        CpuIdLeaf::ProcessorSerial,
        CpuIdLeaf::CacheParameters,
        CpuIdLeaf::MonitorMwait,
        CpuIdLeaf::ThermalPowerManagement,
        CpuIdLeaf::StructuredExtendedFeature,
        CpuIdLeaf::DirectCacheAccess,
        CpuIdLeaf::PerformanceMonitoring,
        CpuIdLeaf::ExtendedTopology,
        CpuIdLeaf::ProcessorExtendedState,
        CpuIdLeaf::QualityofService,
        CpuIdLeaf::ExtendedFunction,
    ]
}

pub fn leaf_selector(leaf: CpuIdLeaf) -> (r: u32)
    ensures
        r == spec_leaf_selector(leaf),
{
    match leaf {
        CpuIdLeaf::VendorInformation => 0x0,
        CpuIdLeaf::FeatureInformation => 0x1,
        CpuIdLeaf::CacheInformation => 0x2,
        CpuIdLeaf::ProcessorSerial => 0x3,
        CpuIdLeaf::CacheParameters => 0x4,
        CpuIdLeaf::MonitorMwait => 0x5,
        CpuIdLeaf::ThermalPowerManagement => 0x6,
        CpuIdLeaf::StructuredExtendedFeature => 0x7,
        CpuIdLeaf::DirectCacheAccess => 0x9,
        CpuIdLeaf::PerformanceMonitoring => 0xa,
        CpuIdLeaf::ExtendedTopology => 0xb,
        CpuIdLeaf::ProcessorExtendedState => 0xd,
        CpuIdLeaf::QualityofService => 0xf,
        CpuIdLeaf::ExtendedFunction => 0x80000000,
    }
}

pub fn leaf_label(leaf: CpuIdLeaf) -> (r: &'static str)
    ensures
        r@ == spec_leaf_label(leaf),
{
    match leaf {
        CpuIdLeaf::VendorInformation => "GenuineIntel",
        CpuIdLeaf::FeatureInformation => "Version/Feature Information",
        CpuIdLeaf::CacheInformation => "Cache and TLB Information",
        CpuIdLeaf::ProcessorSerial => "Processor serial number",
        CpuIdLeaf::CacheParameters => "Deterministic Cache Parameters",
        CpuIdLeaf::MonitorMwait => "MONITOR/MWAIT",
        CpuIdLeaf::ThermalPowerManagement => "Thermal and Power Management",
        CpuIdLeaf::StructuredExtendedFeature => "Structured Extended Feature Flags",
        CpuIdLeaf::DirectCacheAccess => "Direct Cache Access Information",
        CpuIdLeaf::PerformanceMonitoring => "Architectural Performance Monitoring",
        CpuIdLeaf::ExtendedTopology => "Extended Topology Enumeration",
        CpuIdLeaf::ProcessorExtendedState => "Processor Extended State Enumeration",
        CpuIdLeaf::QualityofService => "Quality of Service",
        CpuIdLeaf::ExtendedFunction => "Extended Function CPUID Information",
    }
}

/// Builds the fixed, ordered 14-entry catalog: one descriptor per leaf
/// kind, in catalog order, each carrying its own label and selector.
pub fn leaf_information() -> (r: Vec<LeafData>)
    ensures
        r@.len() == spec_catalog_order().len(),
        forall|i: int| 0 <= i < r@.len() ==> #[trigger] r@[i].leaf == spec_catalog_order()[i],
        forall|i: int|
            0 <= i < r@.len() ==> #[trigger] r@[i].selector == spec_leaf_selector(r@[i].leaf),
        forall|i: int|
            0 <= i < r@.len() ==> #[trigger] r@[i].label@ == spec_leaf_label(r@[i].leaf),
{
    let order: [CpuIdLeaf; 14] = [
        CpuIdLeaf::VendorInformation,
        CpuIdLeaf::FeatureInformation,
        CpuIdLeaf::CacheInformation,
        CpuIdLeaf::ProcessorSerial,
        CpuIdLeaf::CacheParameters,
        CpuIdLeaf::MonitorMwait,
        CpuIdLeaf::ThermalPowerManagement,
        CpuIdLeaf::StructuredExtendedFeature,
        CpuIdLeaf::DirectCacheAccess,
        CpuIdLeaf::PerformanceMonitoring,
        CpuIdLeaf::ExtendedTopology,
        CpuIdLeaf::ProcessorExtendedState,
        CpuIdLeaf::QualityofService,
        CpuIdLeaf::ExtendedFunction,
    ];
    let mut r: Vec<LeafData> = Vec::new();
    let mut i: usize = 0;
    while i < 14
        invariant
            i <= 14,
            r@.len() == i,
            order@ =~= spec_catalog_order(),
            forall|j: int| 0 <= j < i ==> #[trigger] r@[j].leaf == spec_catalog_order()[j],
            forall|j: int|
                0 <= j < i ==> #[trigger] r@[j].selector == spec_leaf_selector(r@[j].leaf),
            forall|j: int|
                0 <= j < i ==> #[trigger] r@[j].label@ == spec_leaf_label(r@[j].leaf),
        decreases 14 - i,
    {
        let leaf = order[i];
        let entry = LeafData { leaf, label: leaf_label(leaf), selector: leaf_selector(leaf) };
        r.push(entry);
        i = i + 1;
    }
    r
}

/// The catalog is well formed: each leaf kind appears exactly once, and
/// the selectors are strictly ascending throughout — in particular the
/// extended-function leaf, the sole member of the extended range, is last.
pub proof fn lemma_catalog_well_formed()
    ensures
        spec_catalog_order().len() == 14,
        forall|i: int, j: int|
            0 <= i < j < spec_catalog_order().len()
                ==> spec_catalog_order()[i] != spec_catalog_order()[j],
        forall|i: int, j: int|
            0 <= i < j < spec_catalog_order().len()
                ==> spec_leaf_selector(spec_catalog_order()[i])
                    < spec_leaf_selector(spec_catalog_order()[j]),
        forall|leaf: CpuIdLeaf| spec_catalog_order().contains(leaf),
{
    assert forall|leaf: CpuIdLeaf| spec_catalog_order().contains(leaf) by {
        let s = spec_catalog_order();
        match leaf {
            CpuIdLeaf::VendorInformation => assert(s[0] == leaf),
            CpuIdLeaf::FeatureInformation => assert(s[1] == leaf),
            CpuIdLeaf::CacheInformation => assert(s[2] == leaf),
            CpuIdLeaf::ProcessorSerial => assert(s[3] == leaf),
            CpuIdLeaf::CacheParameters => assert(s[4] == leaf),
            CpuIdLeaf::MonitorMwait => assert(s[5] == leaf),
            CpuIdLeaf::ThermalPowerManagement => assert(s[6] == leaf),
            CpuIdLeaf::StructuredExtendedFeature => assert(s[7] == leaf),
            CpuIdLeaf::DirectCacheAccess => assert(s[8] == leaf),
            CpuIdLeaf::PerformanceMonitoring => assert(s[9] == leaf),
            CpuIdLeaf::ExtendedTopology => assert(s[10] == leaf),
            CpuIdLeaf::ProcessorExtendedState => assert(s[11] == leaf),
            CpuIdLeaf::QualityofService => assert(s[12] == leaf),
            CpuIdLeaf::ExtendedFunction => assert(s[13] == leaf),
        }
    }
}

} // verus!
