use raw_cpuid::{CpuId, CpuIdFeatureInfo, CpuIdLeaf, CpuIdResult, CpuIdVendorInfo};
use raw_cpuid::{leaf_information, leaf_label, leaf_selector};

// A deterministic stand-in for the identification primitive: the
// GenuineIntel vendor words at leaf 0, a known family/model/stepping
// encoding at leaf 1, zeros for every other (unrecognized) leaf.
fn stub_query(leaf: u32, _subleaf: u32) -> CpuIdResult {
    match leaf {
        0 => CpuIdResult { eax: 0xd, ebx: 0x756e6547, ecx: 0x6c65746e, edx: 0x49656e69 },
        1 => CpuIdResult { eax: 0x000306a9, ebx: 0x11223344, ecx: 0, edx: 0 },
        _ => CpuIdResult { eax: 0, ebx: 0, ecx: 0, edx: 0 },
    }
}

#[test]
fn genuine_intel() {
    let cpu = CpuId::new(stub_query);
    let vinfo = cpu.get_vendor_information();
    println!("{}", vinfo.to_text());

    // GenuineIntel
    assert!(vinfo.ebx == 0x756e6547);
    assert!(vinfo.edx == 0x49656e69);
    assert!(vinfo.ecx == 0x6c65746e);
}

#[test]
fn feature_info() {
    let cpu = CpuId::new(stub_query);
    let finfo = cpu.get_feature_information();

    println!("{}", finfo.get_extended_family_id());
    println!("{}", finfo.get_extended_model_id());
    println!("{}", finfo.get_family_id());
    println!("{}", finfo.get_model());
    println!("{}", finfo.get_stepping_id());
    println!("{}", finfo.get_brand_index());
    println!("{}", finfo.get_cflush_cache_line_size());
    println!("{}", finfo.get_local_apic_id());
}

#[test]
fn vendor_text_genuine_intel() {
    let vinfo = CpuIdVendorInfo { ebx: 0x756e6547, ecx: 0x6c65746e, edx: 0x49656e69 };
    let text = vinfo.to_text();
    assert_eq!(text, "GenuineIntel");
    assert_eq!(text.len(), 12);
}

#[test]
fn vendor_text_authentic_amd() {
    let vinfo = CpuIdVendorInfo { ebx: 0x68747541, ecx: 0x444d4163, edx: 0x69746e65 };
    let text = vinfo.to_text();
    assert_eq!(text, "AuthenticAMD");
    assert_eq!(text.len(), 12);
}

#[test]
fn vendor_text_replaces_non_ascii_bytes() {
    // the second byte of word b is not ASCII and must render as '?'
    let vinfo = CpuIdVendorInfo { ebx: 0x756eff47, ecx: 0x6c65746e, edx: 0x49656e69 };
    let text = vinfo.to_text();
    assert_eq!(text, "G?nuineIntel");
    assert_eq!(text.chars().count(), 12);
}

#[test]
fn family_model_stepping() {
    let finfo = CpuIdFeatureInfo { eax: 0x000306a9, ebx: 0, ecx: 0, edx: 0 };
    assert_eq!(finfo.get_family_id(), 6);
    assert_eq!(finfo.get_model(), 0xa);
    assert_eq!(finfo.get_stepping_id(), 9);
    assert_eq!(finfo.get_extended_model_id(), 3);
    assert_eq!(finfo.get_extended_family_id(), 0);
}

#[test]
fn accessor_exact_values() {
    let finfo = CpuIdFeatureInfo { eax: 0xabcdef12, ebx: 0x11223344, ecx: 0, edx: 0 };
    assert_eq!(finfo.get_extended_family_id(), 0xbc);
    assert_eq!(finfo.get_extended_model_id(), 0xd);
    assert_eq!(finfo.get_family_id(), 0xf);
    assert_eq!(finfo.get_model(), 0x1);
    assert_eq!(finfo.get_stepping_id(), 0x2);
    assert_eq!(finfo.get_brand_index(), 0x44);
    assert_eq!(finfo.get_cflush_cache_line_size(), 0x33);
    assert_eq!(finfo.get_local_apic_id(), 0x11);
}

#[test]
fn eax_fields_reconstruct() {
    for eax in [0u32, 0x000306a9, 0xabcdef12, 0xffffffff, 0x0fff0fff, 0xf000f0f0] {
        let finfo = CpuIdFeatureInfo { eax, ebx: 0, ecx: 0, edx: 0 };
        let rebuilt = ((finfo.get_extended_family_id() as u32) << 20)
            | ((finfo.get_extended_model_id() as u32) << 16)
            | ((finfo.get_family_id() as u32) << 8)
            | ((finfo.get_model() as u32) << 4)
            | (finfo.get_stepping_id() as u32);
        assert_eq!(rebuilt, eax & 0x0fff_0fff);
    }
}

#[test]
fn ebx_fields_reconstruct() {
    for ebx in [0u32, 0x11223344, 0xffffffff, 0xa5a5a5a5, 0x00ff0000] {
        let finfo = CpuIdFeatureInfo { eax: 0, ebx, ecx: 0, edx: 0 };
        let brand = finfo.get_brand_index() as u32;
        let cflush = (finfo.get_cflush_cache_line_size() as u32) << 8;
        let apic = (finfo.get_local_apic_id() as u32) << 24;
        assert_eq!(brand | cflush | (ebx & 0x00ff_0000) | apic, ebx);
        assert_eq!(brand & cflush, 0);
        assert_eq!(brand & apic, 0);
        assert_eq!(cflush & apic, 0);
    }
}

#[test]
fn repeated_queries_identical() {
    let cpu = CpuId::new(stub_query);
    let v1 = cpu.get_vendor_information();
    let v2 = cpu.get_vendor_information();
    assert_eq!(v1, v2);
    let f1 = cpu.get_feature_information();
    let f2 = cpu.get_feature_information();
    assert_eq!(f1, f2);
}

#[test]
fn unrecognized_leaf_yields_result() {
    let cpu = CpuId::new(stub_query);
    // a reserved high selector must hand back a raw result, not fail
    let r = cpu.query_raw(0x4000_0000, 0);
    assert_eq!(r, CpuIdResult { eax: 0, ebx: 0, ecx: 0, edx: 0 });
    let r = cpu.query_raw(0xffff_ffff, 0xffff_ffff);
    assert_eq!(r, CpuIdResult { eax: 0, ebx: 0, ecx: 0, edx: 0 });
}

#[test]
fn query_raw_passes_words_through() {
    let cpu = CpuId::new(|leaf: u32, subleaf: u32| CpuIdResult {
        eax: leaf,
        ebx: subleaf,
        ecx: leaf ^ subleaf,
        edx: 0x5a5a5a5a,
    });
    let r = cpu.query_raw(4, 2);
    assert_eq!(r, CpuIdResult { eax: 4, ebx: 2, ecx: 6, edx: 0x5a5a5a5a });
}

#[test]
fn leaf_selectors_and_labels() {
    assert_eq!(leaf_selector(CpuIdLeaf::VendorInformation), 0x0);
    assert_eq!(leaf_selector(CpuIdLeaf::FeatureInformation), 0x1);
    assert_eq!(leaf_selector(CpuIdLeaf::CacheInformation), 0x2);
    assert_eq!(leaf_selector(CpuIdLeaf::ProcessorSerial), 0x3);
    assert_eq!(leaf_selector(CpuIdLeaf::CacheParameters), 0x4);
    assert_eq!(leaf_selector(CpuIdLeaf::MonitorMwait), 0x5);
    assert_eq!(leaf_selector(CpuIdLeaf::ThermalPowerManagement), 0x6);
    assert_eq!(leaf_selector(CpuIdLeaf::StructuredExtendedFeature), 0x7);
    assert_eq!(leaf_selector(CpuIdLeaf::DirectCacheAccess), 0x9);
    assert_eq!(leaf_selector(CpuIdLeaf::PerformanceMonitoring), 0xa);
    assert_eq!(leaf_selector(CpuIdLeaf::ExtendedTopology), 0xb);
    assert_eq!(leaf_selector(CpuIdLeaf::ProcessorExtendedState), 0xd);
    assert_eq!(leaf_selector(CpuIdLeaf::QualityofService), 0xf);
    assert_eq!(leaf_selector(CpuIdLeaf::ExtendedFunction), 0x80000000);
    assert_eq!(leaf_label(CpuIdLeaf::MonitorMwait), "MONITOR/MWAIT");
    assert_eq!(leaf_label(CpuIdLeaf::ExtendedFunction), "Extended Function CPUID Information");
}

#[test]
fn leaf_catalog_well_formed() {
    let catalog = leaf_information();
    assert_eq!(catalog.len(), 14);
    for entry in &catalog {
        assert_eq!(entry.selector, leaf_selector(entry.leaf));
        assert_eq!(entry.label, leaf_label(entry.leaf));
    }
    for i in 0..catalog.len() {
        for j in (i + 1)..catalog.len() {
            assert!(catalog[i].leaf != catalog[j].leaf);
            assert!(catalog[i].selector < catalog[j].selector);
        }
    }
    assert_eq!(catalog[0].leaf, CpuIdLeaf::VendorInformation);
    assert_eq!(catalog[13].leaf, CpuIdLeaf::ExtendedFunction);
}
