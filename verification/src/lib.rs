//! Decoding of the processor identification instruction's raw output.
//!
//! The identification instruction itself is an opaque primitive: a query
//! function from a leaf selector (and sub-leaf) to four raw 32-bit words.
//! It is injected into [`CpuId`] at construction time, so every decoding
//! step in this crate is pure, verified code over the four raw words.
//!
//! The decoded views do not record which leaf a raw result came from:
//! decoding a mismatched result yields meaningless but well-defined
//! output, never a failure (the vendor text renders non-ASCII bytes as a
//! placeholder). Tagging each raw result with the selector that produced
//! it, so decoders could check the coupling, is a deliberate open
//! question of this design.

use vstd::prelude::*;

mod feature;
mod leaf;
mod vendor;

pub use leaf::CpuIdLeaf;
pub use leaf::LeafData;
pub use leaf::leaf_information;
pub use leaf::leaf_label;
pub use leaf::leaf_selector;
pub use leaf::lemma_catalog_well_formed;
pub use leaf::spec_catalog_order;
pub use leaf::spec_leaf_label;
pub use leaf::spec_leaf_selector;

pub use vendor::CpuIdVendorInfo;
pub use vendor::spec_ascii_char;
pub use vendor::spec_decode_vendor;
pub use vendor::spec_vendor_text;
pub use vendor::spec_word_text;

pub use feature::CpuIdFeatureInfo;
pub use feature::lemma_eax_fields_reconstruct;
pub use feature::lemma_ebx_fields_reconstruct;
pub use feature::spec_brand_index;
pub use feature::spec_cflush_cache_line_size;
pub use feature::spec_decode_features;
pub use feature::spec_extended_family_id;
pub use feature::spec_extended_model_id;
pub use feature::spec_family_id;
pub use feature::spec_local_apic_id;
pub use feature::spec_model;
pub use feature::spec_stepping_id;

verus! {

/// The four unsigned 32-bit words returned verbatim by one identification
/// query, named after the registers the hardware fills.
#[derive(Debug, Clone, Copy, PartialEq, Eq, Structural)]
pub struct CpuIdResult {
    pub eax: u32,
    pub ebx: u32,
    pub ecx: u32,
    pub edx: u32,
}

/// The identification capability. It owns the opaque query primitive —
/// a function from a leaf selector and a sub-leaf to four raw words —
/// injected at construction time, and decodes what the primitive returns.
pub struct CpuId<F> where F: Fn(u32, u32) -> CpuIdResult {
    query: F,
}

impl<F> CpuId<F> where F: Fn(u32, u32) -> CpuIdResult {
    /// The injected query primitive.
    pub closed spec fn spec_query(&self) -> F {
        self.query
    }

    /// The capability is usable: the primitive accepts every leaf and
    /// sub-leaf selector. Unrecognized leaves yield hardware-defined
    /// output, never an error.
    pub open spec fn wf(&self) -> bool {
        forall|leaf: u32, subleaf: u32| #[trigger] call_requires(self.spec_query(), (leaf, subleaf))
    }

    /// A raw result the primitive may return for this leaf and sub-leaf.
    pub open spec fn query_may_return(&self, leaf: u32, subleaf: u32, raw: CpuIdResult) -> bool {
        call_ensures(self.spec_query(), (leaf, subleaf), raw)
    }

    /// A vendor view this capability may produce: the decoding of some
    /// raw result of querying the vendor-information leaf.
    pub open spec fn vendor_info_possible(&self, v: CpuIdVendorInfo) -> bool {
        exists|raw: CpuIdResult|
            self.query_may_return(0, 0, raw) && v == spec_decode_vendor(raw)
    }

    /// A feature view this capability may produce: the decoding of some
    /// raw result of querying the feature-information leaf.
    pub open spec fn feature_info_possible(&self, f: CpuIdFeatureInfo) -> bool {
        exists|raw: CpuIdResult|
            self.query_may_return(1, 0, raw) && f == spec_decode_features(raw)
    }

    pub fn new(query: F) -> (r: CpuId<F>)
        requires
            forall|leaf: u32, subleaf: u32| #[trigger] call_requires(query, (leaf, subleaf)),
        ensures
            r.wf(),
            r.spec_query() == query,
    {
        CpuId { query }
    }

    /// Queries an arbitrary leaf and sub-leaf and hands the four raw words
    /// back uninterpreted. Every selector value is accepted; an
    /// unrecognized leaf yields whatever the primitive defines for it
    /// (possibly all zeros), never a failure.
    pub fn query_raw(&self, leaf: u32, subleaf: u32) -> (r: CpuIdResult)
        requires
            self.wf(),
        ensures
            self.query_may_return(leaf, subleaf, r),
    {
        proof {
            assert(call_requires(self.spec_query(), (leaf, subleaf)));
        }
        (self.query)(leaf, subleaf)
    }

    /// Queries the vendor-information leaf (selector `0x0`, sub-leaf `0`)
    /// and decodes the result: words `b`, `c` and `d` carried over
    /// unchanged.
    pub fn get_vendor_information(&self) -> (r: CpuIdVendorInfo)
        requires
            self.wf(),
        ensures
            self.vendor_info_possible(r),
    {
        let res = self.query_raw(0, 0);
        let r = CpuIdVendorInfo { ebx: res.ebx, ecx: res.ecx, edx: res.edx };
        proof {
            assert(self.query_may_return(0, 0, res) && r == spec_decode_vendor(res));
        }
        r
    }

    /// Queries the feature-information leaf (selector `0x1`, sub-leaf `0`)
    /// and decodes the result: all four words carried over unchanged.
    pub fn get_feature_information(&self) -> (r: CpuIdFeatureInfo)
        requires
            self.wf(),
        ensures
            self.feature_info_possible(r),
    {
        let res = self.query_raw(1, 0);
        let r = CpuIdFeatureInfo { eax: res.eax, ebx: res.ebx, ecx: res.ecx, edx: res.edx };
        proof {
            assert(self.query_may_return(1, 0, res) && r == spec_decode_features(res));
        }
        r
    }
}

/// Decoding holds no state of its own: when the query primitive is
/// deterministic for the vendor-information leaf — as the hardware is, for
/// one logical core — any two vendor views the capability produces are
/// identical, however many queries lie between them.
pub proof fn lemma_vendor_information_idempotent<F>(
    c: &CpuId<F>,
    v1: CpuIdVendorInfo,
    v2: CpuIdVendorInfo,
) where F: Fn(u32, u32) -> CpuIdResult
    requires
        forall|x: CpuIdResult, y: CpuIdResult|
            c.query_may_return(0, 0, x) && c.query_may_return(0, 0, y) ==> x == y,
        c.vendor_info_possible(v1),
        c.vendor_info_possible(v2),
    ensures
        v1 == v2,
{
    let raw1 = choose|raw: CpuIdResult|
        c.query_may_return(0, 0, raw) && v1 == spec_decode_vendor(raw);
    let raw2 = choose|raw: CpuIdResult|
        c.query_may_return(0, 0, raw) && v2 == spec_decode_vendor(raw);
    assert(raw1 == raw2);
}

/// The feature-information counterpart: a deterministic primitive at the
/// feature-information leaf makes repeated feature views identical.
pub proof fn lemma_feature_information_idempotent<F>(
    c: &CpuId<F>,
    f1: CpuIdFeatureInfo,
    f2: CpuIdFeatureInfo,
) where F: Fn(u32, u32) -> CpuIdResult
    requires
        forall|x: CpuIdResult, y: CpuIdResult|
            c.query_may_return(1, 0, x) && c.query_may_return(1, 0, y) ==> x == y,
        c.feature_info_possible(f1),
        c.feature_info_possible(f2),
    ensures
        f1 == f2,
{
    let raw1 = choose|raw: CpuIdResult|
        c.query_may_return(1, 0, raw) && f1 == spec_decode_features(raw);
    let raw2 = choose|raw: CpuIdResult|
        c.query_may_return(1, 0, raw) && f2 == spec_decode_features(raw);
    assert(raw1 == raw2);
}

} // verus!
