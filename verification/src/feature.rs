//! The feature-information leaf: family/model/stepping and related bitfields.

use vstd::prelude::*;
use crate::CpuIdResult;

verus! {

/// Decoded view over a raw result obtained from the feature-information
/// leaf (selector `0x1`). Retains all four words; each accessor extracts
/// one fixed bit range from one fixed word.
#[derive(Debug, Clone, Copy, PartialEq, Eq, Structural)]
pub struct CpuIdFeatureInfo {
    pub eax: u32,
    pub ebx: u32,
    pub ecx: u32,
    pub edx: u32,
}

/// Bits 27:20 of word `a`.
pub open spec fn spec_extended_family_id(eax: u32) -> u8 {
    ((eax >> 20) & 0xff) as u8
}

/// Bits 19:16 of word `a`.
pub open spec fn spec_extended_model_id(eax: u32) -> u8 {
    ((eax >> 16) & 0xf) as u8
}

/// Bits 11:8 of word `a`.
pub open spec fn spec_family_id(eax: u32) -> u8 {
    ((eax >> 8) & 0xf) as u8
}

/// Bits 7:4 of word `a`.
pub open spec fn spec_model(eax: u32) -> u8 {
    ((eax >> 4) & 0xf) as u8
}

/// Bits 3:0 of word `a`.
pub open spec fn spec_stepping_id(eax: u32) -> u8 {
    (eax & 0xf) as u8
}

/// Bits 7:0 of word `b`.
pub open spec fn spec_brand_index(ebx: u32) -> u8 {
    ebx as u8
}

/// Bits 15:8 of word `b`.
pub open spec fn spec_cflush_cache_line_size(ebx: u32) -> u8 {
    (ebx >> 8) as u8
}

/// Bits 31:24 of word `b`.
pub open spec fn spec_local_apic_id(ebx: u32) -> u8 {
    (ebx >> 24) as u8
}

/// The feature view retains the four raw words unchanged.
pub open spec fn spec_decode_features(raw: CpuIdResult) -> CpuIdFeatureInfo {
    CpuIdFeatureInfo { eax: raw.eax, ebx: raw.ebx, ecx: raw.ecx, edx: raw.edx }
}

impl CpuIdFeatureInfo {
    pub fn get_extended_family_id(&self) -> (r: u8)
        ensures
            r == spec_extended_family_id(self.eax),
    {
        ((self.eax >> 20) & 0xff) as u8
    }

    pub fn get_extended_model_id(&self) -> (r: u8)
        ensures
            r == spec_extended_model_id(self.eax),
    {
        ((self.eax >> 16) & 0xf) as u8
    }

    pub fn get_family_id(&self) -> (r: u8)
        ensures
            r == spec_family_id(self.eax),
    {
        ((self.eax >> 8) & 0xf) as u8
    }

    pub fn get_model(&self) -> (r: u8)
        ensures
            r == spec_model(self.eax),
    {
        ((self.eax >> 4) & 0xf) as u8
    }

    pub fn get_stepping_id(&self) -> (r: u8)
        ensures
            r == spec_stepping_id(self.eax),
    {
        (self.eax & 0xf) as u8
    }

    pub fn get_brand_index(&self) -> (r: u8)
        ensures
            r == spec_brand_index(self.ebx),
    {
        #[verifier::truncate] (self.ebx as u8)
    }

    pub fn get_cflush_cache_line_size(&self) -> (r: u8)
        ensures
            r == spec_cflush_cache_line_size(self.ebx),
    {
        #[verifier::truncate] ((self.ebx >> 8) as u8)
    }

    pub fn get_local_apic_id(&self) -> (r: u8)
        ensures
            r == spec_local_apic_id(self.ebx),
    {
        (self.ebx >> 24) as u8
    }
}

/// The five fields extracted from word `a`, each shifted back to its
/// original position and OR-ed together, reconstruct exactly the bits of
/// `a` that the fields cover (bits 27:16 and 11:0); extraction loses
/// nothing inside those ranges and invents nothing outside them.
pub proof fn lemma_eax_fields_reconstruct(eax: u32)
    ensures
        ((spec_extended_family_id(eax) as u32) << 20)
            | ((spec_extended_model_id(eax) as u32) << 16)
            | ((spec_family_id(eax) as u32) << 8)
            | ((spec_model(eax) as u32) << 4)
            | (spec_stepping_id(eax) as u32)
            == eax & 0x0fff_0fff,
{
    assert(((((eax >> 20) & 0xff) as u8 as u32) << 20)
        | ((((eax >> 16) & 0xf) as u8 as u32) << 16)
        | ((((eax >> 8) & 0xf) as u8 as u32) << 8)
        | ((((eax >> 4) & 0xf) as u8 as u32) << 4)
        | ((eax & 0xf) as u8 as u32)
        == eax & 0x0fff_0fff) by (bit_vector);
}

/// The brand index, cache-line-flush size and local APIC id are mutually
/// non-overlapping 8-bit slices of word `b`; together with the untouched
/// bits 23:16 they reconstruct `b` exactly.
pub proof fn lemma_ebx_fields_reconstruct(ebx: u32)
    ensures
        (spec_brand_index(ebx) as u32)
            | ((spec_cflush_cache_line_size(ebx) as u32) << 8)
            | (ebx & 0x00ff_0000)
            | ((spec_local_apic_id(ebx) as u32) << 24)
            == ebx,
        (spec_brand_index(ebx) as u32) & ((spec_cflush_cache_line_size(ebx) as u32) << 8) == 0,
        (spec_brand_index(ebx) as u32) & ((spec_local_apic_id(ebx) as u32) << 24) == 0,
        ((spec_cflush_cache_line_size(ebx) as u32) << 8)
            & ((spec_local_apic_id(ebx) as u32) << 24) == 0,
{
    assert((ebx as u8 as u32)
        | (((ebx >> 8) as u8 as u32) << 8)
        | (ebx & 0x00ff_0000)
        | (((ebx >> 24) as u8 as u32) << 24)
        == ebx) by (bit_vector);
    assert((ebx as u8 as u32) & (((ebx >> 8) as u8 as u32) << 8) == 0) by (bit_vector);
    assert((ebx as u8 as u32) & (((ebx >> 24) as u8 as u32) << 24) == 0) by (bit_vector);
    assert((((ebx >> 8) as u8 as u32) << 8) & (((ebx >> 24) as u8 as u32) << 24) == 0)
        by (bit_vector);
}

} // verus!
