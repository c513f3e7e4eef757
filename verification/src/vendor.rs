//! The vendor-information leaf: the 12-character vendor identification text.

use vstd::prelude::*;
use crate::CpuIdResult;

verus! {

/// Decoded view over a raw result obtained from the vendor-information
/// leaf (selector `0x0`). The vendor text is encoded across words `b`,
/// `d` and `c`, in that order, each word least-significant byte first.
#[derive(Debug, Clone, Copy, PartialEq, Eq, Structural)]
pub struct CpuIdVendorInfo {
    pub ebx: u32,
    pub ecx: u32,
    pub edx: u32,
}

/// The character a vendor byte renders as: the byte itself where it is
/// ASCII, a `'?'` placeholder where it is not. The hardware only ever
/// reports ASCII vendor text, so the placeholder marks a raw result that
/// did not come from the vendor-information leaf.
pub open spec fn spec_ascii_char(b: u8) -> char {
    if b < 128 {
        b as char
    } else {
        '?'
    }
}

/// The four characters one word contributes, least-significant byte first.
pub open spec fn spec_word_text(w: u32) -> Seq<char> {
    seq![
        spec_ascii_char(w as u8),
        spec_ascii_char((w >> 8) as u8),
        spec_ascii_char((w >> 16) as u8),
        spec_ascii_char((w >> 24) as u8),
    ]
}

/// The full 12-character vendor text: the bytes of `b`, then `d`, then
/// `c`, the word order mandated by the hardware's string layout.
pub open spec fn spec_vendor_text(v: CpuIdVendorInfo) -> Seq<char> {
    spec_word_text(v.ebx) + spec_word_text(v.edx) + spec_word_text(v.ecx)
}

/// The vendor view retains words `b`, `c` and `d` unchanged.
pub open spec fn spec_decode_vendor(raw: CpuIdResult) -> CpuIdVendorInfo {
    CpuIdVendorInfo { ebx: raw.ebx, ecx: raw.ecx, edx: raw.edx }
}

/// Relies on String::push: appends the given character to the end of the
/// string. vstd gives this std method no specification of its own.
pub assume_specification[ String::push ](s: &mut String, ch: char)
    ensures
        final(s)@ == old(s)@.push(ch),
;

fn push_ascii_byte(s: &mut String, b: u8)
    ensures
        final(s)@ == old(s)@.push(spec_ascii_char(b)),
{
    if b < 128 {
        s.push(b as char);
    } else {
        s.push('?');
    }
}

fn push_word_text(s: &mut String, w: u32)
    ensures
        final(s)@ == old(s)@ + spec_word_text(w),
{
    push_ascii_byte(s, #[verifier::truncate] (w as u8));
    push_ascii_byte(s, #[verifier::truncate] ((w >> 8) as u8));
    push_ascii_byte(s, #[verifier::truncate] ((w >> 16) as u8));
    push_ascii_byte(s, (w >> 24) as u8);
    assert(s@ =~= old(s)@ + spec_word_text(w));
}

impl CpuIdVendorInfo {
    /// Renders the vendor identification text: exactly 12 characters, the
    /// bytes of word `b`, then word `d`, then word `c`, each word
    /// least-significant byte first, non-ASCII bytes replaced by `'?'`.
    pub fn to_text(&self) -> (r: String)
        ensures
            r@ == spec_vendor_text(*self),
            r@.len() == 12,
    {
        let mut s = String::new();
        push_word_text(&mut s, self.ebx);
        push_word_text(&mut s, self.edx);
        push_word_text(&mut s, self.ecx);
        assert(s@ =~= spec_vendor_text(*self));
        s
    }
}

} // verus!
