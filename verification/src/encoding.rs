//! Name-string encodings for the reflection record. The foreign runtime
//! looks classes up by a narrow (UTF-8) and a wide (UTF-16) nul-terminated
//! copy of the class name, so both encodings are pinned down here: the
//! narrow one through vstd's UTF-8 specification, the wide one through a
//! UTF-16 specification of this crate, with a proved decode round trip.

use vstd::prelude::*;

verus! {

use vstd::arithmetic::div_mod::lemma_fundamental_div_mod;
use vstd::string::StrSliceExecFns;
use vstd::utf8::char_u32_cast;
use vstd::utf8::encode_utf8;

/// The UTF-16 code units of one scalar value: the value itself when it fits
/// one unit, else a surrogate pair.
pub open spec fn spec_utf16_units(c: char) -> Seq<u16> {
    if (c as u32) < 0x10000 {
        seq![c as u16]
    } else {
        let v = c as u32 - 0x10000;
        seq![(0xD800 + v / 0x400) as u16, (0xDC00 + v % 0x400) as u16]
    }
}

/// The UTF-16 encoding of a character sequence.
pub open spec fn spec_encode_utf16(s: Seq<char>) -> Seq<u16>
    decreases s.len(),
{
    if s.len() == 0 {
        Seq::empty()
    } else {
        spec_utf16_units(s[0]) + spec_encode_utf16(s.drop_first())
    }
}

/// The characters read back from a UTF-16 unit sequence; an unpaired
/// surrogate contributes nothing.
pub open spec fn spec_decode_utf16(units: Seq<u16>) -> Seq<char>
    decreases units.len(),
{
    if units.len() == 0 {
        Seq::empty()
    } else {
        let u = units[0] as u32;
        if u < 0xD800 || u >= 0xE000 {
            seq![u as char] + spec_decode_utf16(units.drop_first())
        } else if u < 0xDC00 && units.len() >= 2 && 0xDC00 <= units[1] as u32 && ((
        units[1] as u32) < 0xE000) {
            let c = (0x10000 + (u - 0xD800) * 0x400 + (units[1] as u32 - 0xDC00)) as u32;
            seq![c as char] + spec_decode_utf16(units.skip(2))
        } else {
            spec_decode_utf16(units.drop_first())
        }
    }
}

/// Decoding inverts encoding: reading the UTF-16 units of any character
/// sequence back yields that sequence. This is the wide half of the
/// reflection-record round trip; the narrow half is vstd's
/// `encode_utf8_decode_utf8`.
pub proof fn lemma_encode_utf16_decode_utf16(s: Seq<char>)
    ensures
        spec_decode_utf16(spec_encode_utf16(s)) == s,
    decreases s.len(),
{
    if s.len() == 0 {
        assert(spec_decode_utf16(spec_encode_utf16(s)) =~= s);
    } else {
        let c = s[0];
        let cu = c as u32;
        let units = spec_encode_utf16(s);
        char_u32_cast(c, cu);
        lemma_encode_utf16_decode_utf16(s.drop_first());
        if cu < 0x10000 {
            assert(units[0] as u32 == cu);
            assert(units.drop_first() =~= spec_encode_utf16(s.drop_first()));
            assert(spec_decode_utf16(units) =~= s);
        } else {
            let v = cu - 0x10000;
            lemma_fundamental_div_mod(v as int, 0x400);
            assert(v / 0x400 < 0x400) by (nonlinear_arith)
                requires
                    v < 0x100000,
            ;
            let hi = (0xD800 + v / 0x400) as u16;
            let lo = (0xDC00 + v % 0x400) as u16;
            assert(hi as u32 == 0xD800 + v / 0x400);
            assert(lo as u32 == 0xDC00 + v % 0x400);
            assert((0x10000 + (hi as u32 - 0xD800) * 0x400 + (lo as u32 - 0xDC00)) as u32 == cu);
            assert(units.skip(2) =~= spec_encode_utf16(s.drop_first()));
            assert(spec_decode_utf16(units) =~= s);
        }
    }
}

/// Relies on `widestring::U16CString::from_str`: it encodes the string as
/// UTF-16 and refuses a nul anywhere but the final position, and
/// `into_vec_with_nul` then yields that encoding with exactly one
/// terminating nul unit.
#[verifier::external_body]
pub(crate) fn wide_c_units(s: &str) -> (r: Option<Vec<u16>>)
    ensures
        r is Some <==> (forall|i: int| 0 <= i < s@.len() - 1 ==> s@[i] != '\u{0}'),
        (r is Some && (s@.len() == 0 || s@.last() != '\u{0}')) ==> r->Some_0@ == spec_encode_utf16(
            s@,
        ).push(0u16),
        (r is Some && s@.len() > 0 && s@.last() == '\u{0}') ==> r->Some_0@ == spec_encode_utf16(s@),
{
    match widestring::U16CString::from_str(s) {
        Ok(w) => Some(w.into_vec_with_nul()),
        Err(_) => None,
    }
}

/// The narrow, nul-terminated copy of a name: its UTF-8 bytes plus one
/// terminating nul byte.
pub fn narrow_c_bytes(s: &str) -> (r: Vec<u8>)
    ensures
        r@ == encode_utf8(s@).push(0u8),
{
    let mut v = s.as_bytes_vec();
    v.push(0);
    v
}

} // verus!
