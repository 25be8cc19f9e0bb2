//! Wide-character (UTF-16) encoding for the platform boundary.
//!
//! The native dialog call takes its texts as null-terminated sequences of
//! UTF-16 code units. Characters up to U+FFFF become one unit; characters
//! beyond the basic multilingual plane become a surrogate pair. Decoding
//! the units reproduces the original text exactly.
use vstd::prelude::*;

verus! {

/// The UTF-16 code units of a single character: one unit for a scalar
/// below 0x10000, else a high and a low surrogate.
pub open spec fn wide_of_char(c: char) -> Seq<u16> {
    let cp = c as u32;
    if cp < 0x10000 {
        seq![cp as u16]
    } else {
        seq![
            (0xD800 + (cp - 0x10000) / 0x400) as u16,
            (0xDC00 + (cp - 0x10000) % 0x400) as u16,
        ]
    }
}

/// The UTF-16 code units of a text, character by character, without a
/// terminator.
pub open spec fn wide_units(s: Seq<char>) -> Seq<u16>
    decreases s.len(),
{
    if s.len() == 0 {
        Seq::empty()
    } else {
        wide_of_char(s[0]) + wide_units(s.subrange(1, s.len() as int))
    }
}

pub open spec fn is_high_surrogate(u: u16) -> bool {
    0xD800 <= u < 0xDC00
}

pub open spec fn is_low_surrogate(u: u16) -> bool {
    0xDC00 <= u < 0xE000
}

/// The scalar value a surrogate pair stands for.
pub open spec fn combined_scalar(hi: u16, lo: u16) -> u32 {
    (0x10000 + (hi - 0xD800) * 0x400 + (lo - 0xDC00)) as u32
}

/// The text a sequence of UTF-16 code units stands for: a high surrogate
/// followed by a low one decodes as a pair, any other unit on its own.
pub open spec fn decode_wide(units: Seq<u16>) -> Seq<char>
    decreases units.len(),
{
    if units.len() == 0 {
        Seq::empty()
    } else if is_high_surrogate(units[0]) {
        if units.len() >= 2 && is_low_surrogate(units[1]) {
            seq![combined_scalar(units[0], units[1]) as char] + decode_wide(
                units.subrange(2, units.len() as int),
            )
        } else {
            decode_wide(units.subrange(1, units.len() as int))
        }
    } else {
        seq![(units[0] as u32) as char] + decode_wide(units.subrange(1, units.len() as int))
    }
}

proof fn lemma_wide_units_push(s: Seq<char>, c: char)
    ensures
        wide_units(s.push(c)) == wide_units(s) + wide_of_char(c),
    decreases s.len(),
{
    if s.len() == 0 {
        assert(wide_units(Seq::<char>::empty()) =~= Seq::<u16>::empty());
        assert(s.push(c).subrange(1, 1) =~= Seq::<char>::empty());
        assert(s =~= Seq::<char>::empty());
        assert(wide_units(s.push(c)) =~= wide_units(s) + wide_of_char(c));
    } else {
        assert(s.push(c).subrange(1, s.len() as int + 1) =~= s.subrange(1, s.len() as int).push(
            c,
        ));
        lemma_wide_units_push(s.subrange(1, s.len() as int), c);
        assert(wide_units(s.push(c)) =~= wide_units(s) + wide_of_char(c));
    }
}

/// Decoding the code units of a text reproduces the text exactly, for
/// every text, including characters that need surrogate pairs.
pub proof fn lemma_wide_round_trip(s: Seq<char>)
    ensures
        decode_wide(wide_units(s)) == s,
    decreases s.len(),
{
    broadcast use vstd::utf8::char_is_scalar, vstd::utf8::char_u32_cast;

    if s.len() == 0 {
        assert(decode_wide(wide_units(s)) =~= s);
    } else {
        let c = s[0];
        let cp = c as u32;
        vstd::utf8::char_is_scalar(c);
        let rest = s.subrange(1, s.len() as int);
        lemma_wide_round_trip(rest);
        let u = wide_units(s);
        if cp < 0x10000 {
            assert(u[0] == cp as u16);
            assert(!is_high_surrogate(u[0]));
            assert(u.subrange(1, u.len() as int) =~= wide_units(rest));
            assert(u[0] as u32 == cp);
            vstd::utf8::char_u32_cast(c, cp);
            assert((u[0] as u32) as char == c);
            assert(decode_wide(u) =~= s);
        } else {
            let v = cp - 0x10000;
            vstd::arithmetic::div_mod::lemma_fundamental_div_mod(v as int, 0x400);
            assert(0 <= v / 0x400 <= 0x3FF);
            assert(0 <= v % 0x400 <= 0x3FF);
            assert(is_high_surrogate(u[0]));
            assert(is_low_surrogate(u[1]));
            assert(combined_scalar(u[0], u[1]) == cp);
            vstd::utf8::char_u32_cast(c, cp);
            assert(combined_scalar(u[0], u[1]) as char == c);
            assert(u.subrange(2, u.len() as int) =~= wide_units(rest));
            assert(decode_wide(u) =~= s);
        }
    }
}

/// For text free of the NUL character, no code unit is zero: the appended
/// terminator is then the one and only zero unit.
pub proof fn lemma_no_interior_zero(s: Seq<char>)
    requires
        forall|i: int| 0 <= i < s.len() ==> s[i] != '\0',
    ensures
        forall|j: int| 0 <= j < wide_units(s).len() ==> wide_units(s)[j] != 0,
    decreases s.len(),
{
    broadcast use vstd::utf8::char_is_scalar;

    if s.len() > 0 {
        let rest = s.subrange(1, s.len() as int);
        lemma_no_interior_zero(rest);
        let c = s[0];
        let cp = c as u32;
        vstd::utf8::char_is_scalar(c);
        let w0 = wide_of_char(c);
        assert(cp != 0) by {
            if cp == 0 {
                vstd::utf8::char_u32_cast(c, cp);
                assert(c == (0u32 as char));
                assert('\0' as u32 == 0);
                vstd::utf8::char_u32_cast('\0', 0);
            }
        }
        if cp < 0x10000 {
            assert(w0[0] == cp as u16);
            assert(w0[0] != 0);
        } else {
            let v = cp - 0x10000;
            vstd::arithmetic::div_mod::lemma_fundamental_div_mod(v as int, 0x400);
            assert(0 <= v / 0x400 <= 0x3FF);
            assert(0 <= v % 0x400 <= 0x3FF);
            assert(w0[0] != 0);
            assert(w0[1] != 0);
        }
        assert forall|j: int| 0 <= j < wide_units(s).len() implies wide_units(s)[j] != 0 by {
            if j < w0.len() {
                assert(wide_units(s)[j] == w0[j]);
            } else {
                assert(wide_units(s)[j] == wide_units(rest)[j - w0.len()]);
            }
        }
    }
}

/// Encodes text as UTF-16 code units, without a terminator.
pub fn encode_wide(text: &str) -> (r: Vec<u16>)
    ensures
        r@ == wide_units(text@),
{
    let n = text.unicode_len();
    let mut out: Vec<u16> = Vec::new();
    let mut i: usize = 0;
    while i < n
        invariant
            n == text@.len(),
            i <= n,
            out@ == wide_units(text@.subrange(0, i as int)),
        decreases n - i,
    {
        let c = text.get_char(i);
        proof {
            broadcast use vstd::utf8::char_is_scalar;

            lemma_wide_units_push(text@.subrange(0, i as int), c);
            assert(text@.subrange(0, i as int).push(c) =~= text@.subrange(0, i + 1));
        }
        let cp = c as u32;
        if cp < 0x10000 {
            out.push(cp as u16);
        } else {
            let v = cp - 0x10000;
            out.push((0xD800 + v / 0x400) as u16);
            out.push((0xDC00 + v % 0x400) as u16);
        }
        i = i + 1;
    }
    proof {
        assert(text@.subrange(0, n as int) =~= text@);
    }
    out
}

} // verus!
