//! The string encodings the native interface expects: wide
//! (UTF-16, null-terminated) strings for window-class and window-title
//! arguments, and null-terminated byte strings of ASCII characters for
//! symbol names.

use vstd::prelude::*;
use vstd::string::StrSliceExecFns;

verus! {

/// The UTF-16 code units of one character: a single unit for a
/// character of the basic plane, a surrogate pair for any other.
pub open spec fn spec_utf16_units(c: char) -> Seq<u16> {
    let u = c as u32;
    if u < 0x10000 {
        seq![u as u16]
    } else {
        seq![((u - 0x10000) / 0x400 + 0xD800) as u16, ((u - 0x10000) % 0x400 + 0xDC00) as u16]
    }
}

/// The UTF-16 code units of a character sequence, in order.
pub open spec fn spec_wide_units(s: Seq<char>) -> Seq<u16>
    decreases s.len(),
{
    if s.len() == 0 {
        Seq::empty()
    } else {
        spec_wide_units(s.drop_last()) + spec_utf16_units(s.last())
    }
}

/// A wide string as the native interface takes it: the UTF-16 units
/// followed by a null terminator.
pub open spec fn spec_wide_encoding(s: Seq<char>) -> Seq<u16> {
    spec_wide_units(s).push(0u16)
}

/// The ASCII characters of a sequence, kept in order as signed bytes;
/// every other character is dropped.
pub open spec fn spec_ascii_units(s: Seq<char>) -> Seq<i8>
    decreases s.len(),
{
    if s.len() == 0 {
        Seq::empty()
    } else {
        let rest = spec_ascii_units(s.drop_last());
        if (s.last() as u32) < 0x80 {
            rest.push(((s.last() as u32) as u8) as i8)
        } else {
            rest
        }
    }
}

/// A symbol-name string as the native interface takes it: the ASCII
/// characters followed by a null terminator.
pub open spec fn spec_ascii_encoding(s: Seq<char>) -> Seq<i8> {
    spec_ascii_units(s).push(0i8)
}

/// Encodes a string as null-terminated UTF-16, the form the native
/// wide-character interfaces take.
pub fn encode_wide(input: &str) -> (r: Vec<u16>)
    ensures
        r@ == spec_wide_encoding(input@),
{
    let n = input.unicode_len();
    let mut out: Vec<u16> = Vec::new();
    let mut i: usize = 0;
    proof {
        assert(input@.take(0) =~= Seq::<char>::empty());
    }
    while i < n
        invariant
            i <= n,
            n == input@.len(),
            out@ == spec_wide_units(input@.take(i as int)),
        decreases n - i,
    {
        let c = input.get_char(i);
        proof {
            vstd::utf8::char_is_scalar(c);
            assert(input@.take(i + 1).drop_last() =~= input@.take(i as int));
            assert(input@.take(i + 1).last() == input@[i as int]);
        }
        let u = c as u32;
        if u < 0x10000 {
            out.push(u as u16);
        } else {
            let v = u - 0x10000;
            assert(v <= 0xFFFFF);
            assert(v / 0x400 <= 0x3FF) by (nonlinear_arith)
                requires
                    v <= 0xFFFFF,
            ;
            let hi = 0xD800u32 + v / 0x400;
            let lo = 0xDC00u32 + v % 0x400;
            out.push(hi as u16);
            out.push(lo as u16);
        }
        proof {
            assert(out@ =~= spec_wide_units(input@.take(i + 1)));
        }
        i += 1;
    }
    proof {
        assert(input@.take(n as int) =~= input@);
    }
    out.push(0);
    out
}

/// Encodes a string's ASCII characters as a null-terminated byte
/// string, the form symbol names take; non-ASCII characters are
/// filtered out.
pub fn encode_ascii(input: &str) -> (r: Vec<i8>)
    ensures
        r@ == spec_ascii_encoding(input@),
{
    let n = input.unicode_len();
    let mut out: Vec<i8> = Vec::new();
    let mut i: usize = 0;
    proof {
        assert(input@.take(0) =~= Seq::<char>::empty());
    }
    while i < n
        invariant
            i <= n,
            n == input@.len(),
            out@ == spec_ascii_units(input@.take(i as int)),
        decreases n - i,
    {
        let c = input.get_char(i);
        proof {
            assert(input@.take(i + 1).drop_last() =~= input@.take(i as int));
            assert(input@.take(i + 1).last() == input@[i as int]);
        }
        let u = c as u32;
        if u < 0x80 {
            out.push((u as u8) as i8);
        }
        proof {
            assert(out@ =~= spec_ascii_units(input@.take(i + 1)));
        }
        i += 1;
    }
    proof {
        assert(input@.take(n as int) =~= input@);
    }
    out.push(0);
    out
}

} // verus!
