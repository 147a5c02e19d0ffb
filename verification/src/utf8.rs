//! Validation of UTF-8 text.
//!
//! The server accepts a request only when its bytes form valid UTF-8. The
//! grammar is stated here as a specification over byte sequences and the
//! executable validator is proved against it.

use vstd::prelude::*;

verus! {

/// True of a continuation byte: one carrying the bit pattern `10xxxxxx`.
pub open spec fn is_continuation(b: u8) -> bool {
    0x80 <= b && b <= 0xbf
}

/// The length, 1 to 4, of the well-formed UTF-8 encoding standing at the
/// head of `s`, or 0 if `s` does not begin with one.
///
/// The bounds on the first two bytes follow the UTF-8 grammar: they exclude
/// overlong forms (first byte `C0`/`C1`, or `E0`/`F0` with too small a
/// second byte), encodings of the surrogate range (`ED` followed by `A0`
/// and above), and values past the last code point (`F4` followed by `90`
/// and above, or a first byte above `F4`).
pub open spec fn head_len(s: Seq<u8>) -> int {
    if s.len() >= 1 && s[0] <= 0x7f {
        1
    } else if s.len() >= 2 && 0xc2 <= s[0] && s[0] <= 0xdf && is_continuation(s[1]) {
        2
    } else if s.len() >= 3 && is_continuation(s[2]) && (
        (s[0] == 0xe0 && 0xa0 <= s[1] && s[1] <= 0xbf)
        || (0xe1 <= s[0] && s[0] <= 0xec && is_continuation(s[1]))
        || (s[0] == 0xed && 0x80 <= s[1] && s[1] <= 0x9f)
        || (0xee <= s[0] && s[0] <= 0xef && is_continuation(s[1]))
    ) {
        3
    } else if s.len() >= 4 && is_continuation(s[2]) && is_continuation(s[3]) && (
        (s[0] == 0xf0 && 0x90 <= s[1] && s[1] <= 0xbf)
        || (0xf1 <= s[0] && s[0] <= 0xf3 && is_continuation(s[1]))
        || (s[0] == 0xf4 && 0x80 <= s[1] && s[1] <= 0x8f)
    ) {
        4
    } else {
        0
    }
}

/// A byte sequence is valid UTF-8 when, from the front, it splits into
/// well-formed encodings: the empty sequence is valid, and a non-empty one
/// is valid when a well-formed encoding stands at its head and the rest is
/// valid in turn.
pub open spec fn is_valid_utf8(s: Seq<u8>) -> bool
    decreases s.len(),
{
    if s.len() == 0 {
        true
    } else {
        let n = head_len(s);
        if 1 <= n {
            is_valid_utf8(s.skip(n))
        } else {
            false
        }
    }
}

/// Executable counterpart of `is_continuation`.
fn continuation(b: u8) -> (r: bool)
    ensures
        r == is_continuation(b),
{
    0x80 <= b && b <= 0xbf
}

/// Measures the head of `bytes` from position `i` on: the length of the
/// well-formed encoding standing there, or 0.
fn head_len_at(bytes: &[u8], i: usize) -> (n: usize)
    requires
        i < bytes@.len(),
    ensures
        n == head_len(bytes@.skip(i as int)),
{
    let ghost s = bytes@.skip(i as int);
    let len = bytes.len();
    proof {
        assert(s.len() == len - i);
        assert forall|j: int| 0 <= j < s.len() implies s[j] == bytes@[i + j] by {
            vstd::seq_lib::lemma_seq_skip_index(bytes@, i as int, j);
        }
    }
    let rem = len - i;
    let b0 = bytes[i];
    if b0 <= 0x7f {
        1
    } else if 0xc2 <= b0 && b0 <= 0xdf {
        if rem >= 2 && continuation(bytes[i + 1]) {
            2
        } else {
            0
        }
    } else if 0xe0 <= b0 && b0 <= 0xef {
        if rem >= 3 {
            let b1 = bytes[i + 1];
            let b2 = bytes[i + 2];
            let b1_ok: bool = if b0 == 0xe0 {
                0xa0 <= b1 && b1 <= 0xbf
            } else if b0 == 0xed {
                0x80 <= b1 && b1 <= 0x9f
            } else {
                continuation(b1)
            };
            if b1_ok && continuation(b2) {
                3
            } else {
                0
            }
        } else {
            0
        }
    } else if 0xf0 <= b0 && b0 <= 0xf4 {
        if rem >= 4 {
            let b1 = bytes[i + 1];
            let b2 = bytes[i + 2];
            let b3 = bytes[i + 3];
            let b1_ok: bool = if b0 == 0xf0 {
                0x90 <= b1 && b1 <= 0xbf
            } else if b0 == 0xf4 {
                0x80 <= b1 && b1 <= 0x8f
            } else {
                continuation(b1)
            };
            if b1_ok && continuation(b2) && continuation(b3) {
                4
            } else {
                0
            }
        } else {
            0
        }
    } else {
        0
    }
}

/// Decides whether `bytes` is valid UTF-8 text, walking the sequence one
/// well-formed encoding at a time.
pub fn validate_utf8(bytes: &[u8]) -> (ok: bool)
    ensures
        ok == is_valid_utf8(bytes@),
{
    let len = bytes.len();
    let mut i: usize = 0;
    proof {
        assert(bytes@.skip(0) =~= bytes@);
    }
    while i < len
        invariant
            i <= len,
            len == bytes@.len(),
            is_valid_utf8(bytes@) == is_valid_utf8(bytes@.skip(i as int)),
        decreases len - i,
    {
        let n = head_len_at(bytes, i);
        if n == 0 {
            proof {
                assert(bytes@.skip(i as int).len() > 0);
                assert(!is_valid_utf8(bytes@.skip(i as int)));
            }
            return false;
        }
        proof {
            let s = bytes@.skip(i as int);
            assert(1 <= n <= 4 && n <= s.len());
            assert(s.skip(n as int) =~= bytes@.skip(i as int + n as int));
            assert(is_valid_utf8(s) == is_valid_utf8(s.skip(n as int)));
        }
        i = i + n;
    }
    proof {
        assert(bytes@.skip(len as int) =~= Seq::<u8>::empty());
        assert(is_valid_utf8(bytes@.skip(len as int)));
    }
    true
}

} // verus!
