//! The four placement anchors for the logo, and parsing of corner names.
//!
//! A corner name is matched case-insensitively (ASCII). Unrecognized names
//! are not an error: the documented policy is to fall back silently to the
//! top-right corner, which `corner_or_default` implements on top of the
//! explicit `parse_corner`.

use vstd::prelude::*;

verus! {

/// A named placement anchor for the logo on the base canvas.
#[derive(Clone, Copy, Debug, PartialEq, Eq, Structural)]
pub enum Corner {
    TopRight,
    TopLeft,
    BottomRight,
    BottomLeft,
}

/// ASCII lowercasing of a single byte.
pub open spec fn lower_byte(b: u8) -> u8 {
    if 65u8 <= b <= 90u8 {
        (b + 32) as u8
    } else {
        b
    }
}

/// ASCII lowercasing of a byte string.
pub open spec fn lower_bytes(s: Seq<u8>) -> Seq<u8> {
    s.map_values(|b: u8| lower_byte(b))
}

/// The recognized name of the top-right corner, "top-right".
pub open spec fn top_right_name() -> Seq<u8> {
    seq![116u8, 111u8, 112u8, 45u8, 114u8, 105u8, 103u8, 104u8, 116u8]
}

/// The recognized name of the top-left corner, "top-left".
pub open spec fn top_left_name() -> Seq<u8> {
    seq![116u8, 111u8, 112u8, 45u8, 108u8, 101u8, 102u8, 116u8]
}

/// The recognized name of the bottom-right corner, "bottom-right".
pub open spec fn bottom_right_name() -> Seq<u8> {
    seq![98u8, 111u8, 116u8, 116u8, 111u8, 109u8, 45u8, 114u8, 105u8, 103u8, 104u8, 116u8]
}

/// The recognized name of the bottom-left corner, "bottom-left".
pub open spec fn bottom_left_name() -> Seq<u8> {
    seq![98u8, 111u8, 116u8, 116u8, 111u8, 109u8, 45u8, 108u8, 101u8, 102u8, 116u8]
}

/// Which corner, if any, a byte string names, up to ASCII case.
pub open spec fn spec_parse_corner(s: Seq<u8>) -> Option<Corner> {
    let l = lower_bytes(s);
    if l == top_left_name() {
        Some(Corner::TopLeft)
    } else if l == bottom_right_name() {
        Some(Corner::BottomRight)
    } else if l == bottom_left_name() {
        Some(Corner::BottomLeft)
    } else if l == top_right_name() {
        Some(Corner::TopRight)
    } else {
        None
    }
}

/// The silent-default policy: an unrecognized name means the top-right corner.
pub open spec fn spec_corner_or_default(s: Seq<u8>) -> Corner {
    match spec_parse_corner(s) {
        Some(c) => c,
        None => Corner::TopRight,
    }
}

/// Whether `s`, lowercased (ASCII), equals `pat`.
fn bytes_eq_lower(s: &[u8], pat: &[u8]) -> (r: bool)
    ensures
        r == (lower_bytes(s@) == pat@),
{
    if s.len() != pat.len() {
        assert(lower_bytes(s@).len() == s@.len());
        return false;
    }
    let n = s.len();
    let mut i: usize = 0;
    while i < n
        invariant
            0 <= i <= n,
            n == s@.len(),
            n == pat@.len(),
            forall|j: int| 0 <= j < i ==> lower_byte(s@[j]) == pat@[j],
        decreases n - i,
    {
        let b = s[i];
        let low = if 65u8 <= b && b <= 90u8 {
            b + 32
        } else {
            b
        };
        if low != pat[i] {
            assert(lower_bytes(s@)[i as int] != pat@[i as int]);
            return false;
        }
        i = i + 1;
    }
    assert(lower_bytes(s@) =~= pat@);
    true
}

/// Parse a corner name, case-insensitively; `None` for unrecognized names.
pub fn parse_corner(s: &[u8]) -> (r: Option<Corner>)
    ensures
        r == spec_parse_corner(s@),
{
    let top_left: [u8; 8] = [116u8, 111u8, 112u8, 45u8, 108u8, 101u8, 102u8, 116u8];
    let bottom_right: [u8; 12] = [
        98u8, 111u8, 116u8, 116u8, 111u8, 109u8, 45u8, 114u8, 105u8, 103u8, 104u8, 116u8,
    ];
    let bottom_left: [u8; 11] = [98u8, 111u8, 116u8, 116u8, 111u8, 109u8, 45u8, 108u8, 101u8, 102u8, 116u8];
    let top_right: [u8; 9] = [116u8, 111u8, 112u8, 45u8, 114u8, 105u8, 103u8, 104u8, 116u8];
    if bytes_eq_lower(s, top_left.as_slice()) {
        Some(Corner::TopLeft)
    } else if bytes_eq_lower(s, bottom_right.as_slice()) {
        Some(Corner::BottomRight)
    } else if bytes_eq_lower(s, bottom_left.as_slice()) {
        Some(Corner::BottomLeft)
    } else if bytes_eq_lower(s, top_right.as_slice()) {
        Some(Corner::TopRight)
    } else {
        None
    }
}

/// Parse a corner name, falling back silently to `Corner::TopRight`.
pub fn corner_or_default(s: &[u8]) -> (r: Corner)
    ensures
        r == spec_corner_or_default(s@),
{
    match parse_corner(s) {
        Some(c) => c,
        None => Corner::TopRight,
    }
}

} // verus!
