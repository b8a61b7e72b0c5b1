use vstd::prelude::*;
use vstd::string::{StrSliceExecFns, StringExecFns};
use crate::report::dec_str;
use crate::text::{u32_str_valid, u32_str_val, parse_u32};

verus! {

/// An exact pixel size: the target of a resize.
#[derive(Clone, Copy, Debug, PartialEq, Eq, Structural)]
pub struct Dimension {
    pub height: u32,
    pub width: u32,
}

/// Why a dimension string was rejected: the wrong number of `x`-separated
/// parts, or a part that is not a `u32` numeral.
#[derive(Clone, Copy, Debug, PartialEq, Eq, Structural)]
pub enum DimensionError {
    BadLength,
    InvalidNumber,
}

/// Index `i` carries the one and only `x` of the string.
pub open spec fn sep_at(s: Seq<char>, i: int) -> bool {
    &&& 0 <= i < s.len()
    &&& s[i] == 'x'
    &&& forall|j: int| 0 <= j < s.len() && j != i ==> s[j] != 'x'
}

/// The string splits on `x` into exactly two parts.
pub open spec fn has_one_sep(s: Seq<char>) -> bool {
    exists|i: int| sep_at(s, i)
}

pub open spec fn sep_index(s: Seq<char>) -> int {
    choose|i: int| sep_at(s, i)
}

/// What parsing a `HEIGHTxWIDTH` string yields: the height before the single
/// `x`, the width after it, or the error that rules the string out.
pub open spec fn spec_parse_dimension(s: Seq<char>) -> Result<Dimension, DimensionError> {
    if !has_one_sep(s) {
        Err(DimensionError::BadLength)
    } else {
        let i = sep_index(s);
        let h = s.subrange(0, i);
        let w = s.subrange(i + 1, s.len() as int);
        if u32_str_valid(h) && u32_str_valid(w) {
            Ok(
                Dimension {
                    height: u32_str_val(h) as u32,
                    width: u32_str_val(w) as u32,
                },
            )
        } else {
            Err(DimensionError::InvalidNumber)
        }
    }
}

/// Parses a `HEIGHTxWIDTH` string: exactly one `x` separator, and a `u32`
/// numeral on each side of it.
pub fn parse_dimension(s: &str) -> (r: Result<Dimension, DimensionError>)
    ensures
        r == spec_parse_dimension(s@),
{
    let n = s.unicode_len();
    let mut count: usize = 0;
    let mut fx: usize = 0;
    let mut i: usize = 0;
    while i < n
        invariant
            0 <= i <= n,
            n == s@.len(),
            count <= i,
            count == 0 ==> forall|j: int| 0 <= j < i ==> s@[j] != 'x',
            count == 1 ==> fx < i && s@[fx as int] == 'x' && forall|j: int|
                0 <= j < i && j != fx ==> s@[j] != 'x',
            count >= 2 ==> exists|j1: int, j2: int|
                0 <= j1 < j2 < i && s@[j1] == 'x' && s@[j2] == 'x',
        decreases n - i,
    {
        if s.get_char(i) == 'x' {
            if count == 0 {
                fx = i;
            }
            count = count + 1;
        }
        i = i + 1;
    }
    if count != 1 {
        proof {
            if count == 0 {
                assert(forall|k: int| sep_at(s@, k) ==> s@[k] == 'x' && 0 <= k < s@.len());
                assert(!has_one_sep(s@));
            } else {
                let (j1, j2) = choose|j1: int, j2: int|
                    0 <= j1 < j2 < s@.len() && s@[j1] == 'x' && s@[j2] == 'x';
                assert forall|k: int| !sep_at(s@, k) by {
                    if sep_at(s@, k) {
                        if k != j1 {
                            assert(s@[j1] != 'x');
                        } else {
                            assert(s@[j2] != 'x');
                        }
                    }
                }
                assert(!has_one_sep(s@));
            }
        }
        return Err(DimensionError::BadLength);
    }
    proof {
        assert(sep_at(s@, fx as int));
        assert(has_one_sep(s@));
        let k = sep_index(s@);
        assert(sep_at(s@, k));
        if k != fx as int {
            assert(s@[k] != 'x');
            assert(false);
        }
    }
    let left = s.substring_char(0, fx);
    let right = s.substring_char(fx + 1, n);
    let h = match parse_u32(left) {
        Some(v) => v,
        None => {
            return Err(DimensionError::InvalidNumber);
        },
    };
    let w = match parse_u32(right) {
        Some(v) => v,
        None => {
            return Err(DimensionError::InvalidNumber);
        },
    };
    Ok(Dimension { height: h, width: w })
}

impl Dimension {
    /// True when a decoded image's size already matches this target.
    pub fn is_satisfied_by(&self, width: u32, height: u32) -> (r: bool)
        ensures
            r == (width == self.width && height == self.height),
    {
        width == self.width && height == self.height
    }

    /// Writes the dimension as `(height,width)`.
    pub fn describe(&self) -> (r: String)
        ensures
            r@ == "("@ + dec_str(self.height as nat) + ","@ + dec_str(self.width as nat) + ")"@,
    {
        let mut r = String::from_str("(");
        r.append(crate::report::usize_to_decimal(self.height as usize).as_str());
        r.append(",");
        r.append(crate::report::usize_to_decimal(self.width as usize).as_str());
        r.append(")");
        r
    }
}

} // verus!
