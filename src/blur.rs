use vstd::prelude::*;
use vstd::string::StrSliceExecFns;

use crate::error::ImageError;

verus! {

/// The smoothing filters that noise reduction offers.
#[derive(Debug, Clone, Copy, PartialEq, Eq, Structural)]
pub enum BlurFamily {
    /// A Gaussian-weighted average; the deviation follows from the kernel size.
    Gaussian,
    /// The median of the square neighbourhood.
    Median,
}

/// A validated noise-reduction request: a filter family and a square kernel
/// whose side is a positive odd number.
#[derive(Debug, Clone, Copy, PartialEq, Eq, Structural)]
pub struct BlurSpec {
    pub family: BlurFamily,
    pub kernel_size: i32,
}

/// The family that a selector names: `"gaussian"` or `"median"`, exactly.
pub open spec fn family_named(name: Seq<char>) -> Option<BlurFamily> {
    if name == seq!['g', 'a', 'u', 's', 's', 'i', 'a', 'n'] {
        Some(BlurFamily::Gaussian)
    } else if name == seq!['m', 'e', 'd', 'i', 'a', 'n'] {
        Some(BlurFamily::Median)
    } else {
        None
    }
}

/// A kernel side that the filters accept: positive and odd.
pub open spec fn kernel_size_ok(k: int) -> bool {
    k > 0 && k % 2 == 1
}

/// The request that a selector and a kernel size make, or
/// `InvalidParameterError` where the family is unknown or the size is not a
/// positive odd number.
pub open spec fn blur_spec_of(name: Seq<char>, kernel_size: i32) -> Result<BlurSpec, ImageError> {
    match family_named(name) {
        Some(family) => if kernel_size_ok(kernel_size as int) {
            Ok(BlurSpec { family, kernel_size })
        } else {
            Err(ImageError::InvalidParameterError)
        },
        None => Err(ImageError::InvalidParameterError),
    }
}

/// Tells whether `s` is exactly the characters of `word`.
fn spells(s: &str, word: &str) -> (r: bool)
    ensures
        r == (s@ == word@),
{
    let n = s.unicode_len();
    if n != word.unicode_len() {
        return false;
    }
    let mut i: usize = 0;
    while i < n
        invariant
            i <= n,
            n == s@.len(),
            n == word@.len(),
            forall|j: int| 0 <= j < i ==> s@[j] == word@[j],
        decreases n - i,
    {
        if s.get_char(i) != word.get_char(i) {
            return false;
        }
        i = i + 1;
    }
    assert(s@ =~= word@);
    true
}

/// Reads a filter family selector.
pub fn parse_blur_family(name: &str) -> (r: Result<BlurFamily, ImageError>)
    ensures
        r matches Ok(f) ==> family_named(name@) == Some(f),
        r is Err ==> family_named(name@) is None && r == Err::<BlurFamily, ImageError>(
            ImageError::InvalidParameterError,
        ),
{
    proof {
        reveal_strlit("gaussian");
        reveal_strlit("median");
        assert("gaussian"@ =~= seq!['g', 'a', 'u', 's', 's', 'i', 'a', 'n']);
        assert("median"@ =~= seq!['m', 'e', 'd', 'i', 'a', 'n']);
    }
    if spells(name, "gaussian") {
        Ok(BlurFamily::Gaussian)
    } else if spells(name, "median") {
        Ok(BlurFamily::Median)
    } else {
        Err(ImageError::InvalidParameterError)
    }
}

impl BlurSpec {
    /// Validates a noise-reduction request.
    pub fn new(name: &str, kernel_size: i32) -> (r: Result<BlurSpec, ImageError>)
        ensures
            r == blur_spec_of(name@, kernel_size),
    {
        let family = parse_blur_family(name)?;
        if kernel_size > 0 && kernel_size % 2 == 1 {
            Ok(BlurSpec { family, kernel_size })
        } else {
            Err(ImageError::InvalidParameterError)
        }
    }
}

} // verus!
