//! Comparison of a computed SHA-1 digest against an expected hexadecimal text.
use vstd::prelude::*;
use vstd::string::StrSliceExecFns;

verus! {

/// Failure of an integrity check on a file.
pub enum SHAError {
    FailedValidation(String),
}

impl SHAError {
    /// Human-readable description of the failure.
    pub fn message(&self) -> (r: String)
        ensures
            r@ == "SHA validation failed for file: "@ + match self {
                SHAError::FailedValidation(m) => m@,
            },
    {
        let mut r = String::from_str("SHA validation failed for file: ");
        match self {
            SHAError::FailedValidation(m) => r.append(m.as_str()),
        }
        r
    }
}

/// Code point of the lowercase hexadecimal digit for `n` (`0`..`9`, `a`..`f`).
pub open spec fn hex_code(n: int) -> int {
    if n < 10 {
        48 + n
    } else {
        87 + n
    }
}

/// Code point of `c` with ASCII upper-case letters folded to lower case.
pub open spec fn ascii_fold(c: char) -> int {
    let x = c as u32 as int;
    if 65 <= x <= 90 {
        x + 32
    } else {
        x
    }
}

/// `text` spells `digest` in hexadecimal, two digits per byte, high nibble
/// first, compared without regard to ASCII case.
pub open spec fn hex_text_matches(digest: Seq<u8>, text: Seq<char>) -> bool {
    &&& text.len() == 2 * digest.len()
    &&& forall|i: int|
        0 <= i < digest.len() ==> {
            &&& #[trigger] ascii_fold(text[2 * i]) == hex_code(digest[i] as int / 16)
            &&& ascii_fold(text[2 * i + 1]) == hex_code(digest[i] as int % 16)
        }
}

fn hex_code_of(n: u8) -> (r: u32)
    requires
        n < 16,
    ensures
        r == hex_code(n as int),
{
    if n < 10 {
        48 + n as u32
    } else {
        87 + n as u32
    }
}

fn ascii_fold_of(c: char) -> (r: u32)
    ensures
        r == ascii_fold(c),
{
    let x = c as u32;
    if 65 <= x && x <= 90 {
        x + 32
    } else {
        x
    }
}

/// Whether `expected` is the hexadecimal spelling of `digest`, in any ASCII case.
pub fn digest_matches(digest: &[u8], expected: &str) -> (r: bool)
    ensures
        r == hex_text_matches(digest@, expected@),
{
    let n = expected.unicode_len();
    if n % 2 != 0 || n / 2 != digest.len() {
        return false;
    }
    let mut i: usize = 0;
    while i < digest.len()
        invariant
            i <= digest.len(),
            n == expected@.len(),
            n == 2 * digest@.len(),
            forall|j: int|
                0 <= j < i ==> {
                    &&& #[trigger] ascii_fold(expected@[2 * j]) == hex_code(digest@[j] as int / 16)
                    &&& ascii_fold(expected@[2 * j + 1]) == hex_code(digest@[j] as int % 16)
                },
        decreases digest.len() - i,
    {
        let b = digest[i];
        let hi = hex_code_of(b / 16);
        let lo = hex_code_of(b % 16);
        let c_hi = ascii_fold_of(expected.get_char(2 * i));
        let c_lo = ascii_fold_of(expected.get_char(2 * i + 1));
        if c_hi != hi || c_lo != lo {
            assert(!(ascii_fold(expected@[2 * i]) == hex_code(digest@[i as int] as int / 16) && ascii_fold(
                expected@[2 * i + 1],
            ) == hex_code(digest@[i as int] as int % 16)));
            return false;
        }
        i += 1;
    }
    true
}

} // verus!
