use vstd::prelude::*;

verus! {

/// Number of characters in every verification code.
pub const CODE_LEN: usize = 64;

/// An ASCII letter or digit.
pub open spec fn is_alphanumeric(c: char) -> bool {
    ('A' <= c && c <= 'Z') || ('a' <= c && c <= 'z') || ('0' <= c && c <= '9')
}

/// A well-formed verification code: `CODE_LEN` ASCII letters and digits.
pub open spec fn is_valid_code(s: Seq<char>) -> bool {
    &&& s.len() == CODE_LEN
    &&& forall|i: int| 0 <= i < s.len() ==> is_alphanumeric(#[trigger] s[i])
}

/// The ASCII code of a letter or digit.
pub open spec fn is_alphanumeric_byte(b: u8) -> bool {
    (65 <= b <= 90) || (97 <= b <= 122) || (48 <= b <= 57)
}

/// Relies on rand's `Alphanumeric` distribution drawn from `thread_rng`, a
/// cryptographically secure generator: each sample is one byte of
/// `A-Z`, `a-z` or `0-9`.
#[verifier::external_body]
fn sample_alphanumeric() -> (r: u8)
    ensures
        is_alphanumeric_byte(r),
{
    rand::Rng::sample(&mut rand::thread_rng(), rand::distributions::Alphanumeric)
}

/// `String::push` appends one character.
pub assume_specification[ String::push ](s: &mut String, ch: char)
    ensures
        final(s)@ == old(s)@.push(ch),
;

/// The code spelled by `samples`, one character per byte.
pub fn code_from_samples(samples: &Vec<u8>) -> (r: String)
    ensures
        r@.len() == samples@.len(),
        forall|i: int| 0 <= i < samples@.len() ==> r@[i] == #[trigger] samples@[i] as char,
        (forall|i: int| 0 <= i < samples@.len() ==> is_alphanumeric_byte(#[trigger] samples@[i]))
            ==> (forall|i: int| 0 <= i < r@.len() ==> is_alphanumeric(#[trigger] r@[i])),
{
    let mut s = String::new();
    let mut i: usize = 0;
    while i < samples.len()
        invariant
            i <= samples@.len(),
            s@.len() == i,
            forall|j: int| 0 <= j < i ==> s@[j] == #[trigger] samples@[j] as char,
        decreases samples@.len() - i,
    {
        s.push(samples[i] as char);
        i = i + 1;
    }
    proof {
        if forall|i: int| 0 <= i < samples@.len() ==> is_alphanumeric_byte(#[trigger] samples@[i]) {
            assert forall|i: int| 0 <= i < s@.len() implies is_alphanumeric(#[trigger] s@[i]) by {
                assert(is_alphanumeric_byte(samples@[i]));
                assert(s@[i] == samples@[i] as char);
            }
        }
    }
    s
}

/// Generates a fresh random verification code of `CODE_LEN` letters and digits.
pub fn generate_code() -> (r: String)
    ensures
        is_valid_code(r@),
{
    let mut samples: Vec<u8> = Vec::new();
    let mut i: usize = 0;
    while i < CODE_LEN
        invariant
            i <= CODE_LEN,
            samples@.len() == i,
            forall|j: int| 0 <= j < samples@.len() ==> is_alphanumeric_byte(#[trigger] samples@[j]),
        decreases CODE_LEN - i,
    {
        samples.push(sample_alphanumeric());
        i = i + 1;
    }
    code_from_samples(&samples)
}

} // verus!
