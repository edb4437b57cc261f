use vstd::prelude::*;

verus! {

/// Number of characters of the fixed prefix the classification service
/// puts in front of every predicted label (the `__label__` convention).
pub const LABEL_PREFIX_LEN: usize = 9;

/// One language identification: a language-code label paired with the
/// confidence the classification service reported for it.
///
/// The service reports confidence as a binary32 probability in `[0, 1]`.
/// This core never interprets that number; it only carries it alongside
/// the label, so the confidence is held as the raw bit pattern of the
/// service's value (`prob_bits`). The caller that talks to the service
/// encodes and decodes the bits at the boundary.
#[derive(Debug, Clone)]
pub struct Identification {
    /// Language code, for instance `en`; raw service labels carry the
    /// fixed prefix in front of it until they are cleaned.
    pub label: String,
    /// Bit pattern of the service's binary32 confidence probability.
    pub prob_bits: u32,
}

/// What cleaning leaves of a raw label: the characters after the fixed
/// service prefix, or the label itself where it is shorter than the
/// prefix and cleaning is refused.
pub open spec fn spec_cleaned_label(label: Seq<char>) -> Seq<char> {
    if label.len() >= LABEL_PREFIX_LEN {
        label.skip(LABEL_PREFIX_LEN as int)
    } else {
        label
    }
}

} // verus!
