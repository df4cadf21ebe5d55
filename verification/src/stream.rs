//! The read-only reference sequence of decimal digits.

use vstd::prelude::*;

verus! {

/// Ground truth for a session: an immutable sequence of decimal digits,
/// loaded once at startup and only ever read by position.
pub struct DigitStream {
    digits: Vec<u8>,
}

impl View for DigitStream {
    type V = Seq<u8>;

    closed spec fn view(&self) -> Seq<u8> {
        self.digits@
    }
}

impl DigitStream {
    /// Every entry of the corpus is a single decimal digit.
    pub open spec fn wf(&self) -> bool {
        forall|i: int| 0 <= i < self@.len() ==> self@[i] < 10
    }

    /// Builds a stream from a corpus of digit values; a corpus holding
    /// any byte that is not a decimal digit is rejected.
    pub fn new(digits: Vec<u8>) -> (stream: Option<DigitStream>)
        ensures
            stream matches Some(s) ==> s@ == digits@ && s.wf(),
            stream is None <==> exists|i: int| 0 <= i < digits@.len() && digits@[i] >= 10,
    {
        let mut i: usize = 0;
        while i < digits.len()
            invariant
                i <= digits@.len(),
                forall|j: int| 0 <= j < i ==> digits@[j] < 10,
            decreases digits@.len() - i,
        {
            if digits[i] >= 10 {
                return None;
            }
            i += 1;
        }
        Some(DigitStream { digits })
    }

    /// The corpus sits in memory, so its length is a machine size.
    pub proof fn lemma_len_fits(&self)
        ensures
            self@.len() <= usize::MAX,
    {
        vstd::std_specs::vec::axiom_spec_len(&self.digits);
    }

    /// Number of digits in the corpus.
    pub fn len(&self) -> (n: usize)
        ensures
            n == self@.len(),
    {
        self.digits.len()
    }

    /// The digit at `index`, always in `0 ..= 9`.
    pub fn get(&self, index: usize) -> (digit: u8)
        requires
            self.wf(),
            index < self@.len(),
        ensures
            digit == self@[index as int],
            digit < 10,
    {
        self.digits[index]
    }
}

} // verus!
