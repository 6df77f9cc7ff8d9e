use vstd::prelude::*;
use vstd::string::{StrSliceExecFns, StringExecFns};
use vstd::pervasive::unreached;
use crate::shared::errors::MalformedSequence;
use self::value_objects::{DnaSequenceValueObject, RnaSequenceValueObject, SequenceValue};

pub mod value_objects;

verus! {

/// The two kinds of nucleotide sequence.
#[derive(Debug, Clone, Copy, PartialEq, Eq, Structural)]
pub enum SequenceType {
    Dna,
    Rna,
}

/// The lower-case name of a kind, as it appears in error messages.
pub open spec fn kind_name(kind: SequenceType) -> Seq<char> {
    match kind {
        SequenceType::Dna => seq!['d', 'n', 'a'],
        SequenceType::Rna => seq!['r', 'n', 'a'],
    }
}

/// Whether `c` belongs to the alphabet of `kind`: `a t g c` for DNA, `a u g c` for RNA.
/// Letters are matched exactly: upper case is not accepted.
pub open spec fn allowed(kind: SequenceType, c: char) -> bool {
    match kind {
        SequenceType::Dna => c == 'a' || c == 't' || c == 'g' || c == 'c',
        SequenceType::Rna => c == 'a' || c == 'u' || c == 'g' || c == 'c',
    }
}

/// Whether every character of `s` belongs to the alphabet of `kind`.
pub open spec fn valid_for(kind: SequenceType, s: Seq<char>) -> bool {
    forall|i: int| 0 <= i < s.len() ==> allowed(kind, #[trigger] s[i])
}

/// The characters of `s` outside the alphabet of `kind`, in order, duplicates kept.
pub open spec fn illegal_in(kind: SequenceType, s: Seq<char>) -> Seq<char> {
    s.filter(|c: char| !allowed(kind, c))
}

/// DNA to RNA: every `t` becomes `u`, all other characters stay.
pub open spec fn dna_to_rna(s: Seq<char>) -> Seq<char> {
    s.map_values(|c: char| if c == 't' { 'u' } else { c })
}

/// RNA to DNA: every `u` becomes `t`, all other characters stay.
pub open spec fn rna_to_dna(s: Seq<char>) -> Seq<char> {
    s.map_values(|c: char| if c == 'u' { 't' } else { c })
}

impl SequenceType {
    /// The kind's lower-case name: `dna` or `rna`.
    pub fn to_string(&self) -> (r: String)
        ensures
            r@ == kind_name(*self),
    {
        match self {
            SequenceType::Dna => {
                proof {
                    reveal_strlit("dna");
                }
                String::from_str("dna")
            },
            SequenceType::Rna => {
                proof {
                    reveal_strlit("rna");
                }
                String::from_str("rna")
            },
        }
    }
}

/// Transcription keeps the DNA alphabet's image inside the RNA alphabet.
pub proof fn lemma_dna_to_rna_valid(s: Seq<char>)
    requires
        valid_for(SequenceType::Dna, s),
    ensures
        valid_for(SequenceType::Rna, dna_to_rna(s)),
{
    assert forall|i: int| 0 <= i < dna_to_rna(s).len() implies allowed(
        SequenceType::Rna,
        #[trigger] dna_to_rna(s)[i],
    ) by {
        assert(allowed(SequenceType::Dna, s[i]));
    }
}

/// Reverse transcription keeps the RNA alphabet's image inside the DNA alphabet.
pub proof fn lemma_rna_to_dna_valid(s: Seq<char>)
    requires
        valid_for(SequenceType::Rna, s),
    ensures
        valid_for(SequenceType::Dna, rna_to_dna(s)),
{
    assert forall|i: int| 0 <= i < rna_to_dna(s).len() implies allowed(
        SequenceType::Dna,
        #[trigger] rna_to_dna(s)[i],
    ) by {
        assert(allowed(SequenceType::Rna, s[i]));
    }
}

/// Transcribing a valid DNA sequence to RNA and back gives the sequence again.
pub proof fn lemma_dna_round_trip(s: Seq<char>)
    requires
        valid_for(SequenceType::Dna, s),
    ensures
        rna_to_dna(dna_to_rna(s)) == s,
{
    assert forall|i: int| 0 <= i < s.len() implies #[trigger] rna_to_dna(dna_to_rna(s))[i]
        == s[i] by {
        assert(allowed(SequenceType::Dna, s[i]));
    }
    assert(rna_to_dna(dna_to_rna(s)) =~= s);
}

/// Transcribing a valid RNA sequence to DNA and back gives the sequence again.
pub proof fn lemma_rna_round_trip(s: Seq<char>)
    requires
        valid_for(SequenceType::Rna, s),
    ensures
        dna_to_rna(rna_to_dna(s)) == s,
{
    assert forall|i: int| 0 <= i < s.len() implies #[trigger] dna_to_rna(rna_to_dna(s))[i]
        == s[i] by {
        assert(allowed(SequenceType::Rna, s[i]));
    }
    assert(dna_to_rna(rna_to_dna(s)) =~= s);
}

/// Relies on `String::push`: appends one character at the end.
#[verifier::external_body]
pub(crate) fn push_char(s: &mut String, c: char)
    ensures
        final(s)@ == old(s)@.push(c),
{
    s.push(c)
}

/// `s` with every `from` replaced by `to`.
fn replace_char(s: &str, from: char, to: char) -> (r: String)
    ensures
        r@.len() == s@.len(),
        forall|i: int| 0 <= i < s@.len() ==> #[trigger] r@[i] == if s@[i] == from {
            to
        } else {
            s@[i]
        },
{
    let n = s.unicode_len();
    let mut out = String::new();
    let mut i: usize = 0;
    while i < n
        invariant
            n == s@.len(),
            0 <= i <= n,
            out@.len() == i,
            forall|j: int| 0 <= j < i ==> #[trigger] out@[j] == if s@[j] == from {
                to
            } else {
                s@[j]
            },
        decreases n - i,
    {
        let c = s.get_char(i);
        if c == from {
            push_char(&mut out, to);
        } else {
            push_char(&mut out, c);
        }
        i = i + 1;
    }
    out
}

/// A sequence of one kind, fixed by its value type: it exists only when its
/// characters passed that kind's check.
#[derive(Debug, PartialEq)]
pub struct Sequence<T> where T: SequenceValue {
    sequence: T,
}

impl<T: SequenceValue + View> View for Sequence<T> {
    type V = T::V;

    closed spec fn view(&self) -> T::V {
        self.sequence@
    }
}

impl Sequence<DnaSequenceValueObject> {
    /// A DNA sequence of `sequence`, or the characters that are not DNA letters.
    pub fn new(sequence: &str) -> (r: Result<Self, MalformedSequence>)
        ensures
            match r {
                Ok(v) => valid_for(SequenceType::Dna, sequence@) && v@ == sequence@,
                Err(e) => !valid_for(SequenceType::Dna, sequence@) && e.illegal_chars@
                    == illegal_in(SequenceType::Dna, sequence@) && e.kind == SequenceType::Dna,
            },
    {
        match DnaSequenceValueObject::new(sequence) {
            Ok(v) => Ok(Sequence { sequence: v }),
            Err(e) => Err(e),
        }
    }

    /// The validated sequence value, read-only.
    pub fn get_sequence(&self) -> (r: &DnaSequenceValueObject)
        ensures
            r@ == self@,
    {
        &self.sequence
    }

    /// Always DNA.
    pub fn kind(&self) -> (r: SequenceType)
        ensures
            r == SequenceType::Dna,
    {
        SequenceType::Dna
    }

    /// The RNA sequence with every `t` turned into `u`, built through the RNA check.
    pub fn to_rna(&self) -> (r: Sequence<RnaSequenceValueObject>)
        ensures
            r@ == dna_to_rna(self@),
    {
        let raw = self.get_sequence().to_string();
        let replaced = replace_char(raw.as_str(), 't', 'u');
        proof {
            assert(replaced@ =~= dna_to_rna(self@));
            lemma_dna_to_rna_valid(self@);
        }
        match RnaSequenceValueObject::new(replaced.as_str()) {
            Ok(v) => Sequence { sequence: v },
            Err(_) => unreached(),
        }
    }
}

impl Sequence<RnaSequenceValueObject> {
    /// An RNA sequence of `sequence`, or the characters that are not RNA letters.
    pub fn new(sequence: &str) -> (r: Result<Self, MalformedSequence>)
        ensures
            match r {
                Ok(v) => valid_for(SequenceType::Rna, sequence@) && v@ == sequence@,
                Err(e) => !valid_for(SequenceType::Rna, sequence@) && e.illegal_chars@
                    == illegal_in(SequenceType::Rna, sequence@) && e.kind == SequenceType::Rna,
            },
    {
        match RnaSequenceValueObject::new(sequence) {
            Ok(v) => Ok(Sequence { sequence: v }),
            Err(e) => Err(e),
        }
    }

    /// The validated sequence value, read-only.
    pub fn get_sequence(&self) -> (r: &RnaSequenceValueObject)
        ensures
            r@ == self@,
    {
        &self.sequence
    }

    /// Always RNA.
    pub fn kind(&self) -> (r: SequenceType)
        ensures
            r == SequenceType::Rna,
    {
        SequenceType::Rna
    }

    /// The DNA sequence with every `u` turned into `t`, built through the DNA check.
    pub fn to_dna(&self) -> (r: Sequence<DnaSequenceValueObject>)
        ensures
            r@ == rna_to_dna(self@),
    {
        let raw = self.get_sequence().to_string();
        let replaced = replace_char(raw.as_str(), 'u', 't');
        proof {
            assert(replaced@ =~= rna_to_dna(self@));
            lemma_rna_to_dna_valid(self@);
        }
        match DnaSequenceValueObject::new(replaced.as_str()) {
            Ok(v) => Sequence { sequence: v },
            Err(_) => unreached(),
        }
    }
}

} // verus!
