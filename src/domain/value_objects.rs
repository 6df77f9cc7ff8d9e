use vstd::prelude::*;
use vstd::string::{StrSliceExecFns, StringExecFns};
use crate::domain::{SequenceType, allowed, valid_for, illegal_in};
use crate::shared::errors::MalformedSequence;

verus! {

/// A sequence payload held as given, with no check of its characters.
#[derive(Debug, PartialEq, Eq)]
pub struct SequenceValueObject {
    value: String,
}

impl View for SequenceValueObject {
    type V = Seq<char>;

    closed spec fn view(&self) -> Seq<char> {
        self.value@
    }
}

impl SequenceValueObject {
    /// Stores `value` verbatim.
    pub fn new(value: &str) -> (r: Self)
        ensures
            r@ == value@,
    {
        Self { value: String::from_str(value) }
    }

    /// The stored payload, unchanged.
    pub fn to_string(&self) -> (r: String)
        ensures
            r@ == self@,
    {
        self.value.clone()
    }
}

/// A sequence value tied to one kind, whose characters all belong to that kind's alphabet.
pub trait SequenceValue: Sized {
    /// The kind whose alphabet the value obeys.
    spec fn kind() -> SequenceType;

    /// The four characters of the kind's alphabet.
    fn sequence_allowed_chars() -> (r: [char; 4])
        ensures
            forall|c: char| r@.contains(c) <==> allowed(Self::kind(), c),
    ;
}

/// An empty list of illegal characters is the same as a valid sequence.
pub proof fn lemma_no_illegal_iff_valid(kind: SequenceType, s: Seq<char>)
    ensures
        illegal_in(kind, s).len() == 0 <==> valid_for(kind, s),
{
    let pred = |c: char| !allowed(kind, c);
    if illegal_in(kind, s).len() > 0 {
        s.lemma_filter_pred(pred, 0);
        s.lemma_filter_contains_rev(pred, s.filter(pred)[0]);
    }
    if !valid_for(kind, s) {
        let i = choose|i: int| 0 <= i < s.len() && !allowed(kind, #[trigger] s[i]);
        s.lemma_filter_contains(pred, i);
    }
}

/// Whether `c` is one of the four characters of `alphabet`.
fn is_member(alphabet: &[char; 4], c: char) -> (r: bool)
    ensures
        r == alphabet@.contains(c),
{
    let mut i: usize = 0;
    while i < 4
        invariant
            0 <= i <= 4,
            forall|j: int| 0 <= j < i ==> alphabet@[j] != c,
        decreases 4 - i,
    {
        if alphabet[i] == c {
            assert(alphabet@[i as int] == c);
            return true;
        }
        i = i + 1;
    }
    false
}

/// The characters of `target` that are not in `alphabet`, in order, duplicates kept.
fn invalid_chars(alphabet: &[char; 4], target: &str, kind: Ghost<SequenceType>) -> (r: Vec<char>)
    requires
        forall|c: char| alphabet@.contains(c) <==> allowed(kind@, c),
    ensures
        r@ == illegal_in(kind@, target@),
{
    let n = target.unicode_len();
    let mut out: Vec<char> = Vec::new();
    let mut i: usize = 0;
    while i < n
        invariant
            n == target@.len(),
            0 <= i <= n,
            forall|c: char| alphabet@.contains(c) <==> allowed(kind@, c),
            out@ == illegal_in(kind@, target@.subrange(0, i as int)),
        decreases n - i,
    {
        let c = target.get_char(i);
        proof {
            let pred = |x: char| !allowed(kind@, x);
            assert(target@.subrange(0, i + 1) =~= target@.subrange(0, i as int).push(c));
            target@.subrange(0, i as int).lemma_filter_push(c, pred);
        }
        if !is_member(alphabet, c) {
            out.push(c);
        }
        i = i + 1;
    }
    assert(target@.subrange(0, n as int) =~= target@);
    out
}

/// A DNA sequence value: its characters are all among `a t g c`.
#[derive(Debug, PartialEq, Eq)]
pub struct DnaSequenceValueObject(SequenceValueObject);

impl DnaSequenceValueObject {
    #[verifier::type_invariant]
    spec fn inv(self) -> bool {
        valid_for(SequenceType::Dna, self.0@)
    }
}

impl View for DnaSequenceValueObject {
    type V = Seq<char>;

    closed spec fn view(&self) -> Seq<char> {
        self.0@
    }
}

impl SequenceValue for DnaSequenceValueObject {
    open spec fn kind() -> SequenceType {
        SequenceType::Dna
    }

    fn sequence_allowed_chars() -> (r: [char; 4]) {
        let r = ['a', 't', 'g', 'c'];
        assert(r@ =~= seq!['a', 't', 'g', 'c']);
        assert(r@[0] == 'a' && r@[1] == 't' && r@[2] == 'g' && r@[3] == 'c');
        r
    }
}

impl DnaSequenceValueObject {
    /// Accepts `value` when all its characters are DNA letters; otherwise reports
    /// every character that is not, in order.
    pub fn new(value: &str) -> (r: Result<Self, MalformedSequence>)
        ensures
            match r {
                Ok(v) => valid_for(SequenceType::Dna, value@) && v@ == value@,
                Err(e) => !valid_for(SequenceType::Dna, value@) && e.illegal_chars@ == illegal_in(
                    SequenceType::Dna,
                    value@,
                ) && e.kind == SequenceType::Dna,
            },
    {
        let self_allowed_characters: [char; 4] = Self::sequence_allowed_chars();
        let invalid_chars = invalid_chars(
            &self_allowed_characters,
            value,
            Ghost(SequenceType::Dna),
        );
        proof {
            lemma_no_illegal_iff_valid(SequenceType::Dna, value@);
        }
        if invalid_chars.len() == 0 {
            Ok(Self(SequenceValueObject::new(value)))
        } else {
            Err(MalformedSequence::new(invalid_chars, SequenceType::Dna))
        }
    }

    /// The sequence's characters.
    pub fn to_string(&self) -> (r: String)
        ensures
            r@ == self@,
            valid_for(SequenceType::Dna, r@),
    {
        proof {
            use_type_invariant(self);
        }
        self.0.to_string()
    }
}

/// An RNA sequence value: its characters are all among `a u g c`.
#[derive(Debug, PartialEq, Eq)]
pub struct RnaSequenceValueObject(SequenceValueObject);

impl RnaSequenceValueObject {
    #[verifier::type_invariant]
    spec fn inv(self) -> bool {
        valid_for(SequenceType::Rna, self.0@)
    }
}

impl View for RnaSequenceValueObject {
    type V = Seq<char>;

    closed spec fn view(&self) -> Seq<char> {
        self.0@
    }
}

impl SequenceValue for RnaSequenceValueObject {
    open spec fn kind() -> SequenceType {
        SequenceType::Rna
    }

    fn sequence_allowed_chars() -> (r: [char; 4]) {
        let r = ['a', 'u', 'g', 'c'];
        assert(r@ =~= seq!['a', 'u', 'g', 'c']);
        assert(r@[0] == 'a' && r@[1] == 'u' && r@[2] == 'g' && r@[3] == 'c');
        r
    }
}

impl RnaSequenceValueObject {
    /// Accepts `value` when all its characters are RNA letters; otherwise reports
    /// every character that is not, in order.
    pub fn new(value: &str) -> (r: Result<Self, MalformedSequence>)
        ensures
            match r {
                Ok(v) => valid_for(SequenceType::Rna, value@) && v@ == value@,
                Err(e) => !valid_for(SequenceType::Rna, value@) && e.illegal_chars@ == illegal_in(
                    SequenceType::Rna,
                    value@,
                ) && e.kind == SequenceType::Rna,
            },
    {
        let self_allowed_characters: [char; 4] = Self::sequence_allowed_chars();
        let invalid_chars = invalid_chars(
            &self_allowed_characters,
            value,
            Ghost(SequenceType::Rna),
        );
        proof {
            lemma_no_illegal_iff_valid(SequenceType::Rna, value@);
        }
        if invalid_chars.len() == 0 {
            Ok(Self(SequenceValueObject::new(value)))
        } else {
            Err(MalformedSequence::new(invalid_chars, SequenceType::Rna))
        }
    }

    /// The sequence's characters.
    pub fn to_string(&self) -> (r: String)
        ensures
            r@ == self@,
            valid_for(SequenceType::Rna, r@),
    {
        proof {
            use_type_invariant(self);
        }
        self.0.to_string()
    }
}

} // verus!
