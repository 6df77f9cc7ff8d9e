use vstd::prelude::*;
use vstd::string::StringExecFns;
use crate::domain::{SequenceType, Sequence, valid_for};
use crate::domain::value_objects::{DnaSequenceValueObject, RnaSequenceValueObject};

verus! {

/// A builder of ready-made sequences of one kind, starting from a default sequence.
pub trait SequenceMother: Sized {
    type Item: View<V = Seq<char>>;

    /// The kind of sequence built.
    spec fn kind() -> SequenceType;

    /// The characters the builder starts with.
    spec fn initial() -> Seq<char>;

    /// The characters the builder currently holds.
    spec fn chars(&self) -> Seq<char>;

    /// Builds the sequence of the held characters, which must be valid for the kind.
    fn build(self) -> (r: Self::Item)
        requires
            valid_for(Self::kind(), self.chars()),
        ensures
            r@ == self.chars(),
    ;

    /// A builder holding the default characters.
    fn init() -> (r: Self)
        ensures
            r.chars() == Self::initial(),
    ;

    /// The builder with its characters replaced by `new_value`.
    fn with_sequence(self, new_value: &str) -> (r: Self)
        ensures
            r.chars() == new_value@,
    ;
}

/// Builds DNA sequences; starts from `atcg`.
pub struct DnaSequenceObjectMother {
    pub sequence: String,
}

impl SequenceMother for DnaSequenceObjectMother {
    type Item = Sequence<DnaSequenceValueObject>;

    open spec fn kind() -> SequenceType {
        SequenceType::Dna
    }

    open spec fn initial() -> Seq<char> {
        "atcg"@
    }

    open spec fn chars(&self) -> Seq<char> {
        self.sequence@
    }

    fn build(self) -> (r: Self::Item) {
        match Sequence::<DnaSequenceValueObject>::new(self.sequence.as_str()) {
            Ok(v) => v,
            Err(_) => vstd::pervasive::unreached(),
        }
    }

    fn init() -> (r: Self) {
        Self { sequence: String::from_str("atcg") }
    }

    fn with_sequence(self, new_value: &str) -> (r: Self) {
        Self { sequence: String::from_str(new_value) }
    }
}

/// Builds RNA sequences; starts from `aucg`.
pub struct RnaSequenceObjectMother {
    pub sequence: String,
}

impl SequenceMother for RnaSequenceObjectMother {
    type Item = Sequence<RnaSequenceValueObject>;

    open spec fn kind() -> SequenceType {
        SequenceType::Rna
    }

    open spec fn initial() -> Seq<char> {
        "aucg"@
    }

    open spec fn chars(&self) -> Seq<char> {
        self.sequence@
    }

    fn build(self) -> (r: Self::Item) {
        match Sequence::<RnaSequenceValueObject>::new(self.sequence.as_str()) {
            Ok(v) => v,
            Err(_) => vstd::pervasive::unreached(),
        }
    }

    fn init() -> (r: Self) {
        Self { sequence: String::from_str("aucg") }
    }

    fn with_sequence(self, new_value: &str) -> (r: Self) {
        Self { sequence: String::from_str(new_value) }
    }
}

} // verus!
