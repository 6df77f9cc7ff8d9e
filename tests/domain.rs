use bioseq::domain::value_objects::{DnaSequenceValueObject, RnaSequenceValueObject};
use bioseq::domain::{Sequence, SequenceType};
use bioseq::shared::object_mothers::{
    DnaSequenceObjectMother, RnaSequenceObjectMother, SequenceMother,
};

#[test]
fn should_create_new() {
    let common_mother: DnaSequenceObjectMother = DnaSequenceObjectMother::init();
    let _common_child: Sequence<DnaSequenceValueObject> = DnaSequenceObjectMother::init().build();
    let manual_sequence: Sequence<DnaSequenceValueObject> =
        Sequence::<DnaSequenceValueObject>::new("atcg").unwrap();
    assert_eq!(
        &manual_sequence.get_sequence().to_string(),
        &common_mother.sequence
    );
}

#[test]
fn should_return_sequence() {
    let common_mother: DnaSequenceObjectMother = DnaSequenceObjectMother::init();
    let common_child: Sequence<DnaSequenceValueObject> = DnaSequenceObjectMother::init().build();
    assert_eq!(
        &common_child.get_sequence().to_string(),
        &common_mother.sequence
    );
}

#[test]
fn should_change_to_rna() {
    let rna: Sequence<RnaSequenceValueObject> = RnaSequenceObjectMother::init()
        .with_sequence("aucg")
        .build();
    let dna: Sequence<DnaSequenceValueObject> = DnaSequenceObjectMother::init()
        .with_sequence("atcg")
        .build();

    assert_eq!(dna.to_rna(), rna)
}

#[test]
fn should_change_to_dna() {
    let rna: Sequence<RnaSequenceValueObject> = RnaSequenceObjectMother::init()
        .with_sequence("aucg")
        .build();
    let dna: Sequence<DnaSequenceValueObject> = DnaSequenceObjectMother::init()
        .with_sequence("atcg")
        .build();

    assert_eq!(rna.to_dna(), dna)
}

#[test]
fn it_works() {
    let setup = Sequence::<DnaSequenceValueObject>::new("atcg")
        .unwrap()
        .to_rna();
    assert_eq!(setup.kind(), SequenceType::Rna);
}

#[test]
fn dna_letters_are_accepted_verbatim() {
    let s = Sequence::<DnaSequenceValueObject>::new("gattacaggct").unwrap();
    assert_eq!(s.get_sequence().to_string(), "gattacaggct");
    assert_eq!(s.kind(), SequenceType::Dna);
}

#[test]
fn rna_letters_are_accepted_verbatim() {
    let s = Sequence::<RnaSequenceValueObject>::new("auuagcgcua").unwrap();
    assert_eq!(s.get_sequence().to_string(), "auuagcgcua");
    assert_eq!(s.kind(), SequenceType::Rna);
}

#[test]
fn illegal_characters_are_all_reported_in_order() {
    let e = Sequence::<DnaSequenceValueObject>::new("axtyxg").unwrap_err();
    assert_eq!(e.illegal_chars, vec!['x', 'y', 'x']);
    assert_eq!(e.kind, SequenceType::Dna);
    assert_eq!(
        e.to_string(),
        "Illegal characters: 'x, y, x' are not allowed in dna"
    );
}

#[test]
fn rna_rejects_each_t_with_duplicates() {
    let e = Sequence::<RnaSequenceValueObject>::new("ttaut").unwrap_err();
    assert_eq!(e.illegal_chars, vec!['t', 't', 't']);
    assert_eq!(e.kind, SequenceType::Rna);
    assert_eq!(
        e.to_string(),
        "Illegal characters: 't, t, t' are not allowed in rna"
    );
}

#[test]
fn dna_round_trip_gives_the_same_sequence() {
    let dna = Sequence::<DnaSequenceValueObject>::new("ttgacat").unwrap();
    let rna = dna.to_rna();
    assert_eq!(rna.get_sequence().to_string(), "uugacau");
    assert_eq!(rna.to_dna(), dna);
}

#[test]
fn rna_round_trip_gives_the_same_sequence() {
    let rna = Sequence::<RnaSequenceValueObject>::new("uaguuc").unwrap();
    let dna = rna.to_dna();
    assert_eq!(dna.get_sequence().to_string(), "tagttc");
    assert_eq!(dna.to_rna(), rna);
}

#[test]
fn empty_sequence_is_valid_for_both_kinds() {
    let dna = Sequence::<DnaSequenceValueObject>::new("").unwrap();
    assert_eq!(dna.get_sequence().to_string(), "");
    let rna = Sequence::<RnaSequenceValueObject>::new("").unwrap();
    assert_eq!(rna.get_sequence().to_string(), "");
    assert_eq!(dna.to_rna(), rna);
}

#[test]
fn upper_case_is_rejected() {
    let e = Sequence::<DnaSequenceValueObject>::new("ATCG").unwrap_err();
    assert_eq!(e.illegal_chars, vec!['A', 'T', 'C', 'G']);
    assert_eq!(e.kind, SequenceType::Dna);
    assert_eq!(
        e.to_string(),
        "Illegal characters: 'A, T, C, G' are not allowed in dna"
    );
}

#[test]
fn scenario_transcriptions() {
    let rna = Sequence::<DnaSequenceValueObject>::new("atcg")
        .unwrap()
        .to_rna();
    assert_eq!(rna.get_sequence().to_string(), "aucg");
    let dna = Sequence::<RnaSequenceValueObject>::new("aucg")
        .unwrap()
        .to_dna();
    assert_eq!(dna.get_sequence().to_string(), "atcg");
}

#[test]
fn scenario_rejections() {
    let e = Sequence::<RnaSequenceValueObject>::new("atcg").unwrap_err();
    assert_eq!(e.illegal_chars, vec!['t']);
    assert_eq!(e.kind, SequenceType::Rna);
    assert_eq!(e.to_string(), "Illegal characters: 't' are not allowed in rna");
    let e = Sequence::<DnaSequenceValueObject>::new("aucg").unwrap_err();
    assert_eq!(e.illegal_chars, vec!['u']);
    assert_eq!(e.kind, SequenceType::Dna);
    assert_eq!(e.to_string(), "Illegal characters: 'u' are not allowed in dna");
}

#[test]
fn kind_names() {
    assert_eq!(SequenceType::Dna.to_string(), "dna");
    assert_eq!(SequenceType::Rna.to_string(), "rna");
}

#[test]
fn mothers_replace_their_sequence() {
    let mother = RnaSequenceObjectMother::init();
    assert_eq!(mother.sequence, "aucg");
    let built = mother.with_sequence("gggu").build();
    assert_eq!(built.get_sequence().to_string(), "gggu");
    let built = DnaSequenceObjectMother::init().with_sequence("").build();
    assert_eq!(built.get_sequence().to_string(), "");
}
