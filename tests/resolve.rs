use rustling_ontology_ga::dimension::{Dimension, IntegerValue, OrdinalValue};
use rustling_ontology_ga::resolve::{resolve, Candidate};

fn plain(start: usize, end: usize, v: i64) -> Candidate {
    Candidate { start, end, value: Dimension::Integer(IntegerValue::new(v)) }
}

#[test]
fn longer_span_wins() {
    let r = resolve(&vec![plain(0, 5, 3), plain(0, 10, 300)]);
    assert_eq!(r, vec![plain(0, 10, 300)]);
}

#[test]
fn same_span_different_values_both_kept() {
    let ord = Candidate { start: 0, end: 4, value: Dimension::Ordinal(OrdinalValue::new(1)) };
    let r = resolve(&vec![plain(0, 4, 100), ord.clone()]);
    assert_eq!(r, vec![plain(0, 4, 100), ord]);
}

#[test]
fn duplicates_removed_and_disjoint_kept() {
    let r = resolve(&vec![plain(0, 4, 1), plain(5, 9, 2), plain(0, 4, 1), plain(2, 6, 7)]);
    assert_eq!(r, vec![plain(0, 4, 1), plain(5, 9, 2), plain(2, 6, 7)]);
}

#[test]
fn empty_candidates() {
    assert_eq!(resolve(&Vec::new()), Vec::<Candidate>::new());
}
