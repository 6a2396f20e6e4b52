use schematis::body::{extract_all, extract_first, extract_singleton};
use schematis::{Annotation, SimpleType, UnionBody};

fn note(namespace: &str) -> Annotation {
    Annotation { namespace: Some(namespace.to_string()), body: vec![] }
}

fn simple_type(name: &str) -> SimpleType {
    SimpleType { id: None, final_derivations: None, name: Some(name.to_string()), body: vec![] }
}

fn mixed() -> Vec<UnionBody> {
    vec![
        UnionBody::SimpleType(simple_type("a")),
        UnionBody::Annotation(note("n")),
        UnionBody::SimpleType(simple_type("b")),
        UnionBody::SimpleType(simple_type("c")),
    ]
}

#[test]
fn extract_all_returns_matches_in_body_order() {
    let body = mixed();
    let types: Vec<&SimpleType> = extract_all(&body);
    assert_eq!(types, vec![&simple_type("a"), &simple_type("b"), &simple_type("c")]);
    let notes: Vec<&Annotation> = extract_all(&body);
    assert_eq!(notes, vec![&note("n")]);
}

#[test]
fn extract_all_of_nothing_is_empty() {
    let body: Vec<UnionBody> = vec![];
    let types: Vec<&SimpleType> = extract_all(&body);
    assert!(types.is_empty());
    let only_notes = vec![UnionBody::Annotation(note("n"))];
    let types: Vec<&SimpleType> = extract_all(&only_notes);
    assert!(types.is_empty());
}

#[test]
fn extract_singleton_zero_one_many() {
    let body = mixed();
    let one: Option<&Annotation> = extract_singleton(&body);
    assert_eq!(one, Some(&note("n")));
    let many: Option<&SimpleType> = extract_singleton(&body);
    assert_eq!(many, None);
    let empty: Vec<UnionBody> = vec![];
    let zero: Option<&Annotation> = extract_singleton(&empty);
    assert_eq!(zero, None);
    let two = vec![UnionBody::Annotation(note("x")), UnionBody::Annotation(note("x"))];
    let ambiguous: Option<&Annotation> = extract_singleton(&two);
    assert_eq!(ambiguous, None);
}

#[test]
fn extract_first_takes_the_earliest() {
    let body = mixed();
    let first_type: Option<&SimpleType> = extract_first(&body);
    assert_eq!(first_type, Some(&simple_type("a")));
    let first_note: Option<&Annotation> = extract_first(&body);
    assert_eq!(first_note, Some(&note("n")));
    let empty: Vec<UnionBody> = vec![];
    let nothing: Option<&Annotation> = extract_first(&empty);
    assert_eq!(nothing, None);
}

#[test]
fn extract_all_length_is_the_number_of_matches() {
    for count in 0..20usize {
        let mut body = vec![];
        for i in 0..count {
            body.push(UnionBody::Annotation(note("n")));
            body.push(UnionBody::SimpleType(simple_type(&format!("t{}", i))));
            if i % 3 == 0 {
                body.push(UnionBody::SimpleType(simple_type(&format!("t{}b", i))));
            }
        }
        let expected = body.iter().filter(|b| matches!(b, UnionBody::SimpleType(_))).count();
        let types: Vec<&SimpleType> = extract_all(&body);
        assert_eq!(types.len(), expected);
        let from_body: Vec<&SimpleType> = body
            .iter()
            .filter_map(|b| match b {
                UnionBody::SimpleType(t) => Some(t),
                _ => None,
            })
            .collect();
        assert_eq!(types, from_body);
    }
}
