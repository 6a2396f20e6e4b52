use schematis::particles::{All, Any, Choice, Element, Group, Sequence};
use schematis::{
    Annotation, AnyAttribute, Assert, Attribute, AttributeBody, AttributeGroup, ComplexContent,
    ComplexType, ComplexTypeBody, ContentBody, DefaultOpenContent, Extension, ExtensionBody,
    Field, Import, Include, Notation, OpenContent, OpenContentBody, Redefine, Restriction, Schema,
    SchemaBody, Selector, SimpleContent, SimpleType, Unique, UniqueBody,
};

fn note(namespace: &str) -> Annotation {
    Annotation { namespace: Some(namespace.to_string()), body: vec![] }
}

fn element(name: &str) -> Element {
    Element {
        id: None,
        name: Some(name.to_string()),
        nillable: None,
        default: None,
        final_derivations: None,
        block: None,
        fixed: None,
        form: None,
        is_abstract: None,
        declared_type: None,
        substitution_group: None,
        min_occurs: None,
        max_occurs: None,
        reference: None,
        body: vec![],
    }
}

fn simple_type(name: &str) -> SimpleType {
    SimpleType { id: None, final_derivations: None, name: Some(name.to_string()), body: vec![] }
}

fn complex_type(name: &str, body: Vec<ComplexTypeBody>) -> ComplexType {
    ComplexType {
        id: None,
        name: Some(name.to_string()),
        mixed: None,
        final_derivations: None,
        block: None,
        is_abstract: None,
        declared_type: None,
        default_attributes_apply: None,
        body,
    }
}

fn attribute(name: &str, body: Vec<AttributeBody>) -> Attribute {
    Attribute {
        id: None,
        name: Some(name.to_string()),
        declared_type: None,
        usage: None,
        reference: None,
        default: None,
        fixed: None,
        form: None,
        target_namespace: None,
        inheritable: None,
        body,
    }
}

fn attribute_group(name: &str) -> AttributeGroup {
    AttributeGroup { id: None, name: Some(name.to_string()), reference: None, body: vec![] }
}

fn group(name: &str) -> Group {
    Group {
        id: None,
        name: Some(name.to_string()),
        reference: None,
        min_occurs: None,
        max_occurs: None,
        body: vec![],
    }
}

fn any_attribute(namespace: &str, annotation: Option<Annotation>) -> AnyAttribute {
    AnyAttribute {
        id: None,
        namespace: Some(namespace.to_string()),
        not_namespace: None,
        not_q_name: None,
        process_contents: None,
        body: annotation,
    }
}

fn any(namespace: &str) -> Any {
    Any {
        id: None,
        namespace: Some(namespace.to_string()),
        not_namespace: None,
        not_q_name: None,
        process_contents: None,
        min_occurs: None,
        max_occurs: None,
        body: None,
    }
}

fn assert_node(test: &str) -> Assert {
    Assert { id: None, test: Some(test.to_string()), annotation: None }
}

fn sequence(id: &str) -> Sequence {
    Sequence { id: Some(id.to_string()), min_occurs: None, max_occurs: None, body: vec![] }
}

fn choice(id: &str) -> Choice {
    Choice { id: Some(id.to_string()), min_occurs: None, max_occurs: None, body: vec![] }
}

fn all(id: &str) -> All {
    All { id: Some(id.to_string()), min_occurs: None, max_occurs: None, body: vec![] }
}

fn open_content(body: Vec<OpenContentBody>) -> OpenContent {
    OpenContent { id: None, mode: None, body }
}

fn inclusion(location: &str) -> Include {
    Include { id: None, schema_location: location.to_string(), annotations: vec![] }
}

fn import(namespace: &str) -> Import {
    Import {
        id: None,
        namespace: Some(namespace.to_string()),
        schema_location: "other.xsd".to_string(),
        annotations: vec![],
    }
}

fn redefine(location: &str) -> Redefine {
    Redefine { id: None, schema_location: location.to_string(), body: vec![] }
}

fn notation(name: &str) -> Notation {
    Notation { id: None, name: name.to_string(), public: "public".to_string(), system: None }
}

fn default_open_content() -> DefaultOpenContent {
    DefaultOpenContent { id: None, mode: None, applies_to_empty: None, body: vec![] }
}

fn schema(body: Vec<SchemaBody>) -> Schema {
    Schema { target_namespace: "urn:example".to_string(), body, ..Schema::default() }
}

#[test]
fn default_schema_is_empty() {
    let s = Schema::default();
    assert_eq!(s.id, None);
    assert_eq!(s.xmlns, None);
    assert_eq!(s.attribute_form_default, None);
    assert_eq!(s.element_form_default, None);
    assert_eq!(s.block_default, None);
    assert_eq!(s.final_default, None);
    assert_eq!(s.target_namespace, "");
    assert_eq!(s.version, None);
    assert_eq!(s.default_attributes, None);
    assert_eq!(s.xpath_default_namespace, None);
    assert_eq!(s.min_version, None);
    assert_eq!(s.xml_lang, None);
    assert!(s.body.is_empty());
}

#[test]
fn empty_schema_has_no_declarations() {
    let s = schema(vec![]);
    assert!(s.elements().is_empty());
    assert!(s.simple_types().is_empty());
    assert!(s.complex_types().is_empty());
    assert!(s.annotations().is_empty());
    assert!(s.includes().is_empty());
    assert!(s.imports().is_empty());
    assert!(s.redefines().is_empty());
    assert!(s.groups().is_empty());
    assert!(s.attribute_groups().is_empty());
    assert!(s.attributes().is_empty());
    assert!(s.notations().is_empty());
    assert!(s.default_open_contents().is_empty());
}

#[test]
fn schema_sorts_declarations_by_kind() {
    let s = schema(vec![
        SchemaBody::Annotation(note("first")),
        SchemaBody::Import(import("urn:a")),
        SchemaBody::Include(inclusion("a.xsd")),
        SchemaBody::Redefine(redefine("r.xsd")),
        SchemaBody::Override,
        SchemaBody::DefaultOpenContent(default_open_content()),
        SchemaBody::SimpleType(simple_type("s1")),
        SchemaBody::Element(Box::new(element("e1"))),
        SchemaBody::ComplexType(complex_type("c1", vec![])),
        SchemaBody::Annotation(note("second")),
        SchemaBody::Group(group("g1")),
        SchemaBody::AttributeGroup(attribute_group("ag1")),
        SchemaBody::Element(Box::new(element("e2"))),
        SchemaBody::Attribute(attribute("a1", vec![])),
        SchemaBody::Notation(notation("n1")),
        SchemaBody::SimpleType(simple_type("s2")),
        SchemaBody::Element(Box::new(element("e3"))),
        SchemaBody::Notation(notation("n2")),
        SchemaBody::SimpleType(simple_type("s3")),
    ]);
    assert_eq!(s.annotations(), vec![&note("first"), &note("second")]);
    assert_eq!(s.imports(), vec![&import("urn:a")]);
    assert_eq!(s.includes(), vec![&inclusion("a.xsd")]);
    assert_eq!(s.redefines(), vec![&redefine("r.xsd")]);
    assert_eq!(s.default_open_contents(), vec![&default_open_content()]);
    assert_eq!(
        s.simple_types(),
        vec![&simple_type("s1"), &simple_type("s2"), &simple_type("s3")]
    );
    assert_eq!(s.elements(), vec![&element("e1"), &element("e2"), &element("e3")]);
    assert_eq!(s.complex_types(), vec![&complex_type("c1", vec![])]);
    assert_eq!(s.groups(), vec![&group("g1")]);
    assert_eq!(s.attribute_groups(), vec![&attribute_group("ag1")]);
    assert_eq!(s.attributes(), vec![&attribute("a1", vec![])]);
    assert_eq!(s.notations(), vec![&notation("n1"), &notation("n2")]);
}

#[test]
fn schema_counts_match_the_body() {
    let mut body = vec![];
    for i in 0..55 {
        body.push(SchemaBody::SimpleType(simple_type(&format!("s{}", i))));
        if i < 35 {
            body.push(SchemaBody::ComplexType(complex_type(&format!("c{}", i), vec![])));
        }
        if i < 41 {
            body.push(SchemaBody::Element(Box::new(element(&format!("e{}", i)))));
        }
        if i < 12 {
            body.push(SchemaBody::Group(group(&format!("g{}", i))));
        }
        if i < 8 {
            body.push(SchemaBody::Annotation(note(&format!("n{}", i))));
        }
        if i < 2 {
            body.push(SchemaBody::AttributeGroup(attribute_group(&format!("ag{}", i))));
            body.push(SchemaBody::Notation(notation(&format!("n{}", i))));
        }
        if i < 1 {
            body.push(SchemaBody::Import(import("urn:other")));
        }
    }
    let s = schema(body);
    let first = s.simple_types()[0];
    assert_eq!(first.annotation(), None);
    assert_eq!(s.annotations().len(), 8);
    assert_eq!(s.attributes().len(), 0);
    assert_eq!(s.simple_types().len(), 55);
    assert_eq!(s.complex_types().len(), 35);
    assert_eq!(s.attribute_groups().len(), 2);
    assert_eq!(s.default_open_contents().len(), 0);
    assert_eq!(s.elements().len(), 41);
    assert_eq!(s.groups().len(), 12);
    assert_eq!(s.imports().len(), 1);
    assert_eq!(s.includes().len(), 0);
    assert_eq!(s.notations().len(), 2);
    assert_eq!(s.redefines().len(), 0);
    for (i, t) in s.simple_types().iter().enumerate() {
        assert_eq!(t.name, Some(format!("s{}", i)));
    }
    for (i, e) in s.elements().iter().enumerate() {
        assert_eq!(e.name, Some(format!("e{}", i)));
    }
}

#[test]
fn schema_elements_point_into_the_body() {
    let s = schema(vec![
        SchemaBody::Element(Box::new(element("same"))),
        SchemaBody::Element(Box::new(element("same"))),
    ]);
    let found = s.elements();
    assert_eq!(found.len(), 2);
    match (&s.body[0], &s.body[1]) {
        (SchemaBody::Element(first), SchemaBody::Element(second)) => {
            assert!(std::ptr::eq(found[0], first.as_ref()));
            assert!(std::ptr::eq(found[1], second.as_ref()));
        }
        _ => unreachable!(),
    }
}

#[test]
fn attribute_children() {
    let bare = attribute("a", vec![]);
    assert_eq!(bare.annotation(), None);
    assert_eq!(bare.simple_type(), None);

    let full = attribute(
        "a",
        vec![AttributeBody::Annotation(note("n")), AttributeBody::SimpleType(simple_type("t"))],
    );
    assert_eq!(full.annotation(), Some(&note("n")));
    assert_eq!(full.simple_type(), Some(&simple_type("t")));

    let doubled = attribute(
        "a",
        vec![
            AttributeBody::SimpleType(simple_type("t1")),
            AttributeBody::Annotation(note("n1")),
            AttributeBody::SimpleType(simple_type("t2")),
            AttributeBody::Annotation(note("n2")),
        ],
    );
    assert_eq!(doubled.annotation(), None);
    assert_eq!(doubled.simple_type(), None);
}

#[test]
fn singleton_of_three_is_absent() {
    let tripled = attribute(
        "a",
        vec![
            AttributeBody::Annotation(note("n")),
            AttributeBody::Annotation(note("n")),
            AttributeBody::Annotation(note("n")),
        ],
    );
    assert_eq!(tripled.annotation(), None);
}

#[test]
fn complex_type_singletons() {
    let t = complex_type(
        "t",
        vec![
            ComplexTypeBody::Annotation(note("n")),
            ComplexTypeBody::All(all("all")),
            ComplexTypeBody::Sequence(sequence("seq")),
            ComplexTypeBody::Choice(choice("cho")),
            ComplexTypeBody::Group(group("grp")),
            ComplexTypeBody::AnyAttribute(any_attribute("##any", None)),
            ComplexTypeBody::ComplexContent(ComplexContent { id: None, mixed: None, body: vec![] }),
            ComplexTypeBody::SimpleContent(SimpleContent { id: None, body: vec![] }),
            ComplexTypeBody::OpenContent(open_content(vec![])),
        ],
    );
    assert_eq!(t.annotation(), Some(&note("n")));
    assert_eq!(t.all(), Some(&all("all")));
    assert_eq!(t.sequence(), Some(&sequence("seq")));
    assert_eq!(t.choice(), Some(&choice("cho")));
    assert_eq!(t.group(), Some(&group("grp")));
    assert_eq!(t.any_attribute(), Some(&any_attribute("##any", None)));
    assert_eq!(
        t.complex_content(),
        Some(&ComplexContent { id: None, mixed: None, body: vec![] })
    );
    assert_eq!(t.simple_content(), Some(&SimpleContent { id: None, body: vec![] }));
    assert!(t.asserts().is_empty());
    assert!(t.attributes().is_empty());
    assert!(t.attribute_groups().is_empty());
}

#[test]
fn complex_type_singletons_absent_and_ambiguous() {
    let empty = complex_type("t", vec![]);
    assert_eq!(empty.annotation(), None);
    assert_eq!(empty.all(), None);
    assert_eq!(empty.sequence(), None);
    assert_eq!(empty.choice(), None);
    assert_eq!(empty.group(), None);
    assert_eq!(empty.any_attribute(), None);
    assert_eq!(empty.complex_content(), None);
    assert_eq!(empty.simple_content(), None);

    let doubled = complex_type(
        "t",
        vec![
            ComplexTypeBody::Annotation(note("n")),
            ComplexTypeBody::All(all("a")),
            ComplexTypeBody::Sequence(sequence("s")),
            ComplexTypeBody::Choice(choice("c")),
            ComplexTypeBody::Group(group("g")),
            ComplexTypeBody::AnyAttribute(any_attribute("##any", None)),
            ComplexTypeBody::ComplexContent(ComplexContent { id: None, mixed: None, body: vec![] }),
            ComplexTypeBody::SimpleContent(SimpleContent { id: None, body: vec![] }),
            ComplexTypeBody::SimpleContent(SimpleContent { id: None, body: vec![] }),
            ComplexTypeBody::ComplexContent(ComplexContent { id: None, mixed: None, body: vec![] }),
            ComplexTypeBody::AnyAttribute(any_attribute("##other", None)),
            ComplexTypeBody::Group(group("g2")),
            ComplexTypeBody::Choice(choice("c2")),
            ComplexTypeBody::Sequence(sequence("s2")),
            ComplexTypeBody::All(all("a2")),
            ComplexTypeBody::Annotation(note("n2")),
        ],
    );
    assert_eq!(doubled.annotation(), None);
    assert_eq!(doubled.all(), None);
    assert_eq!(doubled.sequence(), None);
    assert_eq!(doubled.choice(), None);
    assert_eq!(doubled.group(), None);
    assert_eq!(doubled.any_attribute(), None);
    assert_eq!(doubled.complex_content(), None);
    assert_eq!(doubled.simple_content(), None);
}

#[test]
fn complex_type_repeatable_children() {
    let t = complex_type(
        "t",
        vec![
            ComplexTypeBody::Attribute(attribute("a1", vec![])),
            ComplexTypeBody::Assert(assert_node("t1")),
            ComplexTypeBody::AttributeGroup(attribute_group("g1")),
            ComplexTypeBody::Sequence(sequence("s")),
            ComplexTypeBody::Attribute(attribute("a2", vec![])),
            ComplexTypeBody::AttributeGroup(attribute_group("g2")),
            ComplexTypeBody::Assert(assert_node("t2")),
            ComplexTypeBody::Attribute(attribute("a3", vec![])),
        ],
    );
    assert_eq!(
        t.attributes(),
        vec![&attribute("a1", vec![]), &attribute("a2", vec![]), &attribute("a3", vec![])]
    );
    assert_eq!(t.attribute_groups(), vec![&attribute_group("g1"), &attribute_group("g2")]);
    assert_eq!(t.asserts(), vec![&assert_node("t1"), &assert_node("t2")]);
    assert_eq!(t.sequence(), Some(&sequence("s")));
}

#[test]
fn open_content_children() {
    let oc = open_content(vec![
        OpenContentBody::Annotation(note("n")),
        OpenContentBody::Any(any("##any")),
    ]);
    assert_eq!(oc.annotations(), Some(&note("n")));
    assert_eq!(oc.any(), Some(&any("##any")));

    let doubled = open_content(vec![
        OpenContentBody::Any(any("##any")),
        OpenContentBody::Any(any("##other")),
        OpenContentBody::Annotation(note("n")),
        OpenContentBody::Annotation(note("m")),
    ]);
    assert_eq!(doubled.annotations(), None);
    assert_eq!(doubled.any(), None);

    let d = DefaultOpenContent {
        id: None,
        mode: None,
        applies_to_empty: Some(true),
        body: vec![OpenContentBody::Any(any("##local")), OpenContentBody::Annotation(note("d"))],
    };
    assert_eq!(d.annotations(), Some(&note("d")));
    assert_eq!(d.any(), Some(&any("##local")));
    assert_eq!(default_open_content().annotations(), None);
    assert_eq!(default_open_content().any(), None);
}

#[test]
fn content_annotations() {
    let restriction = Restriction { id: None, base: Some("b".to_string()), body: vec![] };
    let simple = SimpleContent {
        id: None,
        body: vec![ContentBody::Annotation(note("s")), ContentBody::Restriction(restriction)],
    };
    assert_eq!(simple.annotation(), Some(&note("s")));

    let extension = Extension { id: None, base: "b".to_string(), body: vec![] };
    let complex = ComplexContent {
        id: None,
        mixed: Some(true),
        body: vec![
            ContentBody::Annotation(note("c1")),
            ContentBody::Extension(extension),
            ContentBody::Annotation(note("c2")),
        ],
    };
    assert_eq!(complex.annotation(), None);
    assert_eq!(SimpleContent { id: None, body: vec![] }.annotation(), None);
}

#[test]
fn extension_children() {
    let e = Extension {
        id: None,
        base: "base".to_string(),
        body: vec![
            ExtensionBody::Assert(assert_node("t1")),
            ExtensionBody::Annotation(note("n")),
            ExtensionBody::OpenContent(open_content(vec![])),
            ExtensionBody::Sequence(sequence("s")),
            ExtensionBody::Attribute(attribute("a", vec![])),
            ExtensionBody::Assert(assert_node("t2")),
        ],
    };
    assert_eq!(e.annotation(), Some(&note("n")));
    assert_eq!(e.open_content(), Some(&open_content(vec![])));
    assert_eq!(e.asserts(), vec![&assert_node("t1"), &assert_node("t2")]);

    let doubled = Extension {
        id: None,
        base: "base".to_string(),
        body: vec![
            ExtensionBody::OpenContent(open_content(vec![])),
            ExtensionBody::OpenContent(open_content(vec![])),
        ],
    };
    assert_eq!(doubled.open_content(), None);
    assert_eq!(doubled.annotation(), None);
    assert!(doubled.asserts().is_empty());
}

#[test]
fn identity_constraint_annotations() {
    let selector = Selector {
        id: None,
        xpath: ".//item".to_string(),
        xpath_default_namespace: None,
        body: Some(note("sel")),
    };
    assert_eq!(selector.annotation(), Some(&note("sel")));
    let field = Field {
        id: None,
        xpath: "@id".to_string(),
        xpath_default_namespace: None,
        body: None,
    };
    assert_eq!(field.annotation(), None);
    let with_note = Field {
        id: None,
        xpath: "@id".to_string(),
        xpath_default_namespace: None,
        body: Some(note("f")),
    };
    assert_eq!(with_note.annotation(), Some(&note("f")));

    let unique = Unique {
        id: None,
        name: "u".to_string(),
        reference: None,
        body: vec![
            UniqueBody::Selector(selector),
            UniqueBody::Annotation(note("u")),
            UniqueBody::Field(field),
        ],
    };
    assert_eq!(unique.annotation(), Some(&note("u")));
    let doubled = Unique {
        id: None,
        name: "u".to_string(),
        reference: None,
        body: vec![UniqueBody::Annotation(note("u")), UniqueBody::Annotation(note("v"))],
    };
    assert_eq!(doubled.annotation(), None);
}

#[test]
fn any_attribute_gives_its_annotation() {
    assert_eq!(any_attribute("##any", None).annotation(), None);
    assert_eq!(any_attribute("##any", Some(note("w"))).annotation(), Some(&note("w")));
}

#[test]
fn queries_leave_the_tree_as_it_is() {
    let s = schema(vec![
        SchemaBody::SimpleType(simple_type("s")),
        SchemaBody::Annotation(note("n")),
    ]);
    let before = format!("{:?}", s);
    let _ = s.simple_types();
    let _ = s.annotations();
    let _ = s.elements();
    assert_eq!(format!("{:?}", s), before);
    assert_eq!(s.simple_types(), s.simple_types());
}
