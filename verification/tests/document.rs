use clipper::document::{parse_document, Node};

fn text(s: &str) -> Node {
    Node::Text(s.to_string())
}

#[test]
fn parses_a_scalar() {
    assert_eq!(parse_document("hello"), Some(text("hello")));
}

#[test]
fn parses_scalars_of_each_kind() {
    assert_eq!(parse_document("~"), Some(Node::Null));
    assert_eq!(parse_document(""), Some(Node::Null));
    assert_eq!(parse_document("true"), Some(Node::Bool(true)));
    assert_eq!(parse_document("false"), Some(Node::Bool(false)));
    assert_eq!(parse_document("42"), Some(Node::Number("42".to_string())));
    assert_eq!(parse_document("-7"), Some(Node::Number("-7".to_string())));
    assert_eq!(parse_document("'42'"), Some(text("42")));
    assert_eq!(parse_document("\"true\""), Some(text("true")));
    assert_eq!(parse_document("00:04:05.100"), Some(text("00:04:05.100")));
}

#[test]
fn parses_a_sequence_in_order() {
    assert_eq!(
        parse_document("- a\n- 1\n- true\n"),
        Some(Node::Sequence(vec![text("a"), Node::Number("1".to_string()), Node::Bool(true)]))
    );
}

#[test]
fn parses_a_mapping_in_the_order_written() {
    assert_eq!(
        parse_document("zeta: 1\nalpha: two\nmid: [x]\n"),
        Some(Node::Mapping(vec![
            (text("zeta"), Node::Number("1".to_string())),
            (text("alpha"), text("two")),
            (text("mid"), Node::Sequence(vec![text("x")])),
        ]))
    );
}

#[test]
fn parses_keys_that_are_not_text() {
    assert_eq!(
        parse_document("1: a\ntrue: b\n"),
        Some(Node::Mapping(vec![
            (Node::Number("1".to_string()), text("a")),
            (Node::Bool(true), text("b")),
        ]))
    );
}

#[test]
fn parses_nested_mappings() {
    let yaml = "output_directory: out\nclips:\n  - label: Ex1\n    remove_audio: true\n";
    assert_eq!(
        parse_document(yaml),
        Some(Node::Mapping(vec![
            (text("output_directory"), text("out")),
            (
                text("clips"),
                Node::Sequence(vec![Node::Mapping(vec![
                    (text("label"), text("Ex1")),
                    (text("remove_audio"), Node::Bool(true)),
                ])])
            ),
        ]))
    );
}

#[test]
fn a_tagged_value_is_the_value_under_the_tag() {
    assert_eq!(parse_document("!note hello"), Some(text("hello")));
    assert_eq!(
        parse_document("a: !thing\n  b: 1\n"),
        Some(Node::Mapping(vec![(
            text("a"),
            Node::Mapping(vec![(text("b"), Node::Number("1".to_string()))])
        )]))
    );
}

#[test]
fn an_alias_repeats_its_anchor() {
    assert_eq!(
        parse_document("a: &x hello\nb: *x\n"),
        Some(Node::Mapping(vec![(text("a"), text("hello")), (text("b"), text("hello"))]))
    );
}

#[test]
fn broken_text_is_no_document() {
    assert_eq!(parse_document("a: [1, 2"), None);
    assert_eq!(parse_document("a: b: c: d"), None);
    assert_eq!(parse_document("\t- x: 'unterminated"), None);
}

#[test]
fn two_documents_are_no_document() {
    assert_eq!(parse_document("a: 1\n---\nb: 2\n"), None);
}

#[test]
fn a_repeated_key_is_no_document() {
    assert_eq!(parse_document("a: 1\na: 2\n"), None);
}

#[test]
fn the_same_text_reads_the_same() {
    let yaml = "output_directory: out\nclips: [{label: a, source: b.mp4}]\n";
    assert_eq!(parse_document(yaml), parse_document(yaml));
}
