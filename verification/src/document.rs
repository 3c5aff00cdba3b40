//! The document tree that a job description is decoded from, and how YAML
//! text is read into it.

use serde_yaml::Value;
use vstd::prelude::*;

verus! {

/// A loosely typed document: scalars, sequences, and mappings whose entries
/// keep the order in which they were written.
#[derive(Debug, PartialEq, Eq)]
pub enum Node {
    Null,
    Bool(bool),
    /// A number, as the text that writes it.
    Number(String),
    Text(String),
    Sequence(Vec<Node>),
    Mapping(Vec<(Node, Node)>),
}

impl Node {
    /// The characters of a text node; `None` for any other node.
    pub open spec fn text(self) -> Option<Seq<char>> {
        match self {
            Node::Text(text) => Some(text@),
            _ => None,
        }
    }

    /// The value of a boolean node; `None` for any other node.
    pub open spec fn boolean(self) -> Option<bool> {
        match self {
            Node::Bool(value) => Some(value),
            _ => None,
        }
    }

    /// The items of a sequence; `None` for any other node.
    pub open spec fn items(self) -> Option<Seq<Node>> {
        match self {
            Node::Sequence(items) => Some(items@),
            _ => None,
        }
    }

    /// The entries of a mapping, each a key and its value; `None` for any
    /// other node.
    pub open spec fn entries(self) -> Option<Seq<(Node, Node)>> {
        match self {
            Node::Mapping(entries) => Some(entries@),
            _ => None,
        }
    }
}

/// `serde_yaml::Value`, the tree that the YAML reader builds. Nothing of
/// its inside is known here.
#[verifier::external_type_specification]
#[verifier::external_body]
pub struct ExValue(serde_yaml::Value);

/// `serde_yaml::Error`, the reader's report of text that is not one YAML
/// document.
#[verifier::external_type_specification]
#[verifier::external_body]
pub struct ExError(serde_yaml::Error);

/// The document that a YAML text denotes: the one that
/// `serde_yaml::from_str` reads from it, and `None` where the text is not
/// one YAML document. The reader looks at the text alone, so the same text
/// always denotes the same document.
pub uninterp spec fn document_of(text: Seq<char>) -> Option<Node>;

/// The document that a `serde_yaml::Value` holds: its scalars, items and
/// entries in their order, without its tags.
pub uninterp spec fn value_node(value: serde_yaml::Value) -> Node;

/// `serde_yaml::from_str::<serde_yaml::Value>`. Claimed: it returns a
/// value that holds the document named `document_of` the text, and an error
/// exactly where the text has none. Nothing is claimed of what the document
/// is.
#[verifier::external_body]
fn read_value(text: &str) -> (read: Result<serde_yaml::Value, serde_yaml::Error>)
    ensures
        match read {
            Ok(value) => document_of(text@) == Some(value_node(value)),
            Err(_) => document_of(text@) is None,
        },
{
    serde_yaml::from_str::<Value>(text)
}

/// Moves what a `serde_yaml::Value` holds into a `Node`, variant by
/// variant: a number as `Number::to_string` writes it, the items of a
/// sequence and the entries of a mapping (`Mapping::iter`) in their order,
/// and a tagged value as the value under its tag. Claimed: the result is
/// the document named `value_node` of the value.
#[verifier::external_body]
fn node_of(value: &serde_yaml::Value) -> (node: Node)
    ensures
        node == value_node(*value),
{
    match value {
        Value::Null => Node::Null,
        Value::Bool(b) => Node::Bool(*b),
        Value::Number(n) => Node::Number(n.to_string()),
        Value::String(s) => Node::Text(s.clone()),
        Value::Sequence(items) => Node::Sequence(items.iter().map(node_of).collect()),
        Value::Mapping(m) => {
            Node::Mapping(m.iter().map(|(k, v)| (node_of(k), node_of(v))).collect())
        },
        Value::Tagged(t) => node_of(&t.value),
    }
}

/// Reads a YAML text into a document; `None` where the text is not one
/// YAML document.
pub fn parse_document(text: &str) -> (document: Option<Node>)
    ensures
        document == document_of(text@),
{
    match read_value(text) {
        Ok(value) => Some(node_of(&value)),
        Err(_) => None,
    }
}

} // verus!
