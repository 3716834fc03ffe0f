//! The shapes that a document tree is built of. Building it is left to tree
//! construction, the tokenizer's collaborator.

use vstd::prelude::*;

verus! {

/// A token by the name of its kind and its text.
pub struct Token<'a> {
    pub _type: &'a str,
    pub value: &'a str,
}

/// A node of a document tree. The root has no parent.
pub struct Node<'a> {
    pub children: &'a Vec<Node<'a>>,
    pub first_child: &'a Option<Node<'a>>,
    pub last_child: &'a Option<Node<'a>>,
    pub previous_sibling: &'a Option<Node<'a>>,
    pub next_sibling: &'a Option<Node<'a>>,
    pub parent_node: &'a Option<Node<'a>>,
    pub node_name: &'a str,
}

/// A document without nodes.
#[derive(Debug, Clone, Copy, PartialEq, Eq, Structural)]
pub struct Document {}

/// The document of a text before tree construction: it has no nodes.
pub fn parse_html(_html: &String) -> (document: Document)
    ensures
        document == (Document {  }),
{
    Document {  }
}

} // verus!
