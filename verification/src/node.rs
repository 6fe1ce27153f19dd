//! Node identifiers: a namespace index and a numeric or string identifier.

use vstd::prelude::*;
use crate::stack::stack_node_text;
use crate::text::decimal;

verus! {

/// The identifier of a node inside its namespace.
#[derive(Debug, PartialEq, Eq)]
pub enum Identifier {
    Numeric(u32),
    Text(String),
}

/// What an [`Identifier`] stands for.
pub enum IdentifierView {
    Numeric(u32),
    Text(Seq<char>),
}

impl View for Identifier {
    type V = IdentifierView;

    open spec fn view(&self) -> IdentifierView {
        match self {
            Identifier::Numeric(n) => IdentifierView::Numeric(*n),
            Identifier::Text(s) => IdentifierView::Text(s@),
        }
    }
}

impl Clone for Identifier {
    fn clone(&self) -> (copy: Identifier)
        ensures
            copy == *self,
    {
        match self {
            Identifier::Numeric(n) => Identifier::Numeric(*n),
            Identifier::Text(s) => Identifier::Text(s.clone()),
        }
    }
}

/// Addresses one node in a server's address space.
#[derive(Debug, PartialEq, Eq)]
pub struct NodeId {
    pub namespace: u16,
    pub identifier: Identifier,
}

/// What a [`NodeId`] stands for.
pub struct NodeIdView {
    pub namespace: u16,
    pub identifier: IdentifierView,
}

impl View for NodeId {
    type V = NodeIdView;

    open spec fn view(&self) -> NodeIdView {
        NodeIdView { namespace: self.namespace, identifier: self.identifier@ }
    }
}

impl Clone for NodeId {
    fn clone(&self) -> (copy: NodeId)
        ensures
            copy == *self,
    {
        NodeId { namespace: self.namespace, identifier: self.identifier.clone() }
    }
}

/// The text of an identifier: `i=` before a number, `s=` before a string.
pub open spec fn identifier_text(identifier: IdentifierView) -> Seq<char> {
    match identifier {
        IdentifierView::Numeric(n) => seq!['i', '='] + decimal(n as nat),
        IdentifierView::Text(s) => seq!['s', '='] + s,
    }
}

/// The text of a node id: the identifier's text, after `ns=`, the namespace
/// index and `;` unless the namespace is 0.
pub open spec fn node_id_text(node: NodeIdView) -> Seq<char> {
    if node.namespace != 0 {
        seq!['n', 's', '='] + decimal(node.namespace as nat) + seq![';'] + identifier_text(
            node.identifier,
        )
    } else {
        identifier_text(node.identifier)
    }
}

impl NodeId {
    /// A node id with a numeric identifier.
    pub fn numeric(namespace: u16, value: u32) -> (node: NodeId)
        ensures
            node@ == (NodeIdView { namespace, identifier: IdentifierView::Numeric(value) }),
    {
        NodeId { namespace, identifier: Identifier::Numeric(value) }
    }

    /// A node id with a string identifier.
    pub fn text(namespace: u16, value: &str) -> (node: NodeId)
        ensures
            node@ == (NodeIdView { namespace, identifier: IdentifierView::Text(value@) }),
    {
        NodeId { namespace, identifier: Identifier::Text(value.to_owned()) }
    }

    /// Writes the node id as the stack displays it, such as `ns=2;s=v1`.
    pub fn to_text(&self) -> (text: String)
        ensures
            text@ == node_id_text(self@),
    {
        stack_node_text(self)
    }
}

} // verus!
