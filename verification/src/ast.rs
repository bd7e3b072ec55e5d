//! The part of a module's syntax tree that the rewriting reads and changes.

use vstd::prelude::*;

verus! {

broadcast use vstd::std_specs::vec::group_vec_axioms;

/// A string literal: what it means, and how it was written in the source.
#[derive(Debug, Clone, PartialEq, Eq)]
pub struct SourceLiteral {
    pub value: String,
    pub raw: Option<String>,
}

/// An import declaration: how many names it binds, and the path it imports from.
#[derive(Debug, Clone, PartialEq, Eq)]
pub struct ImportDecl {
    pub specifiers: usize,
    pub src: SourceLiteral,
}

/// A node of the tree: an import declaration, or any other node with its children.
#[derive(Debug, PartialEq, Eq)]
pub enum Node {
    Import(ImportDecl),
    Other(Vec<Node>),
}

/// A module: its statements from top to bottom.
#[derive(Debug, PartialEq, Eq)]
pub struct Module {
    pub body: Vec<Node>,
}

/// A string literal in contracts.
pub ghost struct SourceLiteralView {
    pub value: Seq<char>,
    pub raw: Option<Seq<char>>,
}

/// An import declaration in contracts.
pub ghost struct ImportDeclView {
    pub specifiers: nat,
    pub src: SourceLiteralView,
}

/// A node in contracts.
pub ghost enum NodeView {
    Import(ImportDeclView),
    Other(Seq<NodeView>),
}

/// A module in contracts.
pub ghost struct ModuleView {
    pub body: Seq<NodeView>,
}

impl View for SourceLiteral {
    type V = SourceLiteralView;

    open spec fn view(&self) -> SourceLiteralView {
        SourceLiteralView {
            value: self.value@,
            raw: match self.raw {
                Some(text) => Some(text@),
                None => None,
            },
        }
    }
}

impl View for ImportDecl {
    type V = ImportDeclView;

    open spec fn view(&self) -> ImportDeclView {
        ImportDeclView { specifiers: self.specifiers as nat, src: self.src@ }
    }
}

/// What a node is in contracts: its import declaration, or its children in their order.
pub open spec fn node_view(node: Node) -> NodeView
    decreases node,
{
    match node {
        Node::Import(decl) => NodeView::Import(decl@),
        Node::Other(children) => NodeView::Other(
            Seq::new(
                children@.len(),
                |i: int|
                    if 0 <= i < children@.len() {
                        node_view(children@[i])
                    } else {
                        arbitrary()
                    },
            ),
        ),
    }
}

impl View for Node {
    type V = NodeView;

    open spec fn view(&self) -> NodeView {
        node_view(*self)
    }
}

/// The views of a row of nodes, in their order.
pub open spec fn node_views(nodes: Seq<Node>) -> Seq<NodeView> {
    Seq::new(nodes.len(), |i: int| nodes[i]@)
}

impl View for Module {
    type V = ModuleView;

    open spec fn view(&self) -> ModuleView {
        ModuleView { body: node_views(self.body@) }
    }
}

/// A node that is no import declaration is seen as the row of its children's views.
pub proof fn lemma_view_of_other(children: Vec<Node>)
    ensures
        Node::Other(children)@ == NodeView::Other(node_views(children@)),
{
    assert(Node::Other(children)@->Other_0 =~= node_views(children@));
}

} // verus!
