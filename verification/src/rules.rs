//! The rule set of one rewriting pass, and what the pass makes of a path, of
//! an import declaration and of a whole tree.

use vstd::prelude::*;
use crate::ast::{ImportDeclView, ModuleView, NodeView, SourceLiteralView};
use crate::path::extension;

verus! {

/// The extensions that mark an import for rewriting, in the order they were
/// given, and the marker that is put behind a rewritten path.
pub ghost struct RuleSet {
    pub matched_extensions: Seq<Seq<char>>,
    pub marker: Seq<char>,
}

/// `text` between double quotes, nothing escaped.
pub open spec fn quoted(text: Seq<char>) -> Seq<char> {
    seq!['"'] + text + seq!['"']
}

impl RuleSet {
    /// At least one extension is matched, and the marker is not empty.
    pub open spec fn well_formed(self) -> bool {
        self.matched_extensions.len() > 0 && self.marker.len() > 0
    }

    /// The extension of `path` is one of the matched extensions, letter for letter.
    pub open spec fn matches(self, path: Seq<char>) -> bool {
        match extension(path) {
            Some(ext) => self.matched_extensions.contains(ext),
            None => false,
        }
    }

    /// `path` with a question mark and the marker behind it.
    pub open spec fn marked(self, path: Seq<char>) -> Seq<char> {
        path + seq!['?'] + self.marker
    }

    /// The declaration binds a name and its path matches.
    pub open spec fn applies_to(self, decl: ImportDeclView) -> bool {
        decl.specifiers > 0 && self.matches(decl.src.value)
    }

    /// The declaration after the pass: where the rules apply, its path is
    /// marked and written anew between double quotes; else it is as before.
    pub open spec fn rewrite_import(self, decl: ImportDeclView) -> ImportDeclView {
        if self.applies_to(decl) {
            ImportDeclView {
                specifiers: decl.specifiers,
                src: SourceLiteralView {
                    value: self.marked(decl.src.value),
                    raw: Some(quoted(self.marked(decl.src.value))),
                },
            }
        } else {
            decl
        }
    }

    /// The node after the pass: every import declaration in it, at any depth,
    /// rewritten once, and nothing else changed.
    pub open spec fn rewrite_node(self, node: NodeView) -> NodeView
        decreases node,
    {
        match node {
            NodeView::Import(decl) => NodeView::Import(self.rewrite_import(decl)),
            NodeView::Other(children) => NodeView::Other(
                Seq::new(
                    children.len(),
                    |i: int|
                        if 0 <= i < children.len() {
                            self.rewrite_node(children[i])
                        } else {
                            arbitrary()
                        },
                ),
            ),
        }
    }

    /// A row of nodes after the pass: each rewritten, in its place.
    pub open spec fn rewrite_nodes(self, nodes: Seq<NodeView>) -> Seq<NodeView> {
        Seq::new(nodes.len(), |i: int| self.rewrite_node(nodes[i]))
    }

    /// The module after the pass: each statement rewritten, in its place.
    pub open spec fn rewrite_module(self, module: ModuleView) -> ModuleView {
        ModuleView { body: self.rewrite_nodes(module.body) }
    }

    /// The pass goes through a node that is no import declaration child by child.
    pub proof fn lemma_rewrite_other(self, children: Seq<NodeView>)
        ensures
            self.rewrite_node(NodeView::Other(children)) == NodeView::Other(
                self.rewrite_nodes(children),
            ),
    {
        assert(self.rewrite_node(NodeView::Other(children))->Other_0 =~= self.rewrite_nodes(
            children,
        ));
    }
}

} // verus!
