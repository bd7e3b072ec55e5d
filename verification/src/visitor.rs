//! The visitor that carries a rule set over a module's tree.

use vstd::prelude::*;
use vstd::string::StringExecFns;
use crate::ast::{lemma_view_of_other, node_views, ImportDecl, Module, Node};
use crate::path::{extension, last_dot_and_length, lemma_extension_at};
use crate::rules::RuleSet;

verus! {

broadcast use vstd::std_specs::vec::group_vec_axioms;

/// Appends a marker to the source path of every import declaration that binds
/// a name and whose path has one of the given extensions.
#[derive(Debug)]
pub struct TransformVisitor {
    css_suffix: Vec<String>,
    file_suffix: String,
}

impl View for TransformVisitor {
    type V = RuleSet;

    closed spec fn view(&self) -> RuleSet {
        RuleSet { matched_extensions: self.css_suffix.deep_view(), marker: self.file_suffix@ }
    }
}

impl TransformVisitor {
    /// A visitor that matches the extensions `css_suffix` and appends `file_suffix`.
    pub fn new(css_suffix: Vec<String>, file_suffix: String) -> (visitor: Self)
        ensures
            visitor@ == (RuleSet {
                matched_extensions: css_suffix.deep_view(),
                marker: file_suffix@,
            }),
    {
        Self { css_suffix, file_suffix }
    }

    /// The matched extensions, in the order they were given.
    pub fn css_suffix(&self) -> (suffixes: &Vec<String>)
        ensures
            suffixes.deep_view() == self@.matched_extensions,
    {
        &self.css_suffix
    }

    /// The marker that is appended.
    pub fn file_suffix(&self) -> (marker: &str)
        ensures
            marker@ == self@.marker,
    {
        self.file_suffix.as_str()
    }

    /// Whether the extension of `path` is one of the matched extensions.
    pub fn matches(&self, path: &str) -> (matched: bool)
        ensures
            matched == self@.matches(path@),
    {
        let (found, len) = last_dot_and_length(path);
        match found {
            None => false,
            Some(at) => {
                let ext = String::from_str(path.substring_char(at, len));
                proof {
                    lemma_extension_at(path@, at as int);
                    assert(path@.skip(at as int) =~= path@.subrange(at as int, len as int));
                }
                let mut i: usize = 0;
                while i < self.css_suffix.len()
                    invariant
                        i <= self.css_suffix.len(),
                        extension(path@) == Some(ext@),
                        forall|k: int| 0 <= k < i ==> self.css_suffix.deep_view()[k] != ext@,
                    decreases self.css_suffix.len() - i,
                {
                    if self.css_suffix[i] == ext {
                        assert(self.css_suffix.deep_view()[i as int] == ext@);
                        return true;
                    }
                    i = i + 1;
                }
                false
            },
        }
    }

    /// Rewrites one import declaration in place.
    pub fn visit_mut_import_decl(&mut self, n: &mut ImportDecl)
        ensures
            *final(self) == *old(self),
            final(n)@ == old(self)@.rewrite_import(old(n)@),
            !old(self)@.applies_to(old(n)@) ==> *final(n) == *old(n),
    {
        if n.specifiers != 0 {
            if self.matches(n.src.value.as_str()) {
                n.src.value.append("?");
                n.src.value.append(self.file_suffix.as_str());
                let mut raw = String::from_str("\"");
                raw.append(n.src.value.as_str());
                raw.append("\"");
                n.src.raw = Some(raw);
                proof {
                    reveal_strlit("?");
                    reveal_strlit("\"");
                    assert("?"@ =~= seq!['?']);
                    assert("\""@ =~= seq!['"']);
                }
            }
        }
    }

    /// Rewrites every import declaration in `n`, at any depth, in place.
    pub fn visit_mut_node(&mut self, n: &mut Node)
        ensures
            *final(self) == *old(self),
            final(n)@ == old(self)@.rewrite_node(old(n)@),
        decreases *old(n), 0nat,
    {
        match n {
            Node::Import(decl) => {
                self.visit_mut_import_decl(decl);
            },
            Node::Other(children) => {
                let ghost before = *children;
                self.visit_mut_nodes(children);
                proof {
                    lemma_view_of_other(before);
                    lemma_view_of_other(*children);
                    self@.lemma_rewrite_other(node_views(before@));
                }
            },
        }
    }

    /// Rewrites every import declaration in a row of nodes, at any depth, in place.
    pub fn visit_mut_nodes(&mut self, nodes: &mut Vec<Node>)
        ensures
            *final(self) == *old(self),
            node_views(final(nodes)@) == old(self)@.rewrite_nodes(node_views(old(nodes)@)),
        decreases *old(nodes), 1nat,
    {
        let mut i: usize = 0;
        while i < nodes.len()
            invariant
                i <= nodes.len(),
                *self == *old(self),
                nodes.len() == old(nodes).len(),
                forall|k: int|
                    0 <= k < i ==> (#[trigger] nodes[k])@ == old(self)@.rewrite_node(
                        old(nodes)[k]@,
                    ),
                forall|k: int| i <= k < nodes.len() ==> nodes[k] == old(nodes)[k],
            decreases nodes.len() - i,
        {
            self.visit_mut_node(&mut nodes[i]);
            i = i + 1;
        }
        assert(node_views(nodes@) =~= old(self)@.rewrite_nodes(node_views(old(nodes)@)));
    }

    /// Rewrites every import declaration of the module, in place.
    pub fn visit_mut_module(&mut self, n: &mut Module)
        ensures
            *final(self) == *old(self),
            final(n)@ == old(self)@.rewrite_module(old(n)@),
    {
        self.visit_mut_nodes(&mut n.body);
    }
}

} // verus!
