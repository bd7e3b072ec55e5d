//! What holds of every rewriting pass, whatever the rule set and the declaration.

use vstd::prelude::*;
use crate::ast::{ImportDeclView, NodeView};
use crate::config::{default_extensions, default_marker, RawConfig};
use crate::path::{
    extension, is_plain_extension, lemma_extension_iff_dot, lemma_extension_is_plain_suffix,
    lemma_extension_of_longer, lemma_extension_of_suffix,
};
use crate::rules::{quoted, RuleSet};

verus! {

/// A declaration that binds a name and whose path ends in a matched extension
/// of the plain form gets the question mark and the marker behind its path,
/// once, and its literal is that new path between double quotes.
pub proof fn lemma_matching_import_is_marked(
    rules: RuleSet,
    decl: ImportDeclView,
    ext: Seq<char>,
)
    requires
        decl.specifiers > 0,
        rules.matched_extensions.contains(ext),
        is_plain_extension(ext),
        ext.is_suffix_of(decl.src.value),
    ensures
        rules.rewrite_import(decl).src.value == decl.src.value + seq!['?'] + rules.marker,
        rules.rewrite_import(decl).src.raw == Some(
            seq!['"'] + decl.src.value + seq!['?'] + rules.marker + seq!['"'],
        ),
        rules.rewrite_import(decl).specifiers == decl.specifiers,
        rules.rewrite_import(decl).src.value.len() == decl.src.value.len() + 1
            + rules.marker.len(),
{
    lemma_extension_of_suffix(decl.src.value, ext);
    assert(quoted(rules.marked(decl.src.value)) =~= seq!['"'] + decl.src.value + seq!['?']
        + rules.marker + seq!['"']);
}

/// The rules apply to a declaration if and only if it binds a name and its
/// path ends in a matched extension of the plain form.
pub proof fn lemma_applies_iff_ends_in_matched_extension(rules: RuleSet, decl: ImportDeclView)
    ensures
        rules.applies_to(decl) <==> decl.specifiers > 0 && exists|ext: Seq<char>|
            #![trigger rules.matched_extensions.contains(ext)]
            rules.matched_extensions.contains(ext) && is_plain_extension(ext) && ext.is_suffix_of(
                decl.src.value,
            ),
{
    if rules.applies_to(decl) {
        let ext = extension(decl.src.value)->0;
        lemma_extension_is_plain_suffix(decl.src.value, ext);
    }
    if decl.specifiers > 0 && exists|ext: Seq<char>|
        #![trigger rules.matched_extensions.contains(ext)]
        rules.matched_extensions.contains(ext) && is_plain_extension(ext) && ext.is_suffix_of(
            decl.src.value,
        ) {
        let ext = choose|ext: Seq<char>|
            #![trigger rules.matched_extensions.contains(ext)]
            rules.matched_extensions.contains(ext) && is_plain_extension(ext) && ext.is_suffix_of(
                decl.src.value,
            );
        lemma_extension_of_suffix(decl.src.value, ext);
    }
}

/// A declaration that binds no name stays as it is, whatever its path.
pub proof fn lemma_import_without_specifiers_unchanged(rules: RuleSet, decl: ImportDeclView)
    requires
        decl.specifiers == 0,
    ensures
        rules.rewrite_import(decl) == decl,
{
}

/// A declaration whose extension is none of the matched ones stays as it is.
pub proof fn lemma_unmatched_extension_unchanged(
    rules: RuleSet,
    decl: ImportDeclView,
    ext: Seq<char>,
)
    requires
        extension(decl.src.value) == Some(ext),
        !rules.matched_extensions.contains(ext),
    ensures
        rules.rewrite_import(decl) == decl,
{
}

/// A declaration whose path holds no full stop stays as it is.
pub proof fn lemma_path_without_dot_unchanged(rules: RuleSet, decl: ImportDeclView)
    requires
        !decl.src.value.contains('.'),
    ensures
        rules.rewrite_import(decl) == decl,
{
    lemma_extension_iff_dot(decl.src.value);
}

/// With a marker that holds no full stop, the extension of a marked path is
/// the old extension with the question mark and the marker behind it, which
/// is longer than the old extension and so differs from it.
pub proof fn lemma_extension_of_marked_path(rules: RuleSet, path: Seq<char>, ext: Seq<char>)
    requires
        !rules.marker.contains('.'),
        extension(path) == Some(ext),
    ensures
        extension(rules.marked(path)) == Some(rules.marked(ext)),
        rules.marked(ext) != ext,
{
    let tail = seq!['?'] + rules.marker;
    assert forall|j: int| 0 <= j < tail.len() implies tail[j] != '.' by {
        if j > 0 {
            assert(rules.marker[j - 1] == tail[j]);
        }
    }
    lemma_extension_of_longer(path, tail);
    assert(rules.marked(path) =~= path + tail);
    assert(rules.marked(ext) =~= ext + tail);
    assert(rules.marked(ext).len() == ext.len() + tail.len());
}

/// A second pass changes nothing where the marker holds no full stop and the
/// extension that the first pass leaves behind is none of the matched ones.
pub proof fn lemma_second_pass_unchanged(rules: RuleSet, decl: ImportDeclView)
    requires
        !rules.marker.contains('.'),
        extension(decl.src.value) matches Some(ext) ==> !rules.matched_extensions.contains(
            rules.marked(ext),
        ),
    ensures
        rules.rewrite_import(rules.rewrite_import(decl)) == rules.rewrite_import(decl),
{
    if rules.applies_to(decl) {
        let ext = extension(decl.src.value)->0;
        lemma_extension_of_marked_path(rules, decl.src.value, ext);
    }
}

/// The pass is not idempotent: where the rules still apply to a declaration
/// that was rewritten, a second pass appends the marker a second time.
pub proof fn lemma_second_pass_appends_again(rules: RuleSet, decl: ImportDeclView)
    requires
        rules.applies_to(decl),
        rules.applies_to(rules.rewrite_import(decl)),
    ensures
        rules.rewrite_import(rules.rewrite_import(decl)).src.value == decl.src.value + seq!['?']
            + rules.marker + seq!['?'] + rules.marker,
{
}

/// The nodes of a row are rewritten one by one: the pass keeps their number,
/// and what it makes of two rows on end is what it makes of each, on end.
pub proof fn lemma_rows_rewritten_node_by_node(
    rules: RuleSet,
    front: Seq<NodeView>,
    back: Seq<NodeView>,
)
    ensures
        rules.rewrite_nodes(front).len() == front.len(),
        rules.rewrite_nodes(front + back) == rules.rewrite_nodes(front) + rules.rewrite_nodes(
            back,
        ),
{
    assert(rules.rewrite_nodes(front + back) =~= rules.rewrite_nodes(front)
        + rules.rewrite_nodes(back));
}

/// The two fields of a configuration are resolved each for itself: the
/// extensions do not depend on the marker that is given, nor the marker on
/// the extensions.
pub proof fn lemma_fields_resolved_apart(first: RawConfig, second: RawConfig)
    ensures
        first.extensions == second.extensions ==> RuleSet::resolve(
            Some(first),
        ).matched_extensions == RuleSet::resolve(Some(second)).matched_extensions,
        first.marker == second.marker ==> RuleSet::resolve(Some(first)).marker
            == RuleSet::resolve(Some(second)).marker,
        RuleSet::resolve(Some(RawConfig { extensions: None, marker: None })) == RuleSet::resolve(
            None,
        ),
{
}

/// The defaults: four extensions of the plain form, none longer than five
/// characters, and a marker of eleven characters that holds no full stop.
pub proof fn lemma_defaults()
    ensures
        default_extensions().len() == 4,
        forall|i: int|
            0 <= i < 4 ==> is_plain_extension(#[trigger] default_extensions()[i])
                && default_extensions()[i].len() <= 5,
        !default_marker().contains('.'),
        default_marker().len() == 11,
{
    reveal_strlit(".css");
    reveal_strlit(".less");
    reveal_strlit(".scss");
    reveal_strlit(".sass");
    reveal_strlit("css_modules");
}

/// Under the default rule set a second pass changes nothing.
pub proof fn lemma_default_second_pass_unchanged(decl: ImportDeclView)
    ensures
        RuleSet::resolve(None).rewrite_import(RuleSet::resolve(None).rewrite_import(decl))
            == RuleSet::resolve(None).rewrite_import(decl),
{
    let rules = RuleSet::resolve(None);
    lemma_defaults();
    if extension(decl.src.value) is Some {
        let ext = extension(decl.src.value)->0;
        lemma_extension_is_plain_suffix(decl.src.value, ext);
        assert(rules.marked(ext).len() > 5);
    }
    lemma_second_pass_unchanged(rules, decl);
}

/// The default rule set is well formed, and so is every resolved rule set
/// but that of a configuration that itself gives an empty list of extensions
/// or an empty marker.
pub proof fn lemma_resolved_rules_well_formed(raw: Option<RawConfig>)
    ensures
        RuleSet::resolve(None).well_formed(),
        RuleSet::resolve(raw).well_formed() <==> (raw matches Some(given) ==> {
            &&& given.extensions matches Some(named) ==> named.len() > 0
            &&& given.marker matches Some(named) ==> named.len() > 0
        }),
{
    lemma_defaults();
}

} // verus!
