//! How generic parameters show in rendered signatures and in enum
//! listings: they are rendered once, in `<..>`, in front of what does not
//! depend on them.

use vstd::prelude::*;
use crate::ast::Visibility;
use crate::clean::{Enum, FnDecl, Generics, ItemEnum, SelfTy, VariantItem};
use crate::extract::{inner_out, variant_out};
use crate::render::{generics_parts, generics_text, generics_trace, signature_text, typaram_text};
use crate::text::{concat, join, spaces};

verus! {

proof fn lemma_join_at_least_first(parts: Seq<Seq<char>>, sep: Seq<char>)
    requires
        parts.len() > 0,
    ensures
        join(parts, sep).len() >= parts[0].len(),
    decreases parts.len(),
{
    if parts.len() > 1 {
        lemma_join_at_least_first(parts.drop_last(), sep);
        assert(parts.drop_last()[0] == parts[0]);
    }
}

/// Generic parameters render as nothing exactly when there are none, and
/// otherwise as a text in `<` and `>`.
pub proof fn lemma_generics_text_brackets(g: Generics)
    ensures
        (generics_text(g).len() == 0) == (g.lifetimes@.len() == 0 && g.type_params@.len() == 0),
        generics_text(g).len() > 0 ==> generics_text(g)[0] == '<' && generics_text(g).last() == '>',
{
    reveal_strlit("<");
    reveal_strlit(">");
    reveal_strlit("'");
    reveal_strlit("T_");
    let parts = generics_parts(g);
    assert(parts.len() == g.lifetimes@.len() + g.type_params@.len());
    if parts.len() > 0 {
        if g.lifetimes@.len() > 0 {
            assert(parts[0] == "'"@ + g.lifetimes@[0]@);
        } else {
            assert(parts[0] == typaram_text(g.type_params@[0]));
        }
        assert(parts[0].len() > 0);
        lemma_join_at_least_first(parts, ", "@);
    }
}

/// A rendered signature begins with its generic parameters, then `(`; what
/// follows them does not depend on them: two signatures with the same self
/// and declaration differ only in the generics in front.
pub proof fn lemma_signature_begins_with_generics(g: Generics, h: Generics, s: SelfTy, d: FnDecl)
    ensures
        generics_text(g).is_prefix_of(signature_text(g, s, d)),
        signature_text(g, s, d)[generics_text(g).len() as int] == '(',
        signature_text(g, s, d).skip(generics_text(g).len() as int) == signature_text(h, s, d).skip(
            generics_text(h).len() as int,
        ),
{
    reveal_strlit("(");
    let sg = signature_text(g, s, d);
    let sh = signature_text(h, s, d);
    let gt = generics_text(g);
    let ht = generics_text(h);
    assert(sg.subrange(0, gt.len() as int) =~= gt);
    assert(sg.skip(gt.len() as int) =~= sh.skip(ht.len() as int));
}

/// The header of an enum's listing renders the enum's generic parameters,
/// as signatures do, after `enum path => `; then comes a line per variant.
/// An enum with a type parameter shows `<` right after ` => `.
pub proof fn lemma_enum_header_renders_generics(
    en: Enum,
    indent: usize,
    prefix: Seq<char>,
    vis: Option<Visibility>,
)
    ensures
        ({
            let head = spaces(indent as nat) + generics_trace(en.generics) + "enum "@ + prefix + " => "@;
            let lines = concat(en.variants@.map_values(|v: VariantItem| variant_out(v, indent)));
            let out = inner_out(ItemEnum::EnumItem(en), indent, prefix, vis);
            &&& out == head + generics_text(en.generics) + "\n"@ + lines
            &&& en.generics.type_params@.len() > 0 ==> out[head.len() as int] == '<'
        }),
{
    let head = spaces(indent as nat) + generics_trace(en.generics) + "enum "@ + prefix + " => "@;
    let lines = concat(en.variants@.map_values(|v: VariantItem| variant_out(v, indent)));
    let out = inner_out(ItemEnum::EnumItem(en), indent, prefix, vis);
    assert(out =~= head + generics_text(en.generics) + "\n"@ + lines);
    lemma_generics_text_brackets(en.generics);
    if en.generics.type_params@.len() > 0 {
        assert(out[head.len() as int] == generics_text(en.generics)[0]);
    }
}

} // verus!
