//! What the collector records of each item it visits, and when an import
//! asks to be inlined, stated over the items themselves.

use vstd::prelude::*;
use crate::ast::{Attribute, Item, ItemKind, MetaItem};
use crate::clean::StructType;
use crate::visitor::{please_inline, walk_item, RustdocVisitor, Walk};

verus! {

/// The name of a nested attribute item, whatever its form.
pub open spec fn nested_name(m: MetaItem) -> Seq<char> {
    match m {
        MetaItem::Word(n) => n@,
        MetaItem::List(n, _) => n@,
        MetaItem::NameValue(n, _) => n@,
    }
}

/// An attribute of the form `name(.., inline, ..)`.
pub open spec fn lists_inline(a: Attribute) -> bool {
    match *a.value {
        MetaItem::List(_, l) => exists|j: int| 0 <= j < l@.len() && nested_name(*#[trigger] l@[j]) == "inline"@,
        _ => false,
    }
}

/// An import asks to be inlined exactly when one of its attributes, at any
/// position, is a list that names `inline`: no attribute asks nothing, one
/// attribute asks when it lists `inline`, and the attributes of two lists
/// put together ask when either list asks.
pub proof fn lemma_please_inline_any_attribute(a: Seq<Attribute>, b: Seq<Attribute>, x: Attribute)
    ensures
        !please_inline(Seq::<Attribute>::empty()),
        please_inline(seq![x]) == lists_inline(x),
        please_inline(a + b) == (please_inline(a) || please_inline(b)),
        please_inline(a.push(x)) == (please_inline(a) || lists_inline(x)),
{
    reveal_strlit("inline");
    let one = seq![x];
    if please_inline(one) {
        let k = choose|k: int| 0 <= k < one.len() && crate::visitor::asks_inline(#[trigger] one[k]);
        assert(k == 0);
        if let MetaItem::List(_, l) = *x.value {
            let j = choose|j: int|
                0 <= j < l@.len() && crate::visitor::meta_name(*#[trigger] l@[j])@ == "inline"@;
            assert(nested_name(*l@[j]) == "inline"@);
        }
    }
    if lists_inline(x) {
        if let MetaItem::List(_, l) = *x.value {
            let j = choose|j: int| 0 <= j < l@.len() && nested_name(*#[trigger] l@[j]) == "inline"@;
            assert(crate::visitor::meta_name(*l@[j])@ == "inline"@);
        }
        assert(crate::visitor::asks_inline(one[0]));
    }
    let ab = a + b;
    if please_inline(ab) {
        let k = choose|k: int| 0 <= k < ab.len() && crate::visitor::asks_inline(#[trigger] ab[k]);
        if k < a.len() {
            assert(ab[k] == a[k]);
        } else {
            assert(ab[k] == b[k - a.len()]);
        }
    }
    if please_inline(a) {
        let k = choose|k: int| 0 <= k < a.len() && crate::visitor::asks_inline(#[trigger] a[k]);
        assert(ab[k] == a[k]);
    }
    if please_inline(b) {
        let k = choose|k: int| 0 <= k < b.len() && crate::visitor::asks_inline(#[trigger] b[k]);
        assert(ab[k + a.len()] == b[k]);
    }
    let ax = a.push(x);
    assert(ax == a + one);
    let ax1 = a + one;
    if please_inline(ax1) {
        let k = choose|k: int| 0 <= k < ax1.len() && crate::visitor::asks_inline(#[trigger] ax1[k]);
        if k < a.len() {
            assert(ax1[k] == a[k]);
        } else {
            assert(ax1[k] == one[k - a.len()]);
        }
    }
    if please_inline(a) {
        let k = choose|k: int| 0 <= k < a.len() && crate::visitor::asks_inline(#[trigger] a[k]);
        assert(ax1[k] == a[k]);
    }
    if please_inline(one) {
        assert(ax1[a.len() as int] == one[0]);
    }
}

/// Visiting an item that is not a module adds one entry to the list for its
/// kind, made of the item's own parts, and leaves every other list as it
/// was; a trait impl stays a trait impl of the same trait.
pub proof fn lemma_item_documented(v: &RustdocVisitor, w: Walk, item: Item)
    requires
        !(item.node is Mod),
        exists|f: nat| walk_item(v.cx, v.analysis, f, v.prefix(), w, item) is Some,
    ensures
        ({
            let r = v.item_walk(w, item).unwrap().om;
            let o = w.om;
            &&& r.name == o.name && r.attrs == o.attrs && r.id == o.id && r.vis == o.vis
            &&& r.is_crate == o.is_crate && r.where_outer == o.where_outer
            &&& r.where_inner == o.where_inner && r.mods == o.mods
            &&& r.view_items == o.view_items
            &&& (item.node is Struct) == (r.structs.len() == o.structs.len() + 1)
            &&& (item.node is Enum) == (r.enums.len() == o.enums.len() + 1)
            &&& (item.node is Fn) == (r.fns.len() == o.fns.len() + 1)
            &&& (item.node is Ty) == (r.typedefs.len() == o.typedefs.len() + 1)
            &&& (item.node is Static) == (r.statics.len() == o.statics.len() + 1)
            &&& (item.node is Trait) == (r.traits.len() == o.traits.len() + 1)
            &&& (item.node is Impl) == (r.impls.len() == o.impls.len() + 1)
            &&& (item.node is ForeignMod) == (r.foreigns.len() == o.foreigns.len() + 1)
            &&& (item.node is Mac) == (r.macros.len() == o.macros.len() + 1)
            &&& !(item.node is Struct) ==> r.structs == o.structs
            &&& !(item.node is Enum) ==> r.enums == o.enums
            &&& !(item.node is Fn) ==> r.fns == o.fns
            &&& !(item.node is Ty) ==> r.typedefs == o.typedefs
            &&& !(item.node is Static) ==> r.statics == o.statics
            &&& !(item.node is Trait) ==> r.traits == o.traits
            &&& !(item.node is Impl) ==> r.impls == o.impls
            &&& !(item.node is ForeignMod) ==> r.foreigns == o.foreigns
            &&& !(item.node is Mac) ==> r.macros == o.macros
            &&& r.structs.take(o.structs.len() as int) == o.structs
            &&& r.enums.take(o.enums.len() as int) == o.enums
            &&& r.fns.take(o.fns.len() as int) == o.fns
            &&& r.typedefs.take(o.typedefs.len() as int) == o.typedefs
            &&& r.statics.take(o.statics.len() as int) == o.statics
            &&& r.traits.take(o.traits.len() as int) == o.traits
            &&& r.impls.take(o.impls.len() as int) == o.impls
            &&& r.foreigns.take(o.foreigns.len() as int) == o.foreigns
            &&& r.macros.take(o.macros.len() as int) == o.macros
            &&& match item.node {
                ItemKind::Impl(gen, tr, ty, meths) => {
                    let i = r.impls.last();
                    &&& i.trait_ == tr && i.generics == gen && i.for_ == ty && i.methods == meths
                    &&& i.attrs == item.attrs && i.id == item.id && i.where_ == item.span
                    &&& i.vis == item.vis
                },
                ItemKind::Struct(sd, gen) => {
                    let s = r.structs.last();
                    &&& s.name == item.ident && s.id == item.id && s.vis == item.vis
                    &&& s.attrs == item.attrs && s.where_ == item.span && s.generics == gen
                    &&& s.fields == sd.fields
                    &&& (s.struct_type == StructType::Plain) == (sd.ctor_id is None)
                    &&& s.struct_type == StructType::Unit ==> (*sd.fields)@.len() == 0
                    &&& s.struct_type == StructType::Newtype ==> (*sd.fields)@.len() == 1
                    &&& s.struct_type == StructType::Tuple ==> (*sd.fields)@.len() > 1
                },
                ItemKind::Enum(def, gen) => {
                    let e = r.enums.last();
                    &&& e.name == item.ident && e.id == item.id && e.vis == item.vis
                    &&& e.attrs == item.attrs && e.where_ == item.span && e.generics == gen
                    &&& e.variants.len() == def.variants@.len()
                    &&& forall|k: int|
                        0 <= k < e.variants.len() ==> {
                            let x = #[trigger] e.variants[k];
                            let y = def.variants@[k];
                            &&& x.name == y.name && x.id == y.id && x.vis == y.vis
                            &&& x.attrs == y.attrs && x.kind == y.kind && x.where_ == y.span
                        }
                },
                ItemKind::Fn(fd, style, _, gen) => {
                    let f = r.fns.last();
                    &&& f.name == item.ident && f.id == item.id && f.vis == item.vis
                    &&& f.attrs == item.attrs && f.where_ == item.span && f.generics == gen
                    &&& f.decl == fd && f.fn_style == style
                },
                ItemKind::Ty(ty, gen) => {
                    let t = r.typedefs.last();
                    &&& t.name == item.ident && t.id == item.id && t.vis == item.vis
                    &&& t.attrs == item.attrs && t.where_ == item.span && t.ty == ty && t.gen == gen
                },
                ItemKind::Static(ty, m, e) => {
                    let s = r.statics.last();
                    &&& s.name == item.ident && s.id == item.id && s.vis == item.vis
                    &&& s.attrs == item.attrs && s.where_ == item.span && s.type_ == ty
                    &&& s.mutability == m && s.expr == e
                },
                ItemKind::Trait(gen, parents, methods) => {
                    let t = r.traits.last();
                    &&& t.name == item.ident && t.id == item.id && t.vis == item.vis
                    &&& t.attrs == item.attrs && t.where_ == item.span && t.generics == gen
                    &&& t.parents == parents && t.methods == methods
                },
                ItemKind::ForeignMod(fm) => r.foreigns.last() == fm,
                ItemKind::Mac(_) => {
                    let m = r.macros.last();
                    &&& m.name == item.ident && m.id == item.id && m.attrs == item.attrs
                    &&& m.where_ == item.span
                },
                ItemKind::Mod(_) => true,
            }
        }),
{
    let c = choose|f: nat| walk_item(v.cx, v.analysis, f, v.prefix(), w, item) is Some;
    let r = walk_item(v.cx, v.analysis, c, v.prefix(), w, item).unwrap().om;
    let o = w.om;
    assert(r.structs.take(o.structs.len() as int) =~= o.structs);
    assert(r.enums.take(o.enums.len() as int) =~= o.enums);
    assert(r.fns.take(o.fns.len() as int) =~= o.fns);
    assert(r.typedefs.take(o.typedefs.len() as int) =~= o.typedefs);
    assert(r.statics.take(o.statics.len() as int) =~= o.statics);
    assert(r.traits.take(o.traits.len() as int) =~= o.traits);
    assert(r.impls.take(o.impls.len() as int) =~= o.impls);
    assert(r.foreigns.take(o.foreigns.len() as int) =~= o.foreigns);
    assert(r.macros.take(o.macros.len() as int) =~= o.macros);
}

} // verus!
