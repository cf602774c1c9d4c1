//! What every step of the collector keeps: it only adds to what it has
//! collected, the trace only grows, and its result does not depend on how
//! deep it was allowed to follow imports once that was deep enough.

use vstd::prelude::*;
use std::rc::Rc;
use crate::ast::{Item, ItemKind, Mod, NodeId, PathListIdent, ViewItem, ViewPath, ViewPathKind};
use crate::context::{find_entry, CrateAnalysis, DocContext, MapNode, MaybeTyped};
use crate::doctree::ModuleV;
use crate::visitor::{
    walk_item, walk_items, walk_list, walk_mod, walk_resolve, walk_view_item, walk_view_items,
    walk_view_path, RustdocVisitor, Walk,
};

verus! {

/// The value behind a shared pointer.
pub open spec fn unshare<T>(r: Rc<T>) -> T {
    *r
}

/// `b` holds all that `a` holds, in the same order, and perhaps more after
/// it; the module's own name, attributes, spans, node and visibility are
/// the same.
pub open spec fn module_grows(a: ModuleV, b: ModuleV) -> bool {
    &&& a.name == b.name
    &&& a.attrs == b.attrs
    &&& a.where_outer == b.where_outer
    &&& a.where_inner == b.where_inner
    &&& a.id == b.id
    &&& a.is_crate == b.is_crate
    &&& a.vis == b.vis
    &&& a.structs.is_prefix_of(b.structs)
    &&& a.enums.is_prefix_of(b.enums)
    &&& a.fns.is_prefix_of(b.fns)
    &&& a.mods.is_prefix_of(b.mods)
    &&& a.typedefs.is_prefix_of(b.typedefs)
    &&& a.statics.is_prefix_of(b.statics)
    &&& a.traits.is_prefix_of(b.traits)
    &&& a.impls.is_prefix_of(b.impls)
    &&& a.foreigns.is_prefix_of(b.foreigns)
    &&& a.view_items.is_prefix_of(b.view_items)
    &&& a.macros.is_prefix_of(b.macros)
}

/// The walk `b` continues the walk `a`: its module grows from `a`'s and its
/// trace begins with `a`'s.
pub open spec fn walk_grows(a: Walk, b: Walk) -> bool {
    module_grows(a.om, b.om) && a.log.is_prefix_of(b.log)
}

proof fn lemma_prefix_trans<A>(a: Seq<A>, b: Seq<A>, c: Seq<A>)
    requires
        a.is_prefix_of(b),
        b.is_prefix_of(c),
    ensures
        a.is_prefix_of(c),
{
    assert(a =~= c.subrange(0, a.len() as int));
}

proof fn lemma_prefix_push<A>(a: Seq<A>, x: A)
    ensures
        a.is_prefix_of(a.push(x)),
{
    assert(a =~= a.push(x).subrange(0, a.len() as int));
}

proof fn lemma_prefix_append<A>(a: Seq<A>, b: Seq<A>)
    ensures
        a.is_prefix_of(a + b),
{
    assert(a =~= (a + b).subrange(0, a.len() as int));
}

proof fn lemma_prefix_refl<A>(a: Seq<A>)
    ensures
        a.is_prefix_of(a),
{
    assert(a =~= a.subrange(0, a.len() as int));
}

proof fn lemma_grows_refl(w: Walk)
    ensures
        walk_grows(w, w),
{
    lemma_prefix_refl(w.log);
    lemma_prefix_refl(w.om.structs);
    lemma_prefix_refl(w.om.enums);
    lemma_prefix_refl(w.om.fns);
    lemma_prefix_refl(w.om.mods);
    lemma_prefix_refl(w.om.typedefs);
    lemma_prefix_refl(w.om.statics);
    lemma_prefix_refl(w.om.traits);
    lemma_prefix_refl(w.om.impls);
    lemma_prefix_refl(w.om.foreigns);
    lemma_prefix_refl(w.om.view_items);
    lemma_prefix_refl(w.om.macros);
}

proof fn lemma_grows_trans(a: Walk, b: Walk, c: Walk)
    requires
        walk_grows(a, b),
        walk_grows(b, c),
    ensures
        walk_grows(a, c),
{
    lemma_prefix_trans(a.log, b.log, c.log);
    lemma_prefix_trans(a.om.structs, b.om.structs, c.om.structs);
    lemma_prefix_trans(a.om.enums, b.om.enums, c.om.enums);
    lemma_prefix_trans(a.om.fns, b.om.fns, c.om.fns);
    lemma_prefix_trans(a.om.mods, b.om.mods, c.om.mods);
    lemma_prefix_trans(a.om.typedefs, b.om.typedefs, c.om.typedefs);
    lemma_prefix_trans(a.om.statics, b.om.statics, c.om.statics);
    lemma_prefix_trans(a.om.traits, b.om.traits, c.om.traits);
    lemma_prefix_trans(a.om.impls, b.om.impls, c.om.impls);
    lemma_prefix_trans(a.om.foreigns, b.om.foreigns, c.om.foreigns);
    lemma_prefix_trans(a.om.view_items, b.om.view_items, c.om.view_items);
    lemma_prefix_trans(a.om.macros, b.om.macros, c.om.macros);
}

/// A walk whose module is unchanged and whose trace is extended grows.
proof fn lemma_grows_log(w: Walk, extra: Seq<char>)
    ensures
        walk_grows(w, Walk { om: w.om, log: w.log + extra }),
{
    lemma_grows_refl(w);
    lemma_prefix_append(w.log, extra);
}

/// Visiting an item only adds to the walk.
pub proof fn lemma_walk_item_grows(
    cx: &DocContext,
    an: Option<&CrateAnalysis>,
    fuel: nat,
    prefix: Seq<char>,
    w: Walk,
    item: Item,
)
    requires
        walk_item(cx, an, fuel, prefix, w, item) is Some,
    ensures
        walk_grows(w, walk_item(cx, an, fuel, prefix, w, item).unwrap()),
    decreases fuel, 4int, item,
{
    let r = walk_item(cx, an, fuel, prefix, w, item).unwrap();
    lemma_grows_refl(w);
    let name = item.ident@;
    match item.node {
        ItemKind::Mod(m) => {
            let log1 = w.log + crate::visitor::trace_line("!m "@, prefix, name);
            lemma_walk_mod_log_grows(
                cx,
                an,
                fuel,
                prefix + "::"@ + name,
                log1,
                item.span,
                item.attrs,
                item.vis,
                item.id,
                m,
                Some(item.ident),
            );
            let inner = walk_mod(
                cx,
                an,
                fuel,
                prefix + "::"@ + name,
                log1,
                item.span,
                item.attrs,
                item.vis,
                item.id,
                m,
                Some(item.ident),
            ).unwrap();
            lemma_prefix_append(w.log, crate::visitor::trace_line("!m "@, prefix, name));
            lemma_prefix_trans(w.log, log1, inner.log);
            lemma_prefix_push(w.om.mods, inner.om);
        },
        ItemKind::Enum(..) => {
            lemma_prefix_push(w.om.enums, r.om.enums.last());
            lemma_prefix_append(w.log, r.log.subrange(w.log.len() as int, r.log.len() as int));
            assert(w.log + r.log.subrange(w.log.len() as int, r.log.len() as int) =~= r.log);
        },
        ItemKind::Struct(..) => {
            lemma_prefix_push(w.om.structs, r.om.structs.last());
            lemma_prefix_append(w.log, r.log.subrange(w.log.len() as int, r.log.len() as int));
            assert(w.log + r.log.subrange(w.log.len() as int, r.log.len() as int) =~= r.log);
        },
        ItemKind::Fn(..) => {
            lemma_prefix_push(w.om.fns, r.om.fns.last());
            lemma_prefix_append(w.log, r.log.subrange(w.log.len() as int, r.log.len() as int));
            assert(w.log + r.log.subrange(w.log.len() as int, r.log.len() as int) =~= r.log);
        },
        ItemKind::Ty(..) => {
            lemma_prefix_push(w.om.typedefs, r.om.typedefs.last());
            lemma_prefix_append(w.log, r.log.subrange(w.log.len() as int, r.log.len() as int));
            assert(w.log + r.log.subrange(w.log.len() as int, r.log.len() as int) =~= r.log);
        },
        ItemKind::Static(..) => {
            lemma_prefix_push(w.om.statics, r.om.statics.last());
            lemma_prefix_append(w.log, r.log.subrange(w.log.len() as int, r.log.len() as int));
            assert(w.log + r.log.subrange(w.log.len() as int, r.log.len() as int) =~= r.log);
        },
        ItemKind::Trait(..) => {
            lemma_prefix_push(w.om.traits, r.om.traits.last());
            lemma_prefix_append(w.log, r.log.subrange(w.log.len() as int, r.log.len() as int));
            assert(w.log + r.log.subrange(w.log.len() as int, r.log.len() as int) =~= r.log);
        },
        ItemKind::Impl(..) => {
            lemma_prefix_push(w.om.impls, r.om.impls.last());
            lemma_prefix_append(w.log, r.log.subrange(w.log.len() as int, r.log.len() as int));
            assert(w.log + r.log.subrange(w.log.len() as int, r.log.len() as int) =~= r.log);
        },
        ItemKind::ForeignMod(fm) => {
            lemma_prefix_push(w.om.foreigns, fm);
        },
        ItemKind::Mac(..) => {
            lemma_prefix_push(w.om.macros, r.om.macros.last());
        },
    }
}

/// Visiting the contents of a module only extends the trace.
pub proof fn lemma_walk_mod_log_grows(
    cx: &DocContext,
    an: Option<&CrateAnalysis>,
    fuel: nat,
    prefix: Seq<char>,
    log: Seq<char>,
    span: crate::ast::Span,
    attrs: Rc<Vec<crate::ast::Attribute>>,
    vis: crate::ast::Visibility,
    id: NodeId,
    m: Mod,
    name: Option<String>,
)
    requires
        walk_mod(cx, an, fuel, prefix, log, span, attrs, vis, id, m, name) is Some,
    ensures
        log.is_prefix_of(walk_mod(cx, an, fuel, prefix, log, span, attrs, vis, id, m, name).unwrap().log),
    decreases fuel, 4int, m,
{
    let w0 = Walk { om: crate::doctree::empty_module(name), log };
    lemma_walk_view_items_grows(cx, an, fuel, prefix, w0, m.view_items@);
    let w1 = walk_view_items(cx, an, fuel, prefix, w0, m.view_items@).unwrap();
    let w1b = Walk {
        om: ModuleV {
            where_outer: span,
            where_inner: m.inner,
            attrs: (*attrs)@,
            vis,
            id,
            ..w1.om
        },
        log: w1.log,
    };
    lemma_walk_items_grows(cx, an, fuel, prefix, w1b, m.items@);
    let w2 = walk_items(cx, an, fuel, prefix, w1b, m.items@).unwrap();
    lemma_prefix_trans(log, w1.log, w2.log);
}

/// Visiting a sequence of imports only adds to the walk.
pub proof fn lemma_walk_view_items_grows(
    cx: &DocContext,
    an: Option<&CrateAnalysis>,
    fuel: nat,
    prefix: Seq<char>,
    w: Walk,
    vis: Seq<ViewItem>,
)
    requires
        walk_view_items(cx, an, fuel, prefix, w, vis) is Some,
    ensures
        walk_grows(w, walk_view_items(cx, an, fuel, prefix, w, vis).unwrap()),
    decreases fuel, 3int, vis,
{
    if vis.len() == 0 {
        lemma_grows_refl(w);
    } else {
        let init = vis.subrange(0, vis.len() - 1);
        lemma_walk_view_items_grows(cx, an, fuel, prefix, w, init);
        let w1 = walk_view_items(cx, an, fuel, prefix, w, init).unwrap();
        lemma_walk_view_item_grows(cx, an, fuel, prefix, w1, vis[vis.len() - 1]);
        lemma_grows_trans(
            w,
            w1,
            walk_view_item(cx, an, fuel, prefix, w1, vis[vis.len() - 1]).unwrap(),
        );
    }
}

/// Visiting a sequence of items only adds to the walk.
pub proof fn lemma_walk_items_grows(
    cx: &DocContext,
    an: Option<&CrateAnalysis>,
    fuel: nat,
    prefix: Seq<char>,
    w: Walk,
    items: Seq<Rc<Item>>,
)
    requires
        walk_items(cx, an, fuel, prefix, w, items) is Some,
    ensures
        walk_grows(w, walk_items(cx, an, fuel, prefix, w, items).unwrap()),
    decreases fuel, 4int, items,
{
    if items.len() == 0 {
        lemma_grows_refl(w);
    } else {
        let init = items.subrange(0, items.len() - 1);
        lemma_walk_items_grows(cx, an, fuel, prefix, w, init);
        let w1 = walk_items(cx, an, fuel, prefix, w, init).unwrap();
        lemma_walk_item_grows(cx, an, fuel, prefix, w1, unshare(items[items.len() - 1]));
        lemma_grows_trans(
            w,
            w1,
            walk_item(cx, an, fuel, prefix, w1, unshare(items[items.len() - 1])).unwrap(),
        );
    }
}

/// Visiting an import only adds to the walk.
pub proof fn lemma_walk_view_item_grows(
    cx: &DocContext,
    an: Option<&CrateAnalysis>,
    fuel: nat,
    prefix: Seq<char>,
    w: Walk,
    item: ViewItem,
)
    requires
        walk_view_item(cx, an, fuel, prefix, w, item) is Some,
    ensures
        walk_grows(w, walk_view_item(cx, an, fuel, prefix, w, item).unwrap()),
    decreases fuel, 3int, item,
{
    lemma_grows_refl(w);
    if item.vis != crate::ast::Visibility::Public {
        lemma_prefix_push(w.om.view_items, item@);
    } else {
        let extra = "// visitor vi => "@ + crate::utils::view_item_text(item) + "\n"@;
        let w1 = Walk {
            om: w.om,
            log: w.log + "// visitor vi => "@ + crate::utils::view_item_text(item) + "\n"@,
        };
        assert(w1.log =~= w.log + extra);
        lemma_grows_log(w, extra);
        match item.node {
            crate::ast::ViewItemKind::Use(vp) => {
                let inline = crate::visitor::please_inline((*item.attrs)@);
                let res = walk_view_path(cx, an, fuel, prefix, w1, unshare(vp), inline);
                assert(res is Some);
                lemma_walk_view_path_grows(cx, an, fuel, prefix, w1, unshare(vp), inline);
                let w2 = res.unwrap().0;
                lemma_grows_trans(w, w1, w2);
                match res.unwrap().1 {
                    Some(pv) => {
                        let v = crate::ast::ViewItemV {
                            node: crate::ast::ViewItemKindV::Use(pv),
                            attrs: item.attrs,
                            vis: item.vis,
                            span: item.span,
                        };
                        let r2 = Walk { om: crate::visitor::with_view_item(w2.om, v), log: w2.log };
                        lemma_grows_refl(w2);
                        lemma_prefix_push(w2.om.view_items, v);
                        assert(walk_grows(w2, r2));
                        lemma_grows_trans(w, w2, r2);
                    },
                    None => {},
                }
            },
            crate::ast::ViewItemKind::ExternCrate(..) => {
                lemma_grows_refl(w1);
                lemma_prefix_push(w1.om.view_items, item@);
                let r2 = Walk { om: crate::visitor::with_view_item(w1.om, item@), log: w1.log };
                assert(walk_grows(w1, r2));
                lemma_grows_trans(w, w1, r2);
            },
        }
    }
}

/// Visiting the path of an import only adds to the walk.
pub proof fn lemma_walk_view_path_grows(
    cx: &DocContext,
    an: Option<&CrateAnalysis>,
    fuel: nat,
    prefix: Seq<char>,
    w: Walk,
    vp: ViewPath,
    inline: bool,
)
    requires
        walk_view_path(cx, an, fuel, prefix, w, vp, inline) is Some,
    ensures
        walk_grows(w, walk_view_path(cx, an, fuel, prefix, w, vp, inline).unwrap().0),
    decreases fuel, 2int, vp,
{
    match vp.node {
        ViewPathKind::Simple(ident, _, id) => {
            let extra = crate::visitor::trace_line("!  "@, prefix, ident@);
            let w1 = Walk { om: w.om, log: w.log + extra };
            lemma_grows_log(w, extra);
            let res = walk_resolve(cx, an, fuel, prefix, w1, id, false, inline);
            assert(res is Some);
            lemma_walk_resolve_grows(cx, an, fuel, prefix, w1, id, false, inline);
            lemma_grows_trans(w, w1, res.unwrap().0);
        },
        ViewPathKind::List(_, paths, _) => {
            lemma_walk_list_grows(cx, an, fuel, prefix, w, paths@, inline);
        },
        ViewPathKind::Glob(_, id) => {
            let extra = "!! "@ + prefix + "::*\n"@;
            let w1 = Walk { om: w.om, log: w.log + "!! "@ + prefix + "::*\n"@ };
            assert(w1.log =~= w.log + extra);
            lemma_grows_log(w, extra);
            let res = walk_resolve(cx, an, fuel, prefix, w1, id, true, inline);
            assert(res is Some);
            lemma_walk_resolve_grows(cx, an, fuel, prefix, w1, id, true, inline);
            lemma_grows_trans(w, w1, res.unwrap().0);
        },
    }
}

/// Visiting the names of an import list only adds to the walk.
pub proof fn lemma_walk_list_grows(
    cx: &DocContext,
    an: Option<&CrateAnalysis>,
    fuel: nat,
    prefix: Seq<char>,
    w: Walk,
    paths: Seq<PathListIdent>,
    inline: bool,
)
    requires
        walk_list(cx, an, fuel, prefix, w, paths, inline) is Some,
    ensures
        walk_grows(w, walk_list(cx, an, fuel, prefix, w, paths, inline).unwrap().0),
    decreases fuel, 1int, paths,
{
    if paths.len() == 0 {
        lemma_grows_refl(w);
    } else {
        let init = paths.subrange(0, paths.len() - 1);
        lemma_walk_list_grows(cx, an, fuel, prefix, w, init, inline);
        let w1 = walk_list(cx, an, fuel, prefix, w, init, inline).unwrap().0;
        let path = paths[paths.len() - 1];
        let extra = crate::visitor::trace_line("!* "@, prefix, path.name@);
        let w1b = Walk { om: w1.om, log: w1.log + extra };
        lemma_grows_log(w1, extra);
        lemma_grows_trans(w, w1, w1b);
        lemma_walk_resolve_grows(cx, an, fuel, prefix, w1b, path.id, false, inline);
        lemma_grows_trans(
            w,
            w1b,
            walk_resolve(cx, an, fuel, prefix, w1b, path.id, false, inline).unwrap().0,
        );
    }
}

/// Resolving an import only adds to the walk.
pub proof fn lemma_walk_resolve_grows(
    cx: &DocContext,
    an: Option<&CrateAnalysis>,
    fuel: nat,
    prefix: Seq<char>,
    w: Walk,
    id: NodeId,
    glob: bool,
    inline: bool,
)
    requires
        walk_resolve(cx, an, fuel, prefix, w, id, glob, inline) is Some,
    ensures
        walk_grows(w, walk_resolve(cx, an, fuel, prefix, w, id, glob, inline).unwrap().0),
    decreases fuel, 0int, w,
{
    lemma_grows_refl(w);
    match cx.maybe_typed {
        MaybeTyped::NotTyped => {},
        MaybeTyped::Typed(tcx) => {
            let def = find_entry(tcx.def_map@, id).unwrap();
            match find_entry(tcx.map@, def.node) {
                Some(MapNode::NodeItem(it)) => {
                    if fuel > 0 && def.krate == crate::ast::LOCAL_CRATE && an is Some && (inline
                        || !an.unwrap().public_items@.contains(def.node)) {
                        let f = (fuel - 1) as nat;
                        if glob {
                            match it.node {
                                ItemKind::Mod(m) => {
                                    lemma_walk_view_items_grows(cx, an, f, prefix, w, m.view_items@);
                                    let w1 = walk_view_items(cx, an, f, prefix, w, m.view_items@).unwrap();
                                    lemma_walk_items_grows(cx, an, f, prefix, w1, m.items@);
                                    lemma_grows_trans(
                                        w,
                                        w1,
                                        walk_items(cx, an, f, prefix, w1, m.items@).unwrap(),
                                    );
                                },
                                _ => {},
                            }
                        } else {
                            lemma_walk_item_grows(cx, an, f, prefix, w, unshare(it));
                        }
                    }
                },
                _ => {},
            }
        },
    }
}

/// A walk that gets through with some budget of nested resolutions gets
/// through with any larger budget, with the same result.
pub proof fn lemma_walk_item_fuel(
    cx: &DocContext,
    an: Option<&CrateAnalysis>,
    f1: nat,
    f2: nat,
    prefix: Seq<char>,
    w: Walk,
    item: Item,
)
    requires
        walk_item(cx, an, f1, prefix, w, item) is Some,
        f1 <= f2,
    ensures
        walk_item(cx, an, f2, prefix, w, item) == walk_item(cx, an, f1, prefix, w, item),
    decreases f1, 4int, item,
{
    match item.node {
        ItemKind::Mod(m) => {
            let name = item.ident@;
            lemma_walk_mod_fuel(
                cx,
                an,
                f1,
                f2,
                prefix + "::"@ + name,
                w.log + crate::visitor::trace_line("!m "@, prefix, name),
                item.span,
                item.attrs,
                item.vis,
                item.id,
                m,
                Some(item.ident),
            );
        },
        _ => {},
    }
}

/// [`lemma_walk_item_fuel`] for the contents of a module.
pub proof fn lemma_walk_mod_fuel(
    cx: &DocContext,
    an: Option<&CrateAnalysis>,
    f1: nat,
    f2: nat,
    prefix: Seq<char>,
    log: Seq<char>,
    span: crate::ast::Span,
    attrs: Rc<Vec<crate::ast::Attribute>>,
    vis: crate::ast::Visibility,
    id: NodeId,
    m: Mod,
    name: Option<String>,
)
    requires
        walk_mod(cx, an, f1, prefix, log, span, attrs, vis, id, m, name) is Some,
        f1 <= f2,
    ensures
        walk_mod(cx, an, f2, prefix, log, span, attrs, vis, id, m, name) == walk_mod(
            cx,
            an,
            f1,
            prefix,
            log,
            span,
            attrs,
            vis,
            id,
            m,
            name,
        ),
    decreases f1, 4int, m,
{
    let w0 = Walk { om: crate::doctree::empty_module(name), log };
    lemma_walk_view_items_fuel(cx, an, f1, f2, prefix, w0, m.view_items@);
    let w1 = walk_view_items(cx, an, f1, prefix, w0, m.view_items@).unwrap();
    let w1b = Walk {
        om: ModuleV {
            where_outer: span,
            where_inner: m.inner,
            attrs: (*attrs)@,
            vis,
            id,
            ..w1.om
        },
        log: w1.log,
    };
    lemma_walk_items_fuel(cx, an, f1, f2, prefix, w1b, m.items@);
}

/// [`lemma_walk_item_fuel`] for a sequence of imports.
pub proof fn lemma_walk_view_items_fuel(
    cx: &DocContext,
    an: Option<&CrateAnalysis>,
    f1: nat,
    f2: nat,
    prefix: Seq<char>,
    w: Walk,
    vis: Seq<ViewItem>,
)
    requires
        walk_view_items(cx, an, f1, prefix, w, vis) is Some,
        f1 <= f2,
    ensures
        walk_view_items(cx, an, f2, prefix, w, vis) == walk_view_items(cx, an, f1, prefix, w, vis),
    decreases f1, 3int, vis,
{
    if vis.len() > 0 {
        let init = vis.subrange(0, vis.len() - 1);
        lemma_walk_view_items_fuel(cx, an, f1, f2, prefix, w, init);
        let w1 = walk_view_items(cx, an, f1, prefix, w, init).unwrap();
        lemma_walk_view_item_fuel(cx, an, f1, f2, prefix, w1, vis[vis.len() - 1]);
    }
}

/// [`lemma_walk_item_fuel`] for a sequence of items.
pub proof fn lemma_walk_items_fuel(
    cx: &DocContext,
    an: Option<&CrateAnalysis>,
    f1: nat,
    f2: nat,
    prefix: Seq<char>,
    w: Walk,
    items: Seq<Rc<Item>>,
)
    requires
        walk_items(cx, an, f1, prefix, w, items) is Some,
        f1 <= f2,
    ensures
        walk_items(cx, an, f2, prefix, w, items) == walk_items(cx, an, f1, prefix, w, items),
    decreases f1, 4int, items,
{
    if items.len() > 0 {
        let init = items.subrange(0, items.len() - 1);
        lemma_walk_items_fuel(cx, an, f1, f2, prefix, w, init);
        let w1 = walk_items(cx, an, f1, prefix, w, init).unwrap();
        lemma_walk_item_fuel(cx, an, f1, f2, prefix, w1, unshare(items[items.len() - 1]));
    }
}

/// [`lemma_walk_item_fuel`] for an import.
pub proof fn lemma_walk_view_item_fuel(
    cx: &DocContext,
    an: Option<&CrateAnalysis>,
    f1: nat,
    f2: nat,
    prefix: Seq<char>,
    w: Walk,
    item: ViewItem,
)
    requires
        walk_view_item(cx, an, f1, prefix, w, item) is Some,
        f1 <= f2,
    ensures
        walk_view_item(cx, an, f2, prefix, w, item) == walk_view_item(cx, an, f1, prefix, w, item),
    decreases f1, 3int, item,
{
    if item.vis == crate::ast::Visibility::Public {
        match item.node {
            crate::ast::ViewItemKind::Use(vp) => {
                let w1 = Walk {
                    om: w.om,
                    log: w.log + "// visitor vi => "@ + crate::utils::view_item_text(item) + "\n"@,
                };
                let inline = crate::visitor::please_inline((*item.attrs)@);
                assert(walk_view_path(cx, an, f1, prefix, w1, unshare(vp), inline) is Some);
                lemma_walk_view_path_fuel(cx, an, f1, f2, prefix, w1, unshare(vp), inline);
            },
            _ => {},
        }
    }
}

/// [`lemma_walk_item_fuel`] for the path of an import.
pub proof fn lemma_walk_view_path_fuel(
    cx: &DocContext,
    an: Option<&CrateAnalysis>,
    f1: nat,
    f2: nat,
    prefix: Seq<char>,
    w: Walk,
    vp: ViewPath,
    inline: bool,
)
    requires
        walk_view_path(cx, an, f1, prefix, w, vp, inline) is Some,
        f1 <= f2,
    ensures
        walk_view_path(cx, an, f2, prefix, w, vp, inline) == walk_view_path(
            cx,
            an,
            f1,
            prefix,
            w,
            vp,
            inline,
        ),
    decreases f1, 2int, vp,
{
    match vp.node {
        ViewPathKind::Simple(ident, _, id) => {
            let w1 = Walk {
                om: w.om,
                log: w.log + crate::visitor::trace_line("!  "@, prefix, ident@),
            };
            assert(walk_resolve(cx, an, f1, prefix, w1, id, false, inline) is Some);
            lemma_walk_resolve_fuel(cx, an, f1, f2, prefix, w1, id, false, inline);
        },
        ViewPathKind::List(_, paths, _) => {
            lemma_walk_list_fuel(cx, an, f1, f2, prefix, w, paths@, inline);
        },
        ViewPathKind::Glob(_, id) => {
            let w1 = Walk { om: w.om, log: w.log + "!! "@ + prefix + "::*\n"@ };
            assert(walk_resolve(cx, an, f1, prefix, w1, id, true, inline) is Some);
            lemma_walk_resolve_fuel(cx, an, f1, f2, prefix, w1, id, true, inline);
        },
    }
}

/// [`lemma_walk_item_fuel`] for the names of an import list.
pub proof fn lemma_walk_list_fuel(
    cx: &DocContext,
    an: Option<&CrateAnalysis>,
    f1: nat,
    f2: nat,
    prefix: Seq<char>,
    w: Walk,
    paths: Seq<PathListIdent>,
    inline: bool,
)
    requires
        walk_list(cx, an, f1, prefix, w, paths, inline) is Some,
        f1 <= f2,
    ensures
        walk_list(cx, an, f2, prefix, w, paths, inline) == walk_list(
            cx,
            an,
            f1,
            prefix,
            w,
            paths,
            inline,
        ),
    decreases f1, 1int, paths,
{
    if paths.len() > 0 {
        let init = paths.subrange(0, paths.len() - 1);
        lemma_walk_list_fuel(cx, an, f1, f2, prefix, w, init, inline);
        let w1 = walk_list(cx, an, f1, prefix, w, init, inline).unwrap().0;
        let path = paths[paths.len() - 1];
        let w1b = Walk {
            om: w1.om,
            log: w1.log + crate::visitor::trace_line("!* "@, prefix, path.name@),
        };
        lemma_walk_resolve_fuel(cx, an, f1, f2, prefix, w1b, path.id, false, inline);
    }
}

/// [`lemma_walk_item_fuel`] for the resolution of an import.
pub proof fn lemma_walk_resolve_fuel(
    cx: &DocContext,
    an: Option<&CrateAnalysis>,
    f1: nat,
    f2: nat,
    prefix: Seq<char>,
    w: Walk,
    id: NodeId,
    glob: bool,
    inline: bool,
)
    requires
        walk_resolve(cx, an, f1, prefix, w, id, glob, inline) is Some,
        f1 <= f2,
    ensures
        walk_resolve(cx, an, f2, prefix, w, id, glob, inline) == walk_resolve(
            cx,
            an,
            f1,
            prefix,
            w,
            id,
            glob,
            inline,
        ),
    decreases f1, 0int, w,
{
    match cx.maybe_typed {
        MaybeTyped::NotTyped => {},
        MaybeTyped::Typed(tcx) => {
            let def = find_entry(tcx.def_map@, id).unwrap();
            match find_entry(tcx.map@, def.node) {
                Some(MapNode::NodeItem(it)) => {
                    if f1 > 0 && def.krate == crate::ast::LOCAL_CRATE && an is Some && (inline
                        || !an.unwrap().public_items@.contains(def.node)) {
                        let g1 = (f1 - 1) as nat;
                        let g2 = (f2 - 1) as nat;
                        if glob {
                            match it.node {
                                ItemKind::Mod(m) => {
                                    lemma_walk_view_items_fuel(cx, an, g1, g2, prefix, w, m.view_items@);
                                    let w1 = walk_view_items(cx, an, g1, prefix, w, m.view_items@).unwrap();
                                    lemma_walk_items_fuel(cx, an, g1, g2, prefix, w1, m.items@);
                                },
                                _ => {},
                            }
                        } else {
                            lemma_walk_item_fuel(cx, an, g1, g2, prefix, w, unshare(it));
                        }
                    }
                },
                _ => {},
            }
        },
    }
}

/// Visiting an item gives what any budget of nested resolutions that
/// suffices gives: the result of [`RustdocVisitor::visit_item`] is that of
/// the walk, whatever budget it is computed with.
pub proof fn lemma_item_walk_any_fuel(v: &RustdocVisitor, w: Walk, item: Item, f: nat)
    requires
        walk_item(v.cx, v.analysis, f, v.prefix(), w, item) is Some,
    ensures
        v.item_walk(w, item) == walk_item(v.cx, v.analysis, f, v.prefix(), w, item),
{
    let c = choose|g: nat| walk_item(v.cx, v.analysis, g, v.prefix(), w, item) is Some;
    if c <= f {
        lemma_walk_item_fuel(v.cx, v.analysis, c, f, v.prefix(), w, item);
    } else {
        lemma_walk_item_fuel(v.cx, v.analysis, f, c, v.prefix(), w, item);
    }
}

/// Visiting an import gives what any budget that suffices gives.
pub proof fn lemma_view_item_walk_any_fuel(v: &RustdocVisitor, w: Walk, item: ViewItem, f: nat)
    requires
        walk_view_item(v.cx, v.analysis, f, v.prefix(), w, item) is Some,
    ensures
        v.view_item_walk(w, item) == walk_view_item(v.cx, v.analysis, f, v.prefix(), w, item),
{
    let c = choose|g: nat| walk_view_item(v.cx, v.analysis, g, v.prefix(), w, item) is Some;
    if c <= f {
        lemma_walk_view_item_fuel(v.cx, v.analysis, c, f, v.prefix(), w, item);
    } else {
        lemma_walk_view_item_fuel(v.cx, v.analysis, f, c, v.prefix(), w, item);
    }
}

/// What [`RustdocVisitor::visit_item`] does only adds to the module and to
/// the trace: everything collected before stays, in its order, and the
/// trace written before is the start of the trace after.
pub proof fn lemma_item_walk_grows(v: &RustdocVisitor, w: Walk, item: Item)
    requires
        exists|f: nat| walk_item(v.cx, v.analysis, f, v.prefix(), w, item) is Some,
    ensures
        walk_grows(w, v.item_walk(w, item).unwrap()),
{
    let c = choose|f: nat| walk_item(v.cx, v.analysis, f, v.prefix(), w, item) is Some;
    lemma_walk_item_grows(v.cx, v.analysis, c, v.prefix(), w, item);
}

/// What [`RustdocVisitor::visit_view_item`] does only adds to the module and
/// to the trace.
pub proof fn lemma_view_item_walk_grows(v: &RustdocVisitor, w: Walk, item: ViewItem)
    requires
        exists|f: nat| walk_view_item(v.cx, v.analysis, f, v.prefix(), w, item) is Some,
    ensures
        walk_grows(w, v.view_item_walk(w, item).unwrap()),
{
    let c = choose|f: nat| walk_view_item(v.cx, v.analysis, f, v.prefix(), w, item) is Some;
    lemma_walk_view_item_grows(v.cx, v.analysis, c, v.prefix(), w, item);
}

} // verus!
