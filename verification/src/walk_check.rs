//! Whether the collector can walk a crate: every import that it resolves
//! names a known definition, every local definition that it inlines is a
//! known node, every glob import that it inlines names a module, and
//! imports are followed no deeper than a given depth. Where one of these
//! fails, the walk of the crate stops the program; a caller tests this
//! before it walks.

use vstd::prelude::*;
use crate::ast::{
    Crate, Item, ItemKind, Mod, NodeId, PathListIdent, ViewItem, ViewItemKind, ViewPath, ViewPathKind,
    Visibility, LOCAL_CRATE, CRATE_NODE_ID,
};
use crate::context::{contains_node, find_def, find_node, CrateAnalysis, DocContext, MapNode, MaybeTyped};
use crate::visitor::{
    attrs_please_inline, trace_line, walk_item, walk_items, walk_list, walk_mod, walk_resolve,
    walk_view_item, walk_view_items, walk_view_path, Walk,
};
use std::rc::Rc;

verus! {

fn resolve_walks(
    cx: &DocContext,
    an: Option<&CrateAnalysis>,
    id: NodeId,
    glob: bool,
    inline: bool,
    fuel: u64,
) -> (r: bool)
    ensures
        forall|prefix: Seq<char>, w: Walk|
            (#[trigger] walk_resolve(cx, an, fuel as nat, prefix, w, id, glob, inline) is Some) == r,
    decreases fuel, 0int, *cx,
{
    let tcx = match &cx.maybe_typed {
        MaybeTyped::NotTyped => {
            return true;
        },
        MaybeTyped::Typed(t) => t,
    };
    let def = match find_def(&tcx.def_map, id) {
        None => {
            return false;
        },
        Some(d) => d,
    };
    if def.krate != LOCAL_CRATE {
        return true;
    }
    let a = match an {
        None => {
            return true;
        },
        Some(a) => a,
    };
    if !inline && contains_node(&a.public_items, def.node) {
        return true;
    }
    match find_node(&tcx.map, def.node) {
        None => false,
        Some(MapNode::NodeOther) => true,
        Some(MapNode::NodeItem(it)) => {
            if fuel == 0 {
                false
            } else if glob {
                match &it.node {
                    ItemKind::Mod(m) => {
                        let a = view_items_walk(cx, an, &m.view_items, fuel - 1);
                        let b = items_walk(cx, an, &m.items, fuel - 1);
                        proof {
                            assert forall|prefix: Seq<char>, w: Walk|
                                (#[trigger] walk_resolve(cx, an, fuel as nat, prefix, w, id, glob, inline)
                                    is Some) == (a && b) by {
                                let f = (fuel - 1) as nat;
                                if a {
                                    let w1 = walk_view_items(cx, an, f, prefix, w, m.view_items@).unwrap();
                                    assert(walk_items(cx, an, f, prefix, w1, m.items@) is Some == b);
                                }
                            }
                        }
                        a && b
                    },
                    _ => false,
                }
            } else {
                let r = item_walks(cx, an, &*it, fuel - 1);
                proof {
                    assert forall|prefix: Seq<char>, w: Walk|
                        (#[trigger] walk_resolve(cx, an, fuel as nat, prefix, w, id, glob, inline) is Some)
                            == r by {
                        assert(walk_item(cx, an, (fuel - 1) as nat, prefix, w, **it) is Some == r);
                    }
                }
                r
            }
        },
    }
}

fn list_walks(
    cx: &DocContext,
    an: Option<&CrateAnalysis>,
    paths: &Vec<PathListIdent>,
    inline: bool,
    fuel: u64,
) -> (r: bool)
    ensures
        forall|prefix: Seq<char>, w: Walk|
            (#[trigger] walk_list(cx, an, fuel as nat, prefix, w, paths@, inline) is Some) == r,
    decreases fuel, 1int, *paths,
{
    let n = paths.len();
    let mut ok = true;
    let mut i: usize = 0;
    proof {
        assert forall|prefix: Seq<char>, w: Walk|
            (#[trigger] walk_list(cx, an, fuel as nat, prefix, w, paths@.take(0), inline) is Some) == ok by {
            assert(paths@.take(0).len() == 0);
        }
    }
    while i < n
        invariant
            n == paths.len(),
            i <= n,
            forall|prefix: Seq<char>, w: Walk|
                (#[trigger] walk_list(cx, an, fuel as nat, prefix, w, paths@.take(i as int), inline) is Some)
                    == ok,
        decreases n - i,
    {
        let c = resolve_walks(cx, an, paths[i].id, false, inline, fuel);
        proof {
            assert(paths@.take(i + 1).subrange(0, i as int) =~= paths@.take(i as int));
            assert forall|prefix: Seq<char>, w: Walk|
                (#[trigger] walk_list(cx, an, fuel as nat, prefix, w, paths@.take(i + 1), inline) is Some)
                    == (ok && c) by {
                if ok {
                    let (w1, mine) = walk_list(cx, an, fuel as nat, prefix, w, paths@.take(i as int), inline)
                        .unwrap();
                    let w2 = Walk { om: w1.om, log: w1.log + trace_line("!* "@, prefix, paths@[i as int].name@) };
                    assert(walk_resolve(cx, an, fuel as nat, prefix, w2, paths@[i as int].id, false, inline)
                        is Some == c);
                }
            }
        }
        ok = ok && c;
        i = i + 1;
    }
    assert(paths@.take(n as int) =~= paths@);
    ok
}

fn view_path_walks(
    cx: &DocContext,
    an: Option<&CrateAnalysis>,
    vp: &Rc<ViewPath>,
    inline: bool,
    fuel: u64,
) -> (r: bool)
    ensures
        forall|prefix: Seq<char>, w: Walk|
            (#[trigger] walk_view_path(cx, an, fuel as nat, prefix, w, **vp, inline) is Some) == r,
    decreases fuel, 2int, **vp,
{
    match &vp.node {
        ViewPathKind::Simple(ident, _, id) => {
            let r = resolve_walks(cx, an, *id, false, inline, fuel);
            proof {
                assert forall|prefix: Seq<char>, w: Walk|
                    (#[trigger] walk_view_path(cx, an, fuel as nat, prefix, w, **vp, inline) is Some) == r by {
                    let w1 = Walk { om: w.om, log: w.log + trace_line("!  "@, prefix, ident@) };
                    assert(walk_resolve(cx, an, fuel as nat, prefix, w1, *id, false, inline) is Some == r);
                }
            }
            r
        },
        ViewPathKind::List(_, paths, _) => {
            let r = list_walks(cx, an, paths, inline, fuel);
            proof {
                assert forall|prefix: Seq<char>, w: Walk|
                    (#[trigger] walk_view_path(cx, an, fuel as nat, prefix, w, **vp, inline) is Some) == r by {
                    assert(walk_list(cx, an, fuel as nat, prefix, w, paths@, inline) is Some == r);
                }
            }
            r
        },
        ViewPathKind::Glob(_, id) => {
            let r = resolve_walks(cx, an, *id, true, inline, fuel);
            proof {
                assert forall|prefix: Seq<char>, w: Walk|
                    (#[trigger] walk_view_path(cx, an, fuel as nat, prefix, w, **vp, inline) is Some) == r by {
                    let w1 = Walk { om: w.om, log: w.log + "!! "@ + prefix + "::*\n"@ };
                    assert(walk_resolve(cx, an, fuel as nat, prefix, w1, *id, true, inline) is Some == r);
                }
            }
            r
        },
    }
}

fn view_item_walks(cx: &DocContext, an: Option<&CrateAnalysis>, item: &ViewItem, fuel: u64) -> (r: bool)
    ensures
        forall|prefix: Seq<char>, w: Walk|
            (#[trigger] walk_view_item(cx, an, fuel as nat, prefix, w, *item) is Some) == r,
    decreases fuel, 3int, *item,
{
    if item.vis != Visibility::Public {
        return true;
    }
    match &item.node {
        ViewItemKind::Use(vp) => {
            let inline = attrs_please_inline(&item.attrs);
            let r = view_path_walks(cx, an, vp, inline, fuel);
            proof {
                assert forall|prefix: Seq<char>, w: Walk|
                    (#[trigger] walk_view_item(cx, an, fuel as nat, prefix, w, *item) is Some) == r by {
                    let log1 = w.log + "// visitor vi => "@ + crate::utils::view_item_text(*item) + "\n"@;
                    assert(walk_view_path(cx, an, fuel as nat, prefix, Walk { om: w.om, log: log1 }, **vp, inline)
                        is Some == r);
                }
            }
            r
        },
        ViewItemKind::ExternCrate(..) => true,
    }
}

fn view_items_walk(cx: &DocContext, an: Option<&CrateAnalysis>, vis: &Vec<ViewItem>, fuel: u64) -> (r: bool)
    ensures
        forall|prefix: Seq<char>, w: Walk|
            (#[trigger] walk_view_items(cx, an, fuel as nat, prefix, w, vis@) is Some) == r,
    decreases fuel, 3int, *vis,
{
    let n = vis.len();
    let mut ok = true;
    let mut i: usize = 0;
    proof {
        assert forall|prefix: Seq<char>, w: Walk|
            (#[trigger] walk_view_items(cx, an, fuel as nat, prefix, w, vis@.take(0)) is Some) == ok by {
            assert(vis@.take(0).len() == 0);
        }
    }
    while i < n
        invariant
            n == vis.len(),
            i <= n,
            forall|prefix: Seq<char>, w: Walk|
                (#[trigger] walk_view_items(cx, an, fuel as nat, prefix, w, vis@.take(i as int)) is Some) == ok,
        decreases n - i,
    {
        let c = view_item_walks(cx, an, &vis[i], fuel);
        proof {
            assert(vis@.take(i + 1).subrange(0, i as int) =~= vis@.take(i as int));
            assert forall|prefix: Seq<char>, w: Walk|
                (#[trigger] walk_view_items(cx, an, fuel as nat, prefix, w, vis@.take(i + 1)) is Some)
                    == (ok && c) by {
                if ok {
                    let w1 = walk_view_items(cx, an, fuel as nat, prefix, w, vis@.take(i as int)).unwrap();
                    assert(walk_view_item(cx, an, fuel as nat, prefix, w1, vis@[i as int]) is Some == c);
                }
            }
        }
        ok = ok && c;
        i = i + 1;
    }
    assert(vis@.take(n as int) =~= vis@);
    ok
}

fn items_walk(cx: &DocContext, an: Option<&CrateAnalysis>, items: &Vec<Rc<Item>>, fuel: u64) -> (r: bool)
    ensures
        forall|prefix: Seq<char>, w: Walk|
            (#[trigger] walk_items(cx, an, fuel as nat, prefix, w, items@) is Some) == r,
    decreases fuel, 4int, *items,
{
    let n = items.len();
    let mut ok = true;
    let mut i: usize = 0;
    proof {
        assert forall|prefix: Seq<char>, w: Walk|
            (#[trigger] walk_items(cx, an, fuel as nat, prefix, w, items@.take(0)) is Some) == ok by {
            assert(items@.take(0).len() == 0);
        }
    }
    while i < n
        invariant
            n == items.len(),
            i <= n,
            forall|prefix: Seq<char>, w: Walk|
                (#[trigger] walk_items(cx, an, fuel as nat, prefix, w, items@.take(i as int)) is Some) == ok,
        decreases n - i,
    {
        let c = item_walks(cx, an, &*items[i], fuel);
        proof {
            assert(items@.take(i + 1).subrange(0, i as int) =~= items@.take(i as int));
            assert forall|prefix: Seq<char>, w: Walk|
                (#[trigger] walk_items(cx, an, fuel as nat, prefix, w, items@.take(i + 1)) is Some)
                    == (ok && c) by {
                if ok {
                    let w1 = walk_items(cx, an, fuel as nat, prefix, w, items@.take(i as int)).unwrap();
                    assert(walk_item(cx, an, fuel as nat, prefix, w1, *items@[i as int]) is Some == c);
                }
            }
        }
        ok = ok && c;
        i = i + 1;
    }
    assert(items@.take(n as int) =~= items@);
    ok
}

fn mod_walks(cx: &DocContext, an: Option<&CrateAnalysis>, m: &Mod, fuel: u64) -> (r: bool)
    ensures
        forall|
            prefix: Seq<char>,
            log: Seq<char>,
            span: crate::ast::Span,
            attrs: Rc<Vec<crate::ast::Attribute>>,
            vis: Visibility,
            id: NodeId,
            name: Option<String>,
        |
            (#[trigger] walk_mod(cx, an, fuel as nat, prefix, log, span, attrs, vis, id, *m, name) is Some)
                == r,
    decreases fuel, 4int, *m,
{
    let a = view_items_walk(cx, an, &m.view_items, fuel);
    let b = items_walk(cx, an, &m.items, fuel);
    proof {
        assert forall|
            prefix: Seq<char>,
            log: Seq<char>,
            span: crate::ast::Span,
            attrs: Rc<Vec<crate::ast::Attribute>>,
            vis: Visibility,
            id: NodeId,
            name: Option<String>,
        |
            (#[trigger] walk_mod(cx, an, fuel as nat, prefix, log, span, attrs, vis, id, *m, name) is Some)
                == (a && b) by {
            let w0 = Walk { om: crate::doctree::empty_module(name), log };
            assert(walk_view_items(cx, an, fuel as nat, prefix, w0, m.view_items@) is Some == a);
            if a {
                let w1 = walk_view_items(cx, an, fuel as nat, prefix, w0, m.view_items@).unwrap();
                let w2 = Walk {
                    om: crate::doctree::ModuleV {
                        where_outer: span,
                        where_inner: m.inner,
                        attrs: (*attrs)@,
                        vis,
                        id,
                        ..w1.om
                    },
                    log: w1.log,
                };
                assert(walk_items(cx, an, fuel as nat, prefix, w2, m.items@) is Some == b);
            }
        }
    }
    a && b
}

fn item_walks(cx: &DocContext, an: Option<&CrateAnalysis>, item: &Item, fuel: u64) -> (r: bool)
    ensures
        forall|prefix: Seq<char>, w: Walk|
            (#[trigger] walk_item(cx, an, fuel as nat, prefix, w, *item) is Some) == r,
    decreases fuel, 4int, *item,
{
    match &item.node {
        ItemKind::Mod(m) => {
            let r = mod_walks(cx, an, m, fuel);
            proof {
                assert forall|prefix: Seq<char>, w: Walk|
                    (#[trigger] walk_item(cx, an, fuel as nat, prefix, w, *item) is Some) == r by {
                    let name = item.ident@;
                    assert(walk_mod(
                        cx,
                        an,
                        fuel as nat,
                        prefix + "::"@ + name,
                        w.log + trace_line("!m "@, prefix, name),
                        item.span,
                        item.attrs,
                        item.vis,
                        item.id,
                        *m,
                        Some(item.ident),
                    ) is Some == r);
                }
            }
            r
        },
        _ => true,
    }
}

/// Whether the collector can walk the crate `krate` following imports at
/// most `depth` levels deep, under any path and after any trace: every
/// import it resolves names a known definition, every local item it
/// inlines is a known node, and every glob import it inlines names a
/// module.
pub fn crate_walk_fits(cx: &DocContext, analysis: Option<&CrateAnalysis>, krate: &Crate, depth: u64) -> (r: bool)
    ensures
        forall|prefix: Seq<char>, log: Seq<char>|
            (#[trigger] walk_mod(
                cx,
                analysis,
                depth as nat,
                prefix,
                log,
                krate.span,
                krate.attrs,
                Visibility::Public,
                CRATE_NODE_ID,
                krate.module,
                None,
            ) is Some) == r,
{
    mod_walks(cx, analysis, &krate.module, depth)
}

} // verus!
