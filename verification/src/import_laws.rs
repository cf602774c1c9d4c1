//! Which public imports the collector keeps: an import none of whose names
//! is replaced by what it names stays in the module as it was written.

use vstd::prelude::*;
use crate::ast::{
    NodeId, PathListIdent, ViewItem, ViewItemKind, ViewPath, ViewPathKind, Visibility, LOCAL_CRATE,
};
use crate::context::{find_entry, CrateAnalysis, DocContext, MapNode, MaybeTyped};
use crate::text::concat;
use crate::utils::view_item_text;
use crate::visitor::{
    please_inline, trace_line, walk_list, walk_resolve, walk_view_item, with_view_item, RustdocVisitor,
    Walk,
};

verus! {

/// Whether an import of node `id` stays an import: the crate was not
/// type-checked, or `id` names a definition of another crate, or there is
/// no analysis, or the definition is public and inlining was not asked
/// for, or the definition is not an item.
pub open spec fn stays(cx: &DocContext, an: Option<&CrateAnalysis>, id: NodeId, inline: bool) -> bool {
    match cx.maybe_typed {
        MaybeTyped::NotTyped => true,
        MaybeTyped::Typed(tcx) => match find_entry(tcx.def_map@, id) {
            None => false,
            Some(def) => def.krate != LOCAL_CRATE || match an {
                None => true,
                Some(a) => (!inline && a.public_items@.contains(def.node)) || find_entry(
                    tcx.map@,
                    def.node,
                ) == Some(MapNode::NodeOther),
            },
        },
    }
}

/// The nodes that an import resolves: one for a simple or glob import, one
/// for each name of an import list, none for an `extern crate`.
pub open spec fn imported_nodes(item: ViewItem) -> Seq<NodeId> {
    match item.node {
        ViewItemKind::ExternCrate(..) => Seq::empty(),
        ViewItemKind::Use(vp) => match vp.node {
            ViewPathKind::Simple(_, _, id) => seq![id],
            ViewPathKind::Glob(_, id) => seq![id],
            ViewPathKind::List(_, paths, _) => paths@.map_values(|p: PathListIdent| p.id),
        },
    }
}

/// The trace lines of the names of an import list.
pub open spec fn list_trace(prefix: Seq<char>, paths: Seq<PathListIdent>) -> Seq<char> {
    concat(paths.map_values(|p: PathListIdent| trace_line("!* "@, prefix, p.name@)))
}

/// The trace of the path of a public import, after its own line.
pub open spec fn path_trace(prefix: Seq<char>, vp: ViewPath) -> Seq<char> {
    match vp.node {
        ViewPathKind::Simple(ident, _, _) => trace_line("!  "@, prefix, ident@),
        ViewPathKind::Glob(_, _) => "!! "@ + prefix + "::*\n"@,
        ViewPathKind::List(_, paths, _) => list_trace(prefix, paths@),
    }
}

/// The whole trace of a public import.
pub open spec fn import_trace(prefix: Seq<char>, item: ViewItem) -> Seq<char> {
    "// visitor vi => "@ + view_item_text(item) + "\n"@ + match item.node {
        ViewItemKind::ExternCrate(..) => Seq::empty(),
        ViewItemKind::Use(vp) => path_trace(prefix, *vp),
    }
}

/// Whether an import is an empty import list, which is never kept.
pub open spec fn is_empty_list(item: ViewItem) -> bool {
    match item.node {
        ViewItemKind::Use(vp) => match vp.node {
            ViewPathKind::List(_, paths, _) => paths@.len() == 0,
            _ => false,
        },
        _ => false,
    }
}

/// What visiting a public import of which nothing is inlined gives.
pub open spec fn kept_walk(prefix: Seq<char>, w: Walk, item: ViewItem) -> Walk {
    Walk {
        om: if is_empty_list(item) {
            w.om
        } else {
            with_view_item(w.om, item@)
        },
        log: w.log + import_trace(prefix, item),
    }
}

proof fn lemma_resolve_stays(
    cx: &DocContext,
    an: Option<&CrateAnalysis>,
    fuel: nat,
    prefix: Seq<char>,
    w: Walk,
    id: NodeId,
    glob: bool,
    inline: bool,
)
    requires
        stays(cx, an, id, inline),
    ensures
        walk_resolve(cx, an, fuel, prefix, w, id, glob, inline) == Some((w, false)),
{
}

proof fn lemma_list_stays(
    cx: &DocContext,
    an: Option<&CrateAnalysis>,
    fuel: nat,
    prefix: Seq<char>,
    w: Walk,
    paths: Seq<PathListIdent>,
    inline: bool,
)
    requires
        forall|k: int| 0 <= k < paths.len() ==> stays(cx, an, #[trigger] paths[k].id, inline),
    ensures
        walk_list(cx, an, fuel, prefix, w, paths, inline) == Some(
            (Walk { om: w.om, log: w.log + list_trace(prefix, paths) }, paths),
        ),
    decreases paths.len(),
{
    let lines = paths.map_values(|p: PathListIdent| trace_line("!* "@, prefix, p.name@));
    if paths.len() == 0 {
        assert(lines =~= Seq::<Seq<char>>::empty());
        assert(w.log + list_trace(prefix, paths) =~= w.log);
        assert(paths =~= Seq::<PathListIdent>::empty());
    } else {
        let init = paths.subrange(0, paths.len() - 1);
        let last = paths[paths.len() - 1];
        assert forall|k: int| 0 <= k < init.len() implies stays(cx, an, #[trigger] init[k].id, inline) by {
            assert(init[k] == paths[k]);
        }
        lemma_list_stays(cx, an, fuel, prefix, w, init, inline);
        let line = trace_line("!* "@, prefix, last.name@);
        let w1 = Walk { om: w.om, log: w.log + list_trace(prefix, init) + line };
        lemma_resolve_stays(cx, an, fuel, prefix, w1, last.id, false, inline);
        assert(lines.drop_last() =~= init.map_values(|p: PathListIdent| trace_line("!* "@, prefix, p.name@)));
        assert(w1.log =~= w.log + list_trace(prefix, paths));
        assert(init.push(last) =~= paths);
    }
}

proof fn lemma_view_item_stays(
    cx: &DocContext,
    an: Option<&CrateAnalysis>,
    fuel: nat,
    prefix: Seq<char>,
    w: Walk,
    item: ViewItem,
)
    requires
        item.vis == Visibility::Public,
        forall|k: int|
            0 <= k < imported_nodes(item).len() ==> stays(
                cx,
                an,
                #[trigger] imported_nodes(item)[k],
                please_inline((*item.attrs)@),
            ),
    ensures
        walk_view_item(cx, an, fuel, prefix, w, item) == Some(kept_walk(prefix, w, item)),
{
    let inline = please_inline((*item.attrs)@);
    let log1 = w.log + "// visitor vi => "@ + view_item_text(item) + "\n"@;
    match item.node {
        ViewItemKind::ExternCrate(..) => {
            assert(log1 =~= w.log + import_trace(prefix, item));
        },
        ViewItemKind::Use(vp) => {
            assert(log1 + path_trace(prefix, *vp) =~= w.log + import_trace(prefix, item));
            match vp.node {
                ViewPathKind::Simple(ident, _, id) => {
                    assert(imported_nodes(item)[0] == id);
                    let w1 = Walk { om: w.om, log: log1 + trace_line("!  "@, prefix, ident@) };
                    lemma_resolve_stays(cx, an, fuel, prefix, w1, id, false, inline);
                },
                ViewPathKind::Glob(_, id) => {
                    assert(imported_nodes(item)[0] == id);
                    let w1 = Walk { om: w.om, log: log1 + "!! "@ + prefix + "::*\n"@ };
                    assert(w1.log =~= log1 + path_trace(prefix, *vp));
                    lemma_resolve_stays(cx, an, fuel, prefix, w1, id, true, inline);
                },
                ViewPathKind::List(_, paths, _) => {
                    assert forall|k: int| 0 <= k < paths@.len() implies stays(
                        cx,
                        an,
                        #[trigger] paths@[k].id,
                        inline,
                    ) by {
                        assert(imported_nodes(item)[k] == paths@[k].id);
                    }
                    lemma_list_stays(cx, an, fuel, prefix, Walk { om: w.om, log: log1 }, paths@, inline);
                },
            }
        },
    }
}

/// A public import none of whose names is replaced by what it names (see
/// [`stays`]) is traced, a line for the import and one for each name, and
/// kept in the module as it was written; an empty import list is traced
/// and dropped.
pub proof fn lemma_public_import_kept(v: &RustdocVisitor, w: Walk, item: ViewItem)
    requires
        item.vis == Visibility::Public,
        forall|k: int|
            0 <= k < imported_nodes(item).len() ==> stays(
                v.cx,
                v.analysis,
                #[trigger] imported_nodes(item)[k],
                please_inline((*item.attrs)@),
            ),
    ensures
        v.view_item_walk(w, item) == Some(kept_walk(v.prefix(), w, item)),
{
    lemma_view_item_stays(v.cx, v.analysis, 0, v.prefix(), w, item);
    let c = choose|g: nat| walk_view_item(v.cx, v.analysis, g, v.prefix(), w, item) is Some;
    lemma_view_item_stays(v.cx, v.analysis, c, v.prefix(), w, item);
}

/// A private import is kept in the module as it was written, and not
/// traced.
pub proof fn lemma_private_import_kept(v: &RustdocVisitor, w: Walk, item: ViewItem)
    requires
        item.vis != Visibility::Public,
    ensures
        v.view_item_walk(w, item) == Some(Walk { om: with_view_item(w.om, item@), log: w.log }),
{
}

} // verus!
