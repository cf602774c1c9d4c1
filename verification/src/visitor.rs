//! The collector: walks the syntax tree of a crate and builds its
//! documentation tree, module by module.
//!
//! Public imports that name a private item of the crate (or any item, when
//! the import is marked `#[doc(inline)]`) are replaced by the item itself.
//! While it walks, the collector writes a trace line for each item, variant
//! and import to a text stream `out` (standard output in the program).

use vstd::prelude::*;
use std::rc::Rc;
use crate::ast::{
    Abi, Attribute, Crate, EnumDef, Lit, FnDecl, FnStyle, Generics, Item, ItemKind, Mod, MetaItem, NodeId,
    PathListIdent, StructDef, TyKind, ViewItem, ViewItemKind, ViewItemKindV, ViewItemV, ViewPath,
    ViewPathKind, ViewPathKindV, ViewPathV, Visibility, Span, LOCAL_CRATE, CRATE_NODE_ID,
};
use crate::ast::Variant as AstVariant;
use crate::clean::StructType;
use crate::context::{
    contains_node, find_def, find_entry, find_node, CrateAnalysis, CrateId, DocContext, MapNode, MaybeTyped,
};
use crate::doctree::{
    empty_module, Enum, EnumV, Function, Module, Impl, Macro, ModuleV, Static, Struct, Trait, Typedef, Variant,
};
use crate::text::{concat, decimal, lemma_texts_push, texts};
use crate::utils::{path_text, push_path, view_item_text, view_item_to_str};
use crate::text::push_decimal;

verus! {

/// The state of a walk: the module being filled and the trace written so far.
pub struct Walk {
    pub om: ModuleV,
    pub log: Seq<char>,
}

/// A trace line `tag prefix::name`.
pub open spec fn trace_line(tag: Seq<char>, prefix: Seq<char>, name: Seq<char>) -> Seq<char> {
    tag + prefix + "::"@ + name + "\n"@
}

/// The shape of a struct: a tuple-like struct with no, one or more fields is
/// a unit, newtype or tuple struct; any other struct is plain.
pub open spec fn struct_type_of(sd: StructDef) -> StructType {
    match sd.ctor_id {
        Some(_) => if (*sd.fields)@.len() == 0 {
            StructType::Unit
        } else if (*sd.fields)@.len() == 1 {
            StructType::Newtype
        } else {
            StructType::Tuple
        },
        None => StructType::Plain,
    }
}

/// The documentation of a struct item.
pub open spec fn doc_struct(item: Item, sd: Rc<StructDef>, generics: Rc<Generics>) -> Struct {
    Struct {
        id: item.id,
        struct_type: struct_type_of(*sd),
        name: item.ident,
        vis: item.vis,
        attrs: item.attrs,
        generics,
        fields: sd.fields,
        where_: item.span,
    }
}

/// The documentation of an enum variant.
pub open spec fn doc_variant(x: Rc<AstVariant>) -> Variant {
    Variant { name: x.name, attrs: x.attrs, vis: x.vis, id: x.id, kind: x.kind, where_: x.span }
}

/// The documentation of an enum item.
pub open spec fn doc_enum(it: Item, def: Rc<EnumDef>, params: Rc<Generics>) -> EnumV {
    EnumV {
        name: it.ident,
        variants: def.variants@.map_values(|x: Rc<AstVariant>| doc_variant(x)),
        vis: it.vis,
        generics: params,
        attrs: it.attrs,
        id: it.id,
        where_: it.span,
    }
}

/// The trace of an enum: a line for each variant.
pub open spec fn enum_trace(prefix: Seq<char>, def: EnumDef) -> Seq<char> {
    concat(def.variants@.map_values(|x: Rc<AstVariant>| trace_line("!e|"@, prefix, x.name@)))
}

/// The documentation of a function item.
pub open spec fn doc_fn(item: Item, fd: Rc<FnDecl>, fn_style: FnStyle, generics: Rc<Generics>) -> Function {
    Function {
        id: item.id,
        vis: item.vis,
        attrs: item.attrs,
        decl: fd,
        name: item.ident,
        where_: item.span,
        generics,
        fn_style,
    }
}

/// The name of a meta item.
pub open spec fn meta_name(m: MetaItem) -> String {
    match m {
        MetaItem::Word(n) => n,
        MetaItem::List(n, _) => n,
        MetaItem::NameValue(n, _) => n,
    }
}

/// Whether an attribute is a list that names `inline`.
pub open spec fn asks_inline(a: Attribute) -> bool {
    match *a.value {
        MetaItem::List(_, l) => exists|j: int|
            0 <= j < l@.len() && meta_name(*#[trigger] l@[j])@ == "inline"@,
        _ => false,
    }
}

/// Whether an import is to be replaced by what it names.
pub open spec fn please_inline(attrs: Seq<Attribute>) -> bool {
    exists|k: int| 0 <= k < attrs.len() && asks_inline(#[trigger] attrs[k])
}

/// The module with one more import.
pub open spec fn with_view_item(om: ModuleV, v: ViewItemV) -> ModuleV {
    ModuleV { view_items: om.view_items.push(v), ..om }
}

/// What visiting an item adds to the walk; `None` when the walk stops the
/// program or needs more than `fuel` nested resolutions.
pub open spec fn walk_item(
    cx: &DocContext,
    an: Option<&CrateAnalysis>,
    fuel: nat,
    prefix: Seq<char>,
    w: Walk,
    item: Item,
) -> Option<Walk>
    decreases fuel, 4int, item,
{
    let name = item.ident@;
    let om = w.om;
    match item.node {
        ItemKind::Mod(m) => match walk_mod(
            cx,
            an,
            fuel,
            prefix + "::"@ + name,
            w.log + trace_line("!m "@, prefix, name),
            item.span,
            item.attrs,
            item.vis,
            item.id,
            m,
            Some(item.ident),
        ) {
            Some(inner) => Some(
                Walk { om: ModuleV { mods: om.mods.push(inner.om), ..om }, log: inner.log },
            ),
            None => None,
        },
        ItemKind::Enum(ed, gen) => Some(
            Walk {
                om: ModuleV { enums: om.enums.push(doc_enum(item, ed, gen)), ..om },
                log: w.log + enum_trace(prefix, *ed),
            },
        ),
        ItemKind::Struct(sd, gen) => Some(
            Walk {
                om: ModuleV { structs: om.structs.push(doc_struct(item, sd, gen)), ..om },
                log: w.log + trace_line("!s "@, prefix, name),
            },
        ),
        ItemKind::Fn(fd, style, _, gen) => Some(
            Walk {
                om: ModuleV { fns: om.fns.push(doc_fn(item, fd, style, gen)), ..om },
                log: w.log + trace_line("!f "@, prefix, name),
            },
        ),
        ItemKind::Ty(ty, gen) => Some(
            Walk {
                om: ModuleV {
                    typedefs: om.typedefs.push(
                        Typedef {
                            ty,
                            gen,
                            name: item.ident,
                            id: item.id,
                            attrs: item.attrs,
                            where_: item.span,
                            vis: item.vis,
                        },
                    ),
                    ..om
                },
                log: w.log + trace_line("!t "@, prefix, name),
            },
        ),
        ItemKind::Static(ty, mutability, expr) => Some(
            Walk {
                om: ModuleV {
                    statics: om.statics.push(
                        Static {
                            type_: ty,
                            mutability,
                            expr,
                            id: item.id,
                            name: item.ident,
                            attrs: item.attrs,
                            where_: item.span,
                            vis: item.vis,
                        },
                    ),
                    ..om
                },
                log: w.log + trace_line("!_ "@, prefix, name),
            },
        ),
        ItemKind::Trait(gen, tr, met) => Some(
            Walk {
                om: ModuleV {
                    traits: om.traits.push(
                        Trait {
                            name: item.ident,
                            methods: met,
                            generics: gen,
                            parents: tr,
                            id: item.id,
                            attrs: item.attrs,
                            where_: item.span,
                            vis: item.vis,
                        },
                    ),
                    ..om
                },
                log: w.log + trace_line("!T "@, prefix, name),
            },
        ),
        ItemKind::Impl(gen, tr, ty, meths) => Some(
            Walk {
                om: ModuleV {
                    impls: om.impls.push(
                        Impl {
                            generics: gen,
                            trait_: tr,
                            for_: ty,
                            methods: meths,
                            attrs: item.attrs,
                            id: item.id,
                            where_: item.span,
                            vis: item.vis,
                        },
                    ),
                    ..om
                },
                log: w.log + "impl for => "@ + decimal(ty.id as nat) + "\n"@ + match ty.node {
                    TyKind::Path(p, _) => "!!!!!!!!!! "@ + path_text(*p) + "\n"@,
                    _ => Seq::empty(),
                } + "imp name = "@ + name + "\n"@,
            },
        ),
        ItemKind::ForeignMod(fm) => Some(
            Walk { om: ModuleV { foreigns: om.foreigns.push(fm), ..om }, log: w.log },
        ),
        ItemKind::Mac(_) => Some(
            Walk {
                om: ModuleV {
                    macros: om.macros.push(
                        Macro {
                            id: item.id,
                            attrs: item.attrs,
                            name: item.ident,
                            where_: item.span,
                        },
                    ),
                    ..om
                },
                log: w.log,
            },
        ),
    }
}

/// What visiting the contents of a module gives: the new module, whose
/// imports are visited first and items after, and the trace.
pub open spec fn walk_mod(
    cx: &DocContext,
    an: Option<&CrateAnalysis>,
    fuel: nat,
    prefix: Seq<char>,
    log: Seq<char>,
    span: Span,
    attrs: Rc<Vec<Attribute>>,
    vis: Visibility,
    id: NodeId,
    m: Mod,
    name: Option<String>,
) -> Option<Walk>
    decreases fuel, 4int, m,
{
    match walk_view_items(
        cx,
        an,
        fuel,
        prefix,
        Walk { om: empty_module(name), log },
        m.view_items@,
    ) {
        Some(w1) => walk_items(
            cx,
            an,
            fuel,
            prefix,
            Walk {
                om: ModuleV {
                    where_outer: span,
                    where_inner: m.inner,
                    attrs: (*attrs)@,
                    vis,
                    id,
                    ..w1.om
                },
                log: w1.log,
            },
            m.items@,
        ),
        None => None,
    }
}

/// What visiting a sequence of imports adds to the walk.
pub open spec fn walk_view_items(
    cx: &DocContext,
    an: Option<&CrateAnalysis>,
    fuel: nat,
    prefix: Seq<char>,
    w: Walk,
    vis: Seq<ViewItem>,
) -> Option<Walk>
    decreases fuel, 3int, vis,
{
    if vis.len() == 0 {
        Some(w)
    } else {
        match walk_view_items(cx, an, fuel, prefix, w, vis.subrange(0, vis.len() - 1)) {
            Some(w1) => walk_view_item(cx, an, fuel, prefix, w1, vis[vis.len() - 1]),
            None => None,
        }
    }
}

/// What visiting a sequence of items adds to the walk.
pub open spec fn walk_items(
    cx: &DocContext,
    an: Option<&CrateAnalysis>,
    fuel: nat,
    prefix: Seq<char>,
    w: Walk,
    items: Seq<Rc<Item>>,
) -> Option<Walk>
    decreases fuel, 4int, items,
{
    if items.len() == 0 {
        Some(w)
    } else {
        match walk_items(cx, an, fuel, prefix, w, items.subrange(0, items.len() - 1)) {
            Some(w1) => walk_item(cx, an, fuel, prefix, w1, *items[items.len() - 1]),
            None => None,
        }
    }
}

/// What visiting an import adds to the walk: a private import is kept as it
/// is; a public one is traced, and kept with what of it was not inlined.
pub open spec fn walk_view_item(
    cx: &DocContext,
    an: Option<&CrateAnalysis>,
    fuel: nat,
    prefix: Seq<char>,
    w: Walk,
    item: ViewItem,
) -> Option<Walk>
    decreases fuel, 3int, item,
{
    if item.vis != Visibility::Public {
        Some(Walk { om: with_view_item(w.om, item@), log: w.log })
    } else {
        let log1 = w.log + "// visitor vi => "@ + view_item_text(item) + "\n"@;
        match item.node {
            ViewItemKind::Use(vp) => match walk_view_path(
                cx,
                an,
                fuel,
                prefix,
                Walk { om: w.om, log: log1 },
                *vp,
                please_inline((*item.attrs)@),
            ) {
                Some((w2, kept)) => match kept {
                    Some(pv) => Some(
                        Walk {
                            om: with_view_item(
                                w2.om,
                                ViewItemV {
                                    node: ViewItemKindV::Use(pv),
                                    attrs: item.attrs,
                                    vis: item.vis,
                                    span: item.span,
                                },
                            ),
                            log: w2.log,
                        },
                    ),
                    None => Some(w2),
                },
                None => None,
            },
            ViewItemKind::ExternCrate(..) => Some(
                Walk { om: with_view_item(w.om, item@), log: log1 },
            ),
        }
    }
}

/// What visiting the path of a public import adds to the walk, and what of
/// the import is kept: nothing if all that it names was inlined.
pub open spec fn walk_view_path(
    cx: &DocContext,
    an: Option<&CrateAnalysis>,
    fuel: nat,
    prefix: Seq<char>,
    w: Walk,
    vp: ViewPath,
    inline: bool,
) -> Option<(Walk, Option<ViewPathV>)>
    decreases fuel, 2int, vp,
{
    match vp.node {
        ViewPathKind::Simple(ident, _, id) => match walk_resolve(
            cx,
            an,
            fuel,
            prefix,
            Walk { om: w.om, log: w.log + trace_line("!  "@, prefix, ident@) },
            id,
            false,
            inline,
        ) {
            Some((w1, done)) => Some((w1, if done { None } else { Some(vp@) })),
            None => None,
        },
        ViewPathKind::List(p, paths, b) => match walk_list(cx, an, fuel, prefix, w, paths@, inline) {
            Some((w1, mine)) => Some(
                (
                    w1,
                    if mine.len() == 0 {
                        None
                    } else {
                        Some(ViewPathV { node: ViewPathKindV::List(p, mine, b), span: vp.span })
                    },
                ),
            ),
            None => None,
        },
        ViewPathKind::Glob(_, id) => match walk_resolve(
            cx,
            an,
            fuel,
            prefix,
            Walk { om: w.om, log: w.log + "!! "@ + prefix + "::*\n"@ },
            id,
            true,
            inline,
        ) {
            Some((w1, done)) => Some((w1, if done { None } else { Some(vp@) })),
            None => None,
        },
    }
}

/// What visiting the names of an import list adds to the walk, and the
/// names that were not inlined.
pub open spec fn walk_list(
    cx: &DocContext,
    an: Option<&CrateAnalysis>,
    fuel: nat,
    prefix: Seq<char>,
    w: Walk,
    paths: Seq<PathListIdent>,
    inline: bool,
) -> Option<(Walk, Seq<PathListIdent>)>
    decreases fuel, 1int, paths,
{
    if paths.len() == 0 {
        Some((w, Seq::empty()))
    } else {
        match walk_list(cx, an, fuel, prefix, w, paths.subrange(0, paths.len() - 1), inline) {
            Some((w1, mine)) => {
                let path = paths[paths.len() - 1];
                match walk_resolve(
                    cx,
                    an,
                    fuel,
                    prefix,
                    Walk { om: w1.om, log: w1.log + trace_line("!* "@, prefix, path.name@) },
                    path.id,
                    false,
                    inline,
                ) {
                    Some((w2, done)) => Some((w2, if done { mine } else { mine.push(path) })),
                    None => None,
                }
            },
            None => None,
        }
    }
}

/// Whether an import of node `id` is replaced by what it names, and what
/// that adds to the walk: only a local definition is inlined, and only a
/// private one unless `inline` is set; a glob import inlines the contents
/// of the module that it names.
pub open spec fn walk_resolve(
    cx: &DocContext,
    an: Option<&CrateAnalysis>,
    fuel: nat,
    prefix: Seq<char>,
    w: Walk,
    id: NodeId,
    glob: bool,
    inline: bool,
) -> Option<(Walk, bool)>
    decreases fuel, 0int, w,
{
    match cx.maybe_typed {
        MaybeTyped::NotTyped => Some((w, false)),
        MaybeTyped::Typed(tcx) => match find_entry(tcx.def_map@, id) {
            None => None,
            Some(def) => if def.krate != LOCAL_CRATE {
                Some((w, false))
            } else {
                match an {
                    None => Some((w, false)),
                    Some(a) => if !inline && a.public_items@.contains(def.node) {
                        Some((w, false))
                    } else {
                        match find_entry(tcx.map@, def.node) {
                            None => None,
                            Some(MapNode::NodeOther) => Some((w, false)),
                            Some(MapNode::NodeItem(it)) => if fuel == 0 {
                                None
                            } else if glob {
                                match it.node {
                                    ItemKind::Mod(m) => match walk_view_items(
                                        cx,
                                        an,
                                        (fuel - 1) as nat,
                                        prefix,
                                        w,
                                        m.view_items@,
                                    ) {
                                        Some(w1) => match walk_items(
                                            cx,
                                            an,
                                            (fuel - 1) as nat,
                                            prefix,
                                            w1,
                                            m.items@,
                                        ) {
                                            Some(w2) => Some((w2, true)),
                                            None => None,
                                        },
                                        None => None,
                                    },
                                    _ => None,
                                }
                            } else {
                                match walk_item(cx, an, (fuel - 1) as nat, prefix, w, *it) {
                                    Some(w1) => Some((w1, true)),
                                    None => None,
                                }
                            },
                        }
                    },
                }
            },
        },
    }
}

/// Walking a sequence of imports gets through each prefix of it.
proof fn lemma_view_items_prefix(
    cx: &DocContext,
    an: Option<&CrateAnalysis>,
    fuel: nat,
    prefix: Seq<char>,
    w: Walk,
    vis: Seq<ViewItem>,
    i: int,
)
    requires
        0 <= i <= vis.len(),
        walk_view_items(cx, an, fuel, prefix, w, vis) is Some,
    ensures
        walk_view_items(cx, an, fuel, prefix, w, vis.take(i)) is Some,
    decreases vis.len() - i,
{
    if i < vis.len() {
        lemma_view_items_prefix(cx, an, fuel, prefix, w, vis, i + 1);
        assert(vis.take(i + 1).subrange(0, i) =~= vis.take(i));
    } else {
        assert(vis.take(i) =~= vis);
    }
}

/// Walking a sequence of items gets through each prefix of it.
proof fn lemma_items_prefix(
    cx: &DocContext,
    an: Option<&CrateAnalysis>,
    fuel: nat,
    prefix: Seq<char>,
    w: Walk,
    items: Seq<Rc<Item>>,
    i: int,
)
    requires
        0 <= i <= items.len(),
        walk_items(cx, an, fuel, prefix, w, items) is Some,
    ensures
        walk_items(cx, an, fuel, prefix, w, items.take(i)) is Some,
    decreases items.len() - i,
{
    if i < items.len() {
        lemma_items_prefix(cx, an, fuel, prefix, w, items, i + 1);
        assert(items.take(i + 1).subrange(0, i) =~= items.take(i));
    } else {
        assert(items.take(i) =~= items);
    }
}

/// Walking an import list gets through each prefix of it.
proof fn lemma_list_prefix(
    cx: &DocContext,
    an: Option<&CrateAnalysis>,
    fuel: nat,
    prefix: Seq<char>,
    w: Walk,
    paths: Seq<PathListIdent>,
    inline: bool,
    i: int,
)
    requires
        0 <= i <= paths.len(),
        walk_list(cx, an, fuel, prefix, w, paths, inline) is Some,
    ensures
        walk_list(cx, an, fuel, prefix, w, paths.take(i), inline) is Some,
    decreases paths.len() - i,
{
    if i < paths.len() {
        lemma_list_prefix(cx, an, fuel, prefix, w, paths, inline, i + 1);
        assert(paths.take(i + 1).subrange(0, i) =~= paths.take(i));
    } else {
        assert(paths.take(i) =~= paths);
    }
}

/// Whether an import is marked to be inlined.
pub fn attrs_please_inline(attrs: &Vec<Attribute>) -> (r: bool)
    ensures
        r == please_inline(attrs@),
{
    let inline = String::from_str("inline");
    proof {
        reveal_strlit("inline");
    }
    let n = attrs.len();
    let mut k: usize = 0;
    while k < n
        invariant
            n == attrs.len(),
            k <= n,
            inline@ == "inline"@,
            forall|j: int| 0 <= j < k ==> !asks_inline(#[trigger] attrs@[j]),
        decreases n - k,
    {
        match attrs[k].meta_item_list() {
            Some(list) => {
                let m = list.len();
                let mut j: usize = 0;
                while j < m
                    invariant
                        m == list.len(),
                        j <= m,
                        k < n,
                        n == attrs.len(),
                        inline@ == "inline"@,
                        match *attrs@[k as int].value {
                            MetaItem::List(_, l) => l == *list,
                            _ => false,
                        },
                        forall|t: int| 0 <= t < j ==> meta_name(*#[trigger] list@[t])@ != "inline"@,
                    decreases m - j,
                {
                    if *list[j].name() == inline {
                        assert(meta_name(*list@[j as int])@ == "inline"@);
                        assert(asks_inline(attrs@[k as int]));
                        return true;
                    }
                    j = j + 1;
                }
                assert(!asks_inline(attrs@[k as int]));
            },
            None => {},
        }
        k = k + 1;
    }
    false
}

/// The shape of a struct from its definition.
pub fn struct_type_from_def(sd: &StructDef) -> (r: StructType)
    ensures
        r == struct_type_of(*sd),
{
    match sd.ctor_id {
        Some(_) => {
            let n = sd.fields.len();
            if n == 0 {
                StructType::Unit
            } else if n == 1 {
                StructType::Newtype
            } else {
                StructType::Tuple
            }
        },
        None => StructType::Plain,
    }
}

fn push_trace_line(out: &mut String, tag: &str, prefix: &str, name: &str)
    ensures
        final(out)@ == old(out)@ + trace_line(tag@, prefix@, name@),
{
    let ghost before = out@;
    out.append(tag);
    out.append(prefix);
    out.append("::");
    out.append(name);
    out.append("\n");
    assert(out@ =~= before + trace_line(tag@, prefix@, name@));
}

/// The walker of a crate: it reads the crate's context and fills modules.
pub struct RustdocVisitor<'a> {
    pub module: Module,
    pub attrs: Rc<Vec<Attribute>>,
    pub cx: &'a DocContext,
    pub analysis: Option<&'a CrateAnalysis>,
    pub names: Vec<String>,
    pub current_prefix: String,
}

impl<'a> RustdocVisitor<'a> {
    /// The path of the module being walked, under which items are traced.
    pub open spec fn prefix(&self) -> Seq<char> {
        self.current_prefix@
    }

    /// A walker with an empty root module and an empty path.
    pub fn new<'b>(cx: &'b DocContext, analysis: Option<&'b CrateAnalysis>) -> (v: RustdocVisitor<'b>)
        ensures
            v.module@ == empty_module(None),
            (*v.attrs)@ == Seq::<Attribute>::empty(),
            v.cx == cx,
            v.analysis == analysis,
            v.names@ == Seq::<String>::empty(),
            v.prefix() == Seq::<char>::empty(),
    {
        RustdocVisitor {
            module: Module::new(None),
            attrs: Rc::new(Vec::new()),
            cx: cx,
            analysis: analysis,
            names: Vec::new(),
            current_prefix: String::new(),
        }
    }

    /// The documentation of a struct item; traces the struct.
    pub fn visit_struct_def(
        &mut self,
        item: &Item,
        sd: &Rc<StructDef>,
        generics: &Rc<Generics>,
        out: &mut String,
    ) -> (r: Struct)
        ensures
            *final(self) == *old(self),
            r == doc_struct(*item, *sd, *generics),
            final(out)@ == old(out)@ + trace_line("!s "@, old(self).prefix(), item.ident@),
    {
        let struct_type = struct_type_from_def(sd);
        push_trace_line(out, "!s ", self.current_prefix.as_str(), item.ident.as_str());
        Struct {
            id: item.id,
            struct_type: struct_type,
            name: item.ident.clone(),
            vis: item.vis,
            attrs: item.attrs.clone(),
            generics: generics.clone(),
            fields: sd.fields.clone(),
            where_: item.span,
        }
    }

    /// The documentation of an enum item; traces each variant.
    pub fn visit_enum_def(
        &mut self,
        it: &Item,
        def: &Rc<EnumDef>,
        params: &Rc<Generics>,
        out: &mut String,
    ) -> (r: Enum)
        ensures
            *final(self) == *old(self),
            r@ == doc_enum(*it, *def, *params),
            final(out)@ == old(out)@ + enum_trace(old(self).prefix(), **def),
    {
        let mut vars: Vec<Variant> = Vec::new();
        let ghost docs = def.variants@.map_values(|x: Rc<AstVariant>| doc_variant(x));
        let ghost lines = def.variants@.map_values(
            |x: Rc<AstVariant>| trace_line("!e|"@, self.prefix(), x.name@),
        );
        let n = def.variants.len();
        let mut i: usize = 0;
        while i < n
            invariant
                n == def.variants.len(),
                i <= n,
                docs == def.variants@.map_values(|x: Rc<AstVariant>| doc_variant(x)),
                lines == def.variants@.map_values(
                    |x: Rc<AstVariant>| trace_line("!e|"@, self.prefix(), x.name@),
                ),
                vars@ == docs.take(i as int),
                out@ == old(out)@ + concat(lines.take(i as int)),
            decreases n - i,
        {
            proof {
                crate::text::lemma_concat_step(lines, i as int);
            }
            let x = &def.variants[i];
            push_trace_line(out, "!e|", self.current_prefix.as_str(), x.name.as_str());
            vars.push(
                Variant {
                    name: x.name.clone(),
                    attrs: x.attrs.clone(),
                    vis: x.vis,
                    id: x.id,
                    kind: x.kind.clone(),
                    where_: x.span,
                },
            );
            i = i + 1;
            assert(vars@ =~= docs.take(i as int));
        }
        assert(docs.take(n as int) =~= docs);
        assert(lines.take(n as int) =~= lines);
        Enum {
            name: it.ident.clone(),
            variants: vars,
            vis: it.vis,
            generics: params.clone(),
            attrs: it.attrs.clone(),
            id: it.id,
            where_: it.span,
        }
    }

    /// The documentation of a function item.
    pub fn visit_fn(
        &mut self,
        item: &Item,
        fd: &Rc<FnDecl>,
        fn_style: &FnStyle,
        abi: &Abi,
        gen: &Rc<Generics>,
    ) -> (r: Function)
        ensures
            *final(self) == *old(self),
            r == doc_fn(*item, *fd, *fn_style, *gen),
    {
        Function {
            id: item.id,
            vis: item.vis,
            attrs: item.attrs.clone(),
            decl: fd.clone(),
            name: item.ident.clone(),
            where_: item.span,
            generics: gen.clone(),
            fn_style: *fn_style,
        }
    }
}

impl<'a> RustdocVisitor<'a> {
    fn visit_item_f(&mut self, item: &Item, om: &mut Module, out: &mut String, Ghost(fuel): Ghost<nat>)
        requires
            walk_item(
                old(self).cx,
                old(self).analysis,
                fuel,
                old(self).prefix(),
                Walk { om: old(om)@, log: old(out)@ },
                *item,
            ) is Some,
        ensures
            *final(self) == *old(self),
            walk_item(
                old(self).cx,
                old(self).analysis,
                fuel,
                old(self).prefix(),
                Walk { om: old(om)@, log: old(out)@ },
                *item,
            ) == Some(Walk { om: final(om)@, log: final(out)@ }),
        decreases fuel, 4int, *item,
    {
        let ghost w = Walk { om: om@, log: out@ };
        match &item.node {
            ItemKind::Mod(m) => {
                let old_prefix = self.current_prefix.clone();
                push_trace_line(out, "!m ", self.current_prefix.as_str(), item.ident.as_str());
                let mut np = String::new();
                np.append(self.current_prefix.as_str());
                np.append("::");
                np.append(item.ident.as_str());
                self.current_prefix = np;
                let sub = self.visit_mod_contents_f(
                    item.span,
                    item.attrs.clone(),
                    item.vis,
                    item.id,
                    m,
                    Some(item.ident.clone()),
                    out,
                    Ghost(fuel),
                );
                proof {
                    crate::doctree::lemma_modules_view_push(om.mods@, sub);
                }
                om.mods.push(sub);
                self.current_prefix = old_prefix;
            },
            ItemKind::Enum(ed, gen) => {
                let e = self.visit_enum_def(item, ed, gen, out);
                let ghost before = om.enums@;
                om.enums.push(e);
                assert(om.enums@.map_values(|e: Enum| e@) =~= before.map_values(|e: Enum| e@).push(
                    e@,
                ));
            },
            ItemKind::Struct(sd, gen) => {
                let st = self.visit_struct_def(item, sd, gen, out);
                om.structs.push(st);
            },
            ItemKind::Fn(fd, style, abi, gen) => {
                push_trace_line(out, "!f ", self.current_prefix.as_str(), item.ident.as_str());
                let f = self.visit_fn(item, fd, style, abi, gen);
                om.fns.push(f);
            },
            ItemKind::Ty(ty, gen) => {
                push_trace_line(out, "!t ", self.current_prefix.as_str(), item.ident.as_str());
                om.typedefs.push(
                    Typedef {
                        ty: ty.clone(),
                        gen: gen.clone(),
                        name: item.ident.clone(),
                        id: item.id,
                        attrs: item.attrs.clone(),
                        where_: item.span,
                        vis: item.vis,
                    },
                );
            },
            ItemKind::Static(ty, mutability, expr) => {
                push_trace_line(out, "!_ ", self.current_prefix.as_str(), item.ident.as_str());
                om.statics.push(
                    Static {
                        type_: ty.clone(),
                        mutability: *mutability,
                        expr: expr.clone(),
                        id: item.id,
                        name: item.ident.clone(),
                        attrs: item.attrs.clone(),
                        where_: item.span,
                        vis: item.vis,
                    },
                );
            },
            ItemKind::Trait(gen, tr, met) => {
                push_trace_line(out, "!T ", self.current_prefix.as_str(), item.ident.as_str());
                om.traits.push(
                    Trait {
                        name: item.ident.clone(),
                        methods: met.clone(),
                        generics: gen.clone(),
                        parents: tr.clone(),
                        id: item.id,
                        attrs: item.attrs.clone(),
                        where_: item.span,
                        vis: item.vis,
                    },
                );
            },
            ItemKind::Impl(gen, tr, ty, meths) => {
                let ghost before = out@;
                out.append("impl for => ");
                push_decimal(out, ty.id as u64);
                out.append("\n");
                match &ty.node {
                    TyKind::Path(p, _) => {
                        out.append("!!!!!!!!!! ");
                        push_path(out, p);
                        out.append("\n");
                    },
                    _ => {},
                }
                out.append("imp name = ");
                out.append(item.ident.as_str());
                out.append("\n");
                let trait_ = match tr {
                    Some(t) => Some(t.copy()),
                    None => None,
                };
                om.impls.push(
                    Impl {
                        generics: gen.clone(),
                        trait_: trait_,
                        for_: ty.clone(),
                        methods: meths.clone(),
                        attrs: item.attrs.clone(),
                        id: item.id,
                        where_: item.span,
                        vis: item.vis,
                    },
                );
                assert(out@ =~= before + "impl for => "@ + decimal(ty.id as nat) + "\n"@ + match ty.node {
                    TyKind::Path(p, _) => "!!!!!!!!!! "@ + path_text(*p) + "\n"@,
                    _ => Seq::empty(),
                } + "imp name = "@ + item.ident@ + "\n"@);
            },
            ItemKind::ForeignMod(fm) => {
                om.foreigns.push(fm.clone());
            },
            ItemKind::Mac(_) => {
                om.macros.push(
                    Macro {
                        id: item.id,
                        attrs: item.attrs.clone(),
                        name: item.ident.clone(),
                        where_: item.span,
                    },
                );
            },
        }
    }

    fn visit_mod_contents_f(
        &mut self,
        span: Span,
        attrs: Rc<Vec<Attribute>>,
        vis: Visibility,
        id: NodeId,
        m: &Mod,
        name: Option<String>,
        out: &mut String,
        Ghost(fuel): Ghost<nat>,
    ) -> (om: Module)
        requires
            walk_mod(
                old(self).cx,
                old(self).analysis,
                fuel,
                old(self).prefix(),
                old(out)@,
                span,
                attrs,
                vis,
                id,
                *m,
                name,
            ) is Some,
        ensures
            *final(self) == *old(self),
            walk_mod(
                old(self).cx,
                old(self).analysis,
                fuel,
                old(self).prefix(),
                old(out)@,
                span,
                attrs,
                vis,
                id,
                *m,
                name,
            ) == Some(Walk { om: om@, log: final(out)@ }),
        decreases fuel, 4int, *m,
    {
        let mut om = Module::new(name);
        self.visit_view_items_f(&m.view_items, &mut om, out, Ghost(fuel));
        om.where_outer = span;
        om.where_inner = m.inner;
        om.attrs = attrs;
        om.vis = vis;
        om.id = id;
        self.visit_items_f(&m.items, &mut om, out, Ghost(fuel));
        om
    }

    fn visit_view_items_f(
        &mut self,
        vis: &Vec<ViewItem>,
        om: &mut Module,
        out: &mut String,
        Ghost(fuel): Ghost<nat>,
    )
        requires
            walk_view_items(
                old(self).cx,
                old(self).analysis,
                fuel,
                old(self).prefix(),
                Walk { om: old(om)@, log: old(out)@ },
                vis@,
            ) is Some,
        ensures
            *final(self) == *old(self),
            walk_view_items(
                old(self).cx,
                old(self).analysis,
                fuel,
                old(self).prefix(),
                Walk { om: old(om)@, log: old(out)@ },
                vis@,
            ) == Some(Walk { om: final(om)@, log: final(out)@ }),
        decreases fuel, 3int, *vis,
    {
        let ghost w0 = Walk { om: om@, log: out@ };
        let n = vis.len();
        let mut i: usize = 0;
        assert(vis@.take(0) =~= Seq::<ViewItem>::empty());
        while i < n
            invariant
                n == vis.len(),
                i <= n,
                *self == *old(self),
                w0 == (Walk { om: old(om)@, log: old(out)@ }),
                walk_view_items(self.cx, self.analysis, fuel, self.prefix(), w0, vis@) is Some,
                walk_view_items(self.cx, self.analysis, fuel, self.prefix(), w0, vis@.take(i as int))
                    == Some(Walk { om: om@, log: out@ }),
            decreases n - i,
        {
            proof {
                lemma_view_items_prefix(
                    self.cx,
                    self.analysis,
                    fuel,
                    self.prefix(),
                    w0,
                    vis@,
                    i + 1,
                );
                assert(vis@.take(i + 1).subrange(0, i as int) =~= vis@.take(i as int));
            }
            self.visit_view_item_f(&vis[i], om, out, Ghost(fuel));
            i = i + 1;
        }
        assert(vis@.take(n as int) =~= vis@);
    }

    fn visit_items_f(
        &mut self,
        items: &Vec<Rc<Item>>,
        om: &mut Module,
        out: &mut String,
        Ghost(fuel): Ghost<nat>,
    )
        requires
            walk_items(
                old(self).cx,
                old(self).analysis,
                fuel,
                old(self).prefix(),
                Walk { om: old(om)@, log: old(out)@ },
                items@,
            ) is Some,
        ensures
            *final(self) == *old(self),
            walk_items(
                old(self).cx,
                old(self).analysis,
                fuel,
                old(self).prefix(),
                Walk { om: old(om)@, log: old(out)@ },
                items@,
            ) == Some(Walk { om: final(om)@, log: final(out)@ }),
        decreases fuel, 4int, *items,
    {
        let ghost w0 = Walk { om: om@, log: out@ };
        let n = items.len();
        let mut i: usize = 0;
        assert(items@.take(0) =~= Seq::<Rc<Item>>::empty());
        while i < n
            invariant
                n == items.len(),
                i <= n,
                *self == *old(self),
                w0 == (Walk { om: old(om)@, log: old(out)@ }),
                walk_items(self.cx, self.analysis, fuel, self.prefix(), w0, items@) is Some,
                walk_items(self.cx, self.analysis, fuel, self.prefix(), w0, items@.take(i as int))
                    == Some(Walk { om: om@, log: out@ }),
            decreases n - i,
        {
            proof {
                lemma_items_prefix(self.cx, self.analysis, fuel, self.prefix(), w0, items@, i + 1);
                assert(items@.take(i + 1).subrange(0, i as int) =~= items@.take(i as int));
            }
            self.visit_item_f(&*items[i], om, out, Ghost(fuel));
            i = i + 1;
        }
        assert(items@.take(n as int) =~= items@);
    }

    fn visit_view_item_f(
        &mut self,
        item: &ViewItem,
        om: &mut Module,
        out: &mut String,
        Ghost(fuel): Ghost<nat>,
    )
        requires
            walk_view_item(
                old(self).cx,
                old(self).analysis,
                fuel,
                old(self).prefix(),
                Walk { om: old(om)@, log: old(out)@ },
                *item,
            ) is Some,
        ensures
            *final(self) == *old(self),
            walk_view_item(
                old(self).cx,
                old(self).analysis,
                fuel,
                old(self).prefix(),
                Walk { om: old(om)@, log: old(out)@ },
                *item,
            ) == Some(Walk { om: final(om)@, log: final(out)@ }),
        decreases fuel, 3int, *item,
    {
        if item.vis != Visibility::Public {
            let c = item.copy();
            let ghost before = om.view_items@;
            om.view_items.push(c);
            assert(om.view_items@.map_values(|v: ViewItem| v@) =~= before.map_values(
                |v: ViewItem| v@,
            ).push(c@));
            return ;
        }
        let ghost log0 = out@;
        out.append("// visitor vi => ");
        let s = view_item_to_str(item);
        out.append(s.as_str());
        out.append("\n");
        assert(out@ =~= log0 + "// visitor vi => "@ + view_item_text(*item) + "\n"@);
        let please = attrs_please_inline(&item.attrs);
        match &item.node {
            ViewItemKind::Use(vpath) => {
                match self.visit_view_path_f(vpath, om, please, out, Ghost(fuel)) {
                    None => {},
                    Some(path) => {
                        let v = ViewItem {
                            node: ViewItemKind::Use(path),
                            attrs: item.attrs.clone(),
                            vis: item.vis,
                            span: item.span,
                        };
                        let ghost before = om.view_items@;
                        om.view_items.push(v);
                        assert(om.view_items@.map_values(|v: ViewItem| v@) =~= before.map_values(
                            |v: ViewItem| v@,
                        ).push(v@));
                    },
                }
            },
            ViewItemKind::ExternCrate(..) => {
                let c = item.copy();
                let ghost before = om.view_items@;
                om.view_items.push(c);
                assert(om.view_items@.map_values(|v: ViewItem| v@) =~= before.map_values(
                    |v: ViewItem| v@,
                ).push(c@));
            },
        }
    }

    fn visit_view_path_f(
        &mut self,
        path: &Rc<ViewPath>,
        om: &mut Module,
        please_inline: bool,
        out: &mut String,
        Ghost(fuel): Ghost<nat>,
    ) -> (r: Option<Rc<ViewPath>>)
        requires
            walk_view_path(
                old(self).cx,
                old(self).analysis,
                fuel,
                old(self).prefix(),
                Walk { om: old(om)@, log: old(out)@ },
                **path,
                please_inline,
            ) is Some,
        ensures
            *final(self) == *old(self),
            walk_view_path(
                old(self).cx,
                old(self).analysis,
                fuel,
                old(self).prefix(),
                Walk { om: old(om)@, log: old(out)@ },
                **path,
                please_inline,
            ) == Some(
                (
                    Walk { om: final(om)@, log: final(out)@ },
                    match r {
                        Some(p) => Some((*p)@),
                        None => None,
                    },
                ),
            ),
        decreases fuel, 2int, **path,
    {
        match &path.node {
            ViewPathKind::Simple(ident, _, id) => {
                push_trace_line(out, "!  ", self.current_prefix.as_str(), ident.as_str());
                if self.resolve_id_f(*id, false, om, please_inline, out, Ghost(fuel)) {
                    return None;
                }
            },
            ViewPathKind::List(p, paths, b) => {
                let ghost w0 = Walk { om: om@, log: out@ };
                let mut mine: Vec<PathListIdent> = Vec::new();
                let n = paths.len();
                let mut i: usize = 0;
                assert(paths@.take(0) =~= Seq::<PathListIdent>::empty());
                while i < n
                    invariant
                        n == paths.len(),
                        i <= n,
                        *self == *old(self),
                        w0 == (Walk { om: old(om)@, log: old(out)@ }),
                        walk_list(self.cx, self.analysis, fuel, self.prefix(), w0, paths@, please_inline)
                            is Some,
                        walk_list(
                            self.cx,
                            self.analysis,
                            fuel,
                            self.prefix(),
                            w0,
                            paths@.take(i as int),
                            please_inline,
                        ) == Some((Walk { om: om@, log: out@ }, mine@)),
                    decreases n - i,
                {
                    proof {
                        lemma_list_prefix(
                            self.cx,
                            self.analysis,
                            fuel,
                            self.prefix(),
                            w0,
                            paths@,
                            please_inline,
                            i + 1,
                        );
                        assert(paths@.take(i + 1).subrange(0, i as int) =~= paths@.take(i as int));
                    }
                    let pl = &paths[i];
                    push_trace_line(out, "!* ", self.current_prefix.as_str(), pl.name.as_str());
                    if !self.resolve_id_f(pl.id, false, om, please_inline, out, Ghost(fuel)) {
                        mine.push(pl.copy());
                    }
                    i = i + 1;
                }
                assert(paths@.take(n as int) =~= paths@);
                if mine.len() == 0 {
                    return None;
                }
                return Some(
                    Rc::new(
                        ViewPath { node: ViewPathKind::List(p.clone(), mine, *b), span: path.span },
                    ),
                );
            },
            ViewPathKind::Glob(_, id) => {
                let ghost before = out@;
                out.append("!! ");
                out.append(self.current_prefix.as_str());
                out.append("::*\n");
                assert(out@ =~= before + "!! "@ + self.prefix() + "::*\n"@);
                if self.resolve_id_f(*id, true, om, please_inline, out, Ghost(fuel)) {
                    return None;
                }
            },
        }
        Some(path.clone())
    }

    fn resolve_id_f(
        &mut self,
        id: NodeId,
        glob: bool,
        om: &mut Module,
        please_inline: bool,
        out: &mut String,
        Ghost(fuel): Ghost<nat>,
    ) -> (r: bool)
        requires
            walk_resolve(
                old(self).cx,
                old(self).analysis,
                fuel,
                old(self).prefix(),
                Walk { om: old(om)@, log: old(out)@ },
                id,
                glob,
                please_inline,
            ) is Some,
        ensures
            *final(self) == *old(self),
            walk_resolve(
                old(self).cx,
                old(self).analysis,
                fuel,
                old(self).prefix(),
                Walk { om: old(om)@, log: old(out)@ },
                id,
                glob,
                please_inline,
            ) == Some((Walk { om: final(om)@, log: final(out)@ }, r)),
        decreases fuel, 0int, *old(self).cx,
    {
        let cx: &'a DocContext = self.cx;
        let tcx = match &cx.maybe_typed {
            MaybeTyped::Typed(t) => t,
            MaybeTyped::NotTyped => {
                return false;
            },
        };
        let def = match find_def(&tcx.def_map, id) {
            Some(d) => d,
            None => {
                return false;
            },
        };
        if def.krate != LOCAL_CRATE {
            return false;
        }
        let analysis = match self.analysis {
            Some(a) => a,
            None => {
                return false;
            },
        };
        if !please_inline && contains_node(&analysis.public_items, def.node) {
            return false;
        }
        match find_node(&tcx.map, def.node) {
            Some(MapNode::NodeItem(it)) => {
                if glob {
                    match &it.node {
                        ItemKind::Mod(m) => {
                            self.visit_view_items_f(&m.view_items, om, out, Ghost((fuel - 1) as nat));
                            self.visit_items_f(&m.items, om, out, Ghost((fuel - 1) as nat));
                        },
                        _ => {
                            return false;
                        },
                    }
                } else {
                    self.visit_item_f(&*it, om, out, Ghost((fuel - 1) as nat));
                }
                true
            },
            _ => false,
        }
    }
}

/// The values of the `crate_id = "..."` attributes, in order.
pub open spec fn crate_id_values(attrs: Seq<Attribute>) -> Seq<Seq<char>>
    decreases attrs.len(),
{
    if attrs.len() == 0 {
        Seq::empty()
    } else {
        crate_id_values(attrs.drop_last()) + match *attrs.last().value {
            MetaItem::NameValue(name, lit) => if name@ == "crate_id"@ {
                match lit {
                    Lit::Str(v) => seq![v@],
                    Lit::Other(_) => Seq::empty(),
                }
            } else {
                Seq::empty()
            },
            _ => Seq::empty(),
        }
    }
}

/// The values of the `crate_id = "..."` attributes of a crate, in order.
pub fn crate_id_literals(attrs: &Vec<Attribute>) -> (r: Vec<String>)
    ensures
        texts(r@) == crate_id_values(attrs@),
{
    let key = String::from_str("crate_id");
    proof {
        reveal_strlit("crate_id");
    }
    let mut r: Vec<String> = Vec::new();
    let n = attrs.len();
    let mut i: usize = 0;
    while i < n
        invariant
            n == attrs.len(),
            i <= n,
            key@ == "crate_id"@,
            texts(r@) == crate_id_values(attrs@.take(i as int)),
        decreases n - i,
    {
        assert(attrs@.take(i + 1).drop_last() =~= attrs@.take(i as int));
        let ghost before = texts(r@);
        match &*attrs[i].value {
            MetaItem::NameValue(name, lit) => {
                if *name == key {
                    match lit {
                        Lit::Str(v) => {
                            proof {
                                lemma_texts_push(r@, *v);
                            }
                            r.push(v.clone());
                        },
                        Lit::Other(_) => {},
                    }
                }
            },
            _ => {},
        }
        i = i + 1;
        assert(texts(r@) =~= crate_id_values(attrs@.take(i as int)));
    }
    assert(attrs@.take(n as int) =~= attrs@);
    r
}

/// The path of a crate's root: the names of its crate ids, one after another.
pub open spec fn crate_prefix(ids: Seq<CrateId>) -> Seq<char> {
    concat(ids.map_values(|c: CrateId| c.name@))
}

/// The lines listing the imports of a module.
pub open spec fn view_item_lines(vis: Seq<ViewItem>) -> Seq<char> {
    concat(vis.map_values(|v: ViewItem| "vi => "@ + view_item_text(v) + "\n"@))
}

/// The lines listing the structs of a module by name.
pub open spec fn struct_name_lines(structs: Seq<Struct>) -> Seq<char> {
    concat(structs.map_values(|s: Struct| "struct name => "@ + s.name@ + "\n"@))
}

/// Writes a line for each import of a module.
pub fn list_view_items(m: &Module, out: &mut String)
    ensures
        final(out)@ == old(out)@ + view_item_lines(m.view_items@),
{
    let ghost parts = m.view_items@.map_values(|v: ViewItem| "vi => "@ + view_item_text(v) + "\n"@);
    let n = m.view_items.len();
    let mut i: usize = 0;
    while i < n
        invariant
            n == m.view_items.len(),
            i <= n,
            parts == m.view_items@.map_values(|v: ViewItem| "vi => "@ + view_item_text(v) + "\n"@),
            out@ == old(out)@ + concat(parts.take(i as int)),
        decreases n - i,
    {
        proof {
            crate::text::lemma_concat_step(parts, i as int);
        }
        let ghost before = out@;
        out.append("vi => ");
        let s = view_item_to_str(&m.view_items[i]);
        out.append(s.as_str());
        out.append("\n");
        assert(out@ =~= before + parts[i as int]);
        i = i + 1;
    }
    assert(parts.take(n as int) =~= parts);
}

/// Writes a line naming each struct of a module.
pub fn list_struct_names(m: &Module, out: &mut String)
    ensures
        final(out)@ == old(out)@ + struct_name_lines(m.structs@),
{
    let ghost parts = m.structs@.map_values(|s: Struct| "struct name => "@ + s.name@ + "\n"@);
    let n = m.structs.len();
    let mut i: usize = 0;
    while i < n
        invariant
            n == m.structs.len(),
            i <= n,
            parts == m.structs@.map_values(|s: Struct| "struct name => "@ + s.name@ + "\n"@),
            out@ == old(out)@ + concat(parts.take(i as int)),
        decreases n - i,
    {
        proof {
            crate::text::lemma_concat_step(parts, i as int);
        }
        let ghost before = out@;
        out.append("struct name => ");
        out.append(m.structs[i].name.as_str());
        out.append("\n");
        assert(out@ =~= before + parts[i as int]);
        i = i + 1;
    }
    assert(parts.take(n as int) =~= parts);
}

impl<'a> RustdocVisitor<'a> {
    /// What visiting an item adds to the walk `w`, with enough resolutions.
    pub open spec fn item_walk(&self, w: Walk, item: Item) -> Option<Walk> {
        walk_item(
            self.cx,
            self.analysis,
            choose|f: nat| walk_item(self.cx, self.analysis, f, self.prefix(), w, item) is Some,
            self.prefix(),
            w,
            item,
        )
    }

    /// What visiting an import adds to the walk `w`, with enough resolutions.
    pub open spec fn view_item_walk(&self, w: Walk, item: ViewItem) -> Option<Walk> {
        walk_view_item(
            self.cx,
            self.analysis,
            choose|f: nat| walk_view_item(self.cx, self.analysis, f, self.prefix(), w, item) is Some,
            self.prefix(),
            w,
            item,
        )
    }

    /// What visiting the contents of a module gives, with enough resolutions.
    pub open spec fn mod_walk(
        &self,
        log: Seq<char>,
        span: Span,
        attrs: Rc<Vec<Attribute>>,
        vis: Visibility,
        id: NodeId,
        m: Mod,
        name: Option<String>,
    ) -> Option<Walk> {
        walk_mod(
            self.cx,
            self.analysis,
            choose|f: nat|
                walk_mod(self.cx, self.analysis, f, self.prefix(), log, span, attrs, vis, id, m, name)
                    is Some,
            self.prefix(),
            log,
            span,
            attrs,
            vis,
            id,
            m,
            name,
        )
    }

    /// Adds an item to the module `om`: a module item becomes a submodule
    /// walked under the path `prefix::name`; other items are documented
    /// in the list for their kind. Traces to `out`.
    pub fn visit_item(&mut self, item: &Item, om: &mut Module, out: &mut String)
        requires
            exists|f: nat|
                walk_item(
                    old(self).cx,
                    old(self).analysis,
                    f,
                    old(self).prefix(),
                    Walk { om: old(om)@, log: old(out)@ },
                    *item,
                ) is Some,
        ensures
            *final(self) == *old(self),
            old(self).item_walk(Walk { om: old(om)@, log: old(out)@ }, *item) == Some(
                Walk { om: final(om)@, log: final(out)@ },
            ),
    {
        let ghost f = choose|f: nat|
            walk_item(self.cx, self.analysis, f, self.prefix(), Walk { om: om@, log: out@ }, *item)
                is Some;
        self.visit_item_f(item, om, out, Ghost(f));
    }

    /// Adds an import to the module `om`: a private import is kept as it
    /// is; a public one is traced, what it names is inlined where the rules
    /// allow, and what remains of it is kept.
    pub fn visit_view_item(&mut self, item: &ViewItem, om: &mut Module, out: &mut String)
        requires
            exists|f: nat|
                walk_view_item(
                    old(self).cx,
                    old(self).analysis,
                    f,
                    old(self).prefix(),
                    Walk { om: old(om)@, log: old(out)@ },
                    *item,
                ) is Some,
        ensures
            *final(self) == *old(self),
            old(self).view_item_walk(Walk { om: old(om)@, log: old(out)@ }, *item) == Some(
                Walk { om: final(om)@, log: final(out)@ },
            ),
    {
        let ghost f = choose|f: nat|
            walk_view_item(self.cx, self.analysis, f, self.prefix(), Walk { om: om@, log: out@ }, *item)
                is Some;
        self.visit_view_item_f(item, om, out, Ghost(f));
    }

    /// The documentation of the contents of a module: its imports, then its
    /// items, with the span, attributes, visibility, node and name given.
    pub fn visit_mod_contents(
        &mut self,
        span: Span,
        attrs: Rc<Vec<Attribute>>,
        vis: Visibility,
        id: NodeId,
        m: &Mod,
        name: Option<String>,
        out: &mut String,
    ) -> (om: Module)
        requires
            exists|f: nat|
                walk_mod(
                    old(self).cx,
                    old(self).analysis,
                    f,
                    old(self).prefix(),
                    old(out)@,
                    span,
                    attrs,
                    vis,
                    id,
                    *m,
                    name,
                ) is Some,
        ensures
            *final(self) == *old(self),
            old(self).mod_walk(old(out)@, span, attrs, vis, id, *m, name) == Some(
                Walk { om: om@, log: final(out)@ },
            ),
    {
        let ghost f = choose|f: nat|
            walk_mod(self.cx, self.analysis, f, self.prefix(), out@, span, attrs, vis, id, *m, name)
                is Some;
        self.visit_mod_contents_f(span, attrs, vis, id, m, name, out, Ghost(f))
    }

    /// Walks a crate: its attributes are kept, the path of its root is the
    /// names of its crate ids (`crate_ids` holds the parse of each
    /// `crate_id` attribute value, in order), and its root module is walked
    /// as a public crate root.
    pub fn visit(&mut self, krate: &Crate, crate_ids: &Vec<CrateId>, out: &mut String)
        requires
            crate_ids@.len() == crate_id_values((*krate.attrs)@).len(),
            exists|f: nat|
                walk_mod(
                    old(self).cx,
                    old(self).analysis,
                    f,
                    crate_prefix(crate_ids@),
                    old(out)@,
                    krate.span,
                    krate.attrs,
                    Visibility::Public,
                    CRATE_NODE_ID,
                    krate.module,
                    None,
                ) is Some,
        ensures
            final(self).cx == old(self).cx,
            final(self).analysis == old(self).analysis,
            final(self).names == old(self).names,
            final(self).attrs == krate.attrs,
            final(self).prefix() == crate_prefix(crate_ids@),
            ({
                let r = final(self).mod_walk(
                    old(out)@,
                    krate.span,
                    krate.attrs,
                    Visibility::Public,
                    CRATE_NODE_ID,
                    krate.module,
                    None,
                ).unwrap();
                &&& final(self).module@ == ModuleV { is_crate: true, ..r.om }
                &&& final(out)@ == r.log
            }),
    {
        let mut crate_id = String::new();
        self.attrs = krate.attrs.clone();
        let ghost names = crate_ids@.map_values(|c: CrateId| c.name@);
        let n = crate_ids.len();
        let mut i: usize = 0;
        while i < n
            invariant
                n == crate_ids.len(),
                i <= n,
                names == crate_ids@.map_values(|c: CrateId| c.name@),
                crate_id@ == concat(names.take(i as int)),
            decreases n - i,
        {
            proof {
                crate::text::lemma_concat_step(names, i as int);
            }
            crate_id.append(crate_ids[i].name.as_str());
            i = i + 1;
        }
        assert(names.take(n as int) =~= names);
        self.current_prefix = crate_id;
        let module = self.visit_mod_contents(
            krate.span,
            krate.attrs.clone(),
            Visibility::Public,
            CRATE_NODE_ID,
            &krate.module,
            None,
            out,
        );
        self.module = module;
        self.module.is_crate = true;
    }
}

} // verus!
