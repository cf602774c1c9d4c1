use std::rc::Rc;

use lib::ast::{
    Abi, AttrStyle, Attribute, Crate, DefId, EnumDef, Expr, FnDecl, FnStyle, ForeignMod, Generics,
    Item, ItemKind, Lit, Mac, MetaItem, Mod, Mutability, Path, PathListIdent, Span, StructDef, Ty,
    TyKind, Variant, VariantKind, ViewItem, ViewItemKind, ViewPath, ViewPathKind, Visibility,
};
use lib::clean::StructType;
use lib::context::{
    contains_node, find_def, find_node, CrateAnalysis, CrateId, DocContext, MapNode, MaybeTyped, TyCtxt,
};
use lib::doctree::Module;
use lib::utils::view_item_to_str;
use lib::walk_check::crate_walk_fits;
use lib::visitor::{
    attrs_please_inline, crate_id_literals, list_struct_names, list_view_items, struct_type_from_def,
    RustdocVisitor,
};

fn sp() -> Span {
    Span { lo: 0, hi: 0 }
}

fn path(segs: &[&str]) -> Path {
    Path { span: sp(), global: false, segments: segs.iter().map(|s| s.to_string()).collect() }
}

fn no_generics() -> Rc<Generics> {
    Rc::new(Generics { lifetimes: vec![], ty_params: vec![] })
}

fn unit_ty(id: u32) -> Rc<Ty> {
    Rc::new(Ty { id, node: TyKind::Nil, span: sp() })
}

fn item(name: &str, id: u32, node: ItemKind) -> Item {
    Item { ident: name.to_string(), attrs: Rc::new(vec![]), id, node, vis: Visibility::Public, span: sp() }
}

fn fn_item(name: &str, id: u32) -> Item {
    let decl = Rc::new(FnDecl { inputs: vec![], output: unit_ty(id + 1000) });
    item(name, id, ItemKind::Fn(decl, FnStyle::NormalFn, Abi::Rust, no_generics()))
}

fn struct_item(name: &str, id: u32) -> Item {
    let sd = Rc::new(StructDef { fields: Rc::new(vec![]), ctor_id: None });
    item(name, id, ItemKind::Struct(sd, no_generics()))
}

fn mod_item(name: &str, id: u32, items: Vec<Item>) -> Item {
    let m = Mod { inner: sp(), view_items: vec![], items: items.into_iter().map(Rc::new).collect() };
    item(name, id, ItemKind::Mod(m))
}

fn empty_crate() -> Crate {
    Crate { module: Mod { inner: sp(), view_items: vec![], items: vec![] }, attrs: Rc::new(vec![]), span: sp() }
}

fn untyped() -> DocContext {
    DocContext { krate: empty_crate(), maybe_typed: MaybeTyped::NotTyped }
}

fn typed(def_map: Vec<(u32, DefId)>, map: Vec<(u32, MapNode)>) -> DocContext {
    DocContext { krate: empty_crate(), maybe_typed: MaybeTyped::Typed(TyCtxt { def_map, map }) }
}

fn local(node: u32) -> DefId {
    DefId { krate: 0, node }
}

fn use_item(node: ViewPathKind, attrs: Vec<Attribute>) -> ViewItem {
    ViewItem {
        node: ViewItemKind::Use(Rc::new(ViewPath { node, span: sp() })),
        attrs: Rc::new(attrs),
        vis: Visibility::Public,
        span: sp(),
    }
}

fn simple_use(name: &str, segs: &[&str], id: u32) -> ViewItem {
    use_item(ViewPathKind::Simple(name.to_string(), Rc::new(path(segs)), id), vec![])
}

fn attr(value: MetaItem) -> Attribute {
    Attribute { style: AttrStyle::Outer, value: Rc::new(value), is_sugared_doc: false, span: sp() }
}

fn doc_inline() -> Attribute {
    attr(MetaItem::List("doc".to_string(), vec![Rc::new(MetaItem::Word("inline".to_string()))]))
}

fn ident(name: &str, id: u32) -> PathListIdent {
    PathListIdent { name: name.to_string(), id, span: sp() }
}

fn visitor<'a>(cx: &'a DocContext, an: Option<&'a CrateAnalysis>, prefix: &str) -> RustdocVisitor<'a> {
    let mut v = RustdocVisitor::new(cx, an);
    v.current_prefix = prefix.to_string();
    v
}

fn no_public_items() -> CrateAnalysis {
    CrateAnalysis { exported_items: vec![], public_items: vec![] }
}

#[test]
fn new_visitor_is_empty() {
    let cx = untyped();
    let v = RustdocVisitor::new(&cx, None);
    assert_eq!(v.current_prefix, "");
    assert!(v.names.is_empty());
    assert!(v.attrs.is_empty());
    assert!(v.module.name.is_none());
    assert!(!v.module.is_crate);
    assert!(v.module.structs.is_empty() && v.module.mods.is_empty() && v.module.view_items.is_empty());
}

#[test]
fn items_go_to_their_lists_with_traces() {
    let cx = untyped();
    let mut v = visitor(&cx, None, "k");
    let mut om = Module::new(None);
    let mut out = String::new();

    v.visit_item(&struct_item("S", 1), &mut om, &mut out);
    let variants = vec![
        Rc::new(Variant {
            name: "A".to_string(),
            attrs: Rc::new(vec![]),
            kind: Rc::new(VariantKind::Tuple(vec![])),
            id: 3,
            vis: Visibility::Public,
            span: sp(),
        }),
        Rc::new(Variant {
            name: "B".to_string(),
            attrs: Rc::new(vec![]),
            kind: Rc::new(VariantKind::Tuple(vec![unit_ty(5)])),
            id: 4,
            vis: Visibility::Public,
            span: sp(),
        }),
    ];
    v.visit_item(&item("E", 2, ItemKind::Enum(Rc::new(EnumDef { variants }), no_generics())), &mut om, &mut out);
    v.visit_item(&fn_item("f", 6), &mut om, &mut out);
    v.visit_item(&item("T", 7, ItemKind::Ty(unit_ty(8), no_generics())), &mut om, &mut out);
    let e = Rc::new(Expr { id: 10, source: "0".to_string() });
    v.visit_item(&item("X", 9, ItemKind::Static(unit_ty(11), Mutability::Immutable, e)), &mut om, &mut out);
    v.visit_item(
        &item("Tr", 12, ItemKind::Trait(no_generics(), Rc::new(vec![]), Rc::new(vec![]))),
        &mut om,
        &mut out,
    );
    let self_ty = Rc::new(Ty { id: 14, node: TyKind::Path(Rc::new(path(&["Foo"])), 15), span: sp() });
    v.visit_item(&item("", 13, ItemKind::Impl(no_generics(), None, self_ty, Rc::new(vec![]))), &mut om, &mut out);
    let fm = Rc::new(ForeignMod { abi: Abi::C, items: vec![] });
    v.visit_item(&item("", 16, ItemKind::ForeignMod(fm)), &mut om, &mut out);
    v.visit_item(&item("m", 17, ItemKind::Mac(Rc::new(Mac { source: "m!()".to_string() }))), &mut om, &mut out);

    assert_eq!(
        out,
        "!s k::S\n!e|k::A\n!e|k::B\n!f k::f\n!t k::T\n!_ k::X\n!T k::Tr\n\
         impl for => 14\n!!!!!!!!!! Foo\nimp name = \n"
    );
    assert_eq!(om.structs.len(), 1);
    assert_eq!(om.structs[0].name, "S");
    assert!(matches!(om.structs[0].struct_type, StructType::Plain));
    assert_eq!(om.enums.len(), 1);
    assert_eq!(om.enums[0].variants.len(), 2);
    assert_eq!(om.enums[0].variants[1].name, "B");
    assert_eq!(om.enums[0].variants[1].id, 4);
    assert_eq!(om.fns.len(), 1);
    assert_eq!(om.fns[0].name, "f");
    assert_eq!(om.typedefs[0].name, "T");
    assert_eq!(om.statics[0].name, "X");
    assert_eq!(om.traits[0].name, "Tr");
    assert_eq!(om.impls.len(), 1);
    assert_eq!(om.impls[0].for_.id, 14);
    assert_eq!(om.foreigns.len(), 1);
    assert_eq!(om.macros.len(), 1);
    assert_eq!(om.macros[0].name, "m");
    assert_eq!(v.current_prefix, "k");
}

#[test]
fn impl_of_a_non_path_type_names_no_path() {
    let cx = untyped();
    let mut v = visitor(&cx, None, "k");
    let mut om = Module::new(None);
    let mut out = String::new();
    v.visit_item(&item("i", 1, ItemKind::Impl(no_generics(), None, unit_ty(42), Rc::new(vec![]))), &mut om, &mut out);
    assert_eq!(out, "impl for => 42\nimp name = i\n");
}

#[test]
fn submodules_are_walked_under_their_path() {
    let cx = untyped();
    let mut v = visitor(&cx, None, "k");
    let mut om = Module::new(None);
    let mut out = String::from("before\n");
    let inner = mod_item("inner", 1, vec![fn_item("g", 2), mod_item("deep", 3, vec![struct_item("D", 4)])]);
    v.visit_item(&inner, &mut om, &mut out);
    v.visit_item(&fn_item("h", 5), &mut om, &mut out);
    assert_eq!(out, "before\n!m k::inner\n!f k::inner::g\n!m k::inner::deep\n!s k::inner::deep::D\n!f k::h\n");
    assert_eq!(v.current_prefix, "k");
    assert_eq!(om.mods.len(), 1);
    let m = &om.mods[0];
    assert_eq!(m.name.as_deref(), Some("inner"));
    assert_eq!(m.id, 1);
    assert!(matches!(m.vis, Visibility::Public));
    assert_eq!(m.fns[0].name, "g");
    assert_eq!(m.mods[0].structs[0].name, "D");
    assert_eq!(om.fns[0].name, "h");
}

#[test]
fn module_contents_imports_first() {
    let cx = untyped();
    let mut v = visitor(&cx, None, "p");
    let mut out = String::new();
    let private = ViewItem { vis: Visibility::Inherited, ..simple_use("a", &["x", "a"], 1) };
    let m = Mod {
        inner: Span { lo: 3, hi: 9 },
        view_items: vec![private, simple_use("b", &["x", "b"], 2)],
        items: vec![Rc::new(fn_item("f", 3))],
    };
    let attrs = Rc::new(vec![attr(MetaItem::Word("w".to_string()))]);
    let om = v.visit_mod_contents(
        Span { lo: 1, hi: 10 },
        attrs,
        Visibility::Inherited,
        77,
        &m,
        Some("n".to_string()),
        &mut out,
    );
    assert_eq!(out, "// visitor vi => pub use b = x::b\n!  p::b\n!f p::f\n");
    assert_eq!(om.name.as_deref(), Some("n"));
    assert_eq!(om.id, 77);
    assert_eq!(om.where_outer.hi, 10);
    assert_eq!(om.where_inner.lo, 3);
    assert_eq!(om.attrs.len(), 1);
    assert!(matches!(om.vis, Visibility::Inherited));
    assert_eq!(om.view_items.len(), 2);
    assert_eq!(view_item_to_str(&om.view_items[0]), "use a = x::a");
    assert_eq!(view_item_to_str(&om.view_items[1]), "pub use b = x::b");
    assert_eq!(om.fns.len(), 1);
}

#[test]
fn private_imports_are_kept_without_trace() {
    let cx = untyped();
    let mut v = visitor(&cx, None, "k");
    let mut om = Module::new(None);
    let mut out = String::from("x");
    let private = ViewItem { vis: Visibility::Inherited, ..simple_use("a", &["m", "a"], 1) };
    v.visit_view_item(&private, &mut om, &mut out);
    assert_eq!(out, "x");
    assert_eq!(om.view_items.len(), 1);
    assert_eq!(view_item_to_str(&om.view_items[0]), "use a = m::a");
}

#[test]
fn public_extern_crate_is_traced_and_kept() {
    let cx = untyped();
    let mut v = visitor(&cx, None, "k");
    let mut om = Module::new(None);
    let mut out = String::new();
    let ec = ViewItem {
        node: ViewItemKind::ExternCrate("foo".to_string(), None, 1),
        attrs: Rc::new(vec![]),
        vis: Visibility::Public,
        span: sp(),
    };
    v.visit_view_item(&ec, &mut om, &mut out);
    assert_eq!(out, "// visitor vi => extern crate foo\n");
    assert_eq!(om.view_items.len(), 1);
}

#[test]
fn untyped_crate_inlines_nothing() {
    let cx = untyped();
    let an = no_public_items();
    let mut v = visitor(&cx, Some(&an), "k");
    let mut om = Module::new(None);
    let mut out = String::new();
    let glob = use_item(ViewPathKind::Glob(Rc::new(path(&["m"])), 2), vec![]);
    v.visit_view_item(&glob, &mut om, &mut out);
    assert_eq!(out, "// visitor vi => pub use m::*\n!! k::*\n");
    assert_eq!(om.view_items.len(), 1);
}

#[test]
fn private_item_behind_public_import_is_inlined() {
    let hidden = Rc::new(fn_item("hidden", 100));
    let cx = typed(vec![(5, local(100))], vec![(100, MapNode::NodeItem(hidden))]);
    let an = no_public_items();
    let mut v = visitor(&cx, Some(&an), "k");
    let mut om = Module::new(None);
    let mut out = String::new();
    v.visit_view_item(&simple_use("hidden", &["m", "hidden"], 5), &mut om, &mut out);
    assert_eq!(out, "// visitor vi => pub use hidden = m::hidden\n!  k::hidden\n!f k::hidden\n");
    assert!(om.view_items.is_empty());
    assert_eq!(om.fns.len(), 1);
    assert_eq!(om.fns[0].name, "hidden");
}

#[test]
fn public_item_is_inlined_only_when_asked() {
    let shown = Rc::new(struct_item("Shown", 100));
    let cx = typed(vec![(5, local(100))], vec![(100, MapNode::NodeItem(shown))]);
    let an = CrateAnalysis { exported_items: vec![100], public_items: vec![100] };
    let mut v = visitor(&cx, Some(&an), "k");

    let mut om = Module::new(None);
    let mut out = String::new();
    v.visit_view_item(&simple_use("Shown", &["m", "Shown"], 5), &mut om, &mut out);
    assert_eq!(out, "// visitor vi => pub use Shown = m::Shown\n!  k::Shown\n");
    assert_eq!(om.view_items.len(), 1);
    assert!(om.structs.is_empty());

    let mut om = Module::new(None);
    let mut out = String::new();
    let asked = use_item(
        ViewPathKind::Simple("Shown".to_string(), Rc::new(path(&["m", "Shown"])), 5),
        vec![doc_inline()],
    );
    v.visit_view_item(&asked, &mut om, &mut out);
    assert_eq!(out, "// visitor vi => pub use Shown = m::Shown\n!  k::Shown\n!s k::Shown\n");
    assert!(om.view_items.is_empty());
    assert_eq!(om.structs[0].name, "Shown");
}

#[test]
fn items_of_other_crates_or_without_analysis_are_not_inlined() {
    let it = Rc::new(fn_item("g", 100));
    let cx = typed(
        vec![(5, DefId { krate: 3, node: 100 }), (6, local(100))],
        vec![(100, MapNode::NodeItem(it))],
    );
    let an = no_public_items();
    let mut v = visitor(&cx, Some(&an), "k");
    let mut om = Module::new(None);
    let mut out = String::new();
    v.visit_view_item(&simple_use("g", &["other", "g"], 5), &mut om, &mut out);
    assert_eq!(om.view_items.len(), 1);
    assert!(om.fns.is_empty());

    let mut v = visitor(&cx, None, "k");
    let mut om = Module::new(None);
    let mut out = String::new();
    v.visit_view_item(&simple_use("g", &["m", "g"], 6), &mut om, &mut out);
    assert_eq!(om.view_items.len(), 1);
    assert!(om.fns.is_empty());
}

#[test]
fn nodes_that_are_not_items_are_not_inlined() {
    let cx = typed(vec![(5, local(100))], vec![(100, MapNode::NodeOther)]);
    let an = no_public_items();
    let mut v = visitor(&cx, Some(&an), "k");
    let mut om = Module::new(None);
    let mut out = String::new();
    v.visit_view_item(&simple_use("x", &["m", "x"], 5), &mut om, &mut out);
    assert_eq!(om.view_items.len(), 1);
}

#[test]
fn glob_import_inlines_the_module_contents() {
    let inner = mod_item("m", 200, vec![fn_item("a", 201), struct_item("B", 202)]);
    let cx = typed(vec![(6, local(200))], vec![(200, MapNode::NodeItem(Rc::new(inner)))]);
    let an = no_public_items();
    let mut v = visitor(&cx, Some(&an), "k");
    let mut om = Module::new(None);
    let mut out = String::new();
    let glob = use_item(ViewPathKind::Glob(Rc::new(path(&["m"])), 6), vec![]);
    v.visit_view_item(&glob, &mut om, &mut out);
    assert_eq!(out, "// visitor vi => pub use m::*\n!! k::*\n!f k::a\n!s k::B\n");
    assert!(om.view_items.is_empty());
    assert!(om.mods.is_empty());
    assert_eq!(om.fns[0].name, "a");
    assert_eq!(om.structs[0].name, "B");
}

#[test]
fn import_list_keeps_the_names_not_inlined() {
    let x = Rc::new(fn_item("x", 300));
    let cx = typed(
        vec![(7, local(300)), (8, DefId { krate: 1, node: 9 })],
        vec![(300, MapNode::NodeItem(x))],
    );
    let an = no_public_items();
    let mut v = visitor(&cx, Some(&an), "k");
    let mut om = Module::new(None);
    let mut out = String::new();
    let list = use_item(
        ViewPathKind::List(Rc::new(path(&["m"])), vec![ident("x", 7), ident("y", 8)], 9),
        vec![],
    );
    v.visit_view_item(&list, &mut om, &mut out);
    assert_eq!(out, "// visitor vi => pub use m::{x,y}\n!* k::x\n!f k::x\n!* k::y\n");
    assert_eq!(om.view_items.len(), 1);
    assert_eq!(view_item_to_str(&om.view_items[0]), "pub use m::{y}");
    assert_eq!(om.fns[0].name, "x");
}

#[test]
fn import_list_wholly_inlined_is_dropped() {
    let x = Rc::new(fn_item("x", 300));
    let cx = typed(vec![(7, local(300))], vec![(300, MapNode::NodeItem(x))]);
    let an = no_public_items();
    let mut v = visitor(&cx, Some(&an), "k");
    let mut om = Module::new(None);
    let mut out = String::new();
    let list = use_item(ViewPathKind::List(Rc::new(path(&["m"])), vec![ident("x", 7)], 9), vec![]);
    v.visit_view_item(&list, &mut om, &mut out);
    assert!(om.view_items.is_empty());
    let empty = use_item(ViewPathKind::List(Rc::new(path(&["m"])), vec![], 10), vec![]);
    v.visit_view_item(&empty, &mut om, &mut out);
    assert!(om.view_items.is_empty());
}

#[test]
fn crate_walk_uses_crate_id_names() {
    let cx = untyped();
    let mut v = RustdocVisitor::new(&cx, None);
    let krate = Crate {
        module: Mod { inner: sp(), view_items: vec![], items: vec![Rc::new(struct_item("S", 1))] },
        attrs: Rc::new(vec![attr(MetaItem::NameValue(
            "crate_id".to_string(),
            Lit::Str("foo#0.1".to_string()),
        ))]),
        span: Span { lo: 0, hi: 50 },
    };
    let ids = vec![CrateId { path: "foo".to_string(), name: "foo".to_string(), version: Some("0.1".to_string()) }];
    let mut out = String::new();
    v.visit(&krate, &ids, &mut out);
    assert_eq!(out, "!s foo::S\n");
    assert_eq!(v.current_prefix, "foo");
    assert!(v.module.is_crate);
    assert!(matches!(v.module.vis, Visibility::Public));
    assert_eq!(v.module.id, 0);
    assert_eq!(v.module.where_outer.hi, 50);
    assert_eq!(v.attrs.len(), 1);
    assert_eq!(v.module.structs[0].name, "S");
}

#[test]
fn crate_without_crate_id_has_empty_path() {
    let cx = untyped();
    let mut v = RustdocVisitor::new(&cx, None);
    let krate = Crate {
        module: Mod { inner: sp(), view_items: vec![], items: vec![Rc::new(fn_item("main", 1))] },
        attrs: Rc::new(vec![]),
        span: sp(),
    };
    let mut out = String::new();
    v.visit(&krate, &vec![], &mut out);
    assert_eq!(out, "!f ::main\n");
    assert!(v.module.is_crate);
}

#[test]
fn crate_id_values_in_order() {
    let attrs = vec![
        attr(MetaItem::NameValue("crate_id".to_string(), Lit::Str("a#1".to_string()))),
        attr(MetaItem::Word("crate_id".to_string())),
        attr(MetaItem::NameValue("license".to_string(), Lit::Str("MIT".to_string()))),
        attr(MetaItem::NameValue("crate_id".to_string(), Lit::Other("3".to_string()))),
        attr(MetaItem::NameValue("crate_id".to_string(), Lit::Str("b".to_string()))),
    ];
    assert_eq!(crate_id_literals(&attrs), vec!["a#1".to_string(), "b".to_string()]);
    assert!(crate_id_literals(&vec![]).is_empty());
}

#[test]
fn inline_attribute() {
    assert!(attrs_please_inline(&vec![doc_inline()]));
    assert!(!attrs_please_inline(&vec![]));
    assert!(!attrs_please_inline(&vec![attr(MetaItem::Word("inline".to_string()))]));
    assert!(!attrs_please_inline(&vec![attr(MetaItem::List(
        "doc".to_string(),
        vec![Rc::new(MetaItem::Word("hidden".to_string()))],
    ))]));
    assert!(attrs_please_inline(&vec![
        attr(MetaItem::Word("x".to_string())),
        attr(MetaItem::List(
            "foo".to_string(),
            vec![
                Rc::new(MetaItem::Word("a".to_string())),
                Rc::new(MetaItem::NameValue("inline".to_string(), Lit::Other("1".to_string()))),
            ],
        )),
    ]));
}

#[test]
fn struct_shapes() {
    let field = |id: u32| lib::ast::StructField {
        name: None,
        vis: Visibility::Inherited,
        ty: unit_ty(id),
        id,
        attrs: Rc::new(vec![]),
        span: sp(),
    };
    let plain = StructDef { fields: Rc::new(vec![field(1)]), ctor_id: None };
    assert!(matches!(struct_type_from_def(&plain), StructType::Plain));
    let unit = StructDef { fields: Rc::new(vec![]), ctor_id: Some(2) };
    assert!(matches!(struct_type_from_def(&unit), StructType::Unit));
    let newtype = StructDef { fields: Rc::new(vec![field(1)]), ctor_id: Some(2) };
    assert!(matches!(struct_type_from_def(&newtype), StructType::Newtype));
    let tuple = StructDef { fields: Rc::new(vec![field(1), field(3)]), ctor_id: Some(2) };
    assert!(matches!(struct_type_from_def(&tuple), StructType::Tuple));
}

#[test]
fn lookups() {
    let defs = vec![(1, local(10)), (2, DefId { krate: 4, node: 20 }), (1, local(30))];
    assert_eq!(find_def(&defs, 1), Some(local(10)));
    assert_eq!(find_def(&defs, 2), Some(DefId { krate: 4, node: 20 }));
    assert_eq!(find_def(&defs, 3), None);
    let nodes = vec![(10, MapNode::NodeOther), (11, MapNode::NodeItem(Rc::new(fn_item("f", 11))))];
    assert!(matches!(find_node(&nodes, 10), Some(MapNode::NodeOther)));
    assert!(matches!(find_node(&nodes, 11), Some(MapNode::NodeItem(it)) if it.ident == "f"));
    assert!(find_node(&nodes, 12).is_none());
    assert!(contains_node(&vec![3, 5, 7], 5));
    assert!(!contains_node(&vec![3, 5, 7], 4));
    assert!(!contains_node(&vec![], 0));
}

#[test]
fn module_listings() {
    let cx = untyped();
    let mut v = visitor(&cx, None, "k");
    let mut om = Module::new(None);
    let mut sink = String::new();
    v.visit_item(&struct_item("A", 1), &mut om, &mut sink);
    v.visit_item(&struct_item("B", 2), &mut om, &mut sink);
    v.visit_view_item(&simple_use("c", &["x", "c"], 3), &mut om, &mut sink);
    let mut out = String::from("> ");
    list_view_items(&om, &mut out);
    assert_eq!(out, "> vi => pub use c = x::c\n");
    let mut out = String::new();
    list_struct_names(&om, &mut out);
    assert_eq!(out, "struct name => A\nstruct name => B\n");
    let mut out = String::new();
    list_struct_names(&Module::new(None), &mut out);
    assert_eq!(out, "");
}

#[test]
fn walking_only_appends_to_the_trace_and_module() {
    let cx = untyped();
    let mut v = visitor(&cx, None, "k");
    let mut om = Module::new(None);
    v.visit_item(&fn_item("first", 1), &mut om, &mut String::new());
    let mut out = String::from("earlier lines\n");
    let before = out.clone();
    v.visit_item(&mod_item("m", 2, vec![fn_item("g", 3)]), &mut om, &mut out);
    v.visit_view_item(&simple_use("u", &["m", "u"], 4), &mut om, &mut out);
    assert!(out.starts_with(&before));
    assert_eq!(om.fns[0].name, "first");
    assert_eq!(om.fns.len(), 1);
    assert_eq!(om.mods.len(), 1);
    assert_eq!(v.current_prefix, "k");
}

#[test]
fn empty_import_list_is_dropped_even_when_nothing_is_inlined() {
    let cx = untyped();
    let mut v = visitor(&cx, None, "k");
    let mut om = Module::new(None);
    let mut out = String::new();
    let empty = use_item(ViewPathKind::List(Rc::new(path(&["m"])), vec![], 10), vec![]);
    v.visit_view_item(&empty, &mut om, &mut out);
    assert_eq!(out, "// visitor vi => pub use m::\n");
    assert!(om.view_items.is_empty());
    let list = use_item(ViewPathKind::List(Rc::new(path(&["m"])), vec![ident("a", 1), ident("b", 2)], 11), vec![]);
    v.visit_view_item(&list, &mut om, &mut out);
    assert_eq!(out, "// visitor vi => pub use m::\n// visitor vi => pub use m::{a,b}\n!* k::a\n!* k::b\n");
    assert_eq!(om.view_items.len(), 1);
    assert_eq!(view_item_to_str(&om.view_items[0]), "pub use m::{a,b}");
}

#[test]
fn walk_check_accepts_a_resolvable_crate() {
    let inner = mod_item("m", 200, vec![fn_item("a", 201)]);
    let cx = typed(vec![(6, local(200))], vec![(200, MapNode::NodeItem(Rc::new(inner)))]);
    let an = no_public_items();
    let krate = Crate {
        module: Mod {
            inner: sp(),
            view_items: vec![use_item(ViewPathKind::Glob(Rc::new(path(&["m"])), 6), vec![])],
            items: vec![Rc::new(struct_item("S", 1))],
        },
        attrs: Rc::new(vec![]),
        span: sp(),
    };
    assert!(crate_walk_fits(&cx, Some(&an), &krate, 1));
    assert!(crate_walk_fits(&cx, Some(&an), &krate, 64));
    assert!(!crate_walk_fits(&cx, Some(&an), &krate, 0));
    let mut v = RustdocVisitor::new(&cx, Some(&an));
    let mut out = String::new();
    v.visit(&krate, &vec![], &mut out);
    assert_eq!(out, "// visitor vi => pub use m::*\n!! ::*\n!f ::a\n!s ::S\n");
}

#[test]
fn walk_check_refuses_unknown_and_bad_imports() {
    let an = no_public_items();
    let crate_with = |vi: ViewItem| Crate {
        module: Mod { inner: sp(), view_items: vec![vi], items: vec![] },
        attrs: Rc::new(vec![]),
        span: sp(),
    };
    // The import's node has no definition.
    let cx = typed(vec![], vec![]);
    assert!(!crate_walk_fits(&cx, Some(&an), &crate_with(simple_use("x", &["m", "x"], 5)), 8));
    // The definition is local but no node stands for it.
    let cx = typed(vec![(5, local(100))], vec![]);
    assert!(!crate_walk_fits(&cx, Some(&an), &crate_with(simple_use("x", &["m", "x"], 5)), 8));
    // A glob import of something other than a module.
    let cx = typed(vec![(6, local(100))], vec![(100, MapNode::NodeItem(Rc::new(fn_item("f", 100))))]);
    let glob = use_item(ViewPathKind::Glob(Rc::new(path(&["f"])), 6), vec![]);
    assert!(!crate_walk_fits(&cx, Some(&an), &crate_with(glob), 8));
    // A private import is never resolved.
    let cx = typed(vec![], vec![]);
    let private = ViewItem { vis: Visibility::Inherited, ..simple_use("x", &["m", "x"], 5) };
    assert!(crate_walk_fits(&cx, Some(&an), &crate_with(private), 0));
}

#[test]
fn walk_check_refuses_a_glob_import_of_its_own_module() {
    let glob = use_item(ViewPathKind::Glob(Rc::new(path(&["m"])), 6), vec![]);
    let looping = Item {
        ident: "m".to_string(),
        attrs: Rc::new(vec![]),
        id: 200,
        node: ItemKind::Mod(Mod { inner: sp(), view_items: vec![use_item(ViewPathKind::Glob(Rc::new(path(&["m"])), 6), vec![])], items: vec![] }),
        vis: Visibility::Inherited,
        span: sp(),
    };
    let cx = typed(vec![(6, local(200))], vec![(200, MapNode::NodeItem(Rc::new(looping)))]);
    let an = no_public_items();
    let krate = Crate {
        module: Mod { inner: sp(), view_items: vec![glob], items: vec![] },
        attrs: Rc::new(vec![]),
        span: sp(),
    };
    assert!(!crate_walk_fits(&cx, Some(&an), &krate, 100));
}
