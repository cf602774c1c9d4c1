use std::rc::Rc;

use lib::ast::{
    Attribute, Item, ItemKind, Mac, Path, PathListIdent, Span, Ty, TyKind, ViewItem,
    ViewItemKind, ViewPath, ViewPathKind, Visibility,
};
use lib::text::{push_decimal, push_join, push_spaces};
use lib::utils::{item_to_str, path_to_str, ty_to_str, view_item_to_str};

fn sp() -> Span {
    Span { lo: 0, hi: 0 }
}

fn path(global: bool, segs: &[&str]) -> Path {
    Path { span: sp(), global, segments: segs.iter().map(|s| s.to_string()).collect() }
}

fn use_item(vis: Visibility, node: ViewPathKind) -> ViewItem {
    ViewItem {
        node: ViewItemKind::Use(Rc::new(ViewPath { node, span: sp() })),
        attrs: Rc::new(Vec::<Attribute>::new()),
        vis,
        span: sp(),
    }
}

fn ident(name: &str, id: u32) -> PathListIdent {
    PathListIdent { name: name.to_string(), id, span: sp() }
}

#[test]
fn decimal_numbers() {
    let mut s = String::new();
    push_decimal(&mut s, 0);
    assert_eq!(s, "0");
    let mut s = String::from("T_");
    push_decimal(&mut s, 1234);
    assert_eq!(s, "T_1234");
    let mut s = String::new();
    push_decimal(&mut s, u64::MAX);
    assert_eq!(s, "18446744073709551615");
}

#[test]
fn distinct_numbers_distinct_names() {
    let mut a = String::new();
    push_decimal(&mut a, 10);
    let mut b = String::new();
    push_decimal(&mut b, 1);
    assert_ne!(a, b);
}

#[test]
fn spaces_and_join() {
    let mut s = String::from(">");
    push_spaces(&mut s, 3);
    assert_eq!(s, ">   ");
    let mut s = String::new();
    push_join(&mut s, &vec!["a".to_string(), "b".to_string(), "c".to_string()], "::");
    assert_eq!(s, "a::b::c");
    let mut s = String::from("x");
    push_join(&mut s, &vec![], ", ");
    assert_eq!(s, "x");
    let mut s = String::new();
    push_join(&mut s, &vec!["only".to_string()], ", ");
    assert_eq!(s, "only");
}

#[test]
fn paths() {
    assert_eq!(path_to_str(&path(true, &["std", "vec", "Vec"])), "::std::vec::Vec");
    assert_eq!(path_to_str(&path(false, &["a", "b"])), "a::b");
    assert_eq!(path_to_str(&path(false, &[])), "");
    assert_eq!(path_to_str(&path(true, &[])), "::");
}

#[test]
fn extern_crates() {
    let plain = ViewItem {
        node: ViewItemKind::ExternCrate("syntax".to_string(), None, 3),
        attrs: Rc::new(vec![]),
        vis: Visibility::Inherited,
        span: sp(),
    };
    assert_eq!(view_item_to_str(&plain), "extern crate syntax");
    let located = ViewItem {
        node: ViewItemKind::ExternCrate("foo".to_string(), Some("github.com/x/foo".to_string()), 4),
        attrs: Rc::new(vec![]),
        vis: Visibility::Public,
        span: sp(),
    };
    assert_eq!(view_item_to_str(&located), "extern crate foo = github.com/x/foo");
}

#[test]
fn uses() {
    let simple = use_item(
        Visibility::Public,
        ViewPathKind::Simple("v".to_string(), Rc::new(path(false, &["std", "vec"])), 5),
    );
    assert_eq!(view_item_to_str(&simple), "pub use v = std::vec");
    let glob = use_item(Visibility::Inherited, ViewPathKind::Glob(Rc::new(path(true, &["a"])), 6));
    assert_eq!(view_item_to_str(&glob), "use ::a::*");
    let list = use_item(
        Visibility::Inherited,
        ViewPathKind::List(Rc::new(path(false, &["a", "b"])), vec![ident("c", 7), ident("d", 8)], 9),
    );
    assert_eq!(view_item_to_str(&list), "use a::b::{c,d}");
    let empty = use_item(
        Visibility::Public,
        ViewPathKind::List(Rc::new(path(false, &["a"])), vec![], 10),
    );
    assert_eq!(view_item_to_str(&empty), "pub use a::");
}

#[test]
fn items() {
    let item = Item {
        ident: "main".to_string(),
        attrs: Rc::new(vec![]),
        id: 1,
        node: ItemKind::Mac(Rc::new(Mac { source: "m!()".to_string() })),
        vis: Visibility::Public,
        span: sp(),
    };
    assert_eq!(item_to_str(&item), "pub ItemMac ITEM: main ");
    let private = Item { vis: Visibility::Inherited, ..item };
    assert_eq!(item_to_str(&private), "ItemMac ITEM: main ");
}

#[test]
fn written_types() {
    let mut log = String::new();
    let t = Ty { id: 2, node: TyKind::Path(Rc::new(path(false, &["Foo", "Bar"])), 3), span: sp() };
    assert_eq!(ty_to_str(&t, &mut log), "");
    assert_eq!(log, "path ~! Foo::Bar\n");
    let mut log = String::new();
    let t = Ty { id: 2, node: TyKind::Infer, span: sp() };
    assert_eq!(ty_to_str(&t, &mut log), "");
    assert_eq!(log, "");
}
