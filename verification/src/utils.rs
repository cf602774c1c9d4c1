//! One-line renderings of syntax-tree nodes: imports, paths and items.

use vstd::prelude::*;
use crate::ast::{Item, ItemKind, Path, PathListIdent, Ty, TyKind, ViewItem, ViewItemKind, ViewPath, ViewPathKind, Visibility};
use crate::text::{join, lemma_join_step, push_join, texts};

verus! {

/// The text of a path: `::` in front of a global path, then the segments
/// joined by `::`.
pub open spec fn path_text(p: Path) -> Seq<char> {
    (if p.global { "::"@ } else { Seq::empty() }) + join(texts(p.segments@), "::"@)
}

/// The names of an import list.
pub open spec fn list_names(idents: Seq<PathListIdent>) -> Seq<Seq<char>> {
    idents.map_values(|i: PathListIdent| i.name@)
}

/// The text of an import after `use `.
pub open spec fn view_path_text(vp: ViewPath) -> Seq<char> {
    match vp.node {
        ViewPathKind::Simple(ident, path, _) => ident@ + " = "@ + path_text(*path),
        ViewPathKind::Glob(path, _) => path_text(*path) + "::*"@,
        ViewPathKind::List(path, idents, _) => path_text(*path) + "::"@ + if idents@.len() == 0 {
            Seq::empty()
        } else {
            "{"@ + join(list_names(idents@), ","@) + "}"@
        },
    }
}

/// The text of an `extern crate` or `use` item.
pub open spec fn view_item_text(i: ViewItem) -> Seq<char> {
    match i.node {
        ViewItemKind::ExternCrate(ident, location, _) => "extern crate "@ + ident@ + match location {
            Some(l) => " = "@ + l@,
            None => Seq::empty(),
        },
        ViewItemKind::Use(vp) => (if i.vis == Visibility::Public {
            "pub "@
        } else {
            Seq::empty()
        }) + "use "@ + view_path_text(*vp),
    }
}

/// The label of an item kind.
pub open spec fn item_kind_label(k: ItemKind) -> Seq<char> {
    match k {
        ItemKind::Static(..) => "ItemStatic"@,
        ItemKind::Fn(..) => "ItemPub Fn"@,
        ItemKind::Mod(..) => "ItemMod"@,
        ItemKind::ForeignMod(..) => "ItemForeignMod"@,
        ItemKind::Ty(..) => "ItemTy"@,
        ItemKind::Enum(..) => "ItemEnum"@,
        ItemKind::Struct(..) => "ItemStruct"@,
        ItemKind::Trait(..) => "ItemTrait"@,
        ItemKind::Impl(..) => "ItemImpl"@,
        ItemKind::Mac(..) => "ItemMac"@,
    }
}

/// The text of an item: `pub ` if it is public, its kind, and its name.
pub open spec fn item_text(i: Item) -> Seq<char> {
    (if i.vis == Visibility::Public { "pub "@ } else { Seq::empty() }) + item_kind_label(i.node)
        + " ITEM: "@ + i.ident@ + " "@
}

/// What rendering a written type reports: the path of a path type.
pub open spec fn ty_trace(t: Ty) -> Seq<char> {
    match t.node {
        TyKind::Path(p, _) => "path ~! "@ + path_text(*p) + "\n"@,
        _ => Seq::empty(),
    }
}

/// Appends the text of a path to `out`.
pub fn push_path(out: &mut String, i: &Path)
    ensures
        final(out)@ == old(out)@ + path_text(*i),
{
    if i.global {
        out.append("::");
    }
    push_join(out, &i.segments, "::");
}

/// Renders a path.
pub fn path_to_str(i: &Path) -> (ret: String)
    ensures
        ret@ == path_text(*i),
{
    let mut ret = String::new();
    push_path(&mut ret, i);
    ret
}

fn push_list_names(out: &mut String, idents: &Vec<PathListIdent>)
    ensures
        final(out)@ == old(out)@ + join(list_names(idents@), ","@),
{
    let n = idents.len();
    let ghost ps = list_names(idents@);
    let mut i: usize = 0;
    while i < n
        invariant
            n == idents.len(),
            ps == list_names(idents@),
            i <= n,
            out@ == old(out)@ + join(ps.take(i as int), ","@),
        decreases n - i,
    {
        proof {
            lemma_join_step(ps, ","@, i as int);
        }
        if i > 0 {
            out.append(",");
        }
        out.append(idents[i].name.as_str());
        i = i + 1;
    }
    assert(ps.take(n as int) =~= ps);
}

fn push_view_path(out: &mut String, vp: &ViewPath)
    ensures
        final(out)@ == old(out)@ + view_path_text(*vp),
{
    match &vp.node {
        ViewPathKind::Simple(ident, path, _) => {
            out.append(ident.as_str());
            out.append(" = ");
            push_path(out, path);
        },
        ViewPathKind::Glob(path, _) => {
            push_path(out, path);
            out.append("::*");
        },
        ViewPathKind::List(path, idents, _) => {
            push_path(out, path);
            out.append("::");
            if idents.len() > 0 {
                out.append("{");
                push_list_names(out, idents);
                out.append("}");
            }
        },
    }
}

/// Renders an `extern crate` or `use` item.
pub fn view_item_to_str(i: &ViewItem) -> (ret: String)
    ensures
        ret@ == view_item_text(*i),
{
    let mut ret = String::new();
    match &i.node {
        ViewItemKind::ExternCrate(ident, location, _) => {
            ret.append("extern crate ");
            ret.append(ident.as_str());
            match location {
                Some(l) => {
                    ret.append(" = ");
                    ret.append(l.as_str());
                },
                None => {},
            }
        },
        ViewItemKind::Use(vp) => {
            if i.vis == Visibility::Public {
                ret.append("pub ");
            }
            ret.append("use ");
            push_view_path(&mut ret, vp);
        },
    }
    ret
}

/// Renders an item by its visibility, kind and name.
pub fn item_to_str(i: &Item) -> (ret: String)
    ensures
        ret@ == item_text(*i),
{
    let mut ret = String::new();
    if i.vis == Visibility::Public {
        ret.append("pub ");
    }
    match &i.node {
        ItemKind::Static(..) => ret.append("ItemStatic"),
        ItemKind::Fn(..) => ret.append("ItemPub Fn"),
        ItemKind::Mod(..) => ret.append("ItemMod"),
        ItemKind::ForeignMod(..) => ret.append("ItemForeignMod"),
        ItemKind::Ty(..) => ret.append("ItemTy"),
        ItemKind::Enum(..) => ret.append("ItemEnum"),
        ItemKind::Struct(..) => ret.append("ItemStruct"),
        ItemKind::Trait(..) => ret.append("ItemTrait"),
        ItemKind::Impl(..) => ret.append("ItemImpl"),
        ItemKind::Mac(..) => ret.append("ItemMac"),
    }
    ret.append(" ITEM: ");
    ret.append(i.ident.as_str());
    ret.append(" ");
    ret
}

/// Renders a written type: the text is always empty; a path type is reported
/// on `log` with its path.
pub fn ty_to_str(t: &Ty, log: &mut String) -> (ret: String)
    ensures
        ret@ == Seq::<char>::empty(),
        final(log)@ == old(log)@ + ty_trace(*t),
{
    match &t.node {
        TyKind::Path(p, _) => {
            log.append("path ~! ");
            push_path(log, p);
            log.append("\n");
        },
        _ => {},
    }
    String::new()
}

/// Distinct kinds of items get distinct labels: the label of an item
/// tells its kind.
pub proof fn lemma_item_kind_labels_distinct(a: ItemKind, b: ItemKind)
    requires
        item_kind_label(a) == item_kind_label(b),
    ensures
        (a is Static) == (b is Static),
        (a is Fn) == (b is Fn),
        (a is Mod) == (b is Mod),
        (a is ForeignMod) == (b is ForeignMod),
        (a is Ty) == (b is Ty),
        (a is Enum) == (b is Enum),
        (a is Struct) == (b is Struct),
        (a is Trait) == (b is Trait),
        (a is Impl) == (b is Impl),
        (a is Mac) == (b is Mac),
{
    reveal_strlit("ItemStatic");
    reveal_strlit("ItemPub Fn");
    reveal_strlit("ItemMod");
    reveal_strlit("ItemForeignMod");
    reveal_strlit("ItemTy");
    reveal_strlit("ItemEnum");
    reveal_strlit("ItemStruct");
    reveal_strlit("ItemTrait");
    reveal_strlit("ItemImpl");
    reveal_strlit("ItemMac");
    let la = item_kind_label(a);
    let lb = item_kind_label(b);
    assert(la.len() == lb.len());
    assert(la[4] == lb[4]);
    assert(la[5] == lb[5]);
    assert(la[6] == lb[6]);
}

} // verus!
