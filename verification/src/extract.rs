//! The listing of a documented crate: one line for each public module and
//! each struct, enum, function, type alias, static, trait, impl, method and
//! import in it, indented by nesting, each named by its full path.
//!
//! The listing is written to a text stream `out` (standard output in the
//! program). Renderers called while a line is being written report what they
//! cannot render on the same stream, after the indentation of that line.

use vstd::prelude::*;
use crate::ast::Visibility;
use crate::clean::{
    Crate, Enum, Function, Method, Static, Struct, Typedef, FieldItem, Impl, Item, ItemEnum, StructField, StructType, Trait, TraitMethod,
    VariantItem, ViewItem, ViewItemInner, ViewListIdent, ViewPath,
};
use crate::render::{
    function_to_str, generics_text, generics_to_str, generics_trace, method_to_str,
    signature_text, signature_trace, tymethod_to_str, type_text, type_to_str, type_trace,
};
use crate::clean::SelfTy;
use crate::text::{concat, join, lemma_concat_step, lemma_join_step, push_spaces, spaces};

verus! {

/// Whether a visibility, absent meaning inherited, is public.
pub open spec fn is_public(vis: Option<Visibility>) -> bool {
    match vis {
        Some(v) => v == Visibility::Public,
        None => false,
    }
}

/// The indentation of a nested line: two more columns, wrapping around at
/// the width of `usize` as unsigned arithmetic did when the tool was written.
pub open spec fn deeper(indent: usize) -> usize {
    indent.wrapping_add(2)
}

/// The name of a struct shape.
pub open spec fn struct_type_text(t: StructType) -> Seq<char> {
    match t {
        StructType::Plain => "Plain"@,
        StructType::Tuple => "Tuple"@,
        StructType::Newtype => "Newtype"@,
        StructType::Unit => "Unit"@,
    }
}

/// An optional name as the standard library writes an `Option`.
pub open spec fn option_text(o: Option<String>) -> Seq<char> {
    match o {
        Some(s) => "Some("@ + s@ + ")"@,
        None => "None"@,
    }
}

/// The text of an optional name, empty when absent.
pub open spec fn name_or_empty(o: Option<String>) -> Seq<char> {
    match o {
        Some(s) => s@,
        None => Seq::empty(),
    }
}

/// The line of a visible, typed struct field; nothing for others.
pub open spec fn field_out(f: FieldItem, indent: usize) -> Seq<char> {
    if f.visibility is None {
        Seq::empty()
    } else {
        match f.field {
            StructField::TypedStructField(tp) => spaces(deeper(indent) as nat) + type_trace(tp) + "| "@
                + name_or_empty(f.name) + ": "@ + type_text(tp) + "\n"@,
            StructField::HiddenStructField => Seq::empty(),
        }
    }
}

/// The line of an enum variant.
pub open spec fn variant_out(v: VariantItem, indent: usize) -> Seq<char> {
    spaces(deeper(indent) as nat) + "| "@ + name_or_empty(v.name) + "\n"@
}

/// The line of a trait method.
pub open spec fn trait_method_out(m: TraitMethod, indent: usize) -> Seq<char> {
    match m {
        TraitMethod::Required(name, tm) => spaces(deeper(indent) as nat) + signature_trace(
            tm.generics,
            tm.decl,
        ) + "| "@ + name_or_empty(name) + signature_text(tm.generics, tm.self_, tm.decl) + "\n"@,
        TraitMethod::Provided(name, pm) => spaces(deeper(indent) as nat) + signature_trace(
            pm.generics,
            pm.decl,
        ) + "| "@ + name_or_empty(name) + signature_text(pm.generics, pm.self_, pm.decl) + "\n"@,
    }
}

/// The header line of an impl block that names the trait and the type.
pub open spec fn impl_line(i: Impl) -> Seq<char> {
    match i.trait_ {
        Some(tr) => generics_trace(i.generics) + type_trace(tr) + type_trace(i.for_) + "impl"@
            + generics_text(i.generics) + " "@ + type_text(tr) + " for "@ + type_text(i.for_)
            + "\n"@,
        None => generics_trace(i.generics) + type_trace(i.for_) + "impl"@ + generics_text(
            i.generics,
        ) + " "@ + type_text(i.for_) + "\n"@,
    }
}

/// The names of an import list.
pub open spec fn import_names(l: Seq<ViewListIdent>) -> Seq<Seq<char>> {
    l.map_values(|i: ViewListIdent| i.name@)
}

/// The line of an import; nothing when no visibility is given.
pub open spec fn view_path_out(vp: ViewPath, prefix: Seq<char>, vis: Option<Visibility>) -> Seq<
    char,
> {
    if vis is None {
        Seq::empty()
    } else {
        match vp {
            ViewPath::SimpleImport(name, src) => "use "@ + name@ + " = "@ + src.path_text@ + "\n"@,
            ViewPath::GlobImport(src) => prefix + "::* = "@ + src.path_text@ + "\n"@,
            ViewPath::ImportList(src, lst) => "use "@ + src.text@ + "::{"@ + join(
                import_names(lst@),
                ", "@,
            ) + "}\n"@,
        }
    }
}

/// The lines of an `extern crate` or `use` item.
pub open spec fn view_item_out(
    v: ViewItem,
    prefix: Seq<char>,
    vis: Option<Visibility>,
) -> Seq<char> {
    match v.inner {
        ViewItemInner::ExternCrate(name, cname, _) => "fuck\n"@ + prefix + "::"@ + option_text(cname)
            + " = "@ + name@ + "\n"@,
        ViewItemInner::Import(vp) => view_path_out(vp, prefix, vis),
    }
}

/// The lines of a struct: its shape, then its visible typed fields.
pub open spec fn struct_out(st: Struct, indent: usize, prefix: Seq<char>) -> Seq<char> {
    spaces(indent as nat) + "struct "@ + prefix + " "@ + struct_type_text(st.struct_type) + "\n"@
        + concat(st.fields@.map_values(|f: FieldItem| field_out(f, indent)))
}

/// The lines of an enum: its generics, then its variants.
pub open spec fn enum_out(en: Enum, indent: usize, prefix: Seq<char>) -> Seq<char> {
    spaces(indent as nat) + generics_trace(en.generics) + "enum "@ + prefix + " => "@
        + generics_text(en.generics) + "\n"@ + concat(
        en.variants@.map_values(|v: VariantItem| variant_out(v, indent)),
    )
}

/// The line of a function.
pub open spec fn function_out(f: Function, indent: usize, prefix: Seq<char>) -> Seq<char> {
    spaces(indent as nat) + signature_trace(f.generics, f.decl) + "fn "@ + prefix + signature_text(
        f.generics,
        SelfTy::SelfStatic,
        f.decl,
    ) + "\n"@
}

/// The line of a type alias.
pub open spec fn typedef_out(t: Typedef, indent: usize, prefix: Seq<char>) -> Seq<char> {
    spaces(indent as nat) + generics_trace(t.generics) + type_trace(t.type_) + "type "@ + prefix
        + " = "@ + generics_text(t.generics) + type_text(t.type_) + "\n"@
}

/// The line of a static.
pub open spec fn static_out(st: Static, indent: usize, prefix: Seq<char>) -> Seq<char> {
    spaces(indent as nat) + type_trace(st.type_) + "static "@ + prefix + ": "@ + type_text(st.type_)
        + "\n"@
}

/// The lines of a trait: its generics, then its methods.
pub open spec fn trait_out(t: Trait, indent: usize, prefix: Seq<char>) -> Seq<char> {
    spaces(indent as nat) + generics_trace(t.generics) + "trait "@ + prefix + generics_text(
        t.generics,
    ) + "\n"@ + concat(t.methods@.map_values(|m: TraitMethod| trait_method_out(m, indent)))
}

/// The line of a method.
pub open spec fn method_out(m: Method, indent: usize, prefix: Seq<char>) -> Seq<char> {
    spaces(indent as nat) + signature_trace(m.generics, m.decl) + "| "@ + prefix + signature_text(
        m.generics,
        m.self_,
        m.decl,
    ) + "\n"@
}

/// The line of a foreign function.
pub open spec fn foreign_function_out(f: Function, indent: usize, prefix: Seq<char>) -> Seq<char> {
    spaces(indent as nat) + signature_trace(f.generics, f.decl) + "extern fn "@ + prefix
        + signature_text(f.generics, SelfTy::SelfStatic, f.decl) + "\n"@
}

/// The lines of an item: what it is is listed under its full path, which is
/// the prefix, `::` and its name when both are non-empty.
pub open spec fn item_out(item: Item, indent: usize, prefix: Seq<char>) -> Seq<char>
    decreases item,
{
    match item.name {
        Some(n) => if n@.len() > 0 {
            if prefix.len() > 0 {
                inner_out(item.inner, indent, prefix + "::"@ + n@, item.visibility)
            } else {
                inner_out(item.inner, indent, n@, item.visibility)
            }
        } else {
            inner_out(item.inner, indent, prefix, item.visibility)
        },
        None => inner_out(item.inner, indent, prefix, item.visibility),
    }
}

/// The lines of a sequence of items.
pub open spec fn items_out(items: Seq<Item>, indent: usize, prefix: Seq<char>) -> Seq<char>
    decreases items,
{
    if items.len() == 0 {
        Seq::empty()
    } else {
        items_out(items.subrange(0, items.len() - 1), indent, prefix) + item_out(
            items[items.len() - 1],
            indent,
            prefix,
        )
    }
}

/// The lines of what an item is, under the path `prefix`; `vis` is the
/// visibility of the item.
pub open spec fn inner_out(
    e: ItemEnum,
    indent: usize,
    prefix: Seq<char>,
    vis: Option<Visibility>,
) -> Seq<char>
    decreases e,
{
    match e {
        ItemEnum::StructItem(st) => struct_out(st, indent, prefix),
        ItemEnum::EnumItem(en) => enum_out(en, indent, prefix),
        ItemEnum::FunctionItem(f) => function_out(f, indent, prefix),
        ItemEnum::ModuleItem(m) => if is_public(vis) {
            spaces(indent as nat) + "mod "@ + prefix + "\n"@ + items_out(
                m.items@,
                deeper(indent),
                prefix,
            )
        } else {
            Seq::empty()
        },
        ItemEnum::TypedefItem(t) => typedef_out(t, indent, prefix),
        ItemEnum::StaticItem(st) => static_out(st, indent, prefix),
        ItemEnum::TraitItem(t) => trait_out(t, indent, prefix),
        ItemEnum::ImplItem(i) => spaces(indent as nat) + "impl @"@ + prefix + "\n"@ + spaces(
            indent as nat,
        ) + impl_line(i) + items_out(i.methods@, deeper(indent), Seq::empty()),
        ItemEnum::ViewItemItem(v) => view_item_out(v, prefix, vis),
        ItemEnum::MethodItem(m) => method_out(m, indent, prefix),
        ItemEnum::ForeignFunctionItem(f) => foreign_function_out(f, indent, prefix),
        ItemEnum::Unsupported(d) => "unkown => "@ + d@ + "\n"@,
    }
}

/// The lines of a crate: its name, then its root module under the path
/// `prefix::name`.
pub open spec fn crate_out(c: Crate, indent: usize, prefix: Seq<char>) -> Seq<char> {
    spaces(indent as nat) + "crate: "@ + c.name@ + "\n"@ + match c.module {
        Some(m) => item_out(m, indent, prefix + "::"@ + c.name@),
        None => Seq::empty(),
    }
}

/// Whether every enum variant and trait method that the listing reaches has
/// a name; the listing stops the program on one that has none.
pub open spec fn item_named(item: Item) -> bool
    decreases item,
{
    inner_named(item.inner, item.visibility)
}

/// Whether every enum variant and trait method that the listing of `e`
/// reaches has a name.
pub open spec fn inner_named(e: ItemEnum, vis: Option<Visibility>) -> bool
    decreases e,
{
    match e {
        ItemEnum::EnumItem(en) => forall|i: int|
            0 <= i < en.variants@.len() ==> (#[trigger] en.variants@[i]).name is Some,
        ItemEnum::TraitItem(t) => forall|i: int|
            0 <= i < t.methods@.len() ==> match #[trigger] t.methods@[i] {
                TraitMethod::Required(name, _) => name is Some,
                TraitMethod::Provided(name, _) => name is Some,
            },
        ItemEnum::ModuleItem(m) => is_public(vis) ==> forall|i: int|
            0 <= i < m.items@.len() ==> item_named(#[trigger] m.items@[i]),
        ItemEnum::ImplItem(im) => forall|i: int|
            0 <= i < im.methods@.len() ==> item_named(#[trigger] im.methods@[i]),
        _ => true,
    }
}

fn push_fields(out: &mut String, fields: &Vec<FieldItem>, indent: usize)
    ensures
        final(out)@ == old(out)@ + concat(fields@.map_values(|f: FieldItem| field_out(f, indent))),
{
    let ghost parts = fields@.map_values(|f: FieldItem| field_out(f, indent));
    let n = fields.len();
    let mut i: usize = 0;
    while i < n
        invariant
            n == fields.len(),
            i <= n,
            parts == fields@.map_values(|f: FieldItem| field_out(f, indent)),
            out@ == old(out)@ + concat(parts.take(i as int)),
        decreases n - i,
    {
        proof {
            lemma_concat_step(parts, i as int);
        }
        let ghost before = out@;
        let f = &fields[i];
        if f.visibility.is_some() {
            match &f.field {
                StructField::TypedStructField(tp) => {
                    push_spaces(out, indent.wrapping_add(2));
                    let t = type_to_str(tp, out);
                    out.append("| ");
                    match &f.name {
                        Some(nm) => out.append(nm.as_str()),
                        None => {},
                    }
                    out.append(": ");
                    out.append(t.as_str());
                    out.append("\n");
                },
                StructField::HiddenStructField => {},
            }
        }
        assert(out@ =~= before + parts[i as int]);
        i = i + 1;
    }
    assert(parts.take(n as int) =~= parts);
}

fn push_variants(out: &mut String, variants: &Vec<VariantItem>, indent: usize)
    requires
        forall|i: int| 0 <= i < variants@.len() ==> (#[trigger] variants@[i]).name is Some,
    ensures
        final(out)@ == old(out)@ + concat(
            variants@.map_values(|v: VariantItem| variant_out(v, indent)),
        ),
{
    let ghost parts = variants@.map_values(|v: VariantItem| variant_out(v, indent));
    let n = variants.len();
    let mut i: usize = 0;
    while i < n
        invariant
            n == variants.len(),
            i <= n,
            parts == variants@.map_values(|v: VariantItem| variant_out(v, indent)),
            out@ == old(out)@ + concat(parts.take(i as int)),
        decreases n - i,
    {
        proof {
            lemma_concat_step(parts, i as int);
        }
        let ghost before = out@;
        push_spaces(out, indent.wrapping_add(2));
        out.append("| ");
        match &variants[i].name {
            Some(nm) => out.append(nm.as_str()),
            None => {},
        }
        out.append("\n");
        assert(out@ =~= before + parts[i as int]);
        i = i + 1;
    }
    assert(parts.take(n as int) =~= parts);
}

fn push_trait_method(out: &mut String, m: &TraitMethod, indent: usize)
    ensures
        final(out)@ == old(out)@ + trait_method_out(*m, indent),
{
    let ghost before = out@;
    match m {
        TraitMethod::Required(name, tm) => {
            push_spaces(out, indent.wrapping_add(2));
            let sig = tymethod_to_str(tm, out);
            out.append("| ");
            match name {
                Some(nm) => out.append(nm.as_str()),
                None => {},
            }
            out.append(sig.as_str());
            out.append("\n");
        },
        TraitMethod::Provided(name, pm) => {
            push_spaces(out, indent.wrapping_add(2));
            let sig = method_to_str(pm, out);
            out.append("| ");
            match name {
                Some(nm) => out.append(nm.as_str()),
                None => {},
            }
            out.append(sig.as_str());
            out.append("\n");
        },
    }
    assert(out@ =~= before + trait_method_out(*m, indent));
}

fn push_trait_methods(out: &mut String, methods: &Vec<TraitMethod>, indent: usize)
    ensures
        final(out)@ == old(out)@ + concat(
            methods@.map_values(|m: TraitMethod| trait_method_out(m, indent)),
        ),
{
    let ghost parts = methods@.map_values(|m: TraitMethod| trait_method_out(m, indent));
    let n = methods.len();
    let mut i: usize = 0;
    while i < n
        invariant
            n == methods.len(),
            i <= n,
            parts == methods@.map_values(|m: TraitMethod| trait_method_out(m, indent)),
            out@ == old(out)@ + concat(parts.take(i as int)),
        decreases n - i,
    {
        proof {
            lemma_concat_step(parts, i as int);
        }
        push_trait_method(out, &methods[i], indent);
        i = i + 1;
    }
    assert(parts.take(n as int) =~= parts);
}

fn push_impl_line(out: &mut String, i: &Impl)
    ensures
        final(out)@ == old(out)@ + impl_line(*i),
{
    let ghost before = out@;
    match &i.trait_ {
        Some(tr) => {
            let g = generics_to_str(&i.generics, out);
            let t = type_to_str(tr, out);
            let f = type_to_str(&i.for_, out);
            out.append("impl");
            out.append(g.as_str());
            out.append(" ");
            out.append(t.as_str());
            out.append(" for ");
            out.append(f.as_str());
            out.append("\n");
        },
        None => {
            let g = generics_to_str(&i.generics, out);
            let f = type_to_str(&i.for_, out);
            out.append("impl");
            out.append(g.as_str());
            out.append(" ");
            out.append(f.as_str());
            out.append("\n");
        },
    }
    assert(out@ =~= before + impl_line(*i));
}

fn push_import_names(out: &mut String, lst: &Vec<ViewListIdent>)
    ensures
        final(out)@ == old(out)@ + join(import_names(lst@), ", "@),
{
    let n = lst.len();
    let ghost ps = import_names(lst@);
    let mut i: usize = 0;
    while i < n
        invariant
            n == lst.len(),
            ps == import_names(lst@),
            i <= n,
            out@ == old(out)@ + join(ps.take(i as int), ", "@),
        decreases n - i,
    {
        proof {
            lemma_join_step(ps, ", "@, i as int);
        }
        if i > 0 {
            out.append(", ");
        }
        out.append(lst[i].name.as_str());
        i = i + 1;
    }
    assert(ps.take(n as int) =~= ps);
}

/// Lists an import.
pub fn extract_view_path(vp: &ViewPath, prefix: &str, vis: Option<Visibility>, out: &mut String)
    ensures
        final(out)@ == old(out)@ + view_path_out(*vp, prefix@, vis),
{
    if vis.is_none() {
        return ;
    }
    let ghost before = out@;
    match vp {
        ViewPath::SimpleImport(name, src) => {
            out.append("use ");
            out.append(name.as_str());
            out.append(" = ");
            out.append(src.path_text.as_str());
            out.append("\n");
        },
        ViewPath::GlobImport(src) => {
            out.append(prefix);
            out.append("::* = ");
            out.append(src.path_text.as_str());
            out.append("\n");
        },
        ViewPath::ImportList(src, lst) => {
            out.append("use ");
            out.append(src.text.as_str());
            out.append("::{");
            push_import_names(out, lst);
            out.append("}\n");
        },
    }
    assert(out@ =~= before + view_path_out(*vp, prefix@, vis));
}

/// Lists an `extern crate` or `use` item.
pub fn extract_view_item(v: &ViewItem, prefix: &str, vis: Option<Visibility>, out: &mut String)
    ensures
        final(out)@ == old(out)@ + view_item_out(*v, prefix@, vis),
{
    match &v.inner {
        ViewItemInner::ExternCrate(name, cname, _) => {
            let ghost before = out@;
            out.append("fuck\n");
            out.append(prefix);
            out.append("::");
            match cname {
                Some(c) => {
                    out.append("Some(");
                    out.append(c.as_str());
                    out.append(")");
                },
                None => out.append("None"),
            }
            out.append(" = ");
            out.append(name.as_str());
            out.append("\n");
            assert(out@ =~= before + view_item_out(*v, prefix@, vis));
        },
        ViewItemInner::Import(vp) => extract_view_path(vp, prefix, vis, out),
    }
}

/// Lists an item under the path `prefix`.
pub fn extract_item(item: &Item, indent: usize, prefix: &str, out: &mut String)
    requires
        item_named(*item),
    ensures
        final(out)@ == old(out)@ + item_out(*item, indent, prefix@),
    decreases item,
{
    match &item.name {
        Some(n) => {
            if !n.as_str().is_empty() {
                if !prefix.is_empty() {
                    let mut p = String::new();
                    p.append(prefix);
                    p.append("::");
                    p.append(n.as_str());
                    extract_inner(&item.inner, indent, p.as_str(), item.visibility, out);
                } else {
                    extract_inner(&item.inner, indent, n.as_str(), item.visibility, out);
                }
            } else {
                extract_inner(&item.inner, indent, prefix, item.visibility, out);
            }
        },
        None => extract_inner(&item.inner, indent, prefix, item.visibility, out),
    }
}

fn extract_items(items: &Vec<Item>, indent: usize, prefix: &str, out: &mut String)
    requires
        forall|i: int| 0 <= i < items@.len() ==> item_named(#[trigger] items@[i]),
    ensures
        final(out)@ == old(out)@ + items_out(items@, indent, prefix@),
    decreases items,
{
    let n = items.len();
    let mut i: usize = 0;
    while i < n
        invariant
            n == items.len(),
            i <= n,
            forall|j: int| 0 <= j < items@.len() ==> item_named(#[trigger] items@[j]),
            out@ == old(out)@ + items_out(items@.take(i as int), indent, prefix@),
        decreases n - i,
    {
        assert(items@.take(i + 1).subrange(0, i as int) =~= items@.take(i as int));
        extract_item(&items[i], indent, prefix, out);
        i = i + 1;
    }
    assert(items@.take(n as int) =~= items@);
}

/// Lists what an item is under the path `prefix`; `vis` is the visibility
/// of the item.
pub fn extract_inner(
    e: &ItemEnum,
    indent: usize,
    prefix: &str,
    vis: Option<Visibility>,
    out: &mut String,
)
    requires
        inner_named(*e, vis),
    ensures
        final(out)@ == old(out)@ + inner_out(*e, indent, prefix@, vis),
    decreases e,
{
    match e {
        ItemEnum::StructItem(st) => extract_struct(st, indent, prefix, out),
        ItemEnum::EnumItem(en) => extract_enum(en, indent, prefix, out),
        ItemEnum::FunctionItem(f) => extract_function(f, indent, prefix, out),
        ItemEnum::ModuleItem(m) => {
            let public = match vis {
                Some(Visibility::Public) => true,
                _ => false,
            };
            if public {
                let ghost before = out@;
                push_spaces(out, indent);
                out.append("mod ");
                out.append(prefix);
                out.append("\n");
                extract_items(&m.items, indent.wrapping_add(2), prefix, out);
                assert(out@ =~= before + inner_out(*e, indent, prefix@, vis));
            }
        },
        ItemEnum::TypedefItem(t) => extract_typedef(t, indent, prefix, out),
        ItemEnum::StaticItem(st) => extract_static(st, indent, prefix, out),
        ItemEnum::TraitItem(t) => extract_trait(t, indent, prefix, out),
        ItemEnum::ImplItem(im) => {
            let ghost before = out@;
            push_spaces(out, indent);
            out.append("impl @");
            out.append(prefix);
            out.append("\n");
            push_spaces(out, indent);
            push_impl_line(out, im);
            proof {
                reveal_strlit("");
                assert(""@ =~= Seq::<char>::empty());
            }
            extract_items(&im.methods, indent.wrapping_add(2), "", out);
            assert(out@ =~= before + inner_out(*e, indent, prefix@, vis));
        },
        ItemEnum::ViewItemItem(v) => extract_view_item(v, prefix, vis, out),
        ItemEnum::MethodItem(m) => extract_method(m, indent, prefix, out),
        ItemEnum::ForeignFunctionItem(f) => extract_foreign_function(f, indent, prefix, out),
        ItemEnum::Unsupported(d) => {
            let ghost before = out@;
            out.append("unkown => ");
            out.append(d.as_str());
            out.append("\n");
            assert(out@ =~= before + inner_out(*e, indent, prefix@, vis));
        },
    }
}

fn extract_struct(st: &Struct, indent: usize, prefix: &str, out: &mut String)
    ensures
        final(out)@ == old(out)@ + struct_out(*st, indent, prefix@),
{
    let ghost before = out@;
    push_spaces(out, indent);
    out.append("struct ");
    out.append(prefix);
    out.append(" ");
    match st.struct_type {
        StructType::Plain => out.append("Plain"),
        StructType::Tuple => out.append("Tuple"),
        StructType::Newtype => out.append("Newtype"),
        StructType::Unit => out.append("Unit"),
    }
    out.append("\n");
    let ghost mid = out@;
    push_fields(out, &st.fields, indent);
    assert(out@ =~= before + struct_out(*st, indent, prefix@));
}

fn extract_enum(en: &Enum, indent: usize, prefix: &str, out: &mut String)
    requires
        forall|i: int| 0 <= i < en.variants@.len() ==> (#[trigger] en.variants@[i]).name is Some,
    ensures
        final(out)@ == old(out)@ + enum_out(*en, indent, prefix@),
{
    let ghost before = out@;
    push_spaces(out, indent);
    let g = generics_to_str(&en.generics, out);
    out.append("enum ");
    out.append(prefix);
    out.append(" => ");
    out.append(g.as_str());
    out.append("\n");
    push_variants(out, &en.variants, indent);
    assert(out@ =~= before + enum_out(*en, indent, prefix@));
}

fn extract_function(f: &Function, indent: usize, prefix: &str, out: &mut String)
    ensures
        final(out)@ == old(out)@ + function_out(*f, indent, prefix@),
{
    let ghost before = out@;
    push_spaces(out, indent);
    let sig = function_to_str(f, out);
    out.append("fn ");
    out.append(prefix);
    out.append(sig.as_str());
    out.append("\n");
    assert(out@ =~= before + function_out(*f, indent, prefix@));
}

fn extract_typedef(t: &Typedef, indent: usize, prefix: &str, out: &mut String)
    ensures
        final(out)@ == old(out)@ + typedef_out(*t, indent, prefix@),
{
    let ghost before = out@;
    push_spaces(out, indent);
    let g = generics_to_str(&t.generics, out);
    let ty = type_to_str(&t.type_, out);
    out.append("type ");
    out.append(prefix);
    out.append(" = ");
    out.append(g.as_str());
    out.append(ty.as_str());
    out.append("\n");
    assert(out@ =~= before + typedef_out(*t, indent, prefix@));
}

fn extract_static(st: &Static, indent: usize, prefix: &str, out: &mut String)
    ensures
        final(out)@ == old(out)@ + static_out(*st, indent, prefix@),
{
    let ghost before = out@;
    push_spaces(out, indent);
    let ty = type_to_str(&st.type_, out);
    out.append("static ");
    out.append(prefix);
    out.append(": ");
    out.append(ty.as_str());
    out.append("\n");
    assert(out@ =~= before + static_out(*st, indent, prefix@));
}

fn extract_trait(t: &Trait, indent: usize, prefix: &str, out: &mut String)
    ensures
        final(out)@ == old(out)@ + trait_out(*t, indent, prefix@),
{
    let ghost before = out@;
    push_spaces(out, indent);
    let g = generics_to_str(&t.generics, out);
    out.append("trait ");
    out.append(prefix);
    out.append(g.as_str());
    out.append("\n");
    push_trait_methods(out, &t.methods, indent);
    assert(out@ =~= before + trait_out(*t, indent, prefix@));
}

fn extract_method(m: &Method, indent: usize, prefix: &str, out: &mut String)
    ensures
        final(out)@ == old(out)@ + method_out(*m, indent, prefix@),
{
    let ghost before = out@;
    push_spaces(out, indent);
    let sig = method_to_str(m, out);
    out.append("| ");
    out.append(prefix);
    out.append(sig.as_str());
    out.append("\n");
    assert(out@ =~= before + method_out(*m, indent, prefix@));
}

fn extract_foreign_function(f: &Function, indent: usize, prefix: &str, out: &mut String)
    ensures
        final(out)@ == old(out)@ + foreign_function_out(*f, indent, prefix@),
{
    let ghost before = out@;
    push_spaces(out, indent);
    let sig = function_to_str(f, out);
    out.append("extern fn ");
    out.append(prefix);
    out.append(sig.as_str());
    out.append("\n");
    assert(out@ =~= before + foreign_function_out(*f, indent, prefix@));
}

/// Lists a crate under the path `prefix`.
pub fn extract_crate(c: &Crate, indent: usize, prefix: &str, out: &mut String)
    requires
        match c.module {
            Some(m) => item_named(m),
            None => true,
        },
    ensures
        final(out)@ == old(out)@ + crate_out(*c, indent, prefix@),
{
    let ghost before = out@;
    push_spaces(out, indent);
    out.append("crate: ");
    out.append(c.name.as_str());
    out.append("\n");
    match &c.module {
        Some(m) => {
            let mut p = String::new();
            p.append(prefix);
            p.append("::");
            p.append(c.name.as_str());
            extract_item(m, indent, p.as_str(), out);
        },
        None => {},
    }
    assert(out@ =~= before + crate_out(*c, indent, prefix@));
}

/// Whether every enum variant and trait method that the listing of an item
/// reaches has a name; listing an item for which this fails stops the
/// program, so a caller tests it first.
pub fn names_complete(item: &Item) -> (r: bool)
    ensures
        r == item_named(*item),
    decreases item,
{
    inner_names_complete(&item.inner, item.visibility)
}

fn inner_names_complete(e: &ItemEnum, vis: Option<Visibility>) -> (r: bool)
    ensures
        r == inner_named(*e, vis),
    decreases e,
{
    match e {
        ItemEnum::EnumItem(en) => {
            let n = en.variants.len();
            let mut i: usize = 0;
            while i < n
                invariant
                    n == en.variants.len(),
                    i <= n,
                    *e == ItemEnum::EnumItem(*en),
                    forall|j: int| 0 <= j < i ==> (#[trigger] en.variants@[j]).name is Some,
                decreases n - i,
            {
                if en.variants[i].name.is_none() {
                    return false;
                }
                i = i + 1;
            }
            true
        },
        ItemEnum::TraitItem(t) => {
            let n = t.methods.len();
            let mut i: usize = 0;
            while i < n
                invariant
                    n == t.methods.len(),
                    i <= n,
                    *e == ItemEnum::TraitItem(*t),
                    forall|j: int|
                        0 <= j < i ==> match #[trigger] t.methods@[j] {
                            TraitMethod::Required(name, _) => name is Some,
                            TraitMethod::Provided(name, _) => name is Some,
                        },
                decreases n - i,
            {
                let named = match &t.methods[i] {
                    TraitMethod::Required(name, _) => name.is_some(),
                    TraitMethod::Provided(name, _) => name.is_some(),
                };
                if !named {
                    return false;
                }
                i = i + 1;
            }
            true
        },
        ItemEnum::ModuleItem(m) => {
            let public = match vis {
                Some(Visibility::Public) => true,
                _ => false,
            };
            !public || all_names_complete(&m.items)
        },
        ItemEnum::ImplItem(im) => all_names_complete(&im.methods),
        _ => true,
    }
}

fn all_names_complete(items: &Vec<Item>) -> (r: bool)
    ensures
        r == forall|j: int| 0 <= j < items@.len() ==> item_named(#[trigger] items@[j]),
    decreases items,
{
    let n = items.len();
    let mut i: usize = 0;
    while i < n
        invariant
            n == items.len(),
            i <= n,
            forall|j: int| 0 <= j < i ==> item_named(#[trigger] items@[j]),
        decreases n - i,
    {
        if !names_complete(&items[i]) {
            return false;
        }
        i = i + 1;
    }
    true
}

/// A node of the cleaned tree that can be listed.
pub trait Extractable {
    /// What listing the node writes, at indentation `indent_level`, under the
    /// path `prefix`, with the visibility `vis` of the enclosing item.
    spec fn listing(&self, indent_level: usize, prefix: Seq<char>, vis: Option<Visibility>) -> Seq<
        char,
    >;

    /// Whether the listing finds a name for every enum variant and trait
    /// method that it reaches.
    spec fn listable(&self, vis: Option<Visibility>) -> bool;

    /// Writes the listing of the node to `out`.
    fn extract(&self, indent_level: usize, prefix: &str, vis: Option<Visibility>, out: &mut String)
        requires
            self.listable(vis),
        ensures
            final(out)@ == old(out)@ + self.listing(indent_level, prefix@, vis),
    ;
}

impl Extractable for Crate {
    open spec fn listing(&self, indent_level: usize, prefix: Seq<char>, vis: Option<Visibility>) -> Seq<
        char,
    > {
        crate_out(*self, indent_level, prefix)
    }

    open spec fn listable(&self, vis: Option<Visibility>) -> bool {
        match self.module {
            Some(m) => item_named(m),
            None => true,
        }
    }

    fn extract(&self, indent_level: usize, prefix: &str, vis: Option<Visibility>, out: &mut String) {
        extract_crate(self, indent_level, prefix, out);
    }
}

impl Extractable for Item {
    /// An item is listed under its own visibility; `vis` is not read.
    open spec fn listing(&self, indent_level: usize, prefix: Seq<char>, vis: Option<Visibility>) -> Seq<
        char,
    > {
        item_out(*self, indent_level, prefix)
    }

    open spec fn listable(&self, vis: Option<Visibility>) -> bool {
        item_named(*self)
    }

    fn extract(&self, indent_level: usize, prefix: &str, vis: Option<Visibility>, out: &mut String) {
        extract_item(self, indent_level, prefix, out);
    }
}

impl Extractable for ItemEnum {
    open spec fn listing(&self, indent_level: usize, prefix: Seq<char>, vis: Option<Visibility>) -> Seq<
        char,
    > {
        inner_out(*self, indent_level, prefix, vis)
    }

    open spec fn listable(&self, vis: Option<Visibility>) -> bool {
        inner_named(*self, vis)
    }

    fn extract(&self, indent_level: usize, prefix: &str, vis: Option<Visibility>, out: &mut String) {
        extract_inner(self, indent_level, prefix, vis, out);
    }
}

impl Extractable for ViewItem {
    open spec fn listing(&self, indent_level: usize, prefix: Seq<char>, vis: Option<Visibility>) -> Seq<
        char,
    > {
        view_item_out(*self, prefix, vis)
    }

    open spec fn listable(&self, vis: Option<Visibility>) -> bool {
        true
    }

    fn extract(&self, indent_level: usize, prefix: &str, vis: Option<Visibility>, out: &mut String) {
        extract_view_item(self, prefix, vis, out);
    }
}

impl Extractable for ViewPath {
    open spec fn listing(&self, indent_level: usize, prefix: Seq<char>, vis: Option<Visibility>) -> Seq<
        char,
    > {
        view_path_out(*self, prefix, vis)
    }

    open spec fn listable(&self, vis: Option<Visibility>) -> bool {
        true
    }

    fn extract(&self, indent_level: usize, prefix: &str, vis: Option<Visibility>, out: &mut String) {
        extract_view_path(self, prefix, vis, out);
    }
}

/// A result a plugin hands back to the documentation tool: a name and a
/// JSON document, by its text.
pub struct PluginJson {
    pub name: String,
    pub json: String,
}

/// A line of 78 `=`.
pub open spec fn rule_text() -> Seq<char> {
    Seq::new(78, |i: int| '=')
}

/// What the plugin writes for a crate: a greeting, the crate's name, a rule,
/// then the listing of the crate as a public item at the top level.
pub open spec fn plugin_out(c: Crate) -> Seq<char> {
    "loading extension ok!\n"@ + "crate => "@ + c.name@ + "\n"@ + rule_text() + "\n"@ + crate_out(
        c,
        0,
        Seq::empty(),
    )
}

/// The plugin's entry point: writes the listing of the crate to `out` and
/// hands the crate back unchanged, with no JSON result.
pub fn rustdoc_plugin_entrypoint(c: Crate, out: &mut String) -> (res: (Crate, Option<PluginJson>))
    requires
        c.listable(Some(Visibility::Public)),
    ensures
        res.0 == c,
        res.1 is None,
        final(out)@ == old(out)@ + plugin_out(c),
{
    let ghost before = out@;
    out.append("loading extension ok!\n");
    out.append("crate => ");
    out.append(c.name.as_str());
    out.append("\n");
    let mut i: usize = 0;
    let ghost head = out@;
    while i < 78
        invariant
            i <= 78,
            out@ == head + Seq::new(i as nat, |k: int| '='),
        decreases 78 - i,
    {
        proof {
            reveal_strlit("=");
        }
        out.append("=");
        i = i + 1;
        assert(out@ =~= head + Seq::new(i as nat, |k: int| '='));
    }
    out.append("\n");
    proof {
        reveal_strlit("");
        assert(""@ =~= Seq::<char>::empty());
    }
    c.extract(0, "", Some(Visibility::Public), out);
    assert(out@ =~= before + plugin_out(c));
    (c, None)
}

/// Text made of whole lines: empty, or ending with a line break.
pub open spec fn whole_lines(s: Seq<char>) -> bool {
    s.len() == 0 || s.last() == '\n'
}

proof fn lemma_ends_line(a: Seq<char>)
    ensures
        whole_lines(a + "\n"@),
{
    reveal_strlit("\n");
    assert((a + "\n"@).last() == "\n"@[0]);
}

proof fn lemma_whole_append(a: Seq<char>, b: Seq<char>)
    requires
        whole_lines(a),
        whole_lines(b),
    ensures
        whole_lines(a + b),
{
    if b.len() == 0 {
        assert(a + b =~= a);
    }
}

proof fn lemma_concat_whole(parts: Seq<Seq<char>>)
    requires
        forall|i: int| 0 <= i < parts.len() ==> whole_lines(#[trigger] parts[i]),
    ensures
        whole_lines(concat(parts)),
    decreases parts.len(),
{
    if parts.len() > 0 {
        lemma_concat_whole(parts.drop_last());
        lemma_whole_append(concat(parts.drop_last()), parts.last());
    }
}

proof fn lemma_item_whole(item: Item, indent: usize, prefix: Seq<char>)
    ensures
        whole_lines(item_out(item, indent, prefix)),
    decreases item,
{
    match item.name {
        Some(n) => if n@.len() > 0 {
            if prefix.len() > 0 {
                lemma_inner_whole(item.inner, indent, prefix + "::"@ + n@, item.visibility);
            } else {
                lemma_inner_whole(item.inner, indent, n@, item.visibility);
            }
        } else {
            lemma_inner_whole(item.inner, indent, prefix, item.visibility);
        },
        None => lemma_inner_whole(item.inner, indent, prefix, item.visibility),
    }
}

proof fn lemma_items_whole(items: Seq<Item>, indent: usize, prefix: Seq<char>)
    ensures
        whole_lines(items_out(items, indent, prefix)),
    decreases items,
{
    if items.len() > 0 {
        lemma_items_whole(items.subrange(0, items.len() - 1), indent, prefix);
        lemma_item_whole(items[items.len() - 1], indent, prefix);
        lemma_whole_append(
            items_out(items.subrange(0, items.len() - 1), indent, prefix),
            item_out(items[items.len() - 1], indent, prefix),
        );
    }
}

#[verifier::spinoff_prover]
proof fn lemma_inner_whole(e: ItemEnum, indent: usize, prefix: Seq<char>, vis: Option<Visibility>)
    ensures
        whole_lines(inner_out(e, indent, prefix, vis)),
    decreases e,
{
    match e {
        ItemEnum::StructItem(st) => {
            let parts = st.fields@.map_values(|f: FieldItem| field_out(f, indent));
            assert forall|i: int| 0 <= i < parts.len() implies whole_lines(#[trigger] parts[i]) by {
                let f = st.fields@[i];
                if f.visibility is Some {
                    match f.field {
                        StructField::TypedStructField(tp) => lemma_ends_line(
                            spaces(deeper(indent) as nat) + type_trace(tp) + "| "@ + name_or_empty(
                                f.name,
                            ) + ": "@ + type_text(tp),
                        ),
                        _ => {},
                    }
                }
            }
            lemma_concat_whole(parts);
            let head = spaces(indent as nat) + "struct "@ + prefix + " "@ + struct_type_text(
                st.struct_type,
            );
            lemma_ends_line(head);
            lemma_whole_append(head + "\n"@, concat(parts));
        },
        ItemEnum::EnumItem(en) => {
            let parts = en.variants@.map_values(|v: VariantItem| variant_out(v, indent));
            assert forall|i: int| 0 <= i < parts.len() implies whole_lines(#[trigger] parts[i]) by {
                lemma_ends_line(
                    spaces(deeper(indent) as nat) + "| "@ + name_or_empty(en.variants@[i].name),
                );
            }
            lemma_concat_whole(parts);
            let head = spaces(indent as nat) + generics_trace(en.generics) + "enum "@ + prefix
                + " => "@ + generics_text(en.generics);
            lemma_ends_line(head);
            lemma_whole_append(head + "\n"@, concat(parts));
        },
        ItemEnum::FunctionItem(f) => lemma_ends_line(
            spaces(indent as nat) + signature_trace(f.generics, f.decl) + "fn "@ + prefix
                + signature_text(f.generics, SelfTy::SelfStatic, f.decl),
        ),
        ItemEnum::ModuleItem(m) => {
            if is_public(vis) {
                let head = spaces(indent as nat) + "mod "@ + prefix;
                lemma_ends_line(head);
                lemma_items_whole(m.items@, deeper(indent), prefix);
                lemma_whole_append(head + "\n"@, items_out(m.items@, deeper(indent), prefix));
            }
        },
        ItemEnum::TypedefItem(t) => lemma_ends_line(
            spaces(indent as nat) + generics_trace(t.generics) + type_trace(t.type_) + "type "@
                + prefix + " = "@ + generics_text(t.generics) + type_text(t.type_),
        ),
        ItemEnum::StaticItem(st) => lemma_ends_line(
            spaces(indent as nat) + type_trace(st.type_) + "static "@ + prefix + ": "@ + type_text(
                st.type_,
            ),
        ),
        ItemEnum::TraitItem(t) => {
            let parts = t.methods@.map_values(|m: TraitMethod| trait_method_out(m, indent));
            assert forall|i: int| 0 <= i < parts.len() implies whole_lines(#[trigger] parts[i]) by {
                match t.methods@[i] {
                    TraitMethod::Required(name, tm) => lemma_ends_line(
                        spaces(deeper(indent) as nat) + signature_trace(tm.generics, tm.decl)
                            + "| "@ + name_or_empty(name) + signature_text(
                            tm.generics,
                            tm.self_,
                            tm.decl,
                        ),
                    ),
                    TraitMethod::Provided(name, pm) => lemma_ends_line(
                        spaces(deeper(indent) as nat) + signature_trace(pm.generics, pm.decl)
                            + "| "@ + name_or_empty(name) + signature_text(
                            pm.generics,
                            pm.self_,
                            pm.decl,
                        ),
                    ),
                }
            }
            lemma_concat_whole(parts);
            let head = spaces(indent as nat) + generics_trace(t.generics) + "trait "@ + prefix
                + generics_text(t.generics);
            lemma_ends_line(head);
            lemma_whole_append(head + "\n"@, concat(parts));
        },
        ItemEnum::ImplItem(i) => {
            let head = spaces(indent as nat) + "impl @"@ + prefix + "\n"@ + spaces(indent as nat);
            match i.trait_ {
                Some(tr) => lemma_ends_line(
                    head + generics_trace(i.generics) + type_trace(tr) + type_trace(i.for_)
                        + "impl"@ + generics_text(i.generics) + " "@ + type_text(tr) + " for "@
                        + type_text(i.for_),
                ),
                None => lemma_ends_line(
                    head + generics_trace(i.generics) + type_trace(i.for_) + "impl"@
                        + generics_text(i.generics) + " "@ + type_text(i.for_),
                ),
            }
            assert(whole_lines(head + impl_line(i)));
            lemma_items_whole(i.methods@, deeper(indent), Seq::empty());
            lemma_whole_append(
                head + impl_line(i),
                items_out(i.methods@, deeper(indent), Seq::empty()),
            );
        },
        ItemEnum::ViewItemItem(v) => {
            match v.inner {
                ViewItemInner::ExternCrate(name, cname, _) => lemma_ends_line(
                    "fuck\n"@ + prefix + "::"@ + option_text(cname) + " = "@ + name@,
                ),
                ViewItemInner::Import(vp) => {
                    if vis is Some {
                        match vp {
                            ViewPath::SimpleImport(name, src) => lemma_ends_line(
                                "use "@ + name@ + " = "@ + src.path_text@,
                            ),
                            ViewPath::GlobImport(src) => lemma_ends_line(
                                prefix + "::* = "@ + src.path_text@,
                            ),
                            ViewPath::ImportList(src, lst) => {
                                reveal_strlit("}\n");
                                let t = "use "@ + src.text@ + "::{"@ + join(
                                    import_names(lst@),
                                    ", "@,
                                ) + "}\n"@;
                                assert(t.last() == "}\n"@[1]);
                            },
                        }
                    }
                },
            }
        },
        ItemEnum::MethodItem(m) => lemma_ends_line(
            spaces(indent as nat) + signature_trace(m.generics, m.decl) + "| "@ + prefix
                + signature_text(m.generics, m.self_, m.decl),
        ),
        ItemEnum::ForeignFunctionItem(f) => lemma_ends_line(
            spaces(indent as nat) + signature_trace(f.generics, f.decl) + "extern fn "@ + prefix
                + signature_text(f.generics, SelfTy::SelfStatic, f.decl),
        ),
        ItemEnum::Unsupported(d) => lemma_ends_line("unkown => "@ + d@),
    }
}

/// The listing of an item is made of whole lines: whatever it writes ends
/// with a line break.
pub proof fn lemma_listing_whole_lines(item: Item, indent: usize, prefix: Seq<char>)
    ensures
        whole_lines(item_out(item, indent, prefix)),
{
    lemma_item_whole(item, indent, prefix);
}

/// The listing of a crate is made of whole lines.
pub proof fn lemma_crate_listing_whole_lines(c: Crate, indent: usize, prefix: Seq<char>)
    ensures
        whole_lines(crate_out(c, indent, prefix)),
{
    let head = spaces(indent as nat) + "crate: "@ + c.name@;
    lemma_ends_line(head);
    match c.module {
        Some(m) => {
            lemma_item_whole(m, indent, prefix + "::"@ + c.name@);
            lemma_whole_append(head + "\n"@, item_out(m, indent, prefix + "::"@ + c.name@));
        },
        None => {
            assert(head + "\n"@ + Seq::<char>::empty() =~= head + "\n"@);
        },
    }
}

/// Only public modules are listed: a module item whose visibility is not
/// public writes nothing, whatever it holds.
pub proof fn lemma_private_module_unlisted(
    m: crate::clean::Module,
    indent: usize,
    prefix: Seq<char>,
    vis: Option<Visibility>,
)
    requires
        !is_public(vis),
    ensures
        inner_out(ItemEnum::ModuleItem(m), indent, prefix, vis) == Seq::<char>::empty(),
{
}

/// An import listed without a visibility writes nothing.
pub proof fn lemma_import_without_visibility_unlisted(vp: ViewPath, prefix: Seq<char>)
    ensures
        view_path_out(vp, prefix, None) == Seq::<char>::empty(),
{
}

} // verus!
