//! The documentation tree that the collector builds from the syntax tree: a
//! module holds its structs, enums, functions, submodules, type aliases,
//! statics, traits, impls, foreign blocks, imports and macros. Parts of the
//! syntax tree that the documentation keeps unchanged are shared with it.

use vstd::prelude::*;
use std::rc::Rc;
use crate::ast::{
    Attribute, Expr, FnDecl, FnStyle, ForeignMod, Generics, Method, Mutability, NodeId, Span,
    StructField, TraitMethod, TraitRef, Ty, VariantKind, ViewItem, ViewItemV, Visibility,
};
use crate::clean::StructType;

verus! {

/// A struct.
#[derive(Debug)]
pub struct Struct {
    pub vis: Visibility,
    pub id: NodeId,
    pub struct_type: StructType,
    pub name: String,
    pub generics: Rc<Generics>,
    pub attrs: Rc<Vec<Attribute>>,
    pub fields: Rc<Vec<StructField>>,
    pub where_: Span,
}

/// A variant of an enum.
#[derive(Debug)]
pub struct Variant {
    pub name: String,
    pub attrs: Rc<Vec<Attribute>>,
    pub kind: Rc<VariantKind>,
    pub id: NodeId,
    pub vis: Visibility,
    pub where_: Span,
}

/// An enum.
#[derive(Debug)]
pub struct Enum {
    pub vis: Visibility,
    pub variants: Vec<Variant>,
    pub generics: Rc<Generics>,
    pub attrs: Rc<Vec<Attribute>>,
    pub id: NodeId,
    pub where_: Span,
    pub name: String,
}

/// A function.
#[derive(Debug)]
pub struct Function {
    pub decl: Rc<FnDecl>,
    pub attrs: Rc<Vec<Attribute>>,
    pub id: NodeId,
    pub name: String,
    pub vis: Visibility,
    pub fn_style: FnStyle,
    pub where_: Span,
    pub generics: Rc<Generics>,
}

/// A type alias.
#[derive(Debug)]
pub struct Typedef {
    pub ty: Rc<Ty>,
    pub gen: Rc<Generics>,
    pub name: String,
    pub id: NodeId,
    pub attrs: Rc<Vec<Attribute>>,
    pub where_: Span,
    pub vis: Visibility,
}

/// A static.
#[derive(Debug)]
pub struct Static {
    pub type_: Rc<Ty>,
    pub mutability: Mutability,
    pub expr: Rc<Expr>,
    pub name: String,
    pub attrs: Rc<Vec<Attribute>>,
    pub vis: Visibility,
    pub id: NodeId,
    pub where_: Span,
}

/// A trait.
#[derive(Debug)]
pub struct Trait {
    pub name: String,
    pub methods: Rc<Vec<TraitMethod>>,
    pub generics: Rc<Generics>,
    pub parents: Rc<Vec<TraitRef>>,
    pub attrs: Rc<Vec<Attribute>>,
    pub id: NodeId,
    pub where_: Span,
    pub vis: Visibility,
}

/// An impl block.
#[derive(Debug)]
pub struct Impl {
    pub generics: Rc<Generics>,
    pub trait_: Option<TraitRef>,
    pub for_: Rc<Ty>,
    pub methods: Rc<Vec<Rc<Method>>>,
    pub attrs: Rc<Vec<Attribute>>,
    pub where_: Span,
    pub vis: Visibility,
    pub id: NodeId,
}

/// A macro invocation at item level.
#[derive(Debug)]
pub struct Macro {
    pub id: NodeId,
    pub attrs: Rc<Vec<Attribute>>,
    pub name: String,
    pub where_: Span,
}

/// A module and what it holds.
#[derive(Debug)]
pub struct Module {
    pub name: Option<String>,
    pub attrs: Rc<Vec<Attribute>>,
    pub where_outer: Span,
    pub where_inner: Span,
    pub structs: Vec<Struct>,
    pub enums: Vec<Enum>,
    pub fns: Vec<Function>,
    pub mods: Vec<Module>,
    pub id: NodeId,
    pub typedefs: Vec<Typedef>,
    pub statics: Vec<Static>,
    pub traits: Vec<Trait>,
    pub impls: Vec<Impl>,
    pub foreigns: Vec<Rc<ForeignMod>>,
    pub view_items: Vec<ViewItem>,
    pub macros: Vec<Macro>,
    pub is_crate: bool,
    pub vis: Visibility,
}

/// An enum, as a mathematical value.
pub struct EnumV {
    pub vis: Visibility,
    pub variants: Seq<Variant>,
    pub generics: Rc<Generics>,
    pub attrs: Rc<Vec<Attribute>>,
    pub id: NodeId,
    pub where_: Span,
    pub name: String,
}

/// A module, as a mathematical value.
pub struct ModuleV {
    pub name: Option<String>,
    pub attrs: Seq<Attribute>,
    pub where_outer: Span,
    pub where_inner: Span,
    pub structs: Seq<Struct>,
    pub enums: Seq<EnumV>,
    pub fns: Seq<Function>,
    pub mods: Seq<ModuleV>,
    pub id: NodeId,
    pub typedefs: Seq<Typedef>,
    pub statics: Seq<Static>,
    pub traits: Seq<Trait>,
    pub impls: Seq<Impl>,
    pub foreigns: Seq<Rc<ForeignMod>>,
    pub view_items: Seq<ViewItemV>,
    pub macros: Seq<Macro>,
    pub is_crate: bool,
    pub vis: Visibility,
}

impl View for Enum {
    type V = EnumV;

    open spec fn view(&self) -> EnumV {
        EnumV {
            vis: self.vis,
            variants: self.variants@,
            generics: self.generics,
            attrs: self.attrs,
            id: self.id,
            where_: self.where_,
            name: self.name,
        }
    }
}

/// The views of a sequence of modules.
pub open spec fn modules_view(ms: Seq<Module>) -> Seq<ModuleV>
    decreases ms,
{
    if ms.len() == 0 {
        Seq::empty()
    } else {
        modules_view(ms.subrange(0, ms.len() - 1)).push(module_view(ms[ms.len() - 1]))
    }
}

/// The view of a module.
pub open spec fn module_view(m: Module) -> ModuleV
    decreases m,
{
    ModuleV {
        name: m.name,
        attrs: (*m.attrs)@,
        where_outer: m.where_outer,
        where_inner: m.where_inner,
        structs: m.structs@,
        enums: m.enums@.map_values(|e: Enum| e@),
        fns: m.fns@,
        mods: modules_view(m.mods@),
        id: m.id,
        typedefs: m.typedefs@,
        statics: m.statics@,
        traits: m.traits@,
        impls: m.impls@,
        foreigns: m.foreigns@,
        view_items: m.view_items@.map_values(|v: ViewItem| v@),
        macros: m.macros@,
        is_crate: m.is_crate,
        vis: m.vis,
    }
}

/// The modules view after a push.
pub proof fn lemma_modules_view_push(ms: Seq<Module>, m: Module)
    ensures
        modules_view(ms.push(m)) == modules_view(ms).push(module_view(m)),
{
    assert(ms.push(m).subrange(0, ms.len() as int) =~= ms);
}

impl View for Module {
    type V = ModuleV;

    open spec fn view(&self) -> ModuleV {
        module_view(*self)
    }
}

/// A module with nothing in it yet.
pub open spec fn empty_module(name: Option<String>) -> ModuleV {
    ModuleV {
        name,
        attrs: Seq::empty(),
        where_outer: Span { lo: 0, hi: 0 },
        where_inner: Span { lo: 0, hi: 0 },
        structs: Seq::empty(),
        enums: Seq::empty(),
        fns: Seq::empty(),
        mods: Seq::empty(),
        id: 0,
        typedefs: Seq::empty(),
        statics: Seq::empty(),
        traits: Seq::empty(),
        impls: Seq::empty(),
        foreigns: Seq::empty(),
        view_items: Seq::empty(),
        macros: Seq::empty(),
        is_crate: false,
        vis: Visibility::Inherited,
    }
}

impl Module {
    /// A module named `name` with nothing in it, inherited visibility, node
    /// 0 and empty spans.
    pub fn new(name: Option<String>) -> (m: Module)
        ensures
            m@ == empty_module(name),
    {
        let m = Module {
            name,
            attrs: Rc::new(Vec::new()),
            where_outer: Span { lo: 0, hi: 0 },
            where_inner: Span { lo: 0, hi: 0 },
            structs: Vec::new(),
            enums: Vec::new(),
            fns: Vec::new(),
            mods: Vec::new(),
            id: 0,
            typedefs: Vec::new(),
            statics: Vec::new(),
            traits: Vec::new(),
            impls: Vec::new(),
            foreigns: Vec::new(),
            view_items: Vec::new(),
            macros: Vec::new(),
            is_crate: false,
            vis: Visibility::Inherited,
        };
        assert(m@.enums =~= Seq::<EnumV>::empty());
        assert(m@.view_items =~= Seq::<ViewItemV>::empty());
        assert(m@.mods =~= Seq::<ModuleV>::empty());
        m
    }
}

} // verus!
