//! The syntax tree that the renderers and the collector read: the items,
//! paths, imports and attributes of a parsed crate. Nodes that the compiler
//! shares through garbage-collected boxes are shared here through `Rc`.

use vstd::prelude::*;
use std::rc::Rc;

verus! {

/// The identifier of a node of the syntax tree.
pub type NodeId = u32;

/// The node of the crate root.
pub const CRATE_NODE_ID: NodeId = 0;

/// The crate number of the crate being compiled.
pub const LOCAL_CRATE: u32 = 0;

/// A range of source positions.
#[derive(Clone, Copy, Debug, PartialEq, Eq, Structural)]
pub struct Span {
    pub lo: u32,
    pub hi: u32,
}

/// Whether an item is exported from its module.
#[derive(Clone, Copy, Debug, PartialEq, Eq, Structural)]
pub enum Visibility {
    Public,
    Inherited,
}

/// Whether a place may be written through.
#[derive(Clone, Copy, Debug, PartialEq, Eq, Structural)]
pub enum Mutability {
    Mutable,
    Immutable,
}

/// Whether a function is declared `unsafe`.
#[derive(Clone, Copy, Debug, PartialEq, Eq, Structural)]
pub enum FnStyle {
    UnsafeFn,
    NormalFn,
}

/// The calling convention of a function or of a foreign module.
#[derive(Clone, Copy, Debug, PartialEq, Eq, Structural)]
pub enum Abi {
    Rust,
    C,
    System,
    RustIntrinsic,
}

/// A definition: the crate it lives in and its node there.
#[derive(Clone, Copy, Debug, PartialEq, Eq, Structural)]
pub struct DefId {
    pub krate: u32,
    pub node: NodeId,
}

/// A path such as `::std::vec::Vec`; each segment is held by its identifier.
#[derive(Debug)]
pub struct Path {
    pub span: Span,
    pub global: bool,
    pub segments: Vec<String>,
}

/// A literal in an attribute.
#[derive(Debug)]
pub enum Lit {
    /// A string literal, by its contents.
    Str(String),
    /// Any other literal, by its source text.
    Other(String),
}

/// The body of an attribute: `name`, `name(items)` or `name = lit`.
#[derive(Debug)]
pub enum MetaItem {
    Word(String),
    List(String, Vec<Rc<MetaItem>>),
    NameValue(String, Lit),
}

impl MetaItem {
    /// The name of the meta item.
    pub fn name(&self) -> (res: &String)
        ensures
            res == match self {
                MetaItem::Word(n) => n,
                MetaItem::List(n, _) => n,
                MetaItem::NameValue(n, _) => n,
            },
    {
        match self {
            MetaItem::Word(n) => n,
            MetaItem::List(n, _) => n,
            MetaItem::NameValue(n, _) => n,
        }
    }
}

/// Whether an attribute is written `#[..]` or `#![..]`.
#[derive(Clone, Copy, Debug, PartialEq, Eq, Structural)]
pub enum AttrStyle {
    Outer,
    Inner,
}

/// An attribute.
#[derive(Debug)]
pub struct Attribute {
    pub style: AttrStyle,
    pub value: Rc<MetaItem>,
    pub is_sugared_doc: bool,
    pub span: Span,
}

impl Attribute {
    /// The nested items of an attribute of the form `name(items)`.
    pub fn meta_item_list(&self) -> (res: Option<&Vec<Rc<MetaItem>>>)
        ensures
            res == match *self.value {
                MetaItem::List(_, l) => Some(&l),
                _ => None,
            },
    {
        match &*self.value {
            MetaItem::List(_, l) => Some(l),
            _ => None,
        }
    }
}

/// One name of an import list `use a::{b, c}`.
#[derive(Debug)]
pub struct PathListIdent {
    pub name: String,
    pub id: NodeId,
    pub span: Span,
}

/// The three forms of an import.
#[derive(Debug)]
pub enum ViewPathKind {
    /// `use ident = path`
    Simple(String, Rc<Path>, NodeId),
    /// `use path::*`
    Glob(Rc<Path>, NodeId),
    /// `use path::{a, b}`
    List(Rc<Path>, Vec<PathListIdent>, NodeId),
}

/// An import.
#[derive(Debug)]
pub struct ViewPath {
    pub node: ViewPathKind,
    pub span: Span,
}

/// An `extern crate` or a `use`.
#[derive(Debug)]
pub enum ViewItemKind {
    /// `extern crate ident = "location"`, the location by its text.
    ExternCrate(String, Option<String>, NodeId),
    Use(Rc<ViewPath>),
}

/// An `extern crate` or `use` item, with its attributes.
#[derive(Debug)]
pub struct ViewItem {
    pub node: ViewItemKind,
    pub attrs: Rc<Vec<Attribute>>,
    pub vis: Visibility,
    pub span: Span,
}

/// The forms of a written type. Only the path form is read by this
/// library; the other forms are held by their kind.
#[derive(Debug)]
pub enum TyKind {
    Nil,
    Bot,
    Box,
    Uniq,
    Vec,
    FixedLengthVec,
    Ptr,
    Rptr,
    Closure,
    Proc,
    BareFn,
    Tup,
    Path(Rc<Path>, NodeId),
    Typeof,
    Infer,
}

/// A written type.
#[derive(Debug)]
pub struct Ty {
    pub id: NodeId,
    pub node: TyKind,
    pub span: Span,
}

/// Generic parameters, by their names.
#[derive(Debug)]
pub struct Generics {
    pub lifetimes: Vec<String>,
    pub ty_params: Vec<String>,
}

/// An expression, by its source text.
#[derive(Debug)]
pub struct Expr {
    pub id: NodeId,
    pub source: String,
}

/// A macro invocation, by its source text.
#[derive(Debug)]
pub struct Mac {
    pub source: String,
}

/// A function argument.
#[derive(Debug)]
pub struct Arg {
    pub pat: String,
    pub ty: Rc<Ty>,
    pub id: NodeId,
}

/// A function signature.
#[derive(Debug)]
pub struct FnDecl {
    pub inputs: Vec<Arg>,
    pub output: Rc<Ty>,
}

/// A field of a struct or of a struct-like variant.
#[derive(Debug)]
pub struct StructField {
    pub name: Option<String>,
    pub vis: Visibility,
    pub ty: Rc<Ty>,
    pub id: NodeId,
    pub attrs: Rc<Vec<Attribute>>,
    pub span: Span,
}

/// The fields of a struct; `ctor_id` is set for tuple-like structs.
#[derive(Debug)]
pub struct StructDef {
    pub fields: Rc<Vec<StructField>>,
    pub ctor_id: Option<NodeId>,
}

/// The fields of an enum variant.
#[derive(Debug)]
pub enum VariantKind {
    Tuple(Vec<Rc<Ty>>),
    Struct(Rc<StructDef>),
}

/// An enum variant.
#[derive(Debug)]
pub struct Variant {
    pub name: String,
    pub attrs: Rc<Vec<Attribute>>,
    pub kind: Rc<VariantKind>,
    pub id: NodeId,
    pub vis: Visibility,
    pub span: Span,
}

/// The variants of an enum.
#[derive(Debug)]
pub struct EnumDef {
    pub variants: Vec<Rc<Variant>>,
}

/// A reference to a trait in an `impl` or a supertrait list.
#[derive(Debug)]
pub struct TraitRef {
    pub path: Rc<Path>,
    pub ref_id: NodeId,
}

/// A method with a body.
#[derive(Debug)]
pub struct Method {
    pub ident: String,
    pub attrs: Rc<Vec<Attribute>>,
    pub generics: Rc<Generics>,
    pub decl: Rc<FnDecl>,
    pub id: NodeId,
    pub span: Span,
    pub vis: Visibility,
}

/// A method signature without a body.
#[derive(Debug)]
pub struct TypeMethod {
    pub ident: String,
    pub attrs: Rc<Vec<Attribute>>,
    pub generics: Rc<Generics>,
    pub decl: Rc<FnDecl>,
    pub id: NodeId,
    pub span: Span,
}

/// A method of a trait, required or provided.
#[derive(Debug)]
pub enum TraitMethod {
    Required(Rc<TypeMethod>),
    Provided(Rc<Method>),
}

/// A function or static declared in a foreign module.
#[derive(Debug)]
pub struct ForeignItem {
    pub ident: String,
    pub id: NodeId,
    pub vis: Visibility,
    pub span: Span,
}

/// An `extern { .. }` block.
#[derive(Debug)]
pub struct ForeignMod {
    pub abi: Abi,
    pub items: Vec<ForeignItem>,
}

/// The contents of a module.
#[derive(Debug)]
pub struct Mod {
    pub inner: Span,
    pub view_items: Vec<ViewItem>,
    pub items: Vec<Rc<Item>>,
}

/// The kinds of items.
#[derive(Debug)]
pub enum ItemKind {
    Static(Rc<Ty>, Mutability, Rc<Expr>),
    Fn(Rc<FnDecl>, FnStyle, Abi, Rc<Generics>),
    Mod(Mod),
    ForeignMod(Rc<ForeignMod>),
    Ty(Rc<Ty>, Rc<Generics>),
    Enum(Rc<EnumDef>, Rc<Generics>),
    Struct(Rc<StructDef>, Rc<Generics>),
    /// Generics, supertraits, methods.
    Trait(Rc<Generics>, Rc<Vec<TraitRef>>, Rc<Vec<TraitMethod>>),
    /// Generics, implemented trait, self type, methods.
    Impl(Rc<Generics>, Option<TraitRef>, Rc<Ty>, Rc<Vec<Rc<Method>>>),
    Mac(Rc<Mac>),
}

/// An item, with its name as written.
#[derive(Debug)]
pub struct Item {
    pub ident: String,
    pub attrs: Rc<Vec<Attribute>>,
    pub id: NodeId,
    pub node: ItemKind,
    pub vis: Visibility,
    pub span: Span,
}

/// A parsed crate.
#[derive(Debug)]
pub struct Crate {
    pub module: Mod,
    pub attrs: Rc<Vec<Attribute>>,
    pub span: Span,
}

/// The three forms of an import, with an import list held by its names.
pub enum ViewPathKindV {
    Simple(String, Rc<Path>, NodeId),
    Glob(Rc<Path>, NodeId),
    List(Rc<Path>, Seq<PathListIdent>, NodeId),
}

/// An import, as a mathematical value.
pub struct ViewPathV {
    pub node: ViewPathKindV,
    pub span: Span,
}

/// An `extern crate` or `use`, as a mathematical value.
pub enum ViewItemKindV {
    ExternCrate(String, Option<String>, NodeId),
    Use(ViewPathV),
}

/// An `extern crate` or `use` item, as a mathematical value.
pub struct ViewItemV {
    pub node: ViewItemKindV,
    pub attrs: Rc<Vec<Attribute>>,
    pub vis: Visibility,
    pub span: Span,
}

impl View for ViewPath {
    type V = ViewPathV;

    open spec fn view(&self) -> ViewPathV {
        ViewPathV {
            node: match self.node {
                ViewPathKind::Simple(i, p, id) => ViewPathKindV::Simple(i, p, id),
                ViewPathKind::Glob(p, id) => ViewPathKindV::Glob(p, id),
                ViewPathKind::List(p, l, id) => ViewPathKindV::List(p, l@, id),
            },
            span: self.span,
        }
    }
}

impl View for ViewItem {
    type V = ViewItemV;

    open spec fn view(&self) -> ViewItemV {
        ViewItemV {
            node: match self.node {
                ViewItemKind::ExternCrate(i, l, id) => ViewItemKindV::ExternCrate(i, l, id),
                ViewItemKind::Use(vp) => ViewItemKindV::Use((*vp)@),
            },
            attrs: self.attrs,
            vis: self.vis,
            span: self.span,
        }
    }
}

/// A copy of an optional string.
pub fn copy_opt_string(o: &Option<String>) -> (r: Option<String>)
    ensures
        r == *o,
{
    match o {
        Some(s) => Some(s.clone()),
        None => None,
    }
}

impl PathListIdent {
    /// A copy of the name.
    pub fn copy(&self) -> (r: PathListIdent)
        ensures
            r == *self,
    {
        PathListIdent { name: self.name.clone(), id: self.id, span: self.span }
    }
}

impl ViewItem {
    /// A copy of the item; imports are shared.
    pub fn copy(&self) -> (r: ViewItem)
        ensures
            r == *self,
    {
        let node = match &self.node {
            ViewItemKind::ExternCrate(i, l, id) => ViewItemKind::ExternCrate(
                i.clone(),
                copy_opt_string(l),
                *id,
            ),
            ViewItemKind::Use(vp) => ViewItemKind::Use(vp.clone()),
        };
        ViewItem { node, attrs: self.attrs.clone(), vis: self.vis, span: self.span }
    }
}

impl TraitRef {
    /// A copy of the reference; the path is shared.
    pub fn copy(&self) -> (r: TraitRef)
        ensures
            r == *self,
    {
        TraitRef { path: self.path.clone(), ref_id: self.ref_id }
    }
}

} // verus!
