//! The cleaned documentation tree of a crate, as the documentation tool
//! hands it to its plugins: items with names, visibilities and resolved
//! types.

use vstd::prelude::*;
use crate::ast::{Mutability, NodeId, Visibility};

verus! {

/// A primitive type. The numeric kinds are held by their name as the
/// syntax tree writes it (`int`, `u8`, `f64`, ..).
#[derive(Debug)]
pub enum PrimitiveType {
    Int(String),
    Uint(String),
    Float(String),
    Str,
    Bool,
    Char,
}

/// One segment of a resolved path, with its type arguments.
#[derive(Debug)]
pub struct PathSegment {
    pub name: String,
    pub lifetimes: Vec<String>,
    pub types: Vec<Type>,
}

/// A resolved path.
#[derive(Debug)]
pub struct Path {
    pub global: bool,
    pub segments: Vec<PathSegment>,
}

/// A type of the cleaned tree.
#[derive(Debug)]
pub enum Type {
    ResolvedPath(Path, NodeId),
    /// A type parameter, by its node.
    Generic(NodeId),
    /// `Self` in a trait.
    SelfType(NodeId),
    Primitive(PrimitiveType),
    /// A closure type; its signature is not rendered.
    Closure,
    Tuple(Vec<Type>),
    Vector(Box<Type>),
    /// An array type and its length, by its text.
    FixedVector(Box<Type>, String),
    Str,
    Bool,
    Unit,
    Bottom,
    Unique(Box<Type>),
    RawPointer(Mutability, Box<Type>),
    BorrowedRef(Option<String>, Mutability, Box<Type>),
    /// Any other type, by its debug text.
    Unsupported(String),
}

/// A bound on a type parameter.
#[derive(Debug)]
pub enum TyParamBound {
    RegionBound,
    TraitBound(Type),
}

/// A type parameter.
#[derive(Debug)]
pub struct TyParam {
    pub name: String,
    pub id: NodeId,
    pub bounds: Vec<TyParamBound>,
}

/// The lifetime and type parameters of an item.
#[derive(Debug)]
pub struct Generics {
    pub lifetimes: Vec<String>,
    pub type_params: Vec<TyParam>,
}

/// A named argument.
#[derive(Debug)]
pub struct Argument {
    pub type_: Type,
    pub name: String,
    pub id: NodeId,
}

/// A signature: its arguments and its result type.
#[derive(Debug)]
pub struct FnDecl {
    pub inputs: Vec<Argument>,
    pub output: Type,
}

/// A free or foreign function.
#[derive(Debug)]
pub struct Function {
    pub decl: FnDecl,
    pub generics: Generics,
}

/// How a method takes `self`.
#[derive(Debug)]
pub enum SelfTy {
    SelfStatic,
    SelfValue,
    /// `&'a self` or `&'a mut self`, with the lifetime if one is written.
    SelfBorrowed(Option<String>, Mutability),
    SelfOwned,
}

/// A method with a body.
#[derive(Debug)]
pub struct Method {
    pub generics: Generics,
    pub self_: SelfTy,
    pub decl: FnDecl,
}

/// A required method of a trait.
#[derive(Debug)]
pub struct TyMethod {
    pub generics: Generics,
    pub self_: SelfTy,
    pub decl: FnDecl,
}

/// The shape of a struct.
#[derive(Clone, Copy, Debug, PartialEq, Eq, Structural)]
pub enum StructType {
    Plain,
    Tuple,
    Newtype,
    Unit,
}

/// The type of a struct field, unless the field is hidden.
#[derive(Debug)]
pub enum StructField {
    TypedStructField(Type),
    HiddenStructField,
}

/// A field of a struct.
#[derive(Debug)]
pub struct FieldItem {
    pub name: Option<String>,
    pub visibility: Option<Visibility>,
    pub field: StructField,
}

/// A struct.
#[derive(Debug)]
pub struct Struct {
    pub struct_type: StructType,
    pub generics: Generics,
    pub fields: Vec<FieldItem>,
}

/// A variant of an enum, by its name.
#[derive(Debug)]
pub struct VariantItem {
    pub name: Option<String>,
}

/// An enum.
#[derive(Debug)]
pub struct Enum {
    pub variants: Vec<VariantItem>,
    pub generics: Generics,
}

/// A type alias.
#[derive(Debug)]
pub struct Typedef {
    pub type_: Type,
    pub generics: Generics,
}

/// A static.
#[derive(Debug)]
pub struct Static {
    pub type_: Type,
    pub mutability: Mutability,
}

/// A method of a trait, with its name.
#[derive(Debug)]
pub enum TraitMethod {
    Required(Option<String>, TyMethod),
    Provided(Option<String>, Method),
}

/// A trait.
#[derive(Debug)]
pub struct Trait {
    pub methods: Vec<TraitMethod>,
    pub generics: Generics,
}

/// An `impl` block; its methods are items.
#[derive(Debug)]
pub struct Impl {
    pub generics: Generics,
    pub trait_: Option<Type>,
    pub for_: Type,
    pub methods: Vec<Item>,
}

/// A module and its items.
#[derive(Debug)]
pub struct Module {
    pub items: Vec<Item>,
    pub is_crate: bool,
}

/// Where an import comes from: the text of the source and the text of its
/// path, as the documentation tool writes them.
#[derive(Debug)]
pub struct ImportSource {
    pub text: String,
    pub path_text: String,
}

/// One name of an import list.
#[derive(Debug)]
pub struct ViewListIdent {
    pub name: String,
}

/// The three forms of an import.
#[derive(Debug)]
pub enum ViewPath {
    SimpleImport(String, ImportSource),
    GlobImport(ImportSource),
    ImportList(ImportSource, Vec<ViewListIdent>),
}

/// An `extern crate` (its name and the name it is bound to) or an import.
#[derive(Debug)]
pub enum ViewItemInner {
    ExternCrate(String, Option<String>, NodeId),
    Import(ViewPath),
}

/// An `extern crate` or `use` item.
#[derive(Debug)]
pub struct ViewItem {
    pub inner: ViewItemInner,
}

/// What an item is.
#[derive(Debug)]
pub enum ItemEnum {
    StructItem(Struct),
    EnumItem(Enum),
    FunctionItem(Function),
    ModuleItem(Module),
    TypedefItem(Typedef),
    StaticItem(Static),
    TraitItem(Trait),
    ImplItem(Impl),
    ViewItemItem(ViewItem),
    MethodItem(Method),
    ForeignFunctionItem(Function),
    /// Any other kind of item, by its debug text.
    Unsupported(String),
}

/// An item: its name, its visibility and what it is.
#[derive(Debug)]
pub struct Item {
    pub name: Option<String>,
    pub visibility: Option<Visibility>,
    pub inner: ItemEnum,
}

/// A crate and its root module.
#[derive(Debug)]
pub struct Crate {
    pub name: String,
    pub module: Option<Item>,
}

} // verus!
