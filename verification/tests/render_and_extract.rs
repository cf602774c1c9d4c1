use lib::ast::{Mutability, Visibility};
use lib::clean::{
    Argument, Crate, Enum, FieldItem, FnDecl, Function, Generics, Impl, ImportSource, Item,
    ItemEnum, Method, Module, Path, PathSegment, PrimitiveType, SelfTy, Static, Struct,
    StructField, StructType, Trait, TraitMethod, TyMethod, TyParam, TyParamBound, Type, Typedef,
    VariantItem, ViewItem, ViewItemInner, ViewListIdent, ViewPath,
};
use lib::extract::{extract_item, names_complete, rustdoc_plugin_entrypoint, Extractable};
use lib::render::{
    function_to_str, generics_to_str, method_to_str, path_to_str, tymethod_to_str, type_to_str,
    typaram_to_str,
};

fn named(name: &str) -> Type {
    Type::ResolvedPath(
        Path {
            global: false,
            segments: vec![PathSegment { name: name.to_string(), lifetimes: vec![], types: vec![] }],
        },
        0,
    )
}

fn int_ty() -> Type {
    Type::Primitive(PrimitiveType::Int("int".to_string()))
}

fn no_generics() -> Generics {
    Generics { lifetimes: vec![], type_params: vec![] }
}

fn arg(name: &str, t: Type) -> Argument {
    Argument { type_: t, name: name.to_string(), id: 0 }
}

fn render(t: &Type) -> (String, String) {
    let mut log = String::new();
    let s = type_to_str(t, &mut log);
    (s, log)
}

fn item(name: &str, vis: Option<Visibility>, inner: ItemEnum) -> Item {
    Item { name: Some(name.to_string()), visibility: vis, inner }
}

fn public() -> Option<Visibility> {
    Some(Visibility::Public)
}

#[test]
fn primitive_and_builtin_types() {
    assert_eq!(render(&int_ty()).0, "int");
    assert_eq!(render(&Type::Primitive(PrimitiveType::Uint("u8".to_string()))).0, "u8");
    assert_eq!(render(&Type::Primitive(PrimitiveType::Float("f64".to_string()))).0, "f64");
    assert_eq!(render(&Type::Primitive(PrimitiveType::Str)).0, "str");
    assert_eq!(render(&Type::Primitive(PrimitiveType::Bool)).0, "bool");
    assert_eq!(render(&Type::Primitive(PrimitiveType::Char)).0, "char");
    assert_eq!(render(&Type::Str).0, "str");
    assert_eq!(render(&Type::Bool).0, "bool");
    assert_eq!(render(&Type::Unit).0, "()");
    assert_eq!(render(&Type::Bottom).0, "!");
    assert_eq!(render(&Type::SelfType(4)).0, "Self");
    assert_eq!(render(&Type::Closure).0, "||");
    assert_eq!(render(&Type::Generic(42)).0, "T_42");
}

#[test]
fn compound_types() {
    assert_eq!(render(&Type::Tuple(vec![int_ty(), Type::Bool])).0, "(int, bool, )");
    assert_eq!(render(&Type::Tuple(vec![])).0, "()");
    assert_eq!(render(&Type::Vector(Box::new(int_ty()))).0, "[int]");
    assert_eq!(render(&Type::FixedVector(Box::new(int_ty()), "4".to_string())).0, "[int, ..4]");
    assert_eq!(render(&Type::Unique(Box::new(named("Foo")))).0, "~Foo");
    assert_eq!(render(&Type::RawPointer(Mutability::Mutable, Box::new(int_ty()))).0, "*mut int");
    assert_eq!(render(&Type::RawPointer(Mutability::Immutable, Box::new(int_ty()))).0, "*int");
    assert_eq!(
        render(&Type::BorrowedRef(Some("a".to_string()), Mutability::Mutable, Box::new(int_ty()))).0,
        "&mut int"
    );
    assert_eq!(
        render(&Type::BorrowedRef(None, Mutability::Immutable, Box::new(Type::Str))).0,
        "&str"
    );
}

#[test]
fn resolved_paths_with_arguments() {
    let p = Path {
        global: true,
        segments: vec![
            PathSegment { name: "std".to_string(), lifetimes: vec![], types: vec![] },
            PathSegment {
                name: "HashMap".to_string(),
                lifetimes: vec![],
                types: vec![int_ty(), named("V")],
            },
        ],
    };
    let mut log = String::new();
    assert_eq!(path_to_str(&p, &mut log), "::std::HashMap<int,V>");
    assert_eq!(log, "");
    assert_eq!(render(&Type::ResolvedPath(p, 1)).0, "::::std::HashMap<int,V>");
}

#[test]
fn unsupported_types_are_reported() {
    let t = Type::Tuple(vec![
        Type::Unsupported("Managed(int)".to_string()),
        int_ty(),
        Type::Unsupported("Proc".to_string()),
    ]);
    let (s, log) = render(&t);
    assert_eq!(s, "(@@@, int, @@@, )");
    assert_eq!(log, "pos1: Managed(int)\npos1: Proc\n");
}

#[test]
fn type_parameters_and_generics() {
    let mut log = String::new();
    let plain = TyParam { name: "T".to_string(), id: 7, bounds: vec![] };
    assert_eq!(typaram_to_str(&plain, &mut log), "T_7");
    let bounded = TyParam {
        name: "U".to_string(),
        id: 9,
        bounds: vec![
            TyParamBound::TraitBound(named("Clone")),
            TyParamBound::RegionBound,
            TyParamBound::TraitBound(named("Eq")),
        ],
    };
    assert_eq!(typaram_to_str(&bounded, &mut log), "T_9:(Clone+Eq+)");
    let g = Generics { lifetimes: vec!["a".to_string()], type_params: vec![plain, bounded] };
    assert_eq!(generics_to_str(&g, &mut log), "<'a, T_7, T_9:(Clone+Eq+)>");
    assert_eq!(generics_to_str(&no_generics(), &mut log), "");
    assert_eq!(log, "");
}

#[test]
fn signatures() {
    let mut log = String::new();
    let f = Function {
        decl: FnDecl { inputs: vec![arg("x", int_ty()), arg("y", Type::Bool)], output: Type::Unit },
        generics: no_generics(),
    };
    assert_eq!(function_to_str(&f, &mut log), "(x: int, y: bool) -> ()");
    let m = Method {
        generics: no_generics(),
        self_: SelfTy::SelfBorrowed(Some("a".to_string()), Mutability::Mutable),
        decl: FnDecl { inputs: vec![arg("n", int_ty())], output: int_ty() },
    };
    assert_eq!(method_to_str(&m, &mut log), "(&'a mut self, n: int) -> int");
    let m2 = TyMethod {
        generics: no_generics(),
        self_: SelfTy::SelfBorrowed(None, Mutability::Immutable),
        decl: FnDecl { inputs: vec![], output: Type::Bool },
    };
    assert_eq!(tymethod_to_str(&m2, &mut log), "(&self) -> bool");
    let m3 = Method {
        generics: no_generics(),
        self_: SelfTy::SelfOwned,
        decl: FnDecl { inputs: vec![], output: Type::Unit },
    };
    assert_eq!(method_to_str(&m3, &mut log), "(~self) -> ()");
    let m4 = Method {
        generics: no_generics(),
        self_: SelfTy::SelfValue,
        decl: FnDecl { inputs: vec![], output: Type::Unit },
    };
    assert_eq!(method_to_str(&m4, &mut log), "(self) -> ()");
    assert_eq!(log, "");
}

#[test]
fn struct_listing() {
    let s = Struct {
        struct_type: StructType::Plain,
        generics: no_generics(),
        fields: vec![
            FieldItem {
                name: Some("x".to_string()),
                visibility: public(),
                field: StructField::TypedStructField(int_ty()),
            },
            FieldItem {
                name: Some("hidden".to_string()),
                visibility: None,
                field: StructField::TypedStructField(int_ty()),
            },
            FieldItem { name: None, visibility: public(), field: StructField::HiddenStructField },
            FieldItem {
                name: None,
                visibility: public(),
                field: StructField::TypedStructField(Type::Unsupported("?".to_string())),
            },
        ],
    };
    let mut out = String::new();
    extract_item(&item("Point", public(), ItemEnum::StructItem(s)), 2, "geo", &mut out);
    assert_eq!(
        out,
        "  struct geo::Point Plain\n    | x: int\n    pos1: ?\n| : @@@\n"
    );
}

#[test]
fn enum_trait_and_function_listing() {
    let e = Enum {
        variants: vec![
            VariantItem { name: Some("A".to_string()) },
            VariantItem { name: Some("B".to_string()) },
        ],
        generics: no_generics(),
    };
    let mut out = String::new();
    extract_item(&item("E", public(), ItemEnum::EnumItem(e)), 0, "", &mut out);
    assert_eq!(out, "enum E => \n  | A\n  | B\n");

    let t = Trait {
        methods: vec![
            TraitMethod::Required(
                Some("len".to_string()),
                TyMethod {
                    generics: no_generics(),
                    self_: SelfTy::SelfBorrowed(None, Mutability::Immutable),
                    decl: FnDecl { inputs: vec![], output: int_ty() },
                },
            ),
            TraitMethod::Provided(
                Some("is_empty".to_string()),
                Method {
                    generics: no_generics(),
                    self_: SelfTy::SelfBorrowed(None, Mutability::Immutable),
                    decl: FnDecl { inputs: vec![], output: Type::Bool },
                },
            ),
        ],
        generics: no_generics(),
    };
    let mut out = String::new();
    extract_item(&item("Container", public(), ItemEnum::TraitItem(t)), 0, "c", &mut out);
    assert_eq!(
        out,
        "trait c::Container\n  | len(&self) -> int\n  | is_empty(&self) -> bool\n"
    );

    let f = Function { decl: FnDecl { inputs: vec![], output: Type::Unit }, generics: no_generics() };
    let mut out = String::new();
    extract_item(&item("run", None, ItemEnum::FunctionItem(f)), 1, "app", &mut out);
    assert_eq!(out, " fn app::run() -> ()\n");

    let f = Function { decl: FnDecl { inputs: vec![], output: int_ty() }, generics: no_generics() };
    let mut out = String::new();
    extract_item(&item("abs", None, ItemEnum::ForeignFunctionItem(f)), 0, "libc", &mut out);
    assert_eq!(out, "extern fn libc::abs() -> int\n");
}

#[test]
fn typedef_static_and_unsupported_listing() {
    let mut out = String::new();
    let t = Typedef { type_: Type::Vector(Box::new(int_ty())), generics: no_generics() };
    extract_item(&item("Ints", None, ItemEnum::TypedefItem(t)), 0, "m", &mut out);
    let s = Static { type_: Type::Bool, mutability: Mutability::Immutable };
    extract_item(&item("FLAG", None, ItemEnum::StaticItem(s)), 0, "m", &mut out);
    extract_item(&item("x", None, ItemEnum::Unsupported("Macro".to_string())), 4, "m", &mut out);
    assert_eq!(out, "type m::Ints = [int]\nstatic m::FLAG: bool\nunkown => Macro\n");
}

#[test]
fn module_and_impl_listing() {
    let method = Item {
        name: Some("get".to_string()),
        visibility: public(),
        inner: ItemEnum::MethodItem(Method {
            generics: no_generics(),
            self_: SelfTy::SelfBorrowed(None, Mutability::Immutable),
            decl: FnDecl { inputs: vec![], output: int_ty() },
        }),
    };
    let imp = Impl {
        generics: no_generics(),
        trait_: Some(named("Get")),
        for_: named("Box"),
        methods: vec![method],
    };
    let inner_private = item(
        "hidden",
        None,
        ItemEnum::ModuleItem(Module {
            items: vec![item("Z", public(), ItemEnum::StaticItem(Static {
                type_: int_ty(),
                mutability: Mutability::Mutable,
            }))],
            is_crate: false,
        }),
    );
    let m = Module {
        items: vec![
            Item { name: None, visibility: None, inner: ItemEnum::ImplItem(imp) },
            inner_private,
        ],
        is_crate: false,
    };
    let mut out = String::new();
    extract_item(&item("top", public(), ItemEnum::ModuleItem(m)), 0, "k", &mut out);
    assert_eq!(
        out,
        "mod k::top\n  impl @k::top\n  impl Get for Box\n    | get(&self) -> int\n"
    );
}

#[test]
fn private_module_lists_nothing() {
    let m = Module { items: vec![item("A", public(), ItemEnum::Unsupported("x".to_string()))], is_crate: false };
    let mut out = String::new();
    extract_item(&item("m", Some(Visibility::Inherited), ItemEnum::ModuleItem(m)), 0, "", &mut out);
    assert_eq!(out, "");
}

#[test]
fn imports_listing() {
    let src = || ImportSource { text: "a::b".to_string(), path_text: "a::b".to_string() };
    let mut out = String::new();
    ViewPath::SimpleImport("x".to_string(), src()).extract(0, "p", public(), &mut out);
    ViewPath::GlobImport(src()).extract(0, "p", public(), &mut out);
    ViewPath::ImportList(
        src(),
        vec![ViewListIdent { name: "c".to_string() }, ViewListIdent { name: "d".to_string() }],
    )
    .extract(0, "p", public(), &mut out);
    ViewPath::GlobImport(src()).extract(0, "p", None, &mut out);
    assert_eq!(out, "use x = a::b\np::* = a::b\nuse a::b::{c, d}\n");

    let mut out = String::new();
    let v = ViewItem { inner: ViewItemInner::ExternCrate("std".to_string(), Some("core".to_string()), 1) };
    v.extract(0, "p", None, &mut out);
    let v = ViewItem { inner: ViewItemInner::ExternCrate("std".to_string(), None, 1) };
    v.extract(0, "p", None, &mut out);
    assert_eq!(out, "fuck\np::Some(core) = std\nfuck\np::None = std\n");
}

#[test]
fn plugin_lists_crate() {
    let c = Crate {
        name: "demo".to_string(),
        module: Some(item(
            "demo",
            public(),
            ItemEnum::ModuleItem(Module {
                items: vec![item("f", public(), ItemEnum::FunctionItem(Function {
                    decl: FnDecl { inputs: vec![], output: Type::Unit },
                    generics: no_generics(),
                }))],
                is_crate: true,
            }),
        )),
    };
    let mut out = String::new();
    let (back, json) = rustdoc_plugin_entrypoint(c, &mut out);
    assert!(json.is_none());
    assert_eq!(back.name, "demo");
    let expected = format!(
        "loading extension ok!\ncrate => demo\n{}\ncrate: demo\nmod ::demo::demo\n  fn ::demo::demo::f() -> ()\n",
        "=".repeat(78)
    );
    assert_eq!(out, expected);
    assert!(out.ends_with('\n'));
}

#[test]
fn unnamed_variants_and_methods_are_found_before_listing() {
    let en = |name: Option<&str>| {
        ItemEnum::EnumItem(Enum {
            variants: vec![VariantItem { name: Some("A".to_string()) }, VariantItem { name: name.map(|s| s.to_string()) }],
            generics: no_generics(),
        })
    };
    assert!(names_complete(&item("E", public(), en(Some("B")))));
    assert!(!names_complete(&item("E", public(), en(None))));
    let tr = ItemEnum::TraitItem(Trait {
        methods: vec![TraitMethod::Required(
            None,
            TyMethod { generics: no_generics(), self_: SelfTy::SelfStatic, decl: FnDecl { inputs: vec![], output: Type::Unit } },
        )],
        generics: no_generics(),
    });
    // Inside a public module the unnamed method is reached; inside a private one it is not.
    let in_public = item("m", public(), ItemEnum::ModuleItem(Module { items: vec![item("T", public(), tr)], is_crate: false }));
    assert!(!names_complete(&in_public));
    let tr = ItemEnum::TraitItem(Trait {
        methods: vec![TraitMethod::Required(
            None,
            TyMethod { generics: no_generics(), self_: SelfTy::SelfStatic, decl: FnDecl { inputs: vec![], output: Type::Unit } },
        )],
        generics: no_generics(),
    });
    let in_private = item("m", None, ItemEnum::ModuleItem(Module { items: vec![item("T", public(), tr)], is_crate: false }));
    assert!(names_complete(&in_private));
    let mut out = String::new();
    extract_item(&in_private, 0, "", &mut out);
    assert_eq!(out, "");
}
