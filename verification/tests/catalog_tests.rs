use pie_lua::catalog::accessor_symbol;
use pie_lua::catalog::assemble;
use pie_lua::catalog::build_catalog;
use pie_lua::catalog::luajit_module;
use pie_lua::catalog::scan;
use pie_lua::mapper::map_type;
use pie_lua::mapper::semantic_type_name;
use pie_lua::render::render;
use pie_lua::sig::FunctionSignature;
use pie_lua::sig::ModuleItem;
use pie_lua::sig::Param;

fn param(name: &str, ty: &str) -> Param {
    Param { name: name.to_string(), ty: Some(ty.to_string()) }
}

fn foreign_fn(name: &str, params: Vec<Param>, ret: Option<&str>) -> FunctionSignature {
    FunctionSignature {
        name: name.to_string(),
        abi: Some("C".to_string()),
        params,
        ret: ret.map(|t| t.to_string()),
    }
}

fn plain_fn(name: &str) -> FunctionSignature {
    FunctionSignature { name: name.to_string(), abi: None, params: Vec::new(), ret: None }
}

#[test]
fn test_map_table() {
    assert_eq!(map_type("int32"), "int32_t");
    assert_eq!(map_type("uint32"), "uint32_t");
    assert_eq!(map_type("int64"), "int64_t");
    assert_eq!(map_type("uint64"), "uint64_t");
    assert_eq!(map_type("float64"), "double");
    assert_eq!(map_type("float32"), "float");
}

#[test]
fn test_map_identity_fallback() {
    assert_eq!(map_type("MyHandle"), "MyHandle");
    assert_eq!(map_type("size_t"), "size_t");
    assert_eq!(map_type(""), "");
}

#[test]
fn test_semantic_spellings() {
    assert_eq!(semantic_type_name("i32"), "int32");
    assert_eq!(semantic_type_name("u32"), "uint32");
    assert_eq!(semantic_type_name("i64"), "int64");
    assert_eq!(semantic_type_name("u64"), "uint64");
    assert_eq!(semantic_type_name("f64"), "float64");
    assert_eq!(semantic_type_name("f32"), "float32");
    assert_eq!(semantic_type_name("MyHandle"), "MyHandle");
    assert_eq!(map_type(&semantic_type_name("f64")), "double");
}

#[test]
fn test_render_zero_params() {
    let sig = foreign_fn("reset", Vec::new(), None);
    assert_eq!(render(&sig), "void reset();");
}

#[test]
fn test_render_missing_return_is_void() {
    let sig = foreign_fn("log_it", vec![param("level", "int32")], None);
    assert_eq!(render(&sig), "void log_it(int32_t level);");
}

#[test]
fn test_render_untyped_param_degrades_to_empty_token() {
    let receiver = Param { name: "self".to_string(), ty: None };
    let sig = foreign_fn("touch", vec![receiver, param("x", "int32")], None);
    assert_eq!(render(&sig), "void touch(, int32_t x);");
}

#[test]
fn test_render_unknown_type_passes_through() {
    let sig = foreign_fn("grab", vec![param("h", "MyHandle")], Some("uint64"));
    assert_eq!(render(&sig), "uint64_t grab(MyHandle h);");
}

#[test]
fn test_scan_order_and_passthrough() {
    let items = vec![
        ModuleItem::Other,
        ModuleItem::Function(foreign_fn("first", Vec::new(), Some("int32"))),
        ModuleItem::Function(plain_fn("helper")),
        ModuleItem::Function(foreign_fn("second", Vec::new(), None)),
        ModuleItem::Other,
    ];
    let (foreign, passthrough) = scan(items);
    let names: Vec<&str> = foreign.iter().map(|s| s.name.as_str()).collect();
    assert_eq!(names, vec!["first", "second"]);
    assert_eq!(passthrough.len(), 5);
    match &passthrough[2] {
        ModuleItem::Function(sig) => assert_eq!(sig.name, "helper"),
        ModuleItem::Other => panic!("passthrough order not preserved"),
    }
}

#[test]
fn test_assemble_no_trailing_separator() {
    let lines = vec!["int32_t a();".to_string(), "void b();".to_string()];
    assert_eq!(assemble(&lines), "int32_t a();\nvoid b();\0");
}

#[test]
fn test_catalog_empty_is_single_nul() {
    let catalog = build_catalog(&Vec::new());
    assert_eq!(catalog, "\0");
    assert_eq!(catalog.as_bytes().last(), Some(&0u8));
}

#[test]
fn test_catalog_terminator_bytes() {
    let sigs = vec![foreign_fn("a", Vec::new(), Some("int32")), foreign_fn("b", Vec::new(), None)];
    let catalog = build_catalog(&sigs);
    let bytes = catalog.as_bytes();
    assert_eq!(bytes[bytes.len() - 1], 0u8);
    assert_ne!(bytes[bytes.len() - 2], b'\n');
}

#[test]
fn test_two_function_catalog() {
    let items = vec![
        ModuleItem::Function(foreign_fn(
            "my_c_function",
            vec![param("a", "int32"), param("b", "float64")],
            Some("int32"),
        )),
        ModuleItem::Function(foreign_fn("another_c_function", vec![param("x", "int32")], Some("int32"))),
    ];
    let expansion = luajit_module("exports", items);
    assert_eq!(
        expansion.catalog,
        "int32_t my_c_function(int32_t a, double b);\nint32_t another_c_function(int32_t x);\0"
    );
    assert_eq!(expansion.accessor_name, "exports_luajit_ffi_decls");
    assert_eq!(expansion.passthrough.len(), 2);
}

#[test]
fn test_pipeline_idempotent() {
    let make_items = || {
        vec![
            ModuleItem::Function(foreign_fn("f", vec![param("x", "uint32")], Some("uint64"))),
            ModuleItem::Other,
            ModuleItem::Function(plain_fn("quiet")),
        ]
    };
    let one = luajit_module("m", make_items());
    let two = luajit_module("m", make_items());
    assert_eq!(one.catalog, two.catalog);
    assert_eq!(one.accessor_name, two.accessor_name);
}

#[test]
fn test_duplicate_names_both_emitted() {
    let items = vec![
        ModuleItem::Function(foreign_fn("dup", Vec::new(), None)),
        ModuleItem::Function(foreign_fn("dup", Vec::new(), None)),
    ];
    let expansion = luajit_module("m", items);
    assert_eq!(expansion.catalog, "void dup();\nvoid dup();\0");
}

#[test]
fn test_accessor_symbol_name() {
    assert_eq!(accessor_symbol("exports"), "exports_luajit_ffi_decls");
    assert_eq!(accessor_symbol("audio"), "audio_luajit_ffi_decls");
}

#[test]
fn test_abi_marker_detection() {
    assert!(foreign_fn("f", Vec::new(), None).is_c_abi());
    assert!(!plain_fn("g").is_c_abi());
    let other_abi = FunctionSignature {
        name: "h".to_string(),
        abi: Some("system".to_string()),
        params: Vec::new(),
        ret: None,
    };
    assert!(!other_abi.is_c_abi());
}

#[test]
fn test_nonforeign_functions_never_in_catalog() {
    let items = vec![
        ModuleItem::Function(plain_fn("quiet")),
        ModuleItem::Function(foreign_fn("loud", Vec::new(), None)),
    ];
    let expansion = luajit_module("m", items);
    assert_eq!(expansion.catalog, "void loud();\0");
    assert!(!expansion.catalog.contains("quiet"));
}
