use ebb::rendering::shader::{
    collect_uniforms, load_shader, Decl, ShaderError, ShaderModule, TypeDecl, TypeName, VarDecl,
};

fn leaf(name: &str) -> TypeDecl {
    TypeDecl { name: TypeName::Leaf(name.to_string()), child_ty: None }
}

fn of(name: &str, child: TypeDecl) -> TypeDecl {
    TypeDecl { name: TypeName::Leaf(name.to_string()), child_ty: Some(Box::new(child)) }
}

fn uniform(name: &str, ty: Option<TypeDecl>) -> Decl {
    Decl::Var(VarDecl {
        storage_qualifiers: Some(vec!["uniform".to_string()]),
        name: name.to_string(),
        ty,
        has_assignment: false,
    })
}

fn size(ty: &TypeDecl) -> Result<usize, String> {
    ty.size(&vec![]).map_err(describe)
}

fn describe(e: ShaderError) -> String {
    match e {
        ShaderError::Parse(errors) => format!("parse {}", errors.join("|")),
        ShaderError::NamespacedType => "namespaced".to_string(),
        ShaderError::MissingInnerType => "missing inner".to_string(),
        ShaderError::UnknownType(name) => format!("unknown {}", name),
        ShaderError::SizeOverflow => "overflow".to_string(),
        ShaderError::UnexpectedInitializer(name) => format!("initializer {}", name),
        ShaderError::MissingType(name) => format!("missing type {}", name),
    }
}

#[test]
fn scalars_have_their_sizes() {
    assert_eq!(size(&leaf("bool")), Ok(1));
    assert_eq!(size(&leaf("f16")), Ok(2));
    assert_eq!(size(&leaf("u32")), Ok(4));
    assert_eq!(size(&leaf("i32")), Ok(4));
    assert_eq!(size(&leaf("f32")), Ok(4));
}

#[test]
fn scalar_ignores_a_type_parameter() {
    assert_eq!(size(&of("u32", leaf("nonsense"))), Ok(4));
}

#[test]
fn vectors_are_as_large_as_their_elements_together() {
    assert_eq!(size(&of("vec2", leaf("f32"))), Ok(8));
    assert_eq!(size(&of("vec3", leaf("f32"))), Ok(12));
    assert_eq!(size(&of("vec4", leaf("f32"))), Ok(16));
    assert_eq!(size(&of("vec3", leaf("f16"))), Ok(6));
    assert_eq!(size(&of("vec4", leaf("bool"))), Ok(4));
    assert_eq!(size(&of("vec4", of("vec3", of("vec2", leaf("u32"))))), Ok(96));
}

#[test]
fn vector_without_element_type_has_no_size() {
    assert_eq!(size(&leaf("vec3")), Err("missing inner".to_string()));
    assert_eq!(size(&of("vec2", leaf("vec4"))), Err("missing inner".to_string()));
}

#[test]
fn namespaced_type_has_no_size() {
    let namespaced = TypeDecl { name: TypeName::Namespaced, child_ty: None };
    assert_eq!(size(&namespaced), Err("namespaced".to_string()));
    let inner = TypeDecl {
        name: TypeName::Leaf("vec2".to_string()),
        child_ty: Some(Box::new(TypeDecl { name: TypeName::Namespaced, child_ty: None })),
    };
    assert_eq!(size(&inner), Err("namespaced".to_string()));
}

#[test]
fn unknown_type_has_no_size() {
    assert_eq!(size(&leaf("mat4x4")), Err("unknown mat4x4".to_string()));
    assert_eq!(size(&leaf("Light")), Err("unknown Light".to_string()));
    assert_eq!(size(&of("vec3", leaf("Light"))), Err("unknown Light".to_string()));
    assert_eq!(size(&leaf("")), Err("unknown ".to_string()));
}

#[test]
fn known_struct_has_the_size_it_is_listed_with() {
    let structs = vec![
        ("Light".to_string(), 48),
        ("Camera".to_string(), 128),
        ("Light".to_string(), 7),
    ];
    assert_eq!(leaf("Light").size(&structs).ok(), Some(48));
    assert_eq!(leaf("Camera").size(&structs).ok(), Some(128));
    assert_eq!(of("vec2", leaf("Camera")).size(&structs).ok(), Some(256));
    assert_eq!(leaf("Other").size(&structs).map_err(describe), Err("unknown Other".to_string()));
    assert_eq!(leaf("u32").size(&vec![("u32".to_string(), 99)]).ok(), Some(4));
}

#[test]
fn size_beyond_the_largest_number_is_reported() {
    let structs = vec![("Huge".to_string(), usize::MAX / 2)];
    assert_eq!(of("vec2", leaf("Huge")).size(&structs).ok(), Some(usize::MAX - 1));
    assert_eq!(
        of("vec3", leaf("Huge")).size(&structs).map_err(describe),
        Err("overflow".to_string())
    );
    assert_eq!(
        of("vec2", of("vec2", leaf("Huge"))).size(&structs).map_err(describe),
        Err("overflow".to_string())
    );
}

#[test]
fn uniforms_are_collected_in_the_order_of_their_declaration() {
    let decls = vec![
        Decl::Struct,
        uniform("projection", Some(of("vec4", of("vec4", leaf("f32"))))),
        Decl::Other,
        Decl::Var(VarDecl {
            storage_qualifiers: Some(vec!["private".to_string()]),
            name: "counter".to_string(),
            ty: Some(leaf("u32")),
            has_assignment: true,
        }),
        Decl::Var(VarDecl {
            storage_qualifiers: None,
            name: "plain".to_string(),
            ty: None,
            has_assignment: false,
        }),
        Decl::Var(VarDecl {
            storage_qualifiers: Some(vec!["storage".to_string(), "uniform".to_string()]),
            name: "time".to_string(),
            ty: Some(leaf("f32")),
            has_assignment: false,
        }),
        uniform("flags", Some(of("vec3", leaf("bool")))),
    ];
    assert_eq!(
        collect_uniforms(&decls).map_err(describe),
        Ok(vec![
            ("projection".to_string(), 64),
            ("time".to_string(), 4),
            ("flags".to_string(), 3),
        ])
    );
    assert_eq!(collect_uniforms(&vec![]).map_err(describe), Ok(vec![]));
}

#[test]
fn uniform_with_a_value_is_reported() {
    let decls = vec![
        uniform("first", Some(leaf("f32"))),
        Decl::Var(VarDecl {
            storage_qualifiers: Some(vec!["uniform".to_string()]),
            name: "second".to_string(),
            ty: Some(leaf("f32")),
            has_assignment: true,
        }),
        uniform("third", None),
    ];
    assert_eq!(
        collect_uniforms(&decls).map_err(describe),
        Err("initializer second".to_string())
    );
}

#[test]
fn uniform_without_a_type_is_reported() {
    let decls = vec![uniform("first", Some(leaf("f32"))), uniform("second", None)];
    assert_eq!(
        collect_uniforms(&decls).map_err(describe),
        Err("missing type second".to_string())
    );
}

#[test]
fn uniform_of_a_type_without_size_is_reported() {
    let decls = vec![
        uniform("light", Some(leaf("Light"))),
        uniform("second", None),
    ];
    assert_eq!(collect_uniforms(&decls).map_err(describe), Err("unknown Light".to_string()));
    let decls = vec![uniform("v", Some(leaf("vec4")))];
    assert_eq!(collect_uniforms(&decls).map_err(describe), Err("missing inner".to_string()));
}

#[test]
fn module_holds_the_source_and_the_uniforms() {
    let module = ShaderModule::new(
        "var<uniform> t: f32;".to_string(),
        vec![("t".to_string(), 4)],
    );
    assert_eq!(module.source(), "var<uniform> t: f32;");
    assert_eq!(*module.uniforms(), vec![("t".to_string(), 4)]);
}

#[test]
fn shader_is_loaded_from_what_the_parser_found() {
    let decls = vec![uniform("t", Some(leaf("f32"))), Decl::Other];
    match load_shader("var<uniform> t: f32; fn f() {}".to_string(), vec![], &decls) {
        Ok(module) => {
            assert_eq!(module.source(), "var<uniform> t: f32; fn f() {}");
            assert_eq!(*module.uniforms(), vec![("t".to_string(), 4)]);
        }
        Err(e) => panic!("{}", describe(e)),
    }
}

#[test]
fn errors_of_the_parser_come_first() {
    let decls = vec![uniform("t", None)];
    let errors = vec!["unexpected token".to_string(), "missing brace".to_string()];
    assert_eq!(
        load_shader("source".to_string(), errors, &decls).map(|_| ()).map_err(describe),
        Err("parse unexpected token|missing brace".to_string())
    );
    assert_eq!(
        load_shader("source".to_string(), vec![], &decls).map(|_| ()).map_err(describe),
        Err("missing type t".to_string())
    );
}
