//! Shader modules and the uniforms that they declare.
//!
//! The source of a shader is parsed elsewhere. What this module takes is the
//! outcome: the source, the errors that the parser met, and the top-level
//! declarations as far as the uniforms depend on them.
use crate::text::is_word;
use vstd::prelude::*;

verus! {

/// A shader whose source was parsed, with the uniforms that it declares: the
/// name and the size in bytes of each, in the order of their declaration.
pub struct ShaderModule {
    processed_source: String,
    uniforms: Vec<(String, usize)>,
}

impl ShaderModule {
    /// The source of the shader.
    pub closed spec fn source_text(&self) -> String {
        self.processed_source
    }

    /// The uniforms, in the order of their declaration.
    pub closed spec fn uniform_list(&self) -> Seq<(String, usize)> {
        self.uniforms@
    }

    /// Creates a shader module from its source and its uniforms.
    pub fn new(processed_source: String, uniforms: Vec<(String, usize)>) -> (module: ShaderModule)
        ensures
            module.source_text() == processed_source,
            module.uniform_list() == uniforms@,
    {
        ShaderModule { processed_source, uniforms }
    }

    /// The source of the shader.
    pub fn source(&self) -> (source: &String)
        ensures
            *source == self.source_text(),
    {
        &self.processed_source
    }

    /// The uniforms, in the order of their declaration.
    pub fn uniforms(&self) -> (uniforms: &Vec<(String, usize)>)
        ensures
            uniforms@ == self.uniform_list(),
    {
        &self.uniforms
    }
}

/// The name in a type declaration.
pub enum TypeName {
    /// A plain name, such as `u32`, `vec3` or the name of a struct.
    Leaf(String),
    /// A name inside a namespace.
    Namespaced,
}

/// A type as a shader declares it: a name and, for a type with a parameter,
/// the type between the angle brackets.
pub struct TypeDecl {
    pub name: TypeName,
    pub child_ty: Option<Box<TypeDecl>>,
}

/// The declaration of a variable at the top level of a shader.
pub struct VarDecl {
    /// The qualifiers between angle brackets behind `var`, if there are any.
    pub storage_qualifiers: Option<Vec<String>>,
    pub name: String,
    pub ty: Option<TypeDecl>,
    /// Whether the declaration gives the variable a value.
    pub has_assignment: bool,
}

/// A declaration at the top level of a shader.
pub enum Decl {
    Var(VarDecl),
    Struct,
    Other,
}

/// Why a shader gives no module.
pub enum ShaderError {
    /// The parser met errors; these are its words for them.
    Parse(Vec<String>),
    /// A uniform has a type inside a namespace, whose size is not known.
    NamespacedType,
    /// A uniform has a vector type without the type of its elements.
    MissingInnerType,
    /// A uniform has the named type, whose size is not known.
    UnknownType(String),
    /// The size of a uniform's type is beyond what a size can say.
    SizeOverflow,
    /// The named uniform is given a value, which a uniform cannot have.
    UnexpectedInitializer(String),
    /// The named uniform is declared without a type.
    MissingType(String),
}

/// The number of elements of the vector type of a name, if it names one.
pub open spec fn vector_length(name: Seq<char>) -> Option<int> {
    if name == "vec2"@ {
        Some(2)
    } else if name == "vec3"@ {
        Some(3)
    } else if name == "vec4"@ {
        Some(4)
    } else {
        None
    }
}

/// The size in bytes of the scalar type of a name, if it names one.
pub open spec fn scalar_size(name: Seq<char>) -> Option<int> {
    if name == "bool"@ {
        Some(1)
    } else if name == "f16"@ {
        Some(2)
    } else if name == "u32"@ || name == "i32"@ || name == "f32"@ {
        Some(4)
    } else {
        None
    }
}

/// The size that a list of known structs gives for a name: that of the first
/// struct of that name. The structs are kept as a list, not as a hash map:
/// their keys are strings, and `vstd` specifies hash maps for keys that are
/// integers.
pub open spec fn struct_size(structs: Seq<(String, usize)>, name: Seq<char>) -> Option<usize>
    decreases structs.len(),
{
    if structs.len() == 0 {
        None
    } else if structs[0].0@ == name {
        Some(structs[0].1)
    } else {
        struct_size(structs.skip(1), name)
    }
}

/// The size in bytes of a type: that of a scalar by its name, that of a vector
/// as many times the size of its element type as it has elements, and that of
/// any other name as the list of known structs gives it.
pub open spec fn size_of_type(ty: TypeDecl, structs: Seq<(String, usize)>) -> Result<
    int,
    ShaderError,
>
    decreases ty,
{
    match ty.name {
        TypeName::Namespaced => Err(ShaderError::NamespacedType),
        TypeName::Leaf(name) => match scalar_size(name@) {
            Some(size) => Ok(size),
            None => match vector_length(name@) {
                Some(length) => match ty.child_ty {
                    Some(child) => match size_of_type(*child, structs) {
                        Ok(size) => if size * length <= usize::MAX {
                            Ok(size * length)
                        } else {
                            Err(ShaderError::SizeOverflow)
                        },
                        Err(e) => Err(e),
                    },
                    None => Err(ShaderError::MissingInnerType),
                },
                None => match struct_size(structs, name@) {
                    Some(size) => Ok(size as int),
                    None => Err(ShaderError::UnknownType(name)),
                },
            },
        },
    }
}

/// Looks a name up in a list of known structs.
fn find_struct(structs: &Vec<(String, usize)>, name: &String) -> (r: Option<usize>)
    ensures
        r == struct_size(structs@, name@),
{
    let mut i: usize = 0;
    proof {
        assert(structs@.skip(0) =~= structs@);
    }
    while i < structs.len()
        invariant
            i <= structs@.len(),
            struct_size(structs@, name@) == struct_size(structs@.skip(i as int), name@),
        decreases structs@.len() - i,
    {
        proof {
            assert(structs@.skip(i as int)[0] == structs@[i as int]);
            assert(structs@.skip(i as int).skip(1) =~= structs@.skip(i + 1));
        }
        if structs[i].0 == *name {
            return Some(structs[i].1);
        }
        i += 1;
    }
    None
}

impl TypeDecl {
    /// The size in bytes of a value of this type, given the sizes of the
    /// structs that are known by name.
    pub fn size(&self, structs: &Vec<(String, usize)>) -> (r: Result<usize, ShaderError>)
        ensures
            match r {
                Ok(size) => size_of_type(*self, structs@) == Ok::<int, ShaderError>(size as int),
                Err(e) => size_of_type(*self, structs@) == Err::<int, ShaderError>(e),
            },
        decreases self,
    {
        match &self.name {
            TypeName::Namespaced => Err(ShaderError::NamespacedType),
            TypeName::Leaf(name) => {
                if is_word(name, "bool") {
                    return Ok(1);
                }
                if is_word(name, "f16") {
                    return Ok(2);
                }
                if is_word(name, "u32") || is_word(name, "i32") || is_word(name, "f32") {
                    return Ok(4);
                }
                let nelems: usize = if is_word(name, "vec2") {
                    2
                } else if is_word(name, "vec3") {
                    3
                } else if is_word(name, "vec4") {
                    4
                } else {
                    0
                };
                if nelems != 0 {
                    match &self.child_ty {
                        Some(child_ty) => match child_ty.size(structs) {
                            Ok(child_size) => match child_size.checked_mul(nelems) {
                                Some(size) => Ok(size),
                                None => Err(ShaderError::SizeOverflow),
                            },
                            Err(e) => Err(e),
                        },
                        None => Err(ShaderError::MissingInnerType),
                    }
                } else {
                    match find_struct(structs, name) {
                        Some(size) => Ok(size),
                        None => Err(ShaderError::UnknownType(name.clone())),
                    }
                }
            },
        }
    }
}

/// True if a list of qualifiers holds the word `uniform`.
pub open spec fn names_uniform(qualifiers: Option<Vec<String>>) -> bool {
    match qualifiers {
        Some(words) => holds_word(words@, "uniform"@),
        None => false,
    }
}

/// True if a list of words holds a given word.
pub open spec fn holds_word(words: Seq<String>, word: Seq<char>) -> bool {
    exists|i: int| 0 <= i < words.len() && (#[trigger] words[i])@ == word
}

/// What a declaration contributes to the uniforms of a shader: nothing if it
/// declares no uniform, else the uniform's name and size, or the reason why
/// the uniform cannot be taken.
pub open spec fn uniform_of(decl: Decl, structs: Seq<(String, usize)>) -> Option<
    Result<(String, usize), ShaderError>,
> {
    match decl {
        Decl::Var(var) => if names_uniform(var.storage_qualifiers) {
            if var.has_assignment {
                Some(Err(ShaderError::UnexpectedInitializer(var.name)))
            } else {
                match var.ty {
                    Some(ty) => match size_of_type(ty, structs) {
                        Ok(size) => Some(Ok((var.name, size as usize))),
                        Err(e) => Some(Err(e)),
                    },
                    None => Some(Err(ShaderError::MissingType(var.name))),
                }
            }
        } else {
            None
        },
        _ => None,
    }
}

/// The uniforms that the first `count` declarations of a shader declare, in
/// their order, or the reason why the first uniform that cannot be taken
/// cannot.
pub open spec fn uniforms_of(decls: Seq<Decl>, count: int) -> Result<
    Seq<(String, usize)>,
    ShaderError,
>
    decreases count,
{
    if count <= 0 {
        Ok(Seq::empty())
    } else {
        match uniforms_of(decls, count - 1) {
            Ok(found) => match uniform_of(decls[count - 1], Seq::empty()) {
                Some(Ok(uniform)) => Ok(found.push(uniform)),
                Some(Err(e)) => Err(e),
                None => Ok(found),
            },
            Err(e) => Err(e),
        }
    }
}

/// Once a declaration has stopped the collection with an error, the
/// declarations behind it change nothing.
pub proof fn first_error_stands(decls: Seq<Decl>, from: int, to: int)
    requires
        0 <= from <= to,
        uniforms_of(decls, from) is Err,
    ensures
        uniforms_of(decls, to) == uniforms_of(decls, from),
    decreases to - from,
{
    if to > from {
        first_error_stands(decls, from, to - 1);
    }
}

/// Tells whether a list of qualifiers holds the word `uniform`.
fn is_uniform(qualifiers: &Option<Vec<String>>) -> (r: bool)
    ensures
        r == names_uniform(*qualifiers),
{
    match qualifiers {
        Some(words) => {
            let mut i: usize = 0;
            while i < words.len()
                invariant
                    i <= words@.len(),
                    *qualifiers == Some(*words),
                    forall|j: int| 0 <= j < i ==> (#[trigger] words@[j])@ != "uniform"@,
                decreases words@.len() - i,
            {
                if is_word(&words[i], "uniform") {
                    proof {
                        assert(words@[i as int]@ == "uniform"@);
                    }
                    return true;
                }
                i += 1;
            }
            false
        },
        None => false,
    }
}

/// Collects the uniforms that the declarations of a shader declare. No struct
/// is known by name, so a uniform of a struct type cannot be taken.
pub fn collect_uniforms(decls: &Vec<Decl>) -> (r: Result<Vec<(String, usize)>, ShaderError>)
    ensures
        match r {
            Ok(uniforms) => uniforms_of(decls@, decls@.len() as int) == Ok::<
                Seq<(String, usize)>,
                ShaderError,
            >(uniforms@),
            Err(e) => uniforms_of(decls@, decls@.len() as int) == Err::<
                Seq<(String, usize)>,
                ShaderError,
            >(e),
        },
{
    let mut uniforms: Vec<(String, usize)> = Vec::new();
    let structs: Vec<(String, usize)> = Vec::new();
    let mut i: usize = 0;
    while i < decls.len()
        invariant
            i <= decls@.len(),
            structs@ == Seq::<(String, usize)>::empty(),
            uniforms_of(decls@, i as int) == Ok::<Seq<(String, usize)>, ShaderError>(uniforms@),
        decreases decls@.len() - i,
    {
        match &decls[i] {
            Decl::Var(var_decl) => {
                if is_uniform(&var_decl.storage_qualifiers) {
                    if var_decl.has_assignment {
                        proof {
                            first_error_stands(decls@, i + 1, decls@.len() as int);
                        }
                        return Err(ShaderError::UnexpectedInitializer(var_decl.name.clone()));
                    }
                    match &var_decl.ty {
                        Some(ty) => match ty.size(&structs) {
                            Ok(size) => {
                                uniforms.push((var_decl.name.clone(), size));
                            },
                            Err(e) => {
                                proof {
                                    first_error_stands(decls@, i + 1, decls@.len() as int);
                                }
                                return Err(e);
                            },
                        },
                        None => {
                            proof {
                                first_error_stands(decls@, i + 1, decls@.len() as int);
                            }
                            return Err(ShaderError::MissingType(var_decl.name.clone()));
                        },
                    }
                }
            },
            _ => {},
        }
        i += 1;
    }
    Ok(uniforms)
}

/// Makes the module of a shader from what its parser found: the source, the
/// errors it met and the top-level declarations. Errors of the parser come
/// first; with none, the uniforms are collected.
pub fn load_shader(source: String, errors: Vec<String>, decls: &Vec<Decl>) -> (r: Result<
    ShaderModule,
    ShaderError,
>)
    ensures
        match r {
            Ok(module) => errors@.len() == 0 && module.source_text() == source && uniforms_of(
                decls@,
                decls@.len() as int,
            ) == Ok::<Seq<(String, usize)>, ShaderError>(module.uniform_list()),
            Err(e) => if errors@.len() > 0 {
                e == ShaderError::Parse(errors)
            } else {
                uniforms_of(decls@, decls@.len() as int) == Err::<
                    Seq<(String, usize)>,
                    ShaderError,
                >(e)
            },
        },
{
    if errors.len() > 0 {
        return Err(ShaderError::Parse(errors));
    }
    match collect_uniforms(decls) {
        Ok(uniforms) => Ok(ShaderModule::new(source, uniforms)),
        Err(e) => Err(e),
    }
}

} // verus!
