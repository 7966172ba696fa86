//! Shader programs: the checks that a build passes through, step by step,
//! and the decisions behind uniform writes.
//!
//! Building a program alternates driver calls and decisions. Each decision
//! is a method here that takes what the driver answered and either fails
//! with a `ShaderError` or hands out the value that the next step needs, so
//! a `Program` can only come out of a build in which every check passed.
use vstd::prelude::*;

verus! {

/// Why building a shader program failed.
#[derive(Clone, Copy, Debug, PartialEq, Eq, Structural)]
pub enum ShaderError {
    /// The driver gave no object for the vertex or the fragment shader.
    CreateShader,
    /// The vertex shader did not compile.
    CompileVertex,
    /// The fragment shader did not compile.
    CompileFragment,
    /// The driver gave no program object.
    CreateProgram,
    /// The two shaders did not link.
    LinkProgram,
}

/// The message reported for each error.
pub open spec fn error_text(e: ShaderError) -> Seq<char> {
    match e {
        ShaderError::CreateShader => "Failed to create shader object"@,
        ShaderError::CompileVertex => "Failed to compile vertex shader"@,
        ShaderError::CompileFragment => "Failed to compile fragment shader"@,
        ShaderError::CreateProgram => "Failed to create shader program"@,
        ShaderError::LinkProgram => "Failed to link shader program"@,
    }
}

impl ShaderError {
    /// A human readable description of the failure.
    pub fn message(&self) -> (r: &'static str)
        ensures
            r@ == error_text(*self),
    {
        match *self {
            ShaderError::CreateShader => "Failed to create shader object",
            ShaderError::CompileVertex => "Failed to compile vertex shader",
            ShaderError::CompileFragment => "Failed to compile fragment shader",
            ShaderError::CreateProgram => "Failed to create shader program",
            ShaderError::LinkProgram => "Failed to link shader program",
        }
    }
}

/// A vertex and a fragment shader object, both created by the driver.
pub struct ShaderObjects {
    vert: u32,
    frag: u32,
}

impl View for ShaderObjects {
    /// The vertex and the fragment shader's names.
    type V = (u32, u32);

    closed spec fn view(&self) -> (u32, u32) {
        (self.vert, self.frag)
    }
}

impl ShaderObjects {
    #[verifier::type_invariant]
    spec fn created(&self) -> bool {
        self.vert != 0 && self.frag != 0
    }

    /// Accept the names that the driver gave for the two shaders; zero
    /// means that it could not create one.
    pub fn check(vert: u32, frag: u32) -> (r: Result<ShaderObjects, ShaderError>)
        ensures
            r is Ok <==> vert != 0 && frag != 0,
            r is Ok ==> r->Ok_0@ == (vert, frag),
            r is Err ==> r->Err_0 == ShaderError::CreateShader,
    {
        if vert == 0 || frag == 0 {
            Err(ShaderError::CreateShader)
        } else {
            Ok(ShaderObjects { vert, frag })
        }
    }

    /// The vertex shader's name.
    pub fn vertex(&self) -> (r: u32)
        ensures
            r == self@.0,
            r != 0,
    {
        proof {
            use_type_invariant(self);
        }
        self.vert
    }

    /// The fragment shader's name.
    pub fn fragment(&self) -> (r: u32)
        ensures
            r == self@.1,
            r != 0,
    {
        proof {
            use_type_invariant(self);
        }
        self.frag
    }

    /// Accept the compile status that the driver reported for each shader;
    /// a status of zero or less is a failure, and the vertex shader is
    /// looked at first.
    pub fn check_compiled(self, vert_status: i32, frag_status: i32) -> (r: Result<
        CompiledShaders,
        ShaderError,
    >)
        ensures
            r is Ok <==> vert_status > 0 && frag_status > 0,
            r is Ok ==> r->Ok_0@ == self@,
            vert_status <= 0 ==> r == Err::<CompiledShaders, ShaderError>(
                ShaderError::CompileVertex,
            ),
            vert_status > 0 && frag_status <= 0 ==> r == Err::<CompiledShaders, ShaderError>(
                ShaderError::CompileFragment,
            ),
    {
        proof {
            use_type_invariant(&self);
        }
        if vert_status <= 0 {
            Err(ShaderError::CompileVertex)
        } else if frag_status <= 0 {
            Err(ShaderError::CompileFragment)
        } else {
            Ok(CompiledShaders { vert: self.vert, frag: self.frag })
        }
    }
}

/// Two shader objects that both compiled.
pub struct CompiledShaders {
    vert: u32,
    frag: u32,
}

impl View for CompiledShaders {
    /// The vertex and the fragment shader's names.
    type V = (u32, u32);

    closed spec fn view(&self) -> (u32, u32) {
        (self.vert, self.frag)
    }
}

impl CompiledShaders {
    #[verifier::type_invariant]
    spec fn created(&self) -> bool {
        self.vert != 0 && self.frag != 0
    }

    /// The vertex shader's name.
    pub fn vertex(&self) -> (r: u32)
        ensures
            r == self@.0,
            r != 0,
    {
        proof {
            use_type_invariant(self);
        }
        self.vert
    }

    /// The fragment shader's name.
    pub fn fragment(&self) -> (r: u32)
        ensures
            r == self@.1,
            r != 0,
    {
        proof {
            use_type_invariant(self);
        }
        self.frag
    }

    /// Accept the name that the driver gave for the program object; zero
    /// means that it could not create one.
    pub fn check_program(self, program: u32) -> (r: Result<UnlinkedProgram, ShaderError>)
        ensures
            r is Ok <==> program != 0,
            r is Ok ==> r->Ok_0@ == (program, self@.0, self@.1),
            r is Err ==> r->Err_0 == ShaderError::CreateProgram,
    {
        proof {
            use_type_invariant(&self);
        }
        if program == 0 {
            Err(ShaderError::CreateProgram)
        } else {
            Ok(UnlinkedProgram { program, vert: self.vert, frag: self.frag })
        }
    }
}

/// A program object with two compiled shaders to attach and link.
pub struct UnlinkedProgram {
    program: u32,
    vert: u32,
    frag: u32,
}

impl View for UnlinkedProgram {
    /// The program's, the vertex shader's and the fragment shader's names.
    type V = (u32, u32, u32);

    closed spec fn view(&self) -> (u32, u32, u32) {
        (self.program, self.vert, self.frag)
    }
}

impl UnlinkedProgram {
    #[verifier::type_invariant]
    spec fn created(&self) -> bool {
        self.program != 0 && self.vert != 0 && self.frag != 0
    }

    /// The program's name.
    pub fn program(&self) -> (r: u32)
        ensures
            r == self@.0,
            r != 0,
    {
        proof {
            use_type_invariant(self);
        }
        self.program
    }

    /// The vertex shader's name.
    pub fn vertex(&self) -> (r: u32)
        ensures
            r == self@.1,
            r != 0,
    {
        proof {
            use_type_invariant(self);
        }
        self.vert
    }

    /// The fragment shader's name.
    pub fn fragment(&self) -> (r: u32)
        ensures
            r == self@.2,
            r != 0,
    {
        proof {
            use_type_invariant(self);
        }
        self.frag
    }

    /// Accept the link status that the driver reported; a status of zero or
    /// less is a failure.
    pub fn check_linked(self, status: i32) -> (r: Result<Program, ShaderError>)
        ensures
            r is Ok <==> status > 0,
            r is Ok ==> r->Ok_0@ == self@.0,
            r is Err ==> r->Err_0 == ShaderError::LinkProgram,
    {
        proof {
            use_type_invariant(&self);
        }
        if status <= 0 {
            Err(ShaderError::LinkProgram)
        } else {
            Ok(Program { id: self.program })
        }
    }
}

/// Represents an OpenGL shader program that linked.
pub struct Program {
    id: u32,
}

impl View for Program {
    /// The program object's name.
    type V = u32;

    closed spec fn view(&self) -> u32 {
        self.id
    }
}

impl Program {
    #[verifier::type_invariant]
    spec fn created(&self) -> bool {
        self.id != 0
    }

    /// The program object's name, to bind it or look up its uniforms.
    pub fn id(&self) -> (r: u32)
        ensures
            r == self@,
            r != 0,
    {
        proof {
            use_type_invariant(self);
        }
        self.id
    }
}


/// The uniforms that the basic shader program declares.
#[derive(Clone, Copy, Debug, PartialEq, Eq, Structural)]
pub enum Uniform {
    /// `mat4 projection`
    Projection,
    /// `mat4 view`
    View,
    /// `mat4 model`
    Model,
    /// `vec4 ambient_light_color`
    AmbientLightColor,
    /// `float ambient_light_strength`
    AmbientLightStrength,
}

/// The name of each uniform in the shader source.
pub open spec fn uniform_name(u: Uniform) -> Seq<char> {
    match u {
        Uniform::Projection => "projection"@,
        Uniform::View => "view"@,
        Uniform::Model => "model"@,
        Uniform::AmbientLightColor => "ambient_light_color"@,
        Uniform::AmbientLightStrength => "ambient_light_strength"@,
    }
}

impl Uniform {
    /// The uniform's name in the shader source.
    pub fn name(&self) -> (r: &'static str)
        ensures
            r@ == uniform_name(*self),
    {
        match *self {
            Uniform::Projection => "projection",
            Uniform::View => "view",
            Uniform::Model => "model",
            Uniform::AmbientLightColor => "ambient_light_color",
            Uniform::AmbientLightStrength => "ambient_light_strength",
        }
    }

    /// The matrices that place a vertex on screen, each set to the identity
    /// when a program is made.
    pub fn matrices() -> (r: Vec<Uniform>)
        ensures
            r@ == seq![Uniform::Projection, Uniform::View, Uniform::Model],
    {
        let r: Vec<Uniform> = vec![Uniform::Projection, Uniform::View, Uniform::Model];
        assert(r@ == seq![Uniform::Projection, Uniform::View, Uniform::Model]);
        r
    }
}

/// Whether a uniform location that the driver gave names a uniform of the
/// program; a negative location means that there is none, and a write to
/// it is skipped.
pub fn uniform_found(location: i32) -> (r: bool)
    ensures
        r == (location >= 0),
{
    location >= 0
}

/// How a vector uniform write goes to the driver.
#[derive(Clone, Copy, Debug, PartialEq, Eq, Structural)]
pub enum VectorWrite {
    /// The program has no such uniform: nothing is written.
    Absent,
    /// Vectors of this many components are not written: nothing is.
    Unsupported,
    /// Write the first `n` values, `n` being 2, 3 or 4.
    Components(usize),
    /// The values are fewer than the components to write.
    TooFew,
}

/// The write of a vector of `num` components, from `available` values, to
/// the uniform at `location`.
pub open spec fn vector_write_of(location: i32, num: u32, available: usize) -> VectorWrite {
    if location < 0 {
        VectorWrite::Absent
    } else if num < 2 || num > 4 {
        VectorWrite::Unsupported
    } else if (available as int) < num {
        VectorWrite::TooFew
    } else {
        VectorWrite::Components(num as usize)
    }
}

/// Decide how a vector of `num` components, taken from `available` values,
/// is written to the uniform at `location`.
pub fn vector_write(location: i32, num: u32, available: usize) -> (r: VectorWrite)
    ensures
        r == vector_write_of(location, num, available),
{
    if !uniform_found(location) {
        VectorWrite::Absent
    } else if num < 2 || num > 4 {
        VectorWrite::Unsupported
    } else if available < num as usize {
        VectorWrite::TooFew
    } else {
        VectorWrite::Components(num as usize)
    }
}

/// GLSL source of the basic vertex shader: it places each vertex through
/// the projection, view and model matrices and hands its color and texture
/// coordinates on.
pub const BASIC_VERTEX_SOURCE: &'static str = r#"
    #version 140

    uniform mat4 projection;
    uniform mat4 view;
    uniform mat4 model;

    in vec3 position;
    in vec4 color;
    in vec2 texcoords;

    out vec4 frag_color;
    out vec2 frag_texcoords;

    void main() {
        gl_Position = projection * view * model * vec4(position, 1.0);

        frag_color = color;
        frag_texcoords = texcoords;
    }
"#;

/// GLSL source of the basic fragment shader: it colors each fragment from
/// the bound texture and the vertex color, scaled by the ambient light
/// where its strength is positive.
pub const BASIC_FRAGMENT_SOURCE: &'static str = r#"
    #version 140

    uniform sampler2D tex;

    uniform vec4 ambient_light_color;
    uniform float ambient_light_strength;

    in vec4 frag_color;
    in vec2 frag_texcoords;

    out vec4 out_color;

    void main() {
        vec4 obj_color = texture2D(tex, frag_texcoords) * frag_color;

        if(ambient_light_strength > 0) {
            out_color = ambient_light_strength * ambient_light_color * obj_color;
        }
        else {
            out_color = obj_color;
        }
    }
"#;

/// The source of the basic vertex shader, `BASIC_VERTEX_SOURCE`.
pub fn basic_vertex_source() -> (r: &'static str)
    ensures
        r@ == BASIC_VERTEX_SOURCE@,
{
    BASIC_VERTEX_SOURCE
}

/// The source of the basic fragment shader, `BASIC_FRAGMENT_SOURCE`.
pub fn basic_fragment_source() -> (r: &'static str)
    ensures
        r@ == BASIC_FRAGMENT_SOURCE@,
{
    BASIC_FRAGMENT_SOURCE
}

} // verus!
