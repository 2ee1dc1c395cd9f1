//! The shaders that make up a shader program, checked before any of them
//! is handed to the device.

use vstd::prelude::*;

verus! {

/// The kinds of shader that a program is made of.
#[derive(Copy, Clone, Debug, PartialEq, Eq, Structural)]
pub enum ShaderType {
    Fragment,
    Vertex,
}

/// What is needed to create one shader: its kind and the file with its
/// source, named within the folder of the shaders.
#[derive(Debug)]
pub struct ShaderInitInfo {
    pub shader_type: ShaderType,
    pub shader_location: String,
}

/// Why a list of shaders makes no program.
#[derive(Copy, Clone, Debug, PartialEq, Eq, Structural)]
pub enum ShaderError {
    NoVertexShader,
    /// More than one vertex shader: as many as given.
    TooManyVertexShaders(usize),
    NoFragmentShader,
    /// More than one fragment shader: as many as given.
    TooManyFragmentShaders(usize),
}

/// Number of shaders of a kind among the first `k`.
pub open spec fn count_shaders(shaders: Seq<ShaderInitInfo>, k: int, shader_type: ShaderType) -> nat
    decreases k,
{
    if k <= 0 {
        0
    } else {
        count_shaders(shaders, k - 1, shader_type) + if shaders[k - 1].shader_type == shader_type {
            1nat
        } else {
            0nat
        }
    }
}

/// Why the shaders make no program, if they make none: a program has
/// exactly one vertex shader and exactly one fragment shader. What is
/// wrong with the vertex shaders is said first.
pub open spec fn shader_error(shaders: Seq<ShaderInitInfo>) -> Option<ShaderError> {
    let vertex = count_shaders(shaders, shaders.len() as int, ShaderType::Vertex);
    let fragment = count_shaders(shaders, shaders.len() as int, ShaderType::Fragment);
    if vertex == 0 {
        Some(ShaderError::NoVertexShader)
    } else if vertex > 1 {
        Some(ShaderError::TooManyVertexShaders(vertex as usize))
    } else if fragment == 0 {
        Some(ShaderError::NoFragmentShader)
    } else if fragment > 1 {
        Some(ShaderError::TooManyFragmentShaders(fragment as usize))
    } else {
        None
    }
}

/// The shaders of a program: exactly one vertex shader and exactly one
/// fragment shader, in the order in which they are attached.
pub struct ShaderProgram {
    shaders: Vec<ShaderInitInfo>,
}

impl View for ShaderProgram {
    type V = Seq<ShaderInitInfo>;

    closed spec fn view(&self) -> Seq<ShaderInitInfo> {
        self.shaders@
    }
}

impl ShaderProgram {
    /// A program has one vertex shader and one fragment shader.
    pub open spec fn wf(&self) -> bool {
        shader_error(self@) is None
    }

    /// The program of the given shaders, unless they make none.
    pub fn new(shaders: Vec<ShaderInitInfo>) -> (program: Result<ShaderProgram, ShaderError>)
        ensures
            match shader_error(shaders@) {
                Some(error) => program == Err::<ShaderProgram, ShaderError>(error),
                None => program is Ok && program->Ok_0@ == shaders@ && program->Ok_0.wf(),
            },
    {
        match ShaderProgram::check_validate_shader_info(&shaders) {
            Ok(()) => Ok(ShaderProgram { shaders }),
            Err(error) => Err(error),
        }
    }

    /// The shaders of the program.
    pub fn shaders(&self) -> (shaders: &Vec<ShaderInitInfo>)
        ensures
            shaders@ == self@,
    {
        &self.shaders
    }

    /// Number of shaders of a kind in a list.
    fn count(shaders: &Vec<ShaderInitInfo>, shader_type: ShaderType) -> (number: usize)
        ensures
            number == count_shaders(shaders@, shaders@.len() as int, shader_type),
    {
        let mut number: usize = 0;
        let mut i: usize = 0;
        while i < shaders.len()
            invariant
                i <= shaders@.len(),
                number == count_shaders(shaders@, i as int, shader_type),
                number <= i,
            decreases shaders@.len() - i,
        {
            if shaders[i].shader_type == shader_type {
                number = number + 1;
            }
            i = i + 1;
        }
        number
    }

    /// Whether the shaders given make a program.
    pub fn check_validate_shader_info(shaders: &Vec<ShaderInitInfo>) -> (checked: Result<
        (),
        ShaderError,
    >)
        ensures
            match shader_error(shaders@) {
                Some(error) => checked == Err::<(), ShaderError>(error),
                None => checked is Ok,
            },
    {
        let number_vertex_shaders: usize = ShaderProgram::count(shaders, ShaderType::Vertex);
        if number_vertex_shaders == 0 {
            return Err(ShaderError::NoVertexShader);
        } else if number_vertex_shaders > 1 {
            return Err(ShaderError::TooManyVertexShaders(number_vertex_shaders));
        }
        let number_frag_shaders: usize = ShaderProgram::count(shaders, ShaderType::Fragment);
        if number_frag_shaders == 0 {
            return Err(ShaderError::NoFragmentShader);
        } else if number_frag_shaders > 1 {
            return Err(ShaderError::TooManyFragmentShaders(number_frag_shaders));
        }
        Ok(())
    }
}

} // verus!
