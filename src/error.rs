use vstd::prelude::*;

verus! {

/// Failures surfaced by program building and uniform lookup.
#[derive(Debug)]
pub enum RendererError {
    /// A stage did not compile: the stage's name and the compiler's diagnostic text.
    ShaderCompilationFailed { shader_name: String, error_message: String },
    /// The program did not link: the program's name and the linker's diagnostic text.
    ShaderLinkingFailed { shader_name: String, error_message: String },
    /// The program has no active uniform of this name.
    UniformNotFound(String),
    /// Shader text holds a zero byte and cannot be handed over as a C string.
    EncodingError,
}

} // verus!
