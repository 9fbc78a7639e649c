//! A shader program's lifecycle and the typed upload of its uniforms.
//!
//! The native graphics context is reached only through plain values: calls
//! that need no answer are queued on a `State` in order of issue, and a
//! program build asks for each compile or link in turn and takes the
//! context's report back.
pub mod error;
pub mod linker;
pub mod program;
pub mod source;
pub mod state;
pub mod values;

pub use error::RendererError;
pub use linker::{BuildAction, BuildPhase, LinkReport, ProgramBuild, StageKind, StageReport};
pub use program::{GpuProgram, UniformLocation, UniformValue};
pub use source::prepare_source_code;
pub use state::{GlCall, State};
pub use values::{Color, Mat3, Mat4, Vec2, Vec3, Vec4};
