use vstd::prelude::*;
use vstd::string::{StringExecFns, StringSliceAdditionalSpecFns};
use vstd::utf8::encode_utf8;

use crate::error::RendererError;
use crate::program::GpuProgram;
use crate::source::{prepare_source_code, with_shared};
use crate::state::{GlCall, State};

verus! {

/// Appended to a program's name to name its vertex stage.
pub const VERTEX_SUFFIX: &'static str = "_VertexShader";

/// Appended to a program's name to name its fragment stage.
pub const FRAGMENT_SUFFIX: &'static str = "_FragmentShader";

/// The two stages of a program.
#[derive(Clone, Copy, Debug, PartialEq, Eq, Structural)]
pub enum StageKind {
    Vertex,
    Fragment,
}

/// What the context reported after compiling one stage: the stage object,
/// whether it compiled, and the compiler's diagnostic text.
pub struct StageReport {
    pub shader: u32,
    pub compiled: bool,
    pub log: String,
}

/// What the context reported after linking: the program object, whether it
/// linked, and the linker's diagnostic text.
pub struct LinkReport {
    pub program: u32,
    pub linked: bool,
    pub log: String,
}

/// The next thing a program build asks of the context.
pub enum BuildAction {
    /// Create a stage object of `kind`, hand it `source` (zero-terminated),
    /// compile it, and answer with a `StageReport`.
    Compile { stage_name: String, kind: StageKind, source: Vec<u8> },
    /// Create a program object, attach `vertex` and `fragment`, delete both
    /// stage objects (the program keeps them alive), link, and answer with a
    /// `LinkReport`.
    Link { vertex: u32, fragment: u32 },
    /// The build is over; objects it leaves behind were queued for deletion.
    Done(Result<GpuProgram, RendererError>),
}

/// Where a build stands.
#[derive(Clone, Copy, Debug, PartialEq, Eq, Structural)]
pub enum BuildPhase {
    /// Waiting for the vertex stage's report.
    Vertex,
    /// Waiting for the fragment stage's report; `vertex` compiled.
    Fragment { vertex: u32 },
    /// Waiting for the link report.
    Linking,
    /// Finished, with a program or an error.
    Over,
}

/// A program being built from its two stage sources.
pub struct ProgramBuild {
    name: String,
    fragment_source: String,
    library: String,
    phase: BuildPhase,
}

/// The vertex stage's name for program `name`.
pub open spec fn vertex_stage_name(name: Seq<char>) -> Seq<char> {
    name + VERTEX_SUFFIX@
}

/// The fragment stage's name for program `name`.
pub open spec fn fragment_stage_name(name: Seq<char>) -> Seq<char> {
    name + FRAGMENT_SUFFIX@
}

/// `name` followed by `suffix`, as a new string.
fn joined(name: &str, suffix: &str) -> (r: String)
    ensures
        r@ == name@ + suffix@,
{
    let mut r = name.to_owned();
    r.append(suffix);
    r
}

/// Whether `a` asks to compile `source` as stage `kind` named `stage_name`.
pub open spec fn asks_compile(a: BuildAction, stage_name: Seq<char>, kind: StageKind, source: Seq<u8>) -> bool {
    match a {
        BuildAction::Compile { stage_name: n, kind: k, source: s } => n@ == stage_name && k == kind
            && s@ == source,
        _ => false,
    }
}

/// Whether `a` ends the build with an `EncodingError`.
pub open spec fn ends_in_encoding_error(a: BuildAction) -> bool {
    match a {
        BuildAction::Done(Err(e)) => e is EncodingError,
        _ => false,
    }
}

/// Whether `a` ends the build with `ShaderCompilationFailed` for stage
/// `stage_name` carrying the diagnostic text `log`.
pub open spec fn fails_compiling(a: BuildAction, stage_name: Seq<char>, log: Seq<char>) -> bool {
    match a {
        BuildAction::Done(Err(RendererError::ShaderCompilationFailed { shader_name, error_message })) =>
            shader_name@ == stage_name && error_message@ == log,
        _ => false,
    }
}

/// Whether `a` ends the build with `ShaderLinkingFailed` for program `name`
/// carrying the diagnostic text `log`.
pub open spec fn fails_linking(a: BuildAction, name: Seq<char>, log: Seq<char>) -> bool {
    match a {
        BuildAction::Done(Err(RendererError::ShaderLinkingFailed { shader_name, error_message })) =>
            shader_name@ == name && error_message@ == log,
        _ => false,
    }
}

/// Whether `a` ends the build with a program wrapping the native handle
/// `program` and an empty lookup buffer.
pub open spec fn yields_program(a: BuildAction, program: u32) -> bool {
    match a {
        BuildAction::Done(Ok(p)) => p.spec_id() == program && p.spec_name_buf().len() == 0,
        _ => false,
    }
}

/// Two builds that each end in a program own the handles their own links
/// reported: where the context hands out two handles, the programs are two,
/// each deleted by its own `destroy`.
pub proof fn lemma_builds_independent(a: BuildAction, b: BuildAction, first: u32, second: u32)
    requires
        yields_program(a, first),
        yields_program(b, second),
        first != second,
    ensures
        a->Done_0->Ok_0.spec_id() != b->Done_0->Ok_0.spec_id(),
{
}

impl ProgramBuild {
    /// The program's name.
    pub closed spec fn spec_name(&self) -> Seq<char> {
        self.name@
    }

    pub closed spec fn spec_fragment_source(&self) -> Seq<u8> {
        encode_utf8(self.fragment_source@)
    }

    pub closed spec fn spec_library(&self) -> Seq<u8> {
        encode_utf8(self.library@)
    }

    pub closed spec fn spec_phase(&self) -> BuildPhase {
        self.phase
    }

    /// Whether the build waits for a stage's report.
    pub open spec fn awaits_stage(&self) -> bool {
        self.spec_phase() is Vertex || self.spec_phase() is Fragment
    }

    /// Whether the build waits for the link report.
    pub open spec fn awaits_link(&self) -> bool {
        self.spec_phase() is Linking
    }

    /// Takes the report on the stage that was asked for last. A stage that
    /// did not compile ends the build with `ShaderCompilationFailed`, its
    /// name and the compiler's text, and queues the deletion of the stage
    /// objects made so far. After the vertex stage the fragment stage is
    /// asked for (or, where its source cannot be prepared, the build ends
    /// with `EncodingError` and the vertex stage is queued for deletion);
    /// after the fragment stage, the link.
    pub fn stage_compiled(&mut self, state: &mut State, report: StageReport) -> (r: BuildAction)
        requires
            old(self).awaits_stage(),
        ensures
            final(self).spec_name() == old(self).spec_name(),
            final(self).spec_fragment_source() == old(self).spec_fragment_source(),
            final(self).spec_library() == old(self).spec_library(),
            final(state).spec_program() == old(state).spec_program(),
            final(state).spec_units() == old(state).spec_units(),
            old(self).spec_phase() is Vertex && !report.compiled ==> {
                &&& final(self).spec_phase() is Over
                &&& final(state).spec_calls() == old(state).spec_calls().push(GlCall::DeleteShader(report.shader))
                &&& fails_compiling(r, vertex_stage_name(old(self).spec_name()), report.log@)
            },
            old(self).spec_phase() is Vertex && report.compiled ==> {
                let prepared = with_shared(old(self).spec_fragment_source(), old(self).spec_library());
                if prepared.contains(0u8) {
                    &&& final(self).spec_phase() is Over
                    &&& final(state).spec_calls() == old(state).spec_calls().push(GlCall::DeleteShader(report.shader))
                    &&& ends_in_encoding_error(r)
                } else {
                    &&& final(self).spec_phase() == BuildPhase::Fragment { vertex: report.shader }
                    &&& final(state).spec_calls() == old(state).spec_calls()
                    &&& asks_compile(r, fragment_stage_name(old(self).spec_name()), StageKind::Fragment, prepared.push(0u8))
                }
            },
            old(self).spec_phase() is Fragment && !report.compiled ==> {
                &&& final(self).spec_phase() is Over
                &&& final(state).spec_calls() == old(state).spec_calls().push(GlCall::DeleteShader(report.shader)).push(
                    GlCall::DeleteShader(old(self).spec_phase()->vertex))
                &&& fails_compiling(r, fragment_stage_name(old(self).spec_name()), report.log@)
            },
            old(self).spec_phase() is Fragment && report.compiled ==> {
                &&& final(self).spec_phase() is Linking
                &&& final(state).spec_calls() == old(state).spec_calls()
                &&& r == BuildAction::Link { vertex: old(self).spec_phase()->vertex, fragment: report.shader }
            },
    {
        match self.phase {
            BuildPhase::Vertex => {
                if !report.compiled {
                    state.issue(GlCall::DeleteShader(report.shader));
                    self.phase = BuildPhase::Over;
                    let shader_name = joined(self.name.as_str(), VERTEX_SUFFIX);
                    BuildAction::Done(Err(RendererError::ShaderCompilationFailed { shader_name, error_message: report.log }))
                } else {
                    match prepare_source_code(self.fragment_source.as_str(), self.library.as_str()) {
                        Ok(source) => {
                            self.phase = BuildPhase::Fragment { vertex: report.shader };
                            let stage_name = joined(self.name.as_str(), FRAGMENT_SUFFIX);
                            BuildAction::Compile { stage_name, kind: StageKind::Fragment, source }
                        },
                        Err(e) => {
                            state.issue(GlCall::DeleteShader(report.shader));
                            self.phase = BuildPhase::Over;
                            BuildAction::Done(Err(e))
                        },
                    }
                }
            },
            BuildPhase::Fragment { vertex } => {
                if !report.compiled {
                    state.issue(GlCall::DeleteShader(report.shader));
                    state.issue(GlCall::DeleteShader(vertex));
                    self.phase = BuildPhase::Over;
                    let shader_name = joined(self.name.as_str(), FRAGMENT_SUFFIX);
                    BuildAction::Done(Err(RendererError::ShaderCompilationFailed { shader_name, error_message: report.log }))
                } else {
                    self.phase = BuildPhase::Linking;
                    BuildAction::Link { vertex, fragment: report.shader }
                }
            },
            BuildPhase::Linking | BuildPhase::Over => {
                // excluded by the precondition
                proof {
                    assert(false);
                }
                BuildAction::Done(Err(RendererError::EncodingError))
            },
        }
    }

    /// Takes the link report. A program that did not link is queued for
    /// deletion and the build ends with `ShaderLinkingFailed`, the program's
    /// name and the linker's text; one that linked ends the build as a
    /// `GpuProgram` that owns it.
    pub fn program_linked(&mut self, state: &mut State, report: LinkReport) -> (r: BuildAction)
        requires
            old(self).awaits_link(),
        ensures
            final(self).spec_name() == old(self).spec_name(),
            final(self).spec_phase() is Over,
            final(state).spec_program() == old(state).spec_program(),
            final(state).spec_units() == old(state).spec_units(),
            !report.linked ==> {
                &&& final(state).spec_calls() == old(state).spec_calls().push(GlCall::DeleteProgram(report.program))
                &&& fails_linking(r, old(self).spec_name(), report.log@)
            },
            report.linked ==> {
                &&& final(state).spec_calls() == old(state).spec_calls()
                &&& yields_program(r, report.program)
            },
    {
        self.phase = BuildPhase::Over;
        if !report.linked {
            state.issue(GlCall::DeleteProgram(report.program));
            let shader_name = self.name.clone();
            BuildAction::Done(Err(RendererError::ShaderLinkingFailed { shader_name, error_message: report.log }))
        } else {
            BuildAction::Done(Ok(GpuProgram::linked(report.program)))
        }
    }

    /// Where the build stands.
    pub fn phase(&self) -> (r: BuildPhase)
        ensures
            r == self.spec_phase(),
    {
        self.phase
    }
}

impl GpuProgram {
    /// Starts building program `name` from its two stage sources, each of
    /// which gets the shared block of `library` (see `prepare_source_code`).
    /// The first request compiles the prepared vertex source; where that
    /// source cannot be prepared the build is over at once with
    /// `EncodingError`.
    pub fn from_source(name: &str, vertex_source: &str, fragment_source: &str, library: &str) -> (r: (
        ProgramBuild,
        BuildAction,
    ))
        ensures
            r.0.spec_name() == name@,
            r.0.spec_fragment_source() == fragment_source.spec_bytes(),
            r.0.spec_library() == library.spec_bytes(),
            ({
                let prepared = with_shared(vertex_source.spec_bytes(), library.spec_bytes());
                if prepared.contains(0u8) {
                    r.0.spec_phase() is Over && ends_in_encoding_error(r.1)
                } else {
                    r.0.spec_phase() is Vertex && asks_compile(
                        r.1,
                        vertex_stage_name(name@),
                        StageKind::Vertex,
                        prepared.push(0u8),
                    )
                }
            }),
    {
        let build_name = name.to_owned();
        let fragment = fragment_source.to_owned();
        let shared = library.to_owned();
        match prepare_source_code(vertex_source, library) {
            Ok(source) => {
                let build = ProgramBuild {
                    name: build_name,
                    fragment_source: fragment,
                    library: shared,
                    phase: BuildPhase::Vertex,
                };
                let stage_name = joined(name, VERTEX_SUFFIX);
                (build, BuildAction::Compile { stage_name, kind: StageKind::Vertex, source })
            },
            Err(e) => {
                let build = ProgramBuild {
                    name: build_name,
                    fragment_source: fragment,
                    library: shared,
                    phase: BuildPhase::Over,
                };
                (build, BuildAction::Done(Err(e)))
            },
        }
    }
}

} // verus!
