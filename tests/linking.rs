use gpu_program::{
    BuildAction, BuildPhase, GlCall, GpuProgram, LinkReport, RendererError, StageKind, StageReport,
    State,
};

fn report(shader: u32, compiled: bool, log: &str) -> StageReport {
    StageReport { shader, compiled, log: log.to_string() }
}

#[test]
fn build_asks_for_vertex_then_fragment_then_link() {
    let (mut build, first) = GpuProgram::from_source("sky", "#version 330\nv", "f", "L");
    match first {
        BuildAction::Compile { stage_name, kind, source } => {
            assert_eq!(stage_name, "sky_VertexShader");
            assert!(kind == StageKind::Vertex);
            assert!(source.starts_with(b"#version 330\n"));
            assert!(source.ends_with(b"v\0"));
        }
        _ => panic!("expected a compile request"),
    }
    let mut state = State::new();
    match build.stage_compiled(&mut state, report(11, true, "")) {
        BuildAction::Compile { stage_name, kind, source } => {
            assert_eq!(stage_name, "sky_FragmentShader");
            assert!(kind == StageKind::Fragment);
            assert!(source.ends_with(b"f\0"));
        }
        _ => panic!("expected a compile request"),
    }
    assert!(build.phase() == BuildPhase::Fragment { vertex: 11 });
    match build.stage_compiled(&mut state, report(12, true, "")) {
        BuildAction::Link { vertex, fragment } => assert_eq!((vertex, fragment), (11, 12)),
        _ => panic!("expected a link request"),
    }
    match build.program_linked(&mut state, LinkReport { program: 40, linked: true, log: String::new() }) {
        BuildAction::Done(Ok(p)) => assert_eq!(p.id(), 40),
        _ => panic!("expected a program"),
    }
    assert!(state.take_calls().is_empty());
    assert!(build.phase() == BuildPhase::Over);
}

#[test]
fn invalid_vertex_stage_fails_with_its_name_and_log() {
    let (mut build, _) = GpuProgram::from_source("sky", "not glsl", "f", "");
    let mut state = State::new();
    match build.stage_compiled(&mut state, report(11, false, "0:1: syntax error")) {
        BuildAction::Done(Err(RendererError::ShaderCompilationFailed { shader_name, error_message })) => {
            assert_eq!(shader_name, "sky_VertexShader");
            assert_eq!(error_message, "0:1: syntax error");
        }
        _ => panic!("expected a compilation failure"),
    }
    let calls = state.take_calls();
    assert_eq!(calls.len(), 1);
    assert!(matches!(calls[0], GlCall::DeleteShader(11)));
}

#[test]
fn invalid_fragment_stage_releases_both_stages() {
    let (mut build, _) = GpuProgram::from_source("sky", "v", "bad", "");
    let mut state = State::new();
    let _ = build.stage_compiled(&mut state, report(11, true, ""));
    match build.stage_compiled(&mut state, report(12, false, "error")) {
        BuildAction::Done(Err(RendererError::ShaderCompilationFailed { shader_name, .. })) => {
            assert_eq!(shader_name, "sky_FragmentShader");
        }
        _ => panic!("expected a compilation failure"),
    }
    let calls = state.take_calls();
    assert!(matches!(calls[0], GlCall::DeleteShader(12)));
    assert!(matches!(calls[1], GlCall::DeleteShader(11)));
}

#[test]
fn failed_link_deletes_the_program() {
    let (mut build, _) = GpuProgram::from_source("sky", "v", "f", "");
    let mut state = State::new();
    let _ = build.stage_compiled(&mut state, report(11, true, ""));
    let _ = build.stage_compiled(&mut state, report(12, true, ""));
    match build.program_linked(&mut state, LinkReport { program: 40, linked: false, log: "mismatch".to_string() }) {
        BuildAction::Done(Err(RendererError::ShaderLinkingFailed { shader_name, error_message })) => {
            assert_eq!(shader_name, "sky");
            assert_eq!(error_message, "mismatch");
        }
        _ => panic!("expected a link failure"),
    }
    let calls = state.take_calls();
    assert_eq!(calls.len(), 1);
    assert!(matches!(calls[0], GlCall::DeleteProgram(40)));
}

#[test]
fn encoding_error_before_any_compile() {
    let (build, first) = GpuProgram::from_source("sky", "v\0", "f", "");
    assert!(matches!(first, BuildAction::Done(Err(RendererError::EncodingError))));
    assert!(build.phase() == BuildPhase::Over);
}

#[test]
fn fragment_encoding_error_releases_vertex_stage() {
    let (mut build, _) = GpuProgram::from_source("sky", "v", "f\0", "");
    let mut state = State::new();
    let r = build.stage_compiled(&mut state, report(11, true, ""));
    assert!(matches!(r, BuildAction::Done(Err(RendererError::EncodingError))));
    let calls = state.take_calls();
    assert!(matches!(calls[0], GlCall::DeleteShader(11)));
}

fn link(handle: u32) -> GpuProgram {
    let (mut build, _) = GpuProgram::from_source("p", "v", "f", "");
    let mut state = State::new();
    let _ = build.stage_compiled(&mut state, report(1, true, ""));
    let _ = build.stage_compiled(&mut state, report(2, true, ""));
    match build.program_linked(&mut state, LinkReport { program: handle, linked: true, log: String::new() }) {
        BuildAction::Done(Ok(p)) => p,
        _ => panic!("expected a program"),
    }
}

#[test]
fn two_links_give_independent_programs() {
    let a = link(5);
    let b = link(6);
    assert_ne!(a.id(), b.id());
    let mut state = State::new();
    a.destroy(&mut state);
    b.destroy(&mut state);
    let calls = state.take_calls();
    assert!(matches!(calls[0], GlCall::DeleteProgram(5)));
    assert!(matches!(calls[1], GlCall::DeleteProgram(6)));
}
