use miniwin::diagnostics::DiagnosticsSink;
use miniwin::shader::{
    build_program, compile, link, CompileResponse, LinkResponse, PipelineResponses, ProgramObject,
    ShaderKind, ShaderObject,
};

fn ok_compile(handle: u32) -> CompileResponse {
    CompileResponse { handle, compiled: true, log: Vec::new() }
}

fn failed_compile(handle: u32, log: &[u8]) -> CompileResponse {
    CompileResponse { handle, compiled: false, log: log.to_vec() }
}

#[test]
fn compile_valid_source_returns_valid_handle() {
    let r = compile("void main() {}", ShaderKind::Vertex, ok_compile(7), 1000);
    assert_eq!(r, Ok(ShaderObject { handle: 7, kind: ShaderKind::Vertex }));
}

#[test]
fn compile_failure_returns_no_handle_and_the_log() {
    let log = b"0:1: syntax error";
    let r = compile("void main(", ShaderKind::Fragment, failed_compile(9, log), 1000);
    assert_eq!(r, Err(log.to_vec()));
}

#[test]
fn compile_failure_log_is_clipped_to_capacity() {
    let log = b"0:1: syntax error, unexpected end of file";
    let r = compile("void main(", ShaderKind::Fragment, failed_compile(9, log), 4);
    let d = r.unwrap_err();
    assert_eq!(d, log[..4].to_vec());
    assert!(d.len() <= 4);
}

#[test]
fn compile_failure_diagnostic_is_nonempty_for_nonempty_log() {
    let r = compile("void main(", ShaderKind::Vertex, failed_compile(3, b"bad"), 1000);
    assert!(!r.unwrap_err().is_empty());
}

#[test]
fn link_compatible_stages_succeeds() {
    let vertex = ShaderObject { handle: 4, kind: ShaderKind::Vertex };
    let fragment = ShaderObject { handle: 5, kind: ShaderKind::Fragment };
    let driver = LinkResponse { program: 11, linked: true, log: Vec::new() };
    let r = link(&vertex, &fragment, driver, 1000);
    assert_eq!(r, Ok(ProgramObject { handle: 11 }));
}

#[test]
fn link_two_fragments_fails_with_nonempty_diagnostic() {
    let a = ShaderObject { handle: 4, kind: ShaderKind::Fragment };
    let b = ShaderObject { handle: 5, kind: ShaderKind::Fragment };
    let driver = LinkResponse { program: 11, linked: true, log: Vec::new() };
    let r = link(&a, &b, driver, 1000);
    let d = r.unwrap_err();
    assert!(!d.is_empty());
    assert_eq!(d, b"bad shader stages".to_vec());
}

#[test]
fn link_invalid_stage_fails_with_nonempty_diagnostic() {
    let vertex = ShaderObject { handle: 0, kind: ShaderKind::Vertex };
    let fragment = ShaderObject { handle: 5, kind: ShaderKind::Fragment };
    let driver = LinkResponse { program: 11, linked: true, log: Vec::new() };
    let r = link(&vertex, &fragment, driver, 1000);
    assert!(!r.unwrap_err().is_empty());
}

#[test]
fn link_driver_failure_returns_clipped_log() {
    let vertex = ShaderObject { handle: 4, kind: ShaderKind::Vertex };
    let fragment = ShaderObject { handle: 5, kind: ShaderKind::Fragment };
    let driver = LinkResponse { program: 11, linked: false, log: b"link error: varyings".to_vec() };
    let r = link(&vertex, &fragment, driver, 10);
    assert_eq!(r, Err(b"link error".to_vec()));
}

#[test]
fn build_program_succeeds_when_everything_compiles_and_links() {
    let mut sink = DiagnosticsSink::new();
    let responses = PipelineResponses {
        vertex: ok_compile(4),
        fragment: ok_compile(5),
        link: LinkResponse { program: 11, linked: true, log: Vec::new() },
    };
    let program = build_program("v", "f", responses, 1000, &mut sink);
    assert_eq!(program, ProgramObject { handle: 11 });
    assert_eq!(sink.count(), 0);
}

#[test]
fn build_program_reports_each_failure_and_continues() {
    let mut sink = DiagnosticsSink::new();
    let responses = PipelineResponses {
        vertex: failed_compile(4, b"vertex: bad token"),
        fragment: ok_compile(5),
        link: LinkResponse { program: 11, linked: true, log: Vec::new() },
    };
    let program = build_program("v", "f", responses, 1000, &mut sink);
    assert_eq!(program, ProgramObject { handle: 0 });
    assert_eq!(sink.messages.len(), 2);
    assert_eq!(sink.messages[0], b"vertex: bad token".to_vec());
    assert_eq!(sink.messages[1], b"bad shader stages".to_vec());
}

#[test]
fn build_program_reports_link_log_when_link_fails() {
    let mut sink = DiagnosticsSink::new();
    let responses = PipelineResponses {
        vertex: ok_compile(4),
        fragment: ok_compile(5),
        link: LinkResponse { program: 11, linked: false, log: b"no main".to_vec() },
    };
    let program = build_program("v", "f", responses, 1000, &mut sink);
    assert_eq!(program, ProgramObject { handle: 0 });
    assert_eq!(sink.messages.len(), 1);
    assert_eq!(sink.messages[0], b"no main".to_vec());
}
