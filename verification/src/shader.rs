//! The shader compile/link protocol: one compiled stage per source text, two
//! stages linked into a drawable program, and bounded diagnostic logs.
//!
//! Compilation and linking themselves happen inside the graphics driver. The
//! driver's answers (status flag, log bytes, allocated object names) arrive
//! here as plain values, and these functions decide what the caller gets: a
//! valid object on success, or a diagnostic clipped to the caller's buffer
//! capacity on failure. Compilation is binary — pass or fail, no warning
//! state.

use crate::diagnostics::DiagnosticsSink;
use vstd::prelude::*;

verus! {

/// One unit of the pipeline, compiled independently before linking.
#[derive(Clone, Copy, PartialEq, Eq, Structural, Debug)]
pub enum ShaderKind {
    Vertex,
    Fragment,
}

/// One compiled stage. The zero handle is the null/invalid sentinel that a
/// failed compilation leaves behind.
#[derive(Clone, Copy, PartialEq, Eq, Structural, Debug)]
pub struct ShaderObject {
    pub handle: u32,
    pub kind: ShaderKind,
}

impl ShaderObject {
    /// A handle is drawable material only if it is not the null sentinel.
    pub open spec fn is_valid(self) -> bool {
        self.handle != 0
    }

    /// The null sentinel for a stage whose compilation failed.
    pub fn invalid(kind: ShaderKind) -> (r: ShaderObject)
        ensures
            r.kind == kind,
            !r.is_valid(),
    {
        ShaderObject { handle: 0, kind }
    }
}

/// A linked, drawable pipeline. Handle zero is the never-bindable sentinel.
#[derive(Clone, Copy, PartialEq, Eq, Structural, Debug)]
pub struct ProgramObject {
    pub handle: u32,
}

impl ProgramObject {
    pub open spec fn is_valid(self) -> bool {
        self.handle != 0
    }
}

/// What the driver reported for one compilation request: the object name it
/// allocated, the boolean compile-status flag, and its log bytes.
pub struct CompileResponse {
    pub handle: u32,
    pub compiled: bool,
    pub log: Vec<u8>,
}

/// What the driver reported for one link request.
pub struct LinkResponse {
    pub program: u32,
    pub linked: bool,
    pub log: Vec<u8>,
}

/// How many bytes of a log survive a buffer of the given capacity.
pub open spec fn clipped_len(len: int, capacity: int) -> int {
    if len <= capacity {
        len
    } else {
        capacity
    }
}

/// A log clipped to the caller's buffer capacity: truncation, not an error.
pub open spec fn clip_log(log: Seq<u8>, capacity: int) -> Seq<u8> {
    log.take(clipped_len(log.len() as int, capacity))
}

/// Copy a driver log into a caller-sized buffer, keeping exactly the first
/// `capacity` bytes when the log is longer.
pub fn clip_to_capacity(log: &Vec<u8>, capacity: usize) -> (r: Vec<u8>)
    ensures
        r@ == clip_log(log@, capacity as int),
        r@.len() <= capacity,
{
    let n: usize = if log.len() <= capacity {
        log.len()
    } else {
        capacity
    };
    let mut out: Vec<u8> = Vec::new();
    let mut i: usize = 0;
    while i < n
        invariant
            i <= n,
            n == clipped_len(log@.len() as int, capacity as int),
            out@ == log@.take(i as int),
        decreases n - i,
    {
        out.push(log[i]);
        proof {
            assert(log@.take(i + 1 as int) =~= log@.take(i as int).push(log@[i as int]));
        }
        i = i + 1;
    }
    out
}

/// A failed step's diagnostic is never silently empty: whenever the driver
/// produced any log text and the caller's buffer has any capacity at all,
/// the clipped diagnostic keeps at least one byte — and never more than the
/// capacity.
pub proof fn lemma_clipped_diagnostic_bounded(log: Seq<u8>, capacity: int)
    requires
        log.len() > 0,
        capacity > 0,
    ensures
        0 < clip_log(log, capacity).len() <= capacity,
{
}

/// Compile one stage from source text.
///
/// The source is handed to the driver as a single null-terminated buffer; the
/// driver's verdict on it comes back in `driver`. Success returns the valid
/// stage object and no diagnostic; failure returns no handle and the driver's
/// log, clipped to `log_capacity` bytes.
pub fn compile(
    source_text: &str,
    stage_kind: ShaderKind,
    driver: CompileResponse,
    log_capacity: usize,
) -> (r: Result<ShaderObject, Vec<u8>>)
    requires
        driver.handle != 0,
    ensures
        r is Ok <==> driver.compiled,
        driver.compiled ==> r == Ok::<ShaderObject, Vec<u8>>(
            ShaderObject { handle: driver.handle, kind: stage_kind },
        ),
        !driver.compiled ==> (r matches Err(d) && d@ == clip_log(
            driver.log@,
            log_capacity as int,
        ) && d@.len() <= log_capacity),
{
    let _ = source_text;
    if driver.compiled {
        Ok(ShaderObject { handle: driver.handle, kind: stage_kind })
    } else {
        Err(clip_to_capacity(&driver.log, log_capacity))
    }
}

/// The stage-compatibility precondition for linking: both handles valid, and
/// exactly one vertex plus one fragment stage.
pub open spec fn stages_compatible(vertex: ShaderObject, fragment: ShaderObject) -> bool {
    &&& vertex.is_valid()
    &&& fragment.is_valid()
    &&& vertex.kind == ShaderKind::Vertex
    &&& fragment.kind == ShaderKind::Fragment
}

/// The library's own diagnostic for a link request whose stages are invalid
/// or not one vertex plus one fragment: the bytes of "bad shader stages".
pub open spec fn stage_error_log() -> Seq<u8> {
    seq![
        98u8, 97u8, 100u8, 32u8, 115u8, 104u8, 97u8, 100u8, 101u8, 114u8, 32u8, 115u8, 116u8,
        97u8, 103u8, 101u8, 115u8,
    ]
}

/// Build the stage-error diagnostic as a byte buffer.
pub fn stage_error_message() -> (r: Vec<u8>)
    ensures
        r@ == stage_error_log(),
        r@.len() > 0,
{
    let mut r: Vec<u8> = Vec::new();
    r.push(98);
    r.push(97);
    r.push(100);
    r.push(32);
    r.push(115);
    r.push(104);
    r.push(97);
    r.push(100);
    r.push(101);
    r.push(114);
    r.push(32);
    r.push(115);
    r.push(116);
    r.push(97);
    r.push(103);
    r.push(101);
    r.push(115);
    proof {
        assert(r@ =~= stage_error_log());
    }
    r
}

/// Link two compiled stages into a program.
///
/// Linking succeeds exactly when both stage objects are valid, they are one
/// vertex plus one fragment, and the driver reports a successful link. A
/// stage set that is invalid or mismatched never reaches the driver: it fails
/// with the library's own non-empty diagnostic. A driver-side failure returns
/// the linker's log under the same clipping policy as compilation.
pub fn link(
    vertex: &ShaderObject,
    fragment: &ShaderObject,
    driver: LinkResponse,
    log_capacity: usize,
) -> (r: Result<ProgramObject, Vec<u8>>)
    requires
        driver.program != 0,
    ensures
        r is Ok <==> stages_compatible(*vertex, *fragment) && driver.linked,
        stages_compatible(*vertex, *fragment) && driver.linked ==> r == Ok::<
            ProgramObject,
            Vec<u8>,
        >(ProgramObject { handle: driver.program }),
        !stages_compatible(*vertex, *fragment) ==> (r matches Err(d) && d@ == stage_error_log()
            && d@.len() > 0),
        stages_compatible(*vertex, *fragment) && !driver.linked ==> (r matches Err(d) && d@
            == clip_log(driver.log@, log_capacity as int) && d@.len() <= log_capacity),
{
    let compatible = vertex.handle != 0 && fragment.handle != 0 && matches!(
        vertex.kind,
        ShaderKind::Vertex
    ) && matches!(fragment.kind, ShaderKind::Fragment);
    if !compatible {
        Err(stage_error_message())
    } else if driver.linked {
        Ok(ProgramObject { handle: driver.program })
    } else {
        Err(clip_to_capacity(&driver.log, log_capacity))
    }
}

/// The driver's answers for the whole compile-compile-link sequence.
pub struct PipelineResponses {
    pub vertex: CompileResponse,
    pub fragment: CompileResponse,
    pub link: LinkResponse,
}

/// The exact diagnostics the pipeline reports for the given driver answers,
/// in order: the vertex log if that stage failed, the fragment log if that
/// one did, then either the stage-error message (a failed stage leaves the
/// null sentinel behind, which linking rejects) or the link log if the
/// driver refused the link.
pub open spec fn pipeline_reports(resp: PipelineResponses, capacity: int) -> Seq<Seq<u8>> {
    (if resp.vertex.compiled {
        Seq::<Seq<u8>>::empty()
    } else {
        seq![clip_log(resp.vertex.log@, capacity)]
    }) + (if resp.fragment.compiled {
        Seq::<Seq<u8>>::empty()
    } else {
        seq![clip_log(resp.fragment.log@, capacity)]
    }) + (if !resp.vertex.compiled || !resp.fragment.compiled {
        seq![stage_error_log()]
    } else if !resp.link.linked {
        seq![clip_log(resp.link.log@, capacity)]
    } else {
        Seq::<Seq<u8>>::empty()
    })
}

/// Compile both stages and link them into the draw program, reporting every
/// failure and continuing with the null sentinel in the failed object's
/// place — the deliberate report-and-continue policy, which surfaces each
/// failed step rather than stopping at the first. The returned program is
/// valid exactly when both compilations and the link all succeeded; an
/// invalid program is never worth binding.
pub fn build_program(
    vertex_source: &str,
    fragment_source: &str,
    responses: PipelineResponses,
    log_capacity: usize,
    sink: &mut DiagnosticsSink,
) -> (r: ProgramObject)
    requires
        responses.vertex.handle != 0,
        responses.fragment.handle != 0,
        responses.link.program != 0,
    ensures
        r.is_valid() <==> responses.vertex.compiled && responses.fragment.compiled
            && responses.link.linked,
        responses.vertex.compiled && responses.fragment.compiled && responses.link.linked ==> r == (
        ProgramObject { handle: responses.link.program }),
        final(sink)@ =~= old(sink)@ + pipeline_reports(responses, log_capacity as int),
{
    let PipelineResponses { vertex, fragment, link: link_answer } = responses;
    let vertex_stage = match compile(vertex_source, ShaderKind::Vertex, vertex, log_capacity) {
        Ok(stage) => stage,
        Err(diagnostic) => {
            sink.report_fatal(diagnostic.as_slice());
            ShaderObject::invalid(ShaderKind::Vertex)
        },
    };
    let fragment_stage = match compile(
        fragment_source,
        ShaderKind::Fragment,
        fragment,
        log_capacity,
    ) {
        Ok(stage) => stage,
        Err(diagnostic) => {
            sink.report_fatal(diagnostic.as_slice());
            ShaderObject::invalid(ShaderKind::Fragment)
        },
    };
    match link(&vertex_stage, &fragment_stage, link_answer, log_capacity) {
        Ok(program) => program,
        Err(diagnostic) => {
            sink.report_fatal(diagnostic.as_slice());
            ProgramObject { handle: 0 }
        },
    }
}

/// Two fragment-kind stages are never stage-compatible, so linking them must
/// fail — and by `link`'s contract that failure carries the non-empty
/// stage-error diagnostic.
pub proof fn lemma_link_rejects_two_fragments(a: ShaderObject, b: ShaderObject)
    requires
        a.kind == ShaderKind::Fragment,
        b.kind == ShaderKind::Fragment,
    ensures
        !stages_compatible(a, b),
        stage_error_log().len() > 0,
{
}

} // verus!
