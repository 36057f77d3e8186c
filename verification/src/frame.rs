//! The frame driver for continuous rendering: drain pending messages without
//! blocking, and while no quit message has been met, render one frame and
//! advance the frame clock by its fixed step.
//!
//! Rendering itself is the driver's work; what the library decides — and
//! proves — is the content of each render pass (which program and vertex
//! array are bound, which uniform is updated and to what, how many vertices
//! are drawn and how) and the driver's running/stopping state machine. Time
//! is counted in sixtieths of a second, the fixed per-frame step.

use crate::pump::{drain_pending, pump_rest, pump_stops};
use vstd::prelude::*;

verus! {

/// The frame clock advances by one tick — 1/60 second — per rendered frame.
pub const TICKS_PER_SECOND: u64 = 60;

/// The scalar time accumulator: a count of fixed 1/60-second steps,
/// monotonically incremented by one per rendered frame and reset only at
/// process start.
pub struct FrameClock {
    pub ticks: u64,
}

impl FrameClock {
    /// The clock at process start.
    pub fn new() -> (r: FrameClock)
        ensures
            r.ticks == 0,
    {
        FrameClock { ticks: 0 }
    }

    /// Advance by exactly one fixed step.
    pub fn advance(&mut self)
        requires
            old(self).ticks < u64::MAX,
        ensures
            final(self).ticks == old(self).ticks + 1,
    {
        self.ticks = self.ticks + 1;
    }

    /// The accumulated time, in sixtieths of a second.
    pub fn elapsed_sixtieths(&self) -> (r: u64)
        ensures
            r == self.ticks,
    {
        self.ticks
    }
}

/// The driver's top-level state. Stopping is terminal: it fires the instant
/// a quit message is observed during the drain, and no further frame is
/// rendered. There is no paused state — losing focus changes nothing.
#[derive(Clone, Copy, PartialEq, Eq, Structural, Debug)]
pub enum DriverState {
    Running,
    Stopping,
}

/// One vertex of the static full-screen quad, in normalized device
/// coordinates (every coordinate is -1, 0 or 1).
#[derive(Clone, Copy, PartialEq, Eq, Structural, Debug)]
pub struct Vertex {
    pub x: i8,
    pub y: i8,
    pub z: i8,
}

/// The quad's 4 vertices, in the order a triangle strip draws them as two
/// triangles sharing an edge.
pub fn quad_vertices() -> (r: Vec<Vertex>)
    ensures
        r@.len() == 4,
        r@[0] == (Vertex { x: -1i8, y: -1i8, z: 0i8 }),
        r@[1] == (Vertex { x: 1i8, y: -1i8, z: 0i8 }),
        r@[2] == (Vertex { x: -1i8, y: 1i8, z: 0i8 }),
        r@[3] == (Vertex { x: 1i8, y: 1i8, z: 0i8 }),
{
    let mut r: Vec<Vertex> = Vec::new();
    r.push(Vertex { x: -1i8, y: -1i8, z: 0i8 });
    r.push(Vertex { x: 1i8, y: -1i8, z: 0i8 });
    r.push(Vertex { x: -1i8, y: 1i8, z: 0i8 });
    r.push(Vertex { x: 1i8, y: 1i8, z: 0i8 });
    r
}

/// The binding contract between the vertex buffer and the vertex stage: the
/// position attribute sits at slot 0, three components per vertex, four
/// vertices in the buffer.
#[derive(Clone, Copy, PartialEq, Eq, Structural, Debug)]
pub struct VertexLayout {
    pub attribute_slot: u32,
    pub components_per_vertex: u32,
    pub vertex_count: u32,
}

/// The one layout the quad is ever bound with.
pub fn quad_layout() -> (r: VertexLayout)
    ensures
        r == (VertexLayout { attribute_slot: 0, components_per_vertex: 3, vertex_count: 4 }),
{
    VertexLayout { attribute_slot: 0, components_per_vertex: 3, vertex_count: 4 }
}

/// Everything one rendered frame asks of the driver, in order: clear the
/// back buffer, bind the program, update the time uniform, bind the vertex
/// array, draw the quad as a triangle strip, present the back buffer.
pub struct RenderPass {
    pub clears: bool,
    pub program: u32,
    pub uniform_name: String,
    pub uniform_ticks: u64,
    pub vertex_array: u32,
    pub first_vertex: u32,
    pub vertex_count: u32,
    pub triangle_strip: bool,
    pub swaps: bool,
}

/// What every frame's render pass must hold: the driver's own program and
/// vertex array, the "iTime" uniform set to the clock's current tick count,
/// and the quad drawn whole as a strip, then presented.
pub open spec fn is_frame_pass(p: RenderPass, program: u32, vertex_array: u32, ticks: u64) -> bool {
    &&& p.clears
    &&& p.program == program
    &&& p.uniform_name@ == "iTime"@
    &&& p.uniform_ticks == ticks
    &&& p.vertex_array == vertex_array
    &&& p.first_vertex == 0
    &&& p.vertex_count == 4
    &&& p.triangle_strip
    &&& p.swaps
}

/// The name of the fragment stage's time uniform.
fn uniform_time_name() -> (r: String)
    ensures
        r@ == "iTime"@,
{
    "iTime".to_owned()
}

/// The frame driver owns all the loop's state explicitly — no globals: the
/// handles it draws with, the frame clock, the frame count, and the
/// running/stopping state.
pub struct FrameDriver {
    pub program: u32,
    pub vertex_array: u32,
    pub clock: FrameClock,
    pub frames: u64,
    pub state: DriverState,
}

impl FrameDriver {
    /// The driver's invariant: the clock has advanced exactly once per
    /// rendered frame, so the accumulated time is the frame count times the
    /// fixed 1/60-second step.
    pub open spec fn wf(self) -> bool {
        self.clock.ticks == self.frames
    }

    /// A fresh driver, running, with nothing rendered yet.
    pub fn new(program: u32, vertex_array: u32) -> (r: FrameDriver)
        ensures
            r.wf(),
            r.program == program,
            r.vertex_array == vertex_array,
            r.frames == 0,
            r.clock.ticks == 0,
            r.state == DriverState::Running,
    {
        FrameDriver {
            program,
            vertex_array,
            clock: FrameClock::new(),
            frames: 0,
            state: DriverState::Running,
        }
    }

    /// One turn of the non-blocking loop: drain every pending message, and
    /// if no quit message was met, render one frame and advance the clock by
    /// its fixed step. A quit message stops the driver for good, with no
    /// final frame — all queued messages for a frame are dispatched before
    /// that frame's draw is issued.
    pub fn frame_step(&mut self, queue: &mut Vec<u32>) -> (r: Option<RenderPass>)
        requires
            old(self).wf(),
            old(self).state == DriverState::Running,
            old(self).frames < u64::MAX,
        ensures
            final(self).wf(),
            final(self).program == old(self).program,
            final(self).vertex_array == old(self).vertex_array,
            final(queue)@ == pump_rest(old(queue)@),
            pump_stops(old(queue)@) ==> final(self).state == DriverState::Stopping && r is None
                && final(self).frames == old(self).frames && final(self).clock.ticks == old(
                self,
            ).clock.ticks,
            !pump_stops(old(queue)@) ==> final(self).state == DriverState::Running && (
            r matches Some(p) && is_frame_pass(
                p,
                old(self).program,
                old(self).vertex_array,
                old(self).clock.ticks,
            )) && final(self).frames == old(self).frames + 1 && final(self).clock.ticks == old(
                self,
            ).clock.ticks + 1,
    {
        let run = drain_pending(queue);
        if !run.keep_running {
            self.state = DriverState::Stopping;
            return None;
        }
        let pass = RenderPass {
            clears: true,
            program: self.program,
            uniform_name: uniform_time_name(),
            uniform_ticks: self.clock.ticks,
            vertex_array: self.vertex_array,
            first_vertex: 0,
            vertex_count: 4,
            triangle_strip: true,
            swaps: true,
        };
        self.clock.advance();
        self.frames = self.frames + 1;
        Some(pass)
    }
}

/// Frame-clock law: in any well-formed driver — and every driver this module
/// builds or steps is one — the accumulated time equals the number of
/// rendered frames times the fixed step: `frames` ticks of 1/60 second each.
pub proof fn lemma_clock_tracks_frames(d: FrameDriver)
    requires
        d.wf(),
    ensures
        d.clock.ticks == d.frames,
{
}

} // verus!
