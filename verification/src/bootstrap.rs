//! Graphics context bootstrap: create the native window, obtain its drawing
//! surface, negotiate a pixel format, create and activate a rendering
//! context, and resolve the driver's extended entry points.
//!
//! Each step is a hard precondition for the next, and every failing step
//! (format selection, format application, context creation, context
//! activation) reports exactly one diagnostic, abandons the later steps, and
//! leaves the null-handle sentinel behind — the caller must check for it
//! before entering the frame driver. The platform's own answers arrive as
//! plain values in `PlatformResponses`; the contract pins down what the
//! bootstrap does with every combination of them.

use crate::diagnostics::DiagnosticsSink;
use vstd::prelude::*;
use vstd::string::StringSliceAdditionalSpecFns;

verus! {

/// The surface capabilities requested from pixel-format negotiation.
#[derive(Clone, Copy, PartialEq, Eq, Structural, Debug)]
pub struct PixelFormatRequest {
    pub draw_to_window: bool,
    pub support_opengl: bool,
    pub double_buffer: bool,
    pub pixel_type_rgba: bool,
    pub color_bits: u8,
    pub alpha_bits: u8,
    pub depth_bits: u8,
}

/// The one descriptor the bootstrap ever builds: draw-to-window,
/// hardware-accelerated rendering support, double buffering, 32-bit RGBA
/// color with 8 alpha bits and a 32-bit depth buffer.
pub fn pixel_format_request() -> (r: PixelFormatRequest)
    ensures
        r == (PixelFormatRequest {
            draw_to_window: true,
            support_opengl: true,
            double_buffer: true,
            pixel_type_rgba: true,
            color_bits: 32u8,
            alpha_bits: 8u8,
            depth_bits: 32u8,
        }),
{
    PixelFormatRequest {
        draw_to_window: true,
        support_opengl: true,
        double_buffer: true,
        pixel_type_rgba: true,
        color_bits: 32u8,
        alpha_bits: 8u8,
        depth_bits: 32u8,
    }
}

/// What the bootstrap asks the platform to register and create the window
/// with: the class and title strings, an owned device context, redraw on
/// both resize directions, an overlapped (title bar, borders, resizable)
/// visible window, with size and position left to the platform's defaults.
pub struct WindowRequest {
    pub class_name: String,
    pub title: String,
    pub own_device_context: bool,
    pub redraw_on_resize: bool,
    pub overlapped: bool,
    pub visible: bool,
    pub default_bounds: bool,
}

/// The window request carries the caller's strings and every fixed style.
pub open spec fn requested_window(r: WindowRequest, title: Seq<char>, class_name: Seq<char>) -> bool {
    &&& r.title@ == title
    &&& r.class_name@ == class_name
    &&& r.own_device_context
    &&& r.redraw_on_resize
    &&& r.overlapped
    &&& r.visible
    &&& r.default_bounds
}

/// The platform's answer to each bootstrap step, as plain values.
#[derive(Clone, Copy, PartialEq, Eq, Structural, Debug)]
pub struct PlatformResponses {
    /// The handle window creation returned.
    pub window: u64,
    /// The drawing surface (device context) obtained for the window.
    pub surface: u64,
    /// The chosen pixel format id; zero means no supported format matched.
    pub format_id: i32,
    /// Whether applying the chosen format to the surface succeeded.
    pub format_applied: bool,
    /// The rendering context handle; zero means creation failed.
    pub context: u64,
    /// Whether making the context current on this thread succeeded.
    pub made_current: bool,
    /// Whether every required extended entry point resolved.
    pub required_fns_resolved: bool,
    /// Whether the optional swap-interval (vsync) extension resolved.
    pub swap_interval_resolved: bool,
}

/// How far the bootstrap got, what it asked for, and the handles it ends
/// with. A zero `window` is the sentinel for an abandoned bootstrap.
pub struct BootstrapOutcome {
    pub request: WindowRequest,
    pub format: PixelFormatRequest,
    pub window: u64,
    pub surface: u64,
    pub context: u64,
    pub context_current: bool,
    pub vsync_requested: bool,
    pub attempted_apply_format: bool,
    pub attempted_create_context: bool,
    pub attempted_make_current: bool,
    pub attempted_resolve_fns: bool,
}

impl BootstrapOutcome {
    /// The caller's check before entering the frame driver.
    pub open spec fn is_sentinel(self) -> bool {
        self.window == 0
    }
}

/// Create the window and attach a rendering context to it, step by step.
///
/// Steps: register the class and create the window (the request recorded in
/// the outcome), take the platform's surface, build the pixel format
/// request, then — each step only after every earlier one succeeded — apply
/// the chosen format, create the context, make it current, and resolve the
/// extended entry points. The first failing step reports exactly one
/// diagnostic and returns the sentinel outcome with a null window handle;
/// later steps are never attempted. A missing optional swap-interval
/// extension merely leaves vsync unrequested, while missing required entry
/// points are reported and execution continues degraded.
pub fn create_window_and_context(
    title: &str,
    class_name: &str,
    platform: PlatformResponses,
    sink: &mut DiagnosticsSink,
) -> (r: BootstrapOutcome)
    requires
        platform.window != 0,
    ensures
        requested_window(r.request, title@, class_name@),
        r.format == (PixelFormatRequest {
            draw_to_window: true,
            support_opengl: true,
            double_buffer: true,
            pixel_type_rgba: true,
            color_bits: 32u8,
            alpha_bits: 8u8,
            depth_bits: 32u8,
        }),
        r.surface == platform.surface,
        platform.format_id == 0 ==> r.is_sentinel() && r.context == 0 && !r.context_current
            && !r.vsync_requested && !r.attempted_apply_format && !r.attempted_create_context
            && !r.attempted_make_current && !r.attempted_resolve_fns && final(sink)@ =~= old(
            sink,
        )@.push("pixel format selection failed".spec_bytes()),
        platform.format_id != 0 && !platform.format_applied ==> r.is_sentinel() && r.context == 0
            && !r.context_current && !r.vsync_requested && r.attempted_apply_format
            && !r.attempted_create_context && !r.attempted_make_current && !r.attempted_resolve_fns
            && final(sink)@ =~= old(sink)@.push("pixel format application failed".spec_bytes()),
        platform.format_id != 0 && platform.format_applied && platform.context == 0 ==> (
        r.is_sentinel() && r.context == 0 && !r.context_current && !r.vsync_requested
            && r.attempted_apply_format && r.attempted_create_context && !r.attempted_make_current
            && !r.attempted_resolve_fns && final(sink)@ =~= old(sink)@.push(
            "context creation failed".spec_bytes(),
        )),
        platform.format_id != 0 && platform.format_applied && platform.context != 0
            && !platform.made_current ==> (r.is_sentinel() && r.context == 0 && !r.context_current
            && !r.vsync_requested && r.attempted_apply_format && r.attempted_create_context
            && r.attempted_make_current && !r.attempted_resolve_fns && final(sink)@ =~= old(
            sink,
        )@.push("context activation failed".spec_bytes())),
        platform.format_id != 0 && platform.format_applied && platform.context != 0
            && platform.made_current ==> (r.window == platform.window && !r.is_sentinel()
            && r.context == platform.context && r.context_current && r.attempted_apply_format
            && r.attempted_create_context && r.attempted_make_current && r.attempted_resolve_fns
            && r.vsync_requested == platform.swap_interval_resolved && (
        platform.required_fns_resolved ==> final(sink)@ =~= old(sink)@) && (
        !platform.required_fns_resolved ==> final(sink)@ =~= old(sink)@.push(
            "required entry points missing".spec_bytes(),
        ))),
{
    let request = WindowRequest {
        class_name: class_name.to_owned(),
        title: title.to_owned(),
        own_device_context: true,
        redraw_on_resize: true,
        overlapped: true,
        visible: true,
        default_bounds: true,
    };
    let format = pixel_format_request();
    if platform.format_id == 0 {
        sink.report_fatal("pixel format selection failed".as_bytes());
        return BootstrapOutcome {
            request,
            format,
            window: 0,
            surface: platform.surface,
            context: 0,
            context_current: false,
            vsync_requested: false,
            attempted_apply_format: false,
            attempted_create_context: false,
            attempted_make_current: false,
            attempted_resolve_fns: false,
        };
    }
    if !platform.format_applied {
        sink.report_fatal("pixel format application failed".as_bytes());
        return BootstrapOutcome {
            request,
            format,
            window: 0,
            surface: platform.surface,
            context: 0,
            context_current: false,
            vsync_requested: false,
            attempted_apply_format: true,
            attempted_create_context: false,
            attempted_make_current: false,
            attempted_resolve_fns: false,
        };
    }
    if platform.context == 0 {
        sink.report_fatal("context creation failed".as_bytes());
        return BootstrapOutcome {
            request,
            format,
            window: 0,
            surface: platform.surface,
            context: 0,
            context_current: false,
            vsync_requested: false,
            attempted_apply_format: true,
            attempted_create_context: true,
            attempted_make_current: false,
            attempted_resolve_fns: false,
        };
    }
    if !platform.made_current {
        sink.report_fatal("context activation failed".as_bytes());
        return BootstrapOutcome {
            request,
            format,
            window: 0,
            surface: platform.surface,
            context: 0,
            context_current: false,
            vsync_requested: false,
            attempted_apply_format: true,
            attempted_create_context: true,
            attempted_make_current: true,
            attempted_resolve_fns: false,
        };
    }
    if !platform.required_fns_resolved {
        sink.report_fatal("required entry points missing".as_bytes());
    }
    BootstrapOutcome {
        request,
        format,
        window: platform.window,
        surface: platform.surface,
        context: platform.context,
        context_current: true,
        vsync_requested: platform.swap_interval_resolved,
        attempted_apply_format: true,
        attempted_create_context: true,
        attempted_make_current: true,
        attempted_resolve_fns: true,
    }
}

} // verus!
