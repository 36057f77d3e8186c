use miniwin::bootstrap::{create_window_and_context, pixel_format_request, PlatformResponses};
use miniwin::diagnostics::DiagnosticsSink;
use miniwin::messages::{MSG_CLOSE, MSG_PAINT};
use miniwin::pump::run_blocking_loop;

fn all_good() -> PlatformResponses {
    PlatformResponses {
        window: 21,
        surface: 22,
        format_id: 8,
        format_applied: true,
        context: 23,
        made_current: true,
        required_fns_resolved: true,
        swap_interval_resolved: true,
    }
}

#[test]
fn requested_format_is_double_buffered_rgba() {
    let f = pixel_format_request();
    assert!(f.draw_to_window);
    assert!(f.support_opengl);
    assert!(f.double_buffer);
    assert!(f.pixel_type_rgba);
    assert_eq!(f.color_bits, 32);
    assert_eq!(f.alpha_bits, 8);
    assert_eq!(f.depth_bits, 32);
}

#[test]
fn bootstrap_happy_path_yields_current_context_and_vsync() {
    let mut sink = DiagnosticsSink::new();
    let r = create_window_and_context("GLWIN", "MyClass", all_good(), &mut sink);
    assert_eq!(r.window, 21);
    assert_eq!(r.surface, 22);
    assert_eq!(r.context, 23);
    assert!(r.context_current);
    assert!(r.vsync_requested);
    assert_eq!(r.request.title, "GLWIN");
    assert_eq!(r.request.class_name, "MyClass");
    assert!(r.request.overlapped);
    assert!(r.request.visible);
    assert!(r.request.default_bounds);
    assert_eq!(sink.count(), 0);
}

#[test]
fn bootstrap_without_format_reports_once_and_skips_later_steps() {
    let mut sink = DiagnosticsSink::new();
    let mut platform = all_good();
    platform.format_id = 0;
    let r = create_window_and_context("GLWIN", "MyClass", platform, &mut sink);
    assert_eq!(r.window, 0);
    assert_eq!(r.context, 0);
    assert!(!r.context_current);
    assert!(!r.attempted_apply_format);
    assert!(!r.attempted_create_context);
    assert!(!r.attempted_make_current);
    assert_eq!(sink.count(), 1);
    assert_eq!(sink.messages[0], b"pixel format selection failed".to_vec());
}

#[test]
fn bootstrap_format_application_failure_stops_before_context_creation() {
    let mut sink = DiagnosticsSink::new();
    let mut platform = all_good();
    platform.format_applied = false;
    let r = create_window_and_context("GLWIN", "MyClass", platform, &mut sink);
    assert_eq!(r.window, 0);
    assert!(r.attempted_apply_format);
    assert!(!r.attempted_create_context);
    assert_eq!(sink.count(), 1);
    assert_eq!(sink.messages[0], b"pixel format application failed".to_vec());
}

#[test]
fn bootstrap_null_context_is_reported_and_activation_never_attempted() {
    let mut sink = DiagnosticsSink::new();
    let mut platform = all_good();
    platform.context = 0;
    let r = create_window_and_context("GLWIN", "MyClass", platform, &mut sink);
    assert_eq!(r.window, 0);
    assert!(r.attempted_create_context);
    assert!(!r.attempted_make_current);
    assert_eq!(sink.count(), 1);
    assert_eq!(sink.messages[0], b"context creation failed".to_vec());
}

#[test]
fn bootstrap_activation_failure_is_reported() {
    let mut sink = DiagnosticsSink::new();
    let mut platform = all_good();
    platform.made_current = false;
    let r = create_window_and_context("GLWIN", "MyClass", platform, &mut sink);
    assert_eq!(r.window, 0);
    assert!(r.attempted_make_current);
    assert!(!r.attempted_resolve_fns);
    assert_eq!(sink.count(), 1);
    assert_eq!(sink.messages[0], b"context activation failed".to_vec());
}

#[test]
fn missing_swap_interval_extension_degrades_silently() {
    let mut sink = DiagnosticsSink::new();
    let mut platform = all_good();
    platform.swap_interval_resolved = false;
    let r = create_window_and_context("GLWIN", "MyClass", platform, &mut sink);
    assert_eq!(r.window, 21);
    assert!(!r.vsync_requested);
    assert_eq!(sink.count(), 0);
}

#[test]
fn missing_required_entry_points_are_reported_but_bootstrap_continues() {
    let mut sink = DiagnosticsSink::new();
    let mut platform = all_good();
    platform.required_fns_resolved = false;
    let r = create_window_and_context("GLWIN", "MyClass", platform, &mut sink);
    assert_eq!(r.window, 21);
    assert!(r.context_current);
    assert_eq!(sink.count(), 1);
    assert_eq!(sink.messages[0], b"required entry points missing".to_vec());
}

#[test]
fn end_to_end_window_paint_then_close() {
    let mut sink = DiagnosticsSink::new();
    let r = create_window_and_context("MiniWIN", "MyClass", all_good(), &mut sink);
    assert_ne!(r.window, 0);
    assert_eq!(r.request.title, "MiniWIN");
    assert_eq!(r.request.class_name, "MyClass");
    let mut queue: Vec<u32> = vec![MSG_PAINT, MSG_CLOSE];
    let run = run_blocking_loop(&mut queue);
    assert_eq!(run.dispatched.len(), 2);
    assert_eq!(run.dispatched, vec![MSG_PAINT, MSG_CLOSE]);
    assert_eq!(run.paints.len(), 1);
    assert_eq!(run.paints[0].text, "Hello world");
    assert!(run.paints[0].single_line);
    assert!(run.paints[0].center_horizontal && run.paints[0].center_vertical);
    assert_eq!(sink.count(), 0);
}
