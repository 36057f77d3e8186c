use miniwin::frame::{
    quad_layout, quad_vertices, DriverState, FrameClock, FrameDriver, Vertex, TICKS_PER_SECOND,
};
use miniwin::messages::MSG_QUIT;

#[test]
fn clock_starts_at_zero_and_advances_by_one_tick() {
    let mut clock = FrameClock::new();
    assert_eq!(clock.elapsed_sixtieths(), 0);
    clock.advance();
    clock.advance();
    assert_eq!(clock.elapsed_sixtieths(), 2);
}

#[test]
fn accumulated_time_is_frame_count_times_fixed_step() {
    let mut driver = FrameDriver::new(11, 3);
    let frames: u64 = 120;
    for _ in 0..frames {
        let mut queue: Vec<u32> = Vec::new();
        let pass = driver.frame_step(&mut queue);
        assert!(pass.is_some());
    }
    assert_eq!(driver.clock.elapsed_sixtieths(), frames);
    let seconds = driver.clock.elapsed_sixtieths() as f64 / TICKS_PER_SECOND as f64;
    let expected = frames as f64 * (1.0 / 60.0);
    assert!((seconds - expected).abs() < 1e-9);
}

#[test]
fn frame_pass_binds_program_and_time_uniform() {
    let mut driver = FrameDriver::new(11, 3);
    let mut queue: Vec<u32> = Vec::new();
    driver.frame_step(&mut queue);
    let pass = driver.frame_step(&mut queue).expect("second frame must render");
    assert!(pass.clears);
    assert_eq!(pass.program, 11);
    assert_eq!(pass.uniform_name, "iTime");
    assert_eq!(pass.uniform_ticks, 1);
    assert_eq!(pass.vertex_array, 3);
    assert_eq!(pass.first_vertex, 0);
    assert_eq!(pass.vertex_count, 4);
    assert!(pass.triangle_strip);
    assert!(pass.swaps);
}

#[test]
fn quit_message_stops_the_driver_without_a_final_frame() {
    let mut driver = FrameDriver::new(11, 3);
    let mut queue: Vec<u32> = vec![100, MSG_QUIT, 101];
    let pass = driver.frame_step(&mut queue);
    assert!(pass.is_none());
    assert_eq!(driver.state, DriverState::Stopping);
    assert_eq!(driver.frames, 0);
    assert_eq!(driver.clock.elapsed_sixtieths(), 0);
    assert_eq!(queue, vec![101]);
}

#[test]
fn quad_is_four_corner_vertices_in_strip_order() {
    let v = quad_vertices();
    assert_eq!(v.len(), 4);
    assert_eq!(v[0], Vertex { x: -1, y: -1, z: 0 });
    assert_eq!(v[1], Vertex { x: 1, y: -1, z: 0 });
    assert_eq!(v[2], Vertex { x: -1, y: 1, z: 0 });
    assert_eq!(v[3], Vertex { x: 1, y: 1, z: 0 });
}

#[test]
fn quad_layout_puts_position_at_slot_zero() {
    let layout = quad_layout();
    assert_eq!(layout.attribute_slot, 0);
    assert_eq!(layout.components_per_vertex, 3);
    assert_eq!(layout.vertex_count, 4);
}
