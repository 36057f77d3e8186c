//! A minimal native-window bootstrap-and-render pipeline, modeled over plain
//! values so that every decision it makes is stated and proved.
//!
//! The platform (windowing system and graphics driver) is an external
//! collaborator: the library never calls it directly. Instead, each platform
//! call's result is handed in as a plain value, and the library's functions
//! decide what happens next — which setup step runs, which diagnostic is
//! reported, which messages are dispatched, and what one frame of rendering
//! asks of the driver. A thin outer program performs the actual calls and
//! feeds the results back in.

pub mod bootstrap;
pub mod diagnostics;
pub mod frame;
pub mod messages;
pub mod pump;
pub mod shader;
