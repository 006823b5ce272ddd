//! Runtime core of a real-time 3D scene viewer.
//!
//! The crate owns a world of entities, advances it at a fixed simulation rate
//! that is decoupled from the display rate, and plans each frame as a list of
//! render commands: an offscreen pass at a fixed low resolution followed by a
//! blit to the window.
//!
//! Every quantity is an integer in fixed point (see [`config`]); additions
//! saturate at the ends of the `i64` range. Windowing, the graphics API and
//! asset loading stay with the caller, who feeds the library clock readings
//! and input and carries out the commands it returns.

pub mod config;
pub mod fixed;
pub mod frame;
pub mod input;
pub mod models;
pub mod render;
pub mod systems;
pub mod timestep;
pub mod uniform;
pub mod world;
