//! A skeletal-animation pose engine with a mesh-streaming queue.
//!
//! The engine samples joint keyframes at a playback time, composes the
//! joint hierarchy into world-space skinning matrices, advances per-mesh
//! playback clocks, accumulates per-vertex skin weights, assembles
//! triangle-list vertex buffers from indexed attribute tables, and hands
//! background-built mesh payloads to the render loop through a queue.
//!
//! All geometry is carried in a signed 16.16 fixed-point scale, so every
//! computation is exact integer arithmetic with a stated contract.

pub mod fixed;
pub mod linalg;
pub mod quat;
pub mod trig;
pub mod interp;
pub mod skeleton;
pub mod clock;
pub mod sampler;
pub mod composer;
pub mod weights;
pub mod meshdata;
pub mod queue;
pub mod importer;
pub mod mesh;
pub mod scene;
