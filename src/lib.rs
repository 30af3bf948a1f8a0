//! Scene logic of a small viewer: a grid of shielded instances that share one
//! mesh and one translucent material, rotated a fixed step about X every
//! frame, in a window that is revealed once the renderer has warmed up.
//!
//! `scene` holds the world and its setup, `frame` the frame counter and the
//! reveal gate, `material` the shield material, and `viewer` the per-frame
//! driver together with what holds over any number of frames.
use vstd::prelude::*;

pub mod frame;
pub mod material;
pub mod scene;
pub mod viewer;

verus! {

} // verus!
