//! Verified host-side core of a GPU raytracing renderer: the camera's stored
//! state, the held-key set shared by the control and render loops, the fault
//! flag, and the byte-exact layout of the scene records that the shader reads.
//!
//! Single-precision numbers travel through this crate as bit patterns
//! ([`scalar::Scalar`]); the arithmetic on them belongs to the caller.

pub mod camera;
pub mod control;
pub mod fault;
pub mod input;
pub mod layout;
pub mod mesh;
pub mod raytracing;
pub mod render;
pub mod scalar;
pub mod shader;
pub mod uniform;
pub mod util;
pub mod vector;
