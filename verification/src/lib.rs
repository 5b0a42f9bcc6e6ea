//! Compact GPU vertex encoding for blocky geometry, with the mesh builder,
//! material description and pipeline-specialization rule that consume it.
//!
//! Every vertex attribute (position, normal, texel coordinate, texture layer)
//! is packed into three unsigned 32-bit words that the device-side shader
//! decodes bit-exactly. The modules here state that wire format as
//! specification functions and prove the packing code against it.

pub mod cube;
pub mod error;
pub mod latch;
pub mod layout;
pub mod material;
pub mod mesh;
pub mod vertex;
