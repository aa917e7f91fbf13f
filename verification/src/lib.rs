//! The integer core of a small sphere renderer: how a UV-sphere is cut into
//! a lattice of vertices and a list of triangles, how the buffers that hold
//! them are laid out, and the decisions a scene takes on keyboard and mouse
//! input. Every function here is total and carries a contract.

pub mod resolution;
pub mod lattice;
pub mod indices;
pub mod layout;
pub mod camera;
pub mod input;
pub mod render;
pub mod topology;
pub mod mesh;
