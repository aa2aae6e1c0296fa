//! Core of a light-sculpture visualizer: exact integer transform math
//! (column-major 3x3/4x4 matrices, vectors, inverse-transpose normal
//! derivation), renderable rod objects with a latest-wins color mailbox,
//! scene/camera state, and the binary wire protocol that carries per-emitter
//! color records.
//!
//! Lengths are carried in centi-units: 100 units stand for 1.0 scene unit,
//! so every coordinate the original floating-point pipeline held is an
//! integer here and every matrix identity is exact.

pub mod arith;
pub mod camera;
pub mod config;
pub mod laws;
pub mod matrix;
pub mod mesh;
pub mod protocol;
pub mod vector;
