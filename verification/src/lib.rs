//! Implicit solids as signed distance fields, and a sphere-tracing renderer.
//!
//! All geometry is carried in 16.16 fixed-point integers: a coordinate or a
//! distance is an `i64` holding the real value times 65536. Every arithmetic
//! helper saturates symmetrically at `i64::MAX`, so negation is always
//! defined and every operation is total; each executable operation is proved
//! equal to a spec-level mirror, so the contracts of the solids and of the
//! renderer pin their results down exactly.

pub mod bbox;
pub mod construct;
pub mod fx;
pub mod render;
pub mod shape;
pub mod trig;
pub mod vec3;
pub mod xform;
