//! Verified transform and camera-control core for a small real-time
//! renderer.
//!
//! All arithmetic is fixed-point: a scalar is a signed count of millionths
//! (`fixed`), and every executable operation is specified exactly against
//! its mathematical model, so the matrix builders and the camera state
//! machine have contracts that pin their results down to the tick.
//!
//! - `fixed`: the scalar type, truncating multiplication and division, and
//!   the integer square root.
//! - `angle`: sine and cosine by range reduction and Taylor polynomials.
//! - `vector`: three-component vectors — add, subtract, scale, cross, dot,
//!   normalize — and the exact-cross orthogonality law.
//! - `matrix`: column-major 4x4 matrices, multiplication and application
//!   to homogeneous points.
//! - `transform`: the transform builder — translation, Euler rotation
//!   (Rz * Ry * Rx), uniform scale, look-at view and perspective
//!   projection — with the identity and origin-translation laws.
//! - `camera`: the event-driven camera controller, its transition
//!   function, and the facing-preservation, clamping and world-boundary
//!   laws.
//! - `context`: the owned render context holding the light state.
//! - `skybox`: the cube-face layout of a skybox atlas image.
//!
//! Convention held throughout: the second view vector is a look-at point
//! in world space, never a direction; matrices are stored by columns.

pub mod angle;
pub mod camera;
pub mod context;
pub mod fixed;
pub mod matrix;
pub mod skybox;
pub mod transform;
pub mod vector;
