//! Pan-orbit camera control and drag-to-impulse manipulation of a rigid body.
//!
//! All geometry is carried in fixed-point coordinates: an `i64` counts
//! millionths of a world unit, so the arithmetic (and therefore every
//! contract) is exact. The crate owns the logic only; feeding it pointer
//! events and applying the impulses it emits to a physics backend is the
//! caller's business.

pub mod fx;
pub mod vecs;
pub mod camera;
pub mod drag;
pub mod pose;
