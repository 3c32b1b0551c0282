//! A gravitational N-body simulator in the plane: the bodies, the store that
//! edits them, the integrator that advances them, and the session that
//! switches between editing and running.

pub mod body;
pub mod integrator;
pub mod scalar;
pub mod session;
pub mod store;

pub use crate::body::{Body, Color, Params};
pub use crate::scalar::Scalar;
pub use crate::session::{Session, SessionState};
pub use crate::store::{BodyStore, Field};
