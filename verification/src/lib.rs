//! A box-fit camera: an orthographic projection that scales a fixed virtual
//! resolution to fit a window of any size, and the four border rectangles
//! that mask what is left over around it.
//!
//! All geometry is exact: pixel counts are integers and every quotient is a
//! [`Ratio`].

pub mod border;
pub mod camera;
pub mod error;
pub mod projection;
pub mod ratio;

pub use border::{resize_borders, spawn_borders, Border, BorderSprite, BoxFitBorderPlugin, Color};
pub use camera::{BoxFitCameraBundle, TrackedCamera, Position};
pub use error::BoxFitError;
pub use projection::{BoxFitProjection, ProjectionView};
pub use ratio::{Frac, Ratio};
