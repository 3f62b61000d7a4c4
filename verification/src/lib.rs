//! Rendering of light rays bent by a central point mass: a geodesic ray
//! marcher over saturating fixed-point arithmetic, so that every step of the
//! integrator carries a proved, exact contract.

pub mod camera;
pub mod fixed;
pub mod laws;
pub mod marcher;
pub mod ppm;
pub mod rng;
pub mod scene;
pub mod sphere;
pub mod vector;

pub use camera::{Camera, CameraBuilder, FiniteApertureCamera, PinHoleCamera};
pub use fixed::FX_ONE;
pub use marcher::{Color, Marcher, Object};
pub use rng::ScenePcg;
pub use sphere::{Hit, Sphere};
pub use vector::{Ray, Vector};
