//! The result schema: one telemetry snapshot and the five kinds of entries
//! that it lists.

pub mod barcode;
pub mod classifier;
pub mod color;
pub mod detector;
pub mod fiducial;
pub mod result;

pub use barcode::{BarcodeResult, BarcodeView};
pub use classifier::{ClassifierResult, ClassifierView};
pub use color::{ColorResult, ColorView};
pub use detector::{DetectorResult, DetectorView};
pub use fiducial::{FiducialResult, FiducialView};
pub use result::{LimelightResult, ResultView};
