//! Sans-I/O core of a client for the Limelight camera's local HTTP API.

pub mod admin;
pub mod channel;
pub mod client;
pub mod config;
pub mod decode;
pub mod double;
pub mod duplicate;
pub mod error;
pub mod json;
pub mod laws;
pub mod models;
pub mod poller;
pub mod request;
pub mod response;
pub mod text;

pub use client::LimelightClient;
pub use config::LimelightConfig;
pub use decode::Decode;
pub use double::Double;
pub use duplicate::Duplicate;
pub use error::LimelightError;
pub use models::{
    BarcodeResult, ClassifierResult, ColorResult, DetectorResult, FiducialResult, LimelightResult,
};
