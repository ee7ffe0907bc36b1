//! Where the camera is reached and how often it is polled.

use vstd::prelude::*;
use vstd::string::*;

verus! {

/// The address of the camera's HTTP API and the polling period.
#[derive(Clone, Debug)]
pub struct LimelightConfig {
    pub host: String,
    pub port: u16,
    pub poll_interval_ms: u64,
}

/// A configuration as a mathematical value.
pub ghost struct ConfigView {
    pub host: Seq<char>,
    pub port: u16,
    pub poll_interval_ms: u64,
}

impl View for LimelightConfig {
    type V = ConfigView;

    open spec fn view(&self) -> ConfigView {
        ConfigView { host: self.host@, port: self.port, poll_interval_ms: self.poll_interval_ms }
    }
}

/// The configuration of a camera at its factory address, polled every 10 ms.
pub open spec fn default_config() -> ConfigView {
    ConfigView { host: "10.0.0.2"@, port: 5807, poll_interval_ms: 10 }
}

impl Default for LimelightConfig {
    fn default() -> (r: Self)
        ensures
            r@ == default_config(),
    {
        LimelightConfig { host: String::from_str("10.0.0.2"), port: 5807, poll_interval_ms: 10 }
    }
}

} // verus!
