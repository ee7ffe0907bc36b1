//! The administrative API of the camera: one request per operation. Two
//! operations check their arguments first and refuse without a request.

use vstd::prelude::*;
use vstd::slice::slice_to_vec;
use vstd::string::*;
use crate::client::LimelightClient;
use crate::double::Double;
use crate::error::{ErrorView, LimelightError};
use crate::json::json_of;
use crate::request::{
    add_index, add_more_query, add_query, and_query, delete_of, get_of, post_of, with_index,
    with_query, Body, BodyView, Request,
};
use crate::text::{decimal, decimal_string};

verus! {

/// The most numbers that the Python pipeline takes in one update.
pub const MAX_PYTHON_INPUTS: usize = 32;

/// Whether `count` numbers can be sent to the Python pipeline.
pub open spec fn valid_input_count(count: nat) -> bool {
    1 <= count <= MAX_PYTHON_INPUTS
}

/// Whether `name` names a kind of neural network that the camera runs.
pub open spec fn valid_network_type(name: Seq<char>) -> bool {
    name == "detector"@ || name == "classifier"@
}

/// The error of an update with no number or with too many.
pub open spec fn input_count_error() -> ErrorView {
    ErrorView::ConfigError("Invalid number of Python inputs"@)
}

/// The error of a kind of neural network that the camera does not run.
pub open spec fn network_type_error() -> ErrorView {
    ErrorView::ConfigError("Invalid neural network type"@)
}

/// The endpoint of an upload for a neural network of the given kind, into
/// the pipeline at `index` where one is given.
pub open spec fn network_endpoint(path: Seq<char>, kind: Seq<char>, index: Option<u32>) -> Seq<
    char,
> {
    match index {
        Some(i) => and_query(with_query(path, "type"@, kind), "index"@, decimal(i as nat)),
        None => with_query(path, "type"@, kind),
    }
}

/// The numbers that set the orientation of the robot: the yaw, then five
/// zeros.
pub open spec fn orientation_of(yaw: Double) -> Seq<Double> {
    seq![yaw, Double::zero(), Double::zero(), Double::zero(), Double::zero(), Double::zero()]
}

/// The value of the query parameter `flush`.
pub open spec fn flush_flag(flush: bool) -> Seq<char> {
    if flush {
        "1"@
    } else {
        "0"@
    }
}

/// Checks the kind of a neural network.
pub fn check_network_type(name: &str) -> (r: Result<(), LimelightError>)
    ensures
        match r {
            Ok(_) => valid_network_type(name@),
            Err(e) => !valid_network_type(name@) && e@ == network_type_error(),
        },
{
    let given = String::from_str(name);
    if given == String::from_str("detector") || given == String::from_str("classifier") {
        Ok(())
    } else {
        Err(LimelightError::ConfigError(String::from_str("Invalid neural network type")))
    }
}

/// Builds the endpoint of an upload for a neural network.
pub fn build_network_endpoint(path: &str, kind: &str, index: Option<u32>) -> (r: String)
    ensures
        r@ == network_endpoint(path@, kind@, index),
{
    let typed = add_query(path, "type", kind);
    match index {
        Some(i) => {
            let digits = decimal_string(i as u64);
            add_more_query(typed, "index", digits.as_str())
        },
        None => typed,
    }
}

impl LimelightClient {
    /// The request that reads as JSON what `endpoint` names.
    pub fn get_json(&self, endpoint: &str) -> (r: Request)
        ensures
            r@ == get_of(self@.config, endpoint@),
    {
        Request::get(self.config(), endpoint)
    }

    /// The request that posts a body to `endpoint`.
    pub fn post_json(&self, endpoint: &str, body: Body) -> (r: Request)
        ensures
            r@ == post_of(self@.config, endpoint@, body@),
    {
        Request::post(self.config(), endpoint, body)
    }

    /// The request that deletes what `endpoint` names.
    pub fn delete(&self, endpoint: &str) -> (r: Request)
        ensures
            r@ == delete_of(self@.config, endpoint@),
    {
        Request::delete(self.config(), endpoint)
    }

    /// Reads the status of the camera.
    pub fn get_status(&self) -> (r: Request)
        ensures
            r@ == get_of(self@.config, "status"@),
    {
        self.get_json("status")
    }

    /// Has the camera load the current pipeline again.
    pub fn reload_pipeline(&self) -> (r: Request)
        ensures
            r@ == post_of(self@.config, "reload-pipeline"@, BodyView::JsonNull),
    {
        self.post_json("reload-pipeline", Body::JsonNull)
    }

    /// Makes the pipeline at `index` the active one.
    pub fn switch_pipeline(&self, index: u32) -> (r: Request)
        ensures
            r@ == post_of(
                self@.config,
                with_index("pipeline-switch"@, Some(index)),
                BodyView::JsonNull,
            ),
    {
        let endpoint = add_index("pipeline-switch", Some(index));
        self.post_json(endpoint.as_str(), Body::JsonNull)
    }

    /// Takes a snapshot of the image and keeps it under `snapname`.
    pub fn capture_snapshot(&self, snapname: &str) -> (r: Request)
        ensures
            r@ == post_of(
                self@.config,
                with_query("capture-snapshot"@, "snapname"@, snapname@),
                BodyView::JsonNull,
            ),
    {
        let endpoint = add_query("capture-snapshot", "snapname", snapname);
        self.post_json(endpoint.as_str(), Body::JsonNull)
    }

    /// Deletes every snapshot.
    pub fn delete_snapshots(&self) -> (r: Request)
        ensures
            r@ == delete_of(self@.config, "delete-snapshots"@),
    {
        self.delete("delete-snapshots")
    }

    /// Deletes the snapshot kept under `snapname`.
    pub fn delete_snapshot(&self, snapname: &str) -> (r: Request)
        ensures
            r@ == delete_of(self@.config, with_query("delete-snapshot"@, "snapname"@, snapname@)),
    {
        let endpoint = add_query("delete-snapshot", "snapname", snapname);
        self.delete(endpoint.as_str())
    }

    /// Hands numbers to the Python pipeline: at least one and at most
    /// `MAX_PYTHON_INPUTS`. Any other count is refused with a `ConfigError`
    /// and no request is built.
    pub fn update_python_inputs(&self, inputs: &[Double]) -> (r: Result<Request, LimelightError>)
        ensures
            match r {
                Ok(request) => valid_input_count(inputs@.len()) && request@ == post_of(
                    self@.config,
                    "update-pythoninputs"@,
                    BodyView::Numbers(inputs@),
                ),
                Err(e) => !valid_input_count(inputs@.len()) && e@ == input_count_error(),
            },
    {
        if inputs.len() == 0 || inputs.len() > MAX_PYTHON_INPUTS {
            return Err(
                LimelightError::ConfigError(String::from_str("Invalid number of Python inputs")),
            );
        }
        Ok(self.post_json("update-pythoninputs", Body::Numbers(slice_to_vec(inputs))))
    }

    /// Tells the camera the yaw of the robot; the other five numbers of the
    /// orientation are sent as zero.
    pub fn update_robot_orientation(&self, yaw: Double) -> (r: Request)
        ensures
            r@ == post_of(
                self@.config,
                "update-robotorientation"@,
                BodyView::Numbers(orientation_of(yaw)),
            ),
    {
        let mut orientation: Vec<Double> = Vec::new();
        orientation.push(yaw);
        orientation.push(Double::zero());
        orientation.push(Double::zero());
        orientation.push(Double::zero());
        orientation.push(Double::zero());
        orientation.push(Double::zero());
        assert(orientation@ =~= orientation_of(yaw));
        self.post_json("update-robotorientation", Body::Numbers(orientation))
    }

    /// Uploads a map of the field, for the pipeline at `index` where one is
    /// given.
    pub fn upload_field_map(&self, field_map: serde_json::Value, index: Option<u32>) -> (r:
        Request)
        ensures
            r@ == post_of(
                self@.config,
                with_index("upload-fieldmap"@, index),
                BodyView::Json(json_of(field_map)),
            ),
    {
        let endpoint = add_index("upload-fieldmap", index);
        self.post_json(endpoint.as_str(), Body::Json(field_map))
    }

    /// Reads the calibration that `source` names.
    pub fn get_calibration(&self, source: &str) -> (r: Request)
        ensures
            r@ == get_of(self@.config, "cal-"@ + source@),
    {
        let endpoint = String::from_str("cal-").concat(source);
        self.get_json(endpoint.as_str())
    }

    /// Reads the report on the hardware.
    pub fn get_hardware_report(&self) -> (r: Request)
        ensures
            r@ == get_of(self@.config, "hwreport"@),
    {
        self.get_json("hwreport")
    }

    /// Reads the settings of the default pipeline.
    pub fn get_default_pipeline(&self) -> (r: Request)
        ensures
            r@ == get_of(self@.config, "pipeline-default"@),
    {
        self.get_json("pipeline-default")
    }

    /// Reads the settings of the pipeline at `index`.
    pub fn get_pipeline_at_index(&self, index: u32) -> (r: Request)
        ensures
            r@ == get_of(self@.config, with_index("pipeline-atindex"@, Some(index))),
    {
        let endpoint = add_index("pipeline-atindex", Some(index));
        self.get_json(endpoint.as_str())
    }

    /// Changes settings of the active pipeline, and has them written to disk
    /// where `flush` is set.
    pub fn update_pipeline(&self, settings: serde_json::Value, flush: bool) -> (r: Request)
        ensures
            r@ == post_of(
                self@.config,
                with_query("update-pipeline"@, "flush"@, flush_flag(flush)),
                BodyView::Json(json_of(settings)),
            ),
    {
        let flag = if flush {
            "1"
        } else {
            "0"
        };
        let endpoint = add_query("update-pipeline", "flush", flag);
        self.post_json(endpoint.as_str(), Body::Json(settings))
    }

    /// Uploads a pipeline, to `index` where one is given.
    pub fn upload_pipeline(&self, pipeline: serde_json::Value, index: Option<u32>) -> (r: Request)
        ensures
            r@ == post_of(
                self@.config,
                with_index("upload-pipeline"@, index),
                BodyView::Json(json_of(pipeline)),
            ),
    {
        let endpoint = add_index("upload-pipeline", index);
        self.post_json(endpoint.as_str(), Body::Json(pipeline))
    }

    /// Uploads a neural network of the kind `nn_type`, which is `detector`
    /// or `classifier`, for the pipeline at `index` where one is given. Any
    /// other kind is refused with a `ConfigError` and no request is built.
    pub fn upload_neural_network(&self, nn_type: &str, data: &[u8], index: Option<u32>) -> (r:
        Result<Request, LimelightError>)
        ensures
            match r {
                Ok(request) => valid_network_type(nn_type@) && request@ == post_of(
                    self@.config,
                    network_endpoint("upload-nn"@, nn_type@, index),
                    BodyView::Bytes(data@),
                ),
                Err(e) => !valid_network_type(nn_type@) && e@ == network_type_error(),
            },
    {
        match check_network_type(nn_type) {
            Ok(_) => {
                let endpoint = build_network_endpoint("upload-nn", nn_type, index);
                Ok(self.post_json(endpoint.as_str(), Body::Bytes(slice_to_vec(data))))
            },
            Err(e) => Err(e),
        }
    }

    /// Uploads the labels of a neural network of the kind `nn_type`, which
    /// is `detector` or `classifier`, for the pipeline at `index` where one is
    /// given. Any other kind is refused with a `ConfigError` and no request is
    /// built.
    pub fn upload_neural_network_labels(
        &self,
        nn_type: &str,
        labels: &str,
        index: Option<u32>,
    ) -> (r: Result<Request, LimelightError>)
        ensures
            match r {
                Ok(request) => valid_network_type(nn_type@) && request@ == post_of(
                    self@.config,
                    network_endpoint("upload-nnlabels"@, nn_type@, index),
                    BodyView::Text(labels@),
                ),
                Err(e) => !valid_network_type(nn_type@) && e@ == network_type_error(),
            },
    {
        match check_network_type(nn_type) {
            Ok(_) => {
                let endpoint = build_network_endpoint("upload-nnlabels", nn_type, index);
                Ok(self.post_json(endpoint.as_str(), Body::Text(String::from_str(labels))))
            },
            Err(e) => Err(e),
        }
    }

    /// Reads the names of the SnapScripts on the camera.
    pub fn get_snapscript_names(&self) -> (r: Request)
        ensures
            r@ == get_of(self@.config, "getsnapsscriptnames"@),
    {
        self.get_json("getsnapsscriptnames")
    }

    /// Reads the default calibration.
    pub fn get_calibration_default(&self) -> (r: Request)
        ensures
            r@ == get_of(self@.config, "cal-default"@),
    {
        self.get_json("cal-default")
    }

    /// Reads the calibration kept in a file.
    pub fn get_calibration_file(&self) -> (r: Request)
        ensures
            r@ == get_of(self@.config, "cal-file"@),
    {
        self.get_json("cal-file")
    }

    /// Reads the calibration kept in the EEPROM.
    pub fn get_calibration_eeprom(&self) -> (r: Request)
        ensures
            r@ == get_of(self@.config, "cal-eeprom"@),
    {
        self.get_json("cal-eeprom")
    }

    /// Reads the calibration that was made last.
    pub fn get_calibration_latest(&self) -> (r: Request)
        ensures
            r@ == get_of(self@.config, "cal-latest"@),
    {
        self.get_json("cal-latest")
    }

    /// Writes a calibration to the EEPROM.
    pub fn update_calibration_eeprom(&self, calibration: serde_json::Value) -> (r: Request)
        ensures
            r@ == post_of(self@.config, "cal-eeprom"@, BodyView::Json(json_of(calibration))),
    {
        self.post_json("cal-eeprom", Body::Json(calibration))
    }

    /// Writes a calibration to the file.
    pub fn update_calibration_file(&self, calibration: serde_json::Value) -> (r: Request)
        ensures
            r@ == post_of(self@.config, "cal-file"@, BodyView::Json(json_of(calibration))),
    {
        self.post_json("cal-file", Body::Json(calibration))
    }

    /// Deletes the calibration that was made last.
    pub fn delete_calibration_latest(&self) -> (r: Request)
        ensures
            r@ == delete_of(self@.config, "cal-latest"@),
    {
        self.delete("cal-latest")
    }

    /// Deletes the calibration kept in the EEPROM.
    pub fn delete_calibration_eeprom(&self) -> (r: Request)
        ensures
            r@ == delete_of(self@.config, "cal-eeprom"@),
    {
        self.delete("cal-eeprom")
    }

    /// Deletes the calibration kept in a file.
    pub fn delete_calibration_file(&self) -> (r: Request)
        ensures
            r@ == delete_of(self@.config, "cal-file"@),
    {
        self.delete("cal-file")
    }

    /// Uploads an image and keeps it as the snapshot `snapname`.
    pub fn upload_snapshot(&self, snapname: &str, image_data: &[u8]) -> (r: Request)
        ensures
            r@ == post_of(
                self@.config,
                with_query("upload-snapshot"@, "snapname"@, snapname@),
                BodyView::Bytes(image_data@),
            ),
    {
        let endpoint = add_query("upload-snapshot", "snapname", snapname);
        self.post_json(endpoint.as_str(), Body::Bytes(slice_to_vec(image_data)))
    }

    /// Reads the list of the snapshots on the camera.
    pub fn get_snapshot_manifest(&self) -> (r: Request)
        ensures
            r@ == get_of(self@.config, "snapshotmanifest"@),
    {
        self.get_json("snapshotmanifest")
    }
}

} // verus!
