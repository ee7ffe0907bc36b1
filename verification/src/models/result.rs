//! The telemetry snapshot that one poll of the camera returns.

use vstd::prelude::*;
use crate::decode::{Decode, list_member, optional_member, read_list, read_optional, refuse};
use crate::double::Double;
use crate::duplicate::Duplicate;
use crate::error::LimelightError;
use crate::json::{value_is_object, Json};
use crate::models::barcode::{BarcodeResult, BarcodeView};
use crate::models::classifier::{ClassifierResult, ClassifierView};
use crate::models::detector::{DetectorResult, DetectorView};
use crate::models::fiducial::{FiducialResult, FiducialView};
use crate::models::color::{ColorResult, ColorView};

verus! {

/// One telemetry snapshot of the camera. A field that is absent was not
/// produced by the active pipeline; it does not stand for zero. The five
/// lists are empty where the pipeline produces no such entries.
#[allow(non_snake_case)]
#[derive(Clone, Debug)]
pub struct LimelightResult {
    /// Barcodes read. Wire key `Barcode`.
    pub barcode: Vec<BarcodeResult>,
    /// Verdicts of the neural classifier. Wire key `Classifier`.
    pub classifier: Vec<ClassifierResult>,
    /// Objects found by the neural detector. Wire key `Detector`.
    pub detector: Vec<DetectorResult>,
    /// Fiducial markers found. Wire key `Fiducial`.
    pub fiducial: Vec<FiducialResult>,
    /// Targets of the color or retroreflective pipeline. Wire key `Retro`.
    pub retro: Vec<ColorResult>,
    /// Kind of the active pipeline.
    pub pipeline_type: Option<String>,
    /// Horizontal offset of the primary target from the crosshair, in
    /// degrees.
    pub tx: Option<Double>,
    /// Vertical offset of the primary target from the crosshair, in degrees.
    pub ty: Option<Double>,
    /// Area of the primary target, as a share of the image.
    pub ta: Option<Double>,
    /// Capture latency, in milliseconds.
    pub cl: Option<Double>,
    /// Pipeline latency, in milliseconds.
    pub tl: Option<Double>,
    /// Time stamp of the snapshot.
    pub ts: Option<Double>,
    /// Validity of the primary target: 1 where there is one.
    pub v: Option<Double>,
    /// Sharpness of the image.
    pub focus_metric: Option<Double>,
    /// Pose of the robot in the space of the field.
    pub botpose: Option<Vec<Double>>,
    /// Pose of the robot, seen from the blue alliance wall.
    pub botpose_wpiblue: Option<Vec<Double>>,
    /// Pose of the robot, seen from the red alliance wall.
    pub botpose_wpired: Option<Vec<Double>>,
    /// Pose of the robot from the MT2 odometry. Wire key `botpose_orb`.
    pub botposeMT2: Option<Vec<Double>>,
    /// Pose of the robot from the MT2 odometry, seen from the blue alliance
    /// wall. Wire key `botpose_orb_wpiblue`.
    pub botposeMT2_wpiblue: Option<Vec<Double>>,
    /// Pose of the robot from the MT2 odometry, seen from the red alliance
    /// wall. Wire key `botpose_orb_wpired`.
    pub botposeMT2_wpired: Option<Vec<Double>>,
    /// Standard deviations of the primary pose estimate.
    pub stdev_mt1: Option<Vec<Double>>,
    /// Standard deviations of the MT2 pose estimate.
    pub stdev_mt2: Option<Vec<Double>>,
    /// Number of markers behind the pose estimate.
    pub botpose_tagcount: Option<i32>,
    /// Span between the markers behind the pose estimate.
    pub botpose_span: Option<Double>,
    /// Mean distance of the markers behind the pose estimate.
    pub botpose_avgdist: Option<Double>,
    /// Mean area of the markers behind the pose estimate.
    pub botpose_avgarea: Option<Double>,
    /// Numbers handed out by the Python pipeline.
    pub python_out: Option<Vec<Double>>,
    /// Horizontal offset of the primary target from the principal pixel, in
    /// degrees.
    pub txnc: Option<Double>,
    /// Vertical offset of the primary target from the principal pixel, in
    /// degrees.
    pub tync: Option<Double>,
    /// Index of the active pipeline.
    pub pipeline_id: Option<i32>,
    /// Pose of the camera in the space of the robot.
    pub t6c_rs: Option<Vec<Double>>,
}

/// A snapshot as a mathematical value.
#[allow(non_snake_case)]
pub ghost struct ResultView {
    pub barcode: Seq<BarcodeView>,
    pub classifier: Seq<ClassifierView>,
    pub detector: Seq<DetectorView>,
    pub fiducial: Seq<FiducialView>,
    pub retro: Seq<ColorView>,
    pub pipeline_type: Option<Seq<char>>,
    pub tx: Option<Double>,
    pub ty: Option<Double>,
    pub ta: Option<Double>,
    pub cl: Option<Double>,
    pub tl: Option<Double>,
    pub ts: Option<Double>,
    pub v: Option<Double>,
    pub focus_metric: Option<Double>,
    pub botpose: Option<Seq<Double>>,
    pub botpose_wpiblue: Option<Seq<Double>>,
    pub botpose_wpired: Option<Seq<Double>>,
    pub botposeMT2: Option<Seq<Double>>,
    pub botposeMT2_wpiblue: Option<Seq<Double>>,
    pub botposeMT2_wpired: Option<Seq<Double>>,
    pub stdev_mt1: Option<Seq<Double>>,
    pub stdev_mt2: Option<Seq<Double>>,
    pub botpose_tagcount: Option<i32>,
    pub botpose_span: Option<Double>,
    pub botpose_avgdist: Option<Double>,
    pub botpose_avgarea: Option<Double>,
    pub python_out: Option<Seq<Double>>,
    pub txnc: Option<Double>,
    pub tync: Option<Double>,
    pub pipeline_id: Option<i32>,
    pub t6c_rs: Option<Seq<Double>>,
}

impl DeepView for LimelightResult {
    type V = ResultView;

    open spec fn deep_view(&self) -> ResultView {
        ResultView {
            barcode: self.barcode.deep_view(),
            classifier: self.classifier.deep_view(),
            detector: self.detector.deep_view(),
            fiducial: self.fiducial.deep_view(),
            retro: self.retro.deep_view(),
            pipeline_type: self.pipeline_type.deep_view(),
            tx: self.tx.deep_view(),
            ty: self.ty.deep_view(),
            ta: self.ta.deep_view(),
            cl: self.cl.deep_view(),
            tl: self.tl.deep_view(),
            ts: self.ts.deep_view(),
            v: self.v.deep_view(),
            focus_metric: self.focus_metric.deep_view(),
            botpose: self.botpose.deep_view(),
            botpose_wpiblue: self.botpose_wpiblue.deep_view(),
            botpose_wpired: self.botpose_wpired.deep_view(),
            botposeMT2: self.botposeMT2.deep_view(),
            botposeMT2_wpiblue: self.botposeMT2_wpiblue.deep_view(),
            botposeMT2_wpired: self.botposeMT2_wpired.deep_view(),
            stdev_mt1: self.stdev_mt1.deep_view(),
            stdev_mt2: self.stdev_mt2.deep_view(),
            botpose_tagcount: self.botpose_tagcount.deep_view(),
            botpose_span: self.botpose_span.deep_view(),
            botpose_avgdist: self.botpose_avgdist.deep_view(),
            botpose_avgarea: self.botpose_avgarea.deep_view(),
            python_out: self.python_out.deep_view(),
            txnc: self.txnc.deep_view(),
            tync: self.tync.deep_view(),
            pipeline_id: self.pipeline_id.deep_view(),
            t6c_rs: self.t6c_rs.deep_view(),
        }
    }
}

impl View for LimelightResult {
    type V = ResultView;

    open spec fn view(&self) -> ResultView {
        self.deep_view()
    }
}

impl ResultView {
    /// The snapshot without any entry or field.
    pub open spec fn empty() -> ResultView {
        ResultView {
            barcode: Seq::empty(),
            classifier: Seq::empty(),
            detector: Seq::empty(),
            fiducial: Seq::empty(),
            retro: Seq::empty(),
            pipeline_type: None,
            tx: None,
            ty: None,
            ta: None,
            cl: None,
            tl: None,
            ts: None,
            v: None,
            focus_metric: None,
            botpose: None,
            botpose_wpiblue: None,
            botpose_wpired: None,
            botposeMT2: None,
            botposeMT2_wpiblue: None,
            botposeMT2_wpired: None,
            stdev_mt1: None,
            stdev_mt2: None,
            botpose_tagcount: None,
            botpose_span: None,
            botpose_avgdist: None,
            botpose_avgarea: None,
            python_out: None,
            txnc: None,
            tync: None,
            pipeline_id: None,
            t6c_rs: None,
        }
    }
}

/// Whether `key` is one of the wire keys of a snapshot.
pub open spec fn known_key(key: Seq<char>) -> bool {
    key == "Barcode"@
    || key == "Classifier"@
    || key == "Detector"@
    || key == "Fiducial"@
    || key == "Retro"@
    || key == "pipeline_type"@
    || key == "tx"@
    || key == "ty"@
    || key == "ta"@
    || key == "cl"@
    || key == "tl"@
    || key == "ts"@
    || key == "v"@
    || key == "focus_metric"@
    || key == "botpose"@
    || key == "botpose_wpiblue"@
    || key == "botpose_wpired"@
    || key == "botpose_orb"@
    || key == "botpose_orb_wpiblue"@
    || key == "botpose_orb_wpired"@
    || key == "stdev_mt1"@
    || key == "stdev_mt2"@
    || key == "botpose_tagcount"@
    || key == "botpose_span"@
    || key == "botpose_avgdist"@
    || key == "botpose_avgarea"@
    || key == "python_out"@
    || key == "txnc"@
    || key == "tync"@
    || key == "pipeline_id"@
    || key == "t6c_rs"@
}

impl Default for LimelightResult {
    fn default() -> (r: Self)
        ensures
            r@ == ResultView::empty(),
    {
        let r = LimelightResult {
            barcode: Vec::new(),
            classifier: Vec::new(),
            detector: Vec::new(),
            fiducial: Vec::new(),
            retro: Vec::new(),
            pipeline_type: None,
            tx: None,
            ty: None,
            ta: None,
            cl: None,
            tl: None,
            ts: None,
            v: None,
            focus_metric: None,
            botpose: None,
            botpose_wpiblue: None,
            botpose_wpired: None,
            botposeMT2: None,
            botposeMT2_wpiblue: None,
            botposeMT2_wpired: None,
            stdev_mt1: None,
            stdev_mt2: None,
            botpose_tagcount: None,
            botpose_span: None,
            botpose_avgdist: None,
            botpose_avgarea: None,
            python_out: None,
            txnc: None,
            tync: None,
            pipeline_id: None,
            t6c_rs: None,
        };
        proof {
            assert(r.barcode.deep_view() =~= Seq::empty());
            assert(r.classifier.deep_view() =~= Seq::empty());
            assert(r.detector.deep_view() =~= Seq::empty());
            assert(r.fiducial.deep_view() =~= Seq::empty());
            assert(r.retro.deep_view() =~= Seq::empty());
        }
        r
    }
}

impl Duplicate for LimelightResult {
    fn duplicate(&self) -> (r: Self) {
        LimelightResult {
            barcode: self.barcode.duplicate(),
            classifier: self.classifier.duplicate(),
            detector: self.detector.duplicate(),
            fiducial: self.fiducial.duplicate(),
            retro: self.retro.duplicate(),
            pipeline_type: self.pipeline_type.duplicate(),
            tx: self.tx.duplicate(),
            ty: self.ty.duplicate(),
            ta: self.ta.duplicate(),
            cl: self.cl.duplicate(),
            tl: self.tl.duplicate(),
            ts: self.ts.duplicate(),
            v: self.v.duplicate(),
            focus_metric: self.focus_metric.duplicate(),
            botpose: self.botpose.duplicate(),
            botpose_wpiblue: self.botpose_wpiblue.duplicate(),
            botpose_wpired: self.botpose_wpired.duplicate(),
            botposeMT2: self.botposeMT2.duplicate(),
            botposeMT2_wpiblue: self.botposeMT2_wpiblue.duplicate(),
            botposeMT2_wpired: self.botposeMT2_wpired.duplicate(),
            stdev_mt1: self.stdev_mt1.duplicate(),
            stdev_mt2: self.stdev_mt2.duplicate(),
            botpose_tagcount: self.botpose_tagcount.duplicate(),
            botpose_span: self.botpose_span.duplicate(),
            botpose_avgdist: self.botpose_avgdist.duplicate(),
            botpose_avgarea: self.botpose_avgarea.duplicate(),
            python_out: self.python_out.duplicate(),
            txnc: self.txnc.duplicate(),
            tync: self.tync.duplicate(),
            pipeline_id: self.pipeline_id.duplicate(),
            t6c_rs: self.t6c_rs.duplicate(),
        }
    }
}

impl Decode for LimelightResult {
    /// An object in which each known list is absent or an array of entries,
    /// and each other known member is absent, `null` or of the type of its
    /// field. Members under other keys are passed over.
    open spec fn decode(j: Json) -> Option<ResultView> {
        if j is Object
            && list_member::<BarcodeResult>(j, "Barcode"@) is Some
            && list_member::<ClassifierResult>(j, "Classifier"@) is Some
            && list_member::<DetectorResult>(j, "Detector"@) is Some
            && list_member::<FiducialResult>(j, "Fiducial"@) is Some
            && list_member::<ColorResult>(j, "Retro"@) is Some
            && optional_member::<String>(j, "pipeline_type"@) is Some
            && optional_member::<Double>(j, "tx"@) is Some
            && optional_member::<Double>(j, "ty"@) is Some
            && optional_member::<Double>(j, "ta"@) is Some
            && optional_member::<Double>(j, "cl"@) is Some
            && optional_member::<Double>(j, "tl"@) is Some
            && optional_member::<Double>(j, "ts"@) is Some
            && optional_member::<Double>(j, "v"@) is Some
            && optional_member::<Double>(j, "focus_metric"@) is Some
            && optional_member::<Vec<Double>>(j, "botpose"@) is Some
            && optional_member::<Vec<Double>>(j, "botpose_wpiblue"@) is Some
            && optional_member::<Vec<Double>>(j, "botpose_wpired"@) is Some
            && optional_member::<Vec<Double>>(j, "botpose_orb"@) is Some
            && optional_member::<Vec<Double>>(j, "botpose_orb_wpiblue"@) is Some
            && optional_member::<Vec<Double>>(j, "botpose_orb_wpired"@) is Some
            && optional_member::<Vec<Double>>(j, "stdev_mt1"@) is Some
            && optional_member::<Vec<Double>>(j, "stdev_mt2"@) is Some
            && optional_member::<i32>(j, "botpose_tagcount"@) is Some
            && optional_member::<Double>(j, "botpose_span"@) is Some
            && optional_member::<Double>(j, "botpose_avgdist"@) is Some
            && optional_member::<Double>(j, "botpose_avgarea"@) is Some
            && optional_member::<Vec<Double>>(j, "python_out"@) is Some
            && optional_member::<Double>(j, "txnc"@) is Some
            && optional_member::<Double>(j, "tync"@) is Some
            && optional_member::<i32>(j, "pipeline_id"@) is Some
            && optional_member::<Vec<Double>>(j, "t6c_rs"@) is Some
        {
            Some(
                ResultView {
                    barcode: list_member::<BarcodeResult>(j, "Barcode"@)->0,
                    classifier: list_member::<ClassifierResult>(j, "Classifier"@)->0,
                    detector: list_member::<DetectorResult>(j, "Detector"@)->0,
                    fiducial: list_member::<FiducialResult>(j, "Fiducial"@)->0,
                    retro: list_member::<ColorResult>(j, "Retro"@)->0,
                    pipeline_type: optional_member::<String>(j, "pipeline_type"@)->0,
                    tx: optional_member::<Double>(j, "tx"@)->0,
                    ty: optional_member::<Double>(j, "ty"@)->0,
                    ta: optional_member::<Double>(j, "ta"@)->0,
                    cl: optional_member::<Double>(j, "cl"@)->0,
                    tl: optional_member::<Double>(j, "tl"@)->0,
                    ts: optional_member::<Double>(j, "ts"@)->0,
                    v: optional_member::<Double>(j, "v"@)->0,
                    focus_metric: optional_member::<Double>(j, "focus_metric"@)->0,
                    botpose: optional_member::<Vec<Double>>(j, "botpose"@)->0,
                    botpose_wpiblue: optional_member::<Vec<Double>>(j, "botpose_wpiblue"@)->0,
                    botpose_wpired: optional_member::<Vec<Double>>(j, "botpose_wpired"@)->0,
                    botposeMT2: optional_member::<Vec<Double>>(j, "botpose_orb"@)->0,
                    botposeMT2_wpiblue: optional_member::<Vec<Double>>(j, "botpose_orb_wpiblue"@)->0,
                    botposeMT2_wpired: optional_member::<Vec<Double>>(j, "botpose_orb_wpired"@)->0,
                    stdev_mt1: optional_member::<Vec<Double>>(j, "stdev_mt1"@)->0,
                    stdev_mt2: optional_member::<Vec<Double>>(j, "stdev_mt2"@)->0,
                    botpose_tagcount: optional_member::<i32>(j, "botpose_tagcount"@)->0,
                    botpose_span: optional_member::<Double>(j, "botpose_span"@)->0,
                    botpose_avgdist: optional_member::<Double>(j, "botpose_avgdist"@)->0,
                    botpose_avgarea: optional_member::<Double>(j, "botpose_avgarea"@)->0,
                    python_out: optional_member::<Vec<Double>>(j, "python_out"@)->0,
                    txnc: optional_member::<Double>(j, "txnc"@)->0,
                    tync: optional_member::<Double>(j, "tync"@)->0,
                    pipeline_id: optional_member::<i32>(j, "pipeline_id"@)->0,
                    t6c_rs: optional_member::<Vec<Double>>(j, "t6c_rs"@)->0,
                },
            )
        } else {
            None
        }
    }

    fn from_json(value: &serde_json::Value) -> (r: Result<Self, LimelightError>) {
        if !value_is_object(value) {
            return Err(refuse("an object"));
        }
        let barcode = read_list::<BarcodeResult>(value, "Barcode")?;
        let classifier = read_list::<ClassifierResult>(value, "Classifier")?;
        let detector = read_list::<DetectorResult>(value, "Detector")?;
        let fiducial = read_list::<FiducialResult>(value, "Fiducial")?;
        let retro = read_list::<ColorResult>(value, "Retro")?;
        let pipeline_type = read_optional::<String>(value, "pipeline_type")?;
        let tx = read_optional::<Double>(value, "tx")?;
        let ty = read_optional::<Double>(value, "ty")?;
        let ta = read_optional::<Double>(value, "ta")?;
        let cl = read_optional::<Double>(value, "cl")?;
        let tl = read_optional::<Double>(value, "tl")?;
        let ts = read_optional::<Double>(value, "ts")?;
        let v = read_optional::<Double>(value, "v")?;
        let focus_metric = read_optional::<Double>(value, "focus_metric")?;
        let botpose = read_optional::<Vec<Double>>(value, "botpose")?;
        let botpose_wpiblue = read_optional::<Vec<Double>>(value, "botpose_wpiblue")?;
        let botpose_wpired = read_optional::<Vec<Double>>(value, "botpose_wpired")?;
        let botposeMT2 = read_optional::<Vec<Double>>(value, "botpose_orb")?;
        let botposeMT2_wpiblue = read_optional::<Vec<Double>>(value, "botpose_orb_wpiblue")?;
        let botposeMT2_wpired = read_optional::<Vec<Double>>(value, "botpose_orb_wpired")?;
        let stdev_mt1 = read_optional::<Vec<Double>>(value, "stdev_mt1")?;
        let stdev_mt2 = read_optional::<Vec<Double>>(value, "stdev_mt2")?;
        let botpose_tagcount = read_optional::<i32>(value, "botpose_tagcount")?;
        let botpose_span = read_optional::<Double>(value, "botpose_span")?;
        let botpose_avgdist = read_optional::<Double>(value, "botpose_avgdist")?;
        let botpose_avgarea = read_optional::<Double>(value, "botpose_avgarea")?;
        let python_out = read_optional::<Vec<Double>>(value, "python_out")?;
        let txnc = read_optional::<Double>(value, "txnc")?;
        let tync = read_optional::<Double>(value, "tync")?;
        let pipeline_id = read_optional::<i32>(value, "pipeline_id")?;
        let t6c_rs = read_optional::<Vec<Double>>(value, "t6c_rs")?;
        Ok(LimelightResult {
            barcode,
            classifier,
            detector,
            fiducial,
            retro,
            pipeline_type,
            tx,
            ty,
            ta,
            cl,
            tl,
            ts,
            v,
            focus_metric,
            botpose,
            botpose_wpiblue,
            botpose_wpired,
            botposeMT2,
            botposeMT2_wpiblue,
            botposeMT2_wpired,
            stdev_mt1,
            stdev_mt2,
            botpose_tagcount,
            botpose_span,
            botpose_avgdist,
            botpose_avgarea,
            python_out,
            txnc,
            tync,
            pipeline_id,
            t6c_rs,
        })
    }
}

} // verus!
