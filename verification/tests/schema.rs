use limelightlib_rust::decode::{parse, parse_document};
use limelightlib_rust::duplicate::Duplicate;
use limelightlib_rust::response::Response;
use limelightlib_rust::{
    BarcodeResult, ClassifierResult, ColorResult, Decode, DetectorResult, Double, FiducialResult,
    LimelightError, LimelightResult,
};

fn d(x: f64) -> Double {
    Double::from_bits(x.to_bits())
}

fn value(text: &str) -> serde_json::Value {
    serde_json::from_str(text).unwrap()
}

fn assert_no_scalars(r: &LimelightResult) {
    assert!(r.pipeline_type.is_none());
    assert!(r.tx.is_none());
    assert!(r.ty.is_none());
    assert!(r.ta.is_none());
    assert!(r.cl.is_none());
    assert!(r.tl.is_none());
    assert!(r.ts.is_none());
    assert!(r.v.is_none());
    assert!(r.focus_metric.is_none());
    assert!(r.botpose.is_none());
    assert!(r.botpose_wpiblue.is_none());
    assert!(r.botpose_wpired.is_none());
    assert!(r.botposeMT2.is_none());
    assert!(r.botposeMT2_wpiblue.is_none());
    assert!(r.botposeMT2_wpired.is_none());
    assert!(r.stdev_mt1.is_none());
    assert!(r.stdev_mt2.is_none());
    assert!(r.botpose_tagcount.is_none());
    assert!(r.botpose_span.is_none());
    assert!(r.botpose_avgdist.is_none());
    assert!(r.botpose_avgarea.is_none());
    assert!(r.python_out.is_none());
    assert!(r.txnc.is_none());
    assert!(r.tync.is_none());
    assert!(r.pipeline_id.is_none());
    assert!(r.t6c_rs.is_none());
}

fn assert_empty(r: &LimelightResult) {
    assert!(r.barcode.is_empty());
    assert!(r.classifier.is_empty());
    assert!(r.detector.is_empty());
    assert!(r.fiducial.is_empty());
    assert!(r.retro.is_empty());
    assert_no_scalars(r);
}

#[test]
fn default_result_is_empty() {
    assert_empty(&LimelightResult::default());
}

#[test]
fn default_entries_have_no_field() {
    let b = BarcodeResult::default();
    assert!(b.fam.is_none() && b.data.is_none() && b.txp.is_none() && b.typ.is_none());
    assert!(b.tx.is_none() && b.ty.is_none() && b.tx_nocross.is_none());
    assert!(b.ty_nocross.is_none() && b.ta.is_none() && b.pts.is_none());
    let c = ClassifierResult::default();
    assert!(c.class.is_none() && c.class_id.is_none() && c.conf.is_none());
    let t = DetectorResult::default();
    assert!(t.class.is_none() && t.class_id.is_none() && t.conf.is_none() && t.ta.is_none());
    assert!(t.txp.is_none() && t.typ.is_none() && t.tx.is_none() && t.ty.is_none());
    assert!(t.tx_nocross.is_none() && t.ty_nocross.is_none() && t.pts.is_none());
    let f = FiducialResult::default();
    assert!(f.f_id.is_none() && f.fam.is_none() && f.skew.is_none() && f.t6c_ts.is_none());
    assert!(f.t6r_fs.is_none() && f.t6r_fs_orb.is_none() && f.t6r_ts.is_none());
    assert!(f.t6t_cs.is_none() && f.t6t_rs.is_none() && f.ta.is_none() && f.txp.is_none());
    assert!(f.typ.is_none() && f.tx.is_none() && f.ty.is_none() && f.tx_nocross.is_none());
    assert!(f.ty_nocross.is_none() && f.pts.is_none());
    let r = ColorResult::default();
    assert!(r.t6c_ts.is_none() && r.t6r_fs.is_none() && r.t6r_ts.is_none());
    assert!(r.t6t_cs.is_none() && r.t6t_rs.is_none() && r.ta.is_none() && r.txp.is_none());
    assert!(r.typ.is_none() && r.tx.is_none() && r.ty.is_none() && r.tx_nocross.is_none());
    assert!(r.ty_nocross.is_none() && r.pts.is_none());
}

#[test]
fn empty_object_decodes_to_default() {
    let r = LimelightResult::from_json(&value("{}")).unwrap();
    assert_empty(&r);
}

#[test]
fn unknown_members_are_passed_over() {
    let text = r#"{"unknown":1,"TX":2.0,"fiducial":[{"fID":1}],"botposeMT2":[1,2],"nested":{"tx":1}}"#;
    let r = LimelightResult::from_json(&value(text)).unwrap();
    assert_empty(&r);
}

#[test]
fn one_fiducial_is_decoded() {
    let text = r#"{"Fiducial":[{"fID":3,"fam":"16h5","tx":1.5,"ty":-2.0}]}"#;
    let r = parse::<LimelightResult>(text).unwrap();
    assert_eq!(r.fiducial.len(), 1);
    let f = &r.fiducial[0];
    assert_eq!(f.f_id, Some(3));
    assert_eq!(f.fam.as_deref(), Some("16h5"));
    assert_eq!(f.tx, Some(d(1.5)));
    assert_eq!(f.ty, Some(d(-2.0)));
    assert_eq!(f64::from_bits(f.tx.unwrap().to_bits()), 1.5);
    assert_eq!(f64::from_bits(f.ty.unwrap().to_bits()), -2.0);
    assert!(f.skew.is_none() && f.t6c_ts.is_none() && f.t6r_fs.is_none());
    assert!(f.t6r_fs_orb.is_none() && f.t6r_ts.is_none() && f.t6t_cs.is_none());
    assert!(f.t6t_rs.is_none() && f.ta.is_none() && f.txp.is_none() && f.typ.is_none());
    assert!(f.tx_nocross.is_none() && f.ty_nocross.is_none() && f.pts.is_none());
    assert!(r.barcode.is_empty());
    assert!(r.classifier.is_empty());
    assert!(r.detector.is_empty());
    assert!(r.retro.is_empty());
    assert_no_scalars(&r);
}

#[test]
fn mock_results_answer_is_decoded() {
    let response = Response {
        status: 200,
        body: r#"{"Fiducial":[{"fID":3,"fam":"16h5","tx":1.5,"ty":-2.0}]}"#.to_string(),
    };
    let r = response.results().unwrap();
    assert_eq!(r.fiducial.len(), 1);
    assert_eq!(r.fiducial[0].f_id, Some(3));
    assert_eq!(r.fiducial[0].fam.as_deref(), Some("16h5"));
    assert_eq!(r.fiducial[0].tx, Some(d(1.5)));
    assert_eq!(r.fiducial[0].ty, Some(d(-2.0)));
    assert_no_scalars(&r);
}

#[test]
fn top_level_fields_keep_their_wire_keys() {
    let text = r#"{
        "pipeline_type":"fiducial","tx":1.25,"ty":-0.5,"ta":3.0,"cl":11.5,"tl":7.25,
        "ts":1000.5,"v":1,"focus_metric":0.75,
        "botpose":[1.0,2.0,3.0,4.0,5.0,6.0],
        "botpose_wpiblue":[7.0],"botpose_wpired":[8.0],
        "botpose_orb":[9.0,10.0],"botpose_orb_wpiblue":[11.0],"botpose_orb_wpired":[12.0],
        "stdev_mt1":[0.1],"stdev_mt2":[0.2],
        "botpose_tagcount":2,"botpose_span":1.5,"botpose_avgdist":2.5,"botpose_avgarea":0.5,
        "python_out":[1.0,2.0],"txnc":0.25,"tync":-0.25,"pipeline_id":4,"t6c_rs":[0.0,1.0]
    }"#;
    let r = parse::<LimelightResult>(text).unwrap();
    assert_eq!(r.pipeline_type.as_deref(), Some("fiducial"));
    assert_eq!(r.tx, Some(d(1.25)));
    assert_eq!(r.ty, Some(d(-0.5)));
    assert_eq!(r.ta, Some(d(3.0)));
    assert_eq!(r.cl, Some(d(11.5)));
    assert_eq!(r.tl, Some(d(7.25)));
    assert_eq!(r.ts, Some(d(1000.5)));
    assert_eq!(r.v, Some(d(1.0)));
    assert_eq!(r.focus_metric, Some(d(0.75)));
    assert_eq!(r.botpose, Some(vec![d(1.0), d(2.0), d(3.0), d(4.0), d(5.0), d(6.0)]));
    assert_eq!(r.botpose_wpiblue, Some(vec![d(7.0)]));
    assert_eq!(r.botpose_wpired, Some(vec![d(8.0)]));
    assert_eq!(r.botposeMT2, Some(vec![d(9.0), d(10.0)]));
    assert_eq!(r.botposeMT2_wpiblue, Some(vec![d(11.0)]));
    assert_eq!(r.botposeMT2_wpired, Some(vec![d(12.0)]));
    assert_eq!(r.stdev_mt1, Some(vec![d(0.1)]));
    assert_eq!(r.stdev_mt2, Some(vec![d(0.2)]));
    assert_eq!(r.botpose_tagcount, Some(2));
    assert_eq!(r.botpose_span, Some(d(1.5)));
    assert_eq!(r.botpose_avgdist, Some(d(2.5)));
    assert_eq!(r.botpose_avgarea, Some(d(0.5)));
    assert_eq!(r.python_out, Some(vec![d(1.0), d(2.0)]));
    assert_eq!(r.txnc, Some(d(0.25)));
    assert_eq!(r.tync, Some(d(-0.25)));
    assert_eq!(r.pipeline_id, Some(4));
    assert_eq!(r.t6c_rs, Some(vec![d(0.0), d(1.0)]));
    assert!(r.barcode.is_empty() && r.classifier.is_empty() && r.detector.is_empty());
    assert!(r.fiducial.is_empty() && r.retro.is_empty());
}

#[test]
fn mt2_fields_are_not_read_under_their_own_names() {
    let text = r#"{"botposeMT2":[1.0],"botposeMT2_wpiblue":[2.0],"botposeMT2_wpired":[3.0]}"#;
    let r = parse::<LimelightResult>(text).unwrap();
    assert!(r.botposeMT2.is_none());
    assert!(r.botposeMT2_wpiblue.is_none());
    assert!(r.botposeMT2_wpired.is_none());
}

#[test]
fn every_list_is_decoded_in_order() {
    let text = r#"{
        "Barcode":[{"fam":"QR","data":"hello","txp":1.0,"typ":2.0,"tx":3.0,"ty":4.0,
                    "tx_nocross":5.0,"ty_nocross":6.0,"ta":7.0,"pts":[[1.0,2.0],[3.0,4.0]]},
                   {"data":"second"}],
        "Classifier":[{"class":"cone","classID":2,"conf":0.5}],
        "Detector":[{"class":"cube","classID":1,"conf":0.25,"ta":1.0,"txp":2.0,"typ":3.0,
                     "tx":4.0,"ty":5.0,"tx_nocross":6.0,"ty_nocross":7.0,"pts":[[8.0,9.0]]}],
        "Fiducial":[{"fID":7,"fam":"36h11","skew":[0.5],"t6c_ts":[1.0],"t6r_fs":[2.0],
                     "t6r_fs_orb":[3.0],"t6r_ts":[4.0],"t6t_cs":[5.0],"t6t_rs":[6.0],
                     "ta":7.0,"txp":8.0,"typ":9.0,"tx":10.0,"ty":11.0,
                     "tx_nocross":12.0,"ty_nocross":13.0,"pts":[]}],
        "Retro":[{"t6c_ts":[1.0],"t6r_fs":[2.0],"t6r_ts":[3.0],"t6t_cs":[4.0],"t6t_rs":[5.0],
                  "ta":6.0,"txp":7.0,"typ":8.0,"tx":9.0,"ty":10.0,
                  "tx_nocross":11.0,"ty_nocross":12.0,"pts":[[0.0,0.0]]}]
    }"#;
    let r = parse::<LimelightResult>(text).unwrap();
    assert_eq!(r.barcode.len(), 2);
    let b = &r.barcode[0];
    assert_eq!(b.fam.as_deref(), Some("QR"));
    assert_eq!(b.data.as_deref(), Some("hello"));
    assert_eq!(b.txp, Some(d(1.0)));
    assert_eq!(b.typ, Some(d(2.0)));
    assert_eq!(b.tx, Some(d(3.0)));
    assert_eq!(b.ty, Some(d(4.0)));
    assert_eq!(b.tx_nocross, Some(d(5.0)));
    assert_eq!(b.ty_nocross, Some(d(6.0)));
    assert_eq!(b.ta, Some(d(7.0)));
    assert_eq!(b.pts, Some(vec![vec![d(1.0), d(2.0)], vec![d(3.0), d(4.0)]]));
    assert_eq!(r.barcode[1].data.as_deref(), Some("second"));
    assert!(r.barcode[1].fam.is_none());

    assert_eq!(r.classifier.len(), 1);
    assert_eq!(r.classifier[0].class.as_deref(), Some("cone"));
    assert_eq!(r.classifier[0].class_id, Some(2));
    assert_eq!(r.classifier[0].conf, Some(d(0.5)));

    assert_eq!(r.detector.len(), 1);
    let t = &r.detector[0];
    assert_eq!(t.class.as_deref(), Some("cube"));
    assert_eq!(t.class_id, Some(1));
    assert_eq!(t.conf, Some(d(0.25)));
    assert_eq!(t.ta, Some(d(1.0)));
    assert_eq!(t.txp, Some(d(2.0)));
    assert_eq!(t.typ, Some(d(3.0)));
    assert_eq!(t.tx, Some(d(4.0)));
    assert_eq!(t.ty, Some(d(5.0)));
    assert_eq!(t.tx_nocross, Some(d(6.0)));
    assert_eq!(t.ty_nocross, Some(d(7.0)));
    assert_eq!(t.pts, Some(vec![vec![d(8.0), d(9.0)]]));

    assert_eq!(r.fiducial.len(), 1);
    let f = &r.fiducial[0];
    assert_eq!(f.f_id, Some(7));
    assert_eq!(f.fam.as_deref(), Some("36h11"));
    assert_eq!(f.skew, Some(vec![d(0.5)]));
    assert_eq!(f.t6c_ts, Some(vec![d(1.0)]));
    assert_eq!(f.t6r_fs, Some(vec![d(2.0)]));
    assert_eq!(f.t6r_fs_orb, Some(vec![d(3.0)]));
    assert_eq!(f.t6r_ts, Some(vec![d(4.0)]));
    assert_eq!(f.t6t_cs, Some(vec![d(5.0)]));
    assert_eq!(f.t6t_rs, Some(vec![d(6.0)]));
    assert_eq!(f.ta, Some(d(7.0)));
    assert_eq!(f.txp, Some(d(8.0)));
    assert_eq!(f.typ, Some(d(9.0)));
    assert_eq!(f.tx, Some(d(10.0)));
    assert_eq!(f.ty, Some(d(11.0)));
    assert_eq!(f.tx_nocross, Some(d(12.0)));
    assert_eq!(f.ty_nocross, Some(d(13.0)));
    assert_eq!(f.pts, Some(vec![]));

    assert_eq!(r.retro.len(), 1);
    let c = &r.retro[0];
    assert_eq!(c.t6c_ts, Some(vec![d(1.0)]));
    assert_eq!(c.t6r_fs, Some(vec![d(2.0)]));
    assert_eq!(c.t6r_ts, Some(vec![d(3.0)]));
    assert_eq!(c.t6t_cs, Some(vec![d(4.0)]));
    assert_eq!(c.t6t_rs, Some(vec![d(5.0)]));
    assert_eq!(c.ta, Some(d(6.0)));
    assert_eq!(c.txp, Some(d(7.0)));
    assert_eq!(c.typ, Some(d(8.0)));
    assert_eq!(c.tx, Some(d(9.0)));
    assert_eq!(c.ty, Some(d(10.0)));
    assert_eq!(c.tx_nocross, Some(d(11.0)));
    assert_eq!(c.ty_nocross, Some(d(12.0)));
    assert_eq!(c.pts, Some(vec![vec![d(0.0), d(0.0)]]));
    assert_no_scalars(&r);
}

#[test]
fn null_stands_for_an_absent_field() {
    let r = parse::<LimelightResult>(r#"{"tx":null,"botpose":null,"pipeline_id":null}"#).unwrap();
    assert_empty(&r);
    let f = FiducialResult::from_json(&value(r#"{"fID":null,"fam":null,"pts":null}"#)).unwrap();
    assert!(f.f_id.is_none() && f.fam.is_none() && f.pts.is_none());
}

#[test]
fn absent_is_not_zero() {
    let r = parse::<LimelightResult>(r#"{"tx":0.0,"pipeline_id":0}"#).unwrap();
    assert_eq!(r.tx, Some(d(0.0)));
    assert_eq!(r.pipeline_id, Some(0));
    assert!(r.ty.is_none());
    assert!(r.botpose_tagcount.is_none());
}

#[test]
fn integers_are_read_as_doubles() {
    let r = parse::<LimelightResult>(r#"{"tx":3,"ty":-4,"botpose":[1,2.5]}"#).unwrap();
    assert_eq!(r.tx, Some(d(3.0)));
    assert_eq!(r.ty, Some(d(-4.0)));
    assert_eq!(r.botpose, Some(vec![d(1.0), d(2.5)]));
}

#[test]
fn double_decodes_numbers_only() {
    assert_eq!(Double::from_json(&value("1.5")).unwrap(), d(1.5));
    assert_eq!(Double::from_json(&value("-0.0")).unwrap(), d(-0.0));
    assert!(d(0.0) != d(-0.0));
    assert!(matches!(Double::from_json(&value("\"1.5\"")), Err(LimelightError::JsonError(_))));
    assert!(matches!(Double::from_json(&value("null")), Err(LimelightError::JsonError(_))));
    assert!(matches!(Double::from_json(&value("true")), Err(LimelightError::JsonError(_))));
}

#[test]
fn int_decodes_integers_in_range_only() {
    assert_eq!(i32::from_json(&value("3")).unwrap(), 3);
    assert_eq!(i32::from_json(&value("-7")).unwrap(), -7);
    assert_eq!(i32::from_json(&value("2147483647")).unwrap(), i32::MAX);
    assert_eq!(i32::from_json(&value("-2147483648")).unwrap(), i32::MIN);
    assert!(matches!(i32::from_json(&value("2147483648")), Err(LimelightError::JsonError(_))));
    assert!(matches!(i32::from_json(&value("-2147483649")), Err(LimelightError::JsonError(_))));
    assert!(matches!(
        i32::from_json(&value("18446744073709551615")),
        Err(LimelightError::JsonError(_))
    ));
    assert!(matches!(i32::from_json(&value("3.0")), Err(LimelightError::JsonError(_))));
    assert!(matches!(i32::from_json(&value("\"3\"")), Err(LimelightError::JsonError(_))));
}

#[test]
fn string_decodes_strings_only() {
    assert_eq!(String::from_json(&value("\"16h5\"")).unwrap(), "16h5");
    assert_eq!(String::from_json(&value("\"\"")).unwrap(), "");
    assert!(matches!(String::from_json(&value("16")), Err(LimelightError::JsonError(_))));
}

#[test]
fn list_decodes_arrays_only() {
    assert_eq!(Vec::<i32>::from_json(&value("[1,2,3]")).unwrap(), vec![1, 2, 3]);
    assert_eq!(Vec::<i32>::from_json(&value("[]")).unwrap(), Vec::<i32>::new());
    assert!(matches!(Vec::<i32>::from_json(&value("null")), Err(LimelightError::JsonError(_))));
    assert!(matches!(Vec::<i32>::from_json(&value("{}")), Err(LimelightError::JsonError(_))));
    assert!(matches!(
        Vec::<i32>::from_json(&value("[1,\"2\",3]")),
        Err(LimelightError::JsonError(_))
    ));
    assert!(matches!(Vec::<i32>::from_json(&value("[1,null]")), Err(LimelightError::JsonError(_))));
}

#[test]
fn option_decodes_null_as_absent() {
    assert_eq!(Option::<i32>::from_json(&value("null")).unwrap(), None);
    assert_eq!(Option::<i32>::from_json(&value("5")).unwrap(), Some(5));
    assert!(matches!(
        Option::<i32>::from_json(&value("\"5\"")),
        Err(LimelightError::JsonError(_))
    ));
}

#[test]
fn mistyped_field_is_a_schema_error() {
    for text in [
        r#"{"tx":"abc"}"#,
        r#"{"pipeline_id":1.5}"#,
        r#"{"pipeline_id":4294967296}"#,
        r#"{"pipeline_type":5}"#,
        r#"{"botpose":3.0}"#,
        r#"{"botpose":[1.0,"x"]}"#,
        r#"{"botpose":[1.0,null]}"#,
        r#"{"Fiducial":null}"#,
        r#"{"Fiducial":{}}"#,
        r#"{"Fiducial":[3]}"#,
        r#"{"Fiducial":[{"fID":"3"}]}"#,
        r#"{"Fiducial":[{"fID":3},{"pts":[1.0]}]}"#,
        r#"{"Barcode":[{"data":7}]}"#,
        r#"{"Classifier":[{"classID":1.5}]}"#,
        r#"{"Detector":[{"conf":"high"}]}"#,
        r#"{"Retro":[{"pts":[[1.0,"y"]]}]}"#,
        r#"{"t6c_rs":{}}"#,
    ] {
        let r = parse::<LimelightResult>(text);
        assert!(matches!(r, Err(LimelightError::JsonError(_))), "{}", text);
    }
}

#[test]
fn document_that_is_no_object_is_a_schema_error() {
    for text in ["null", "[]", "3", "\"x\"", "true", "[{}]"] {
        let r = parse::<LimelightResult>(text);
        assert!(matches!(r, Err(LimelightError::JsonError(_))), "{}", text);
        let f = parse::<FiducialResult>(text);
        assert!(matches!(f, Err(LimelightError::JsonError(_))), "{}", text);
    }
}

#[test]
fn text_that_is_no_json_is_a_schema_error() {
    for text in ["", "{", "{\"tx\":}", "not json", "{\"tx\":1.0} trailing"] {
        assert!(matches!(parse_document(text), Err(LimelightError::JsonError(_))), "{}", text);
        let r = parse::<LimelightResult>(text);
        assert!(matches!(r, Err(LimelightError::JsonError(_))), "{}", text);
    }
}

#[test]
fn parse_error_carries_a_description() {
    match parse_document("{") {
        Err(LimelightError::JsonError(text)) => assert!(!text.is_empty()),
        _ => panic!("expected a JSON error"),
    }
}

#[test]
fn parsed_document_is_the_document() {
    let v = parse_document(r#"{"a":[1,2,{"b":null}],"c":"d"}"#).unwrap();
    assert_eq!(v, value(r#"{"c":"d","a":[1,2,{"b":null}]}"#));
}

#[test]
fn mismatch_names_what_was_expected() {
    match Double::from_json(&value("\"x\"")) {
        Err(e) => assert_eq!(e.message(), "JSON parsing error: invalid type, expected a number"),
        Ok(_) => panic!("expected an error"),
    }
    match LimelightResult::from_json(&value("[]")) {
        Err(e) => assert_eq!(e.message(), "JSON parsing error: invalid type, expected an object"),
        Ok(_) => panic!("expected an error"),
    }
}

#[test]
fn pts_rows_may_have_any_length() {
    let f = parse::<FiducialResult>(r#"{"pts":[[1.0,2.0],[],[3.0,4.0,5.0]]}"#).unwrap();
    assert_eq!(f.pts, Some(vec![vec![d(1.0), d(2.0)], vec![], vec![d(3.0), d(4.0), d(5.0)]]));
}

#[test]
fn double_keeps_its_bits() {
    for x in [0.0f64, -0.0, 1.5, -2.0, f64::MAX, f64::MIN_POSITIVE, f64::INFINITY] {
        assert_eq!(Double::from_bits(x.to_bits()).to_bits(), x.to_bits());
    }
    assert_eq!(Double::zero().to_bits(), 0.0f64.to_bits());
    let nan = Double::from_bits(f64::NAN.to_bits());
    assert_eq!(nan, nan);
}

#[test]
fn duplicate_is_the_same_snapshot() {
    let text = r#"{
        "Barcode":[{"fam":"QR","data":"hello","pts":[[1.0,2.0],[3.0,4.0]]}],
        "Classifier":[{"class":"cone","classID":2,"conf":0.5}],
        "Detector":[{"class":"cube","classID":1,"tx":4.0}],
        "Fiducial":[{"fID":7,"fam":"36h11","skew":[0.5],"t6r_fs_orb":[3.0]},{"fID":8}],
        "Retro":[{"ta":6.0,"pts":[[0.0,0.0]]}],
        "pipeline_type":"fiducial","tx":1.25,"botpose_orb":[9.0,10.0],"pipeline_id":4
    }"#;
    let r = parse::<LimelightResult>(text).unwrap();
    let c = r.duplicate();
    assert_eq!(c.barcode.len(), 1);
    assert_eq!(c.barcode[0].fam.as_deref(), Some("QR"));
    assert_eq!(c.barcode[0].data.as_deref(), Some("hello"));
    assert_eq!(c.barcode[0].pts, Some(vec![vec![d(1.0), d(2.0)], vec![d(3.0), d(4.0)]]));
    assert!(c.barcode[0].tx.is_none());
    assert_eq!(c.classifier.len(), 1);
    assert_eq!(c.classifier[0].class.as_deref(), Some("cone"));
    assert_eq!(c.classifier[0].class_id, Some(2));
    assert_eq!(c.classifier[0].conf, Some(d(0.5)));
    assert_eq!(c.detector.len(), 1);
    assert_eq!(c.detector[0].class.as_deref(), Some("cube"));
    assert_eq!(c.detector[0].class_id, Some(1));
    assert_eq!(c.detector[0].tx, Some(d(4.0)));
    assert_eq!(c.fiducial.len(), 2);
    assert_eq!(c.fiducial[0].f_id, Some(7));
    assert_eq!(c.fiducial[0].fam.as_deref(), Some("36h11"));
    assert_eq!(c.fiducial[0].skew, Some(vec![d(0.5)]));
    assert_eq!(c.fiducial[0].t6r_fs_orb, Some(vec![d(3.0)]));
    assert_eq!(c.fiducial[1].f_id, Some(8));
    assert!(c.fiducial[1].fam.is_none());
    assert_eq!(c.retro.len(), 1);
    assert_eq!(c.retro[0].ta, Some(d(6.0)));
    assert_eq!(c.retro[0].pts, Some(vec![vec![d(0.0), d(0.0)]]));
    assert_eq!(c.pipeline_type.as_deref(), Some("fiducial"));
    assert_eq!(c.tx, Some(d(1.25)));
    assert_eq!(c.botposeMT2, Some(vec![d(9.0), d(10.0)]));
    assert_eq!(c.pipeline_id, Some(4));
    assert!(c.ty.is_none() && c.botpose.is_none() && c.botpose_tagcount.is_none());
    assert_eq!(r.fiducial.len(), 2);
    assert_eq!(r.pipeline_id, Some(4));
    assert_eq!(LimelightResult::default().duplicate().fiducial.len(), 0);
    assert_eq!(Some(vec![1i32, 2]).duplicate(), Some(vec![1, 2]));
    assert_eq!("16h5".to_string().duplicate(), "16h5");
    assert_eq!(d(-2.0).duplicate(), d(-2.0));
}
