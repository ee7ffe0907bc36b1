//! The entries of a snapshot's `Detector` list.

use vstd::prelude::*;
use crate::decode::{Decode, optional_member, read_optional, refuse};
use crate::double::Double;
use crate::duplicate::Duplicate;
use crate::error::LimelightError;
use crate::json::{value_is_object, Json};

verus! {

/// One object found by the neural detector. A field that is absent was not
/// produced by the active pipeline; it does not stand for zero.
#[derive(Clone, Debug)]
pub struct DetectorResult {
    /// Name of the recognised class.
    pub class: Option<String>,
    /// Number of the recognised class. Wire key `classID`.
    pub class_id: Option<i32>,
    /// Confidence of the recognition.
    pub conf: Option<Double>,
    /// Area of the target, as a share of the image.
    pub ta: Option<Double>,
    /// Horizontal position of the target, in pixels.
    pub txp: Option<Double>,
    /// Vertical position of the target, in pixels.
    pub typ: Option<Double>,
    /// Horizontal offset of the target from the crosshair, in degrees.
    pub tx: Option<Double>,
    /// Vertical offset of the target from the crosshair, in degrees.
    pub ty: Option<Double>,
    /// Horizontal offset of the target from the principal pixel, in degrees.
    pub tx_nocross: Option<Double>,
    /// Vertical offset of the target from the principal pixel, in degrees.
    pub ty_nocross: Option<Double>,
    /// Corner points of the target, each a list of coordinates.
    pub pts: Option<Vec<Vec<Double>>>,
}

/// A detector result as a mathematical value.
pub ghost struct DetectorView {
    pub class: Option<Seq<char>>,
    pub class_id: Option<i32>,
    pub conf: Option<Double>,
    pub ta: Option<Double>,
    pub txp: Option<Double>,
    pub typ: Option<Double>,
    pub tx: Option<Double>,
    pub ty: Option<Double>,
    pub tx_nocross: Option<Double>,
    pub ty_nocross: Option<Double>,
    pub pts: Option<Seq<Seq<Double>>>,
}

impl DeepView for DetectorResult {
    type V = DetectorView;

    open spec fn deep_view(&self) -> DetectorView {
        DetectorView {
            class: self.class.deep_view(),
            class_id: self.class_id.deep_view(),
            conf: self.conf.deep_view(),
            ta: self.ta.deep_view(),
            txp: self.txp.deep_view(),
            typ: self.typ.deep_view(),
            tx: self.tx.deep_view(),
            ty: self.ty.deep_view(),
            tx_nocross: self.tx_nocross.deep_view(),
            ty_nocross: self.ty_nocross.deep_view(),
            pts: self.pts.deep_view(),
        }
    }
}

impl View for DetectorResult {
    type V = DetectorView;

    open spec fn view(&self) -> DetectorView {
        self.deep_view()
    }
}

impl DetectorView {
    /// The detector result in which every field is absent.
    pub open spec fn empty() -> DetectorView {
        DetectorView {
            class: None,
            class_id: None,
            conf: None,
            ta: None,
            txp: None,
            typ: None,
            tx: None,
            ty: None,
            tx_nocross: None,
            ty_nocross: None,
            pts: None,
        }
    }
}

impl Default for DetectorResult {
    fn default() -> (r: Self)
        ensures
            r@ == DetectorView::empty(),
    {
        let r = DetectorResult {
            class: None,
            class_id: None,
            conf: None,
            ta: None,
            txp: None,
            typ: None,
            tx: None,
            ty: None,
            tx_nocross: None,
            ty_nocross: None,
            pts: None,
        };
        r
    }
}

impl Duplicate for DetectorResult {
    fn duplicate(&self) -> (r: Self) {
        DetectorResult {
            class: self.class.duplicate(),
            class_id: self.class_id.duplicate(),
            conf: self.conf.duplicate(),
            ta: self.ta.duplicate(),
            txp: self.txp.duplicate(),
            typ: self.typ.duplicate(),
            tx: self.tx.duplicate(),
            ty: self.ty.duplicate(),
            tx_nocross: self.tx_nocross.duplicate(),
            ty_nocross: self.ty_nocross.duplicate(),
            pts: self.pts.duplicate(),
        }
    }
}

impl Decode for DetectorResult {
    /// An object in which each known member is absent, `null` or of the type
    /// of its field. Members under other keys are passed over.
    open spec fn decode(j: Json) -> Option<DetectorView> {
        if j is Object
            && optional_member::<String>(j, "class"@) is Some
            && optional_member::<i32>(j, "classID"@) is Some
            && optional_member::<Double>(j, "conf"@) is Some
            && optional_member::<Double>(j, "ta"@) is Some
            && optional_member::<Double>(j, "txp"@) is Some
            && optional_member::<Double>(j, "typ"@) is Some
            && optional_member::<Double>(j, "tx"@) is Some
            && optional_member::<Double>(j, "ty"@) is Some
            && optional_member::<Double>(j, "tx_nocross"@) is Some
            && optional_member::<Double>(j, "ty_nocross"@) is Some
            && optional_member::<Vec<Vec<Double>>>(j, "pts"@) is Some
        {
            Some(
                DetectorView {
                    class: optional_member::<String>(j, "class"@)->0,
                    class_id: optional_member::<i32>(j, "classID"@)->0,
                    conf: optional_member::<Double>(j, "conf"@)->0,
                    ta: optional_member::<Double>(j, "ta"@)->0,
                    txp: optional_member::<Double>(j, "txp"@)->0,
                    typ: optional_member::<Double>(j, "typ"@)->0,
                    tx: optional_member::<Double>(j, "tx"@)->0,
                    ty: optional_member::<Double>(j, "ty"@)->0,
                    tx_nocross: optional_member::<Double>(j, "tx_nocross"@)->0,
                    ty_nocross: optional_member::<Double>(j, "ty_nocross"@)->0,
                    pts: optional_member::<Vec<Vec<Double>>>(j, "pts"@)->0,
                },
            )
        } else {
            None
        }
    }

    fn from_json(value: &serde_json::Value) -> (r: Result<Self, LimelightError>) {
        if !value_is_object(value) {
            return Err(refuse("an object"));
        }
        let class = read_optional::<String>(value, "class")?;
        let class_id = read_optional::<i32>(value, "classID")?;
        let conf = read_optional::<Double>(value, "conf")?;
        let ta = read_optional::<Double>(value, "ta")?;
        let txp = read_optional::<Double>(value, "txp")?;
        let typ = read_optional::<Double>(value, "typ")?;
        let tx = read_optional::<Double>(value, "tx")?;
        let ty = read_optional::<Double>(value, "ty")?;
        let tx_nocross = read_optional::<Double>(value, "tx_nocross")?;
        let ty_nocross = read_optional::<Double>(value, "ty_nocross")?;
        let pts = read_optional::<Vec<Vec<Double>>>(value, "pts")?;
        Ok(DetectorResult {
            class,
            class_id,
            conf,
            ta,
            txp,
            typ,
            tx,
            ty,
            tx_nocross,
            ty_nocross,
            pts,
        })
    }
}

} // verus!
