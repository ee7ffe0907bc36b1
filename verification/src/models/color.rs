//! The entries of a snapshot's `Retro` list.

use vstd::prelude::*;
use crate::decode::{Decode, optional_member, read_optional, refuse};
use crate::double::Double;
use crate::duplicate::Duplicate;
use crate::error::LimelightError;
use crate::json::{value_is_object, Json};

verus! {

/// One target of the color or retroreflective pipeline. A field that is
/// absent was not produced by the active pipeline; it does not stand for
/// zero.
#[derive(Clone, Debug)]
pub struct ColorResult {
    /// Pose of the camera in the space of the target.
    pub t6c_ts: Option<Vec<Double>>,
    /// Pose of the robot in the space of the field.
    pub t6r_fs: Option<Vec<Double>>,
    /// Pose of the robot in the space of the target.
    pub t6r_ts: Option<Vec<Double>>,
    /// Pose of the target in the space of the camera.
    pub t6t_cs: Option<Vec<Double>>,
    /// Pose of the target in the space of the robot.
    pub t6t_rs: Option<Vec<Double>>,
    /// Area of the target, as a share of the image.
    pub ta: Option<Double>,
    /// Horizontal position of the target, in pixels.
    pub txp: Option<Double>,
    /// Vertical position of the target, in pixels.
    pub typ: Option<Double>,
    /// Horizontal offset of the target from the crosshair, in degrees.
    pub tx: Option<Double>,
    /// Vertical offset of the target from the crosshair, in degrees.
    pub ty: Option<Double>,
    /// Horizontal offset of the target from the principal pixel, in degrees.
    pub tx_nocross: Option<Double>,
    /// Vertical offset of the target from the principal pixel, in degrees.
    pub ty_nocross: Option<Double>,
    /// Corner points of the target, each a list of coordinates.
    pub pts: Option<Vec<Vec<Double>>>,
}

/// A color result as a mathematical value.
pub ghost struct ColorView {
    pub t6c_ts: Option<Seq<Double>>,
    pub t6r_fs: Option<Seq<Double>>,
    pub t6r_ts: Option<Seq<Double>>,
    pub t6t_cs: Option<Seq<Double>>,
    pub t6t_rs: Option<Seq<Double>>,
    pub ta: Option<Double>,
    pub txp: Option<Double>,
    pub typ: Option<Double>,
    pub tx: Option<Double>,
    pub ty: Option<Double>,
    pub tx_nocross: Option<Double>,
    pub ty_nocross: Option<Double>,
    pub pts: Option<Seq<Seq<Double>>>,
}

impl DeepView for ColorResult {
    type V = ColorView;

    open spec fn deep_view(&self) -> ColorView {
        ColorView {
            t6c_ts: self.t6c_ts.deep_view(),
            t6r_fs: self.t6r_fs.deep_view(),
            t6r_ts: self.t6r_ts.deep_view(),
            t6t_cs: self.t6t_cs.deep_view(),
            t6t_rs: self.t6t_rs.deep_view(),
            ta: self.ta.deep_view(),
            txp: self.txp.deep_view(),
            typ: self.typ.deep_view(),
            tx: self.tx.deep_view(),
            ty: self.ty.deep_view(),
            tx_nocross: self.tx_nocross.deep_view(),
            ty_nocross: self.ty_nocross.deep_view(),
            pts: self.pts.deep_view(),
        }
    }
}

impl View for ColorResult {
    type V = ColorView;

    open spec fn view(&self) -> ColorView {
        self.deep_view()
    }
}

impl ColorView {
    /// The color result in which every field is absent.
    pub open spec fn empty() -> ColorView {
        ColorView {
            t6c_ts: None,
            t6r_fs: None,
            t6r_ts: None,
            t6t_cs: None,
            t6t_rs: None,
            ta: None,
            txp: None,
            typ: None,
            tx: None,
            ty: None,
            tx_nocross: None,
            ty_nocross: None,
            pts: None,
        }
    }
}

impl Default for ColorResult {
    fn default() -> (r: Self)
        ensures
            r@ == ColorView::empty(),
    {
        let r = ColorResult {
            t6c_ts: None,
            t6r_fs: None,
            t6r_ts: None,
            t6t_cs: None,
            t6t_rs: None,
            ta: None,
            txp: None,
            typ: None,
            tx: None,
            ty: None,
            tx_nocross: None,
            ty_nocross: None,
            pts: None,
        };
        r
    }
}

impl Duplicate for ColorResult {
    fn duplicate(&self) -> (r: Self) {
        ColorResult {
            t6c_ts: self.t6c_ts.duplicate(),
            t6r_fs: self.t6r_fs.duplicate(),
            t6r_ts: self.t6r_ts.duplicate(),
            t6t_cs: self.t6t_cs.duplicate(),
            t6t_rs: self.t6t_rs.duplicate(),
            ta: self.ta.duplicate(),
            txp: self.txp.duplicate(),
            typ: self.typ.duplicate(),
            tx: self.tx.duplicate(),
            ty: self.ty.duplicate(),
            tx_nocross: self.tx_nocross.duplicate(),
            ty_nocross: self.ty_nocross.duplicate(),
            pts: self.pts.duplicate(),
        }
    }
}

impl Decode for ColorResult {
    /// An object in which each known member is absent, `null` or of the type
    /// of its field. Members under other keys are passed over.
    open spec fn decode(j: Json) -> Option<ColorView> {
        if j is Object
            && optional_member::<Vec<Double>>(j, "t6c_ts"@) is Some
            && optional_member::<Vec<Double>>(j, "t6r_fs"@) is Some
            && optional_member::<Vec<Double>>(j, "t6r_ts"@) is Some
            && optional_member::<Vec<Double>>(j, "t6t_cs"@) is Some
            && optional_member::<Vec<Double>>(j, "t6t_rs"@) is Some
            && optional_member::<Double>(j, "ta"@) is Some
            && optional_member::<Double>(j, "txp"@) is Some
            && optional_member::<Double>(j, "typ"@) is Some
            && optional_member::<Double>(j, "tx"@) is Some
            && optional_member::<Double>(j, "ty"@) is Some
            && optional_member::<Double>(j, "tx_nocross"@) is Some
            && optional_member::<Double>(j, "ty_nocross"@) is Some
            && optional_member::<Vec<Vec<Double>>>(j, "pts"@) is Some
        {
            Some(
                ColorView {
                    t6c_ts: optional_member::<Vec<Double>>(j, "t6c_ts"@)->0,
                    t6r_fs: optional_member::<Vec<Double>>(j, "t6r_fs"@)->0,
                    t6r_ts: optional_member::<Vec<Double>>(j, "t6r_ts"@)->0,
                    t6t_cs: optional_member::<Vec<Double>>(j, "t6t_cs"@)->0,
                    t6t_rs: optional_member::<Vec<Double>>(j, "t6t_rs"@)->0,
                    ta: optional_member::<Double>(j, "ta"@)->0,
                    txp: optional_member::<Double>(j, "txp"@)->0,
                    typ: optional_member::<Double>(j, "typ"@)->0,
                    tx: optional_member::<Double>(j, "tx"@)->0,
                    ty: optional_member::<Double>(j, "ty"@)->0,
                    tx_nocross: optional_member::<Double>(j, "tx_nocross"@)->0,
                    ty_nocross: optional_member::<Double>(j, "ty_nocross"@)->0,
                    pts: optional_member::<Vec<Vec<Double>>>(j, "pts"@)->0,
                },
            )
        } else {
            None
        }
    }

    fn from_json(value: &serde_json::Value) -> (r: Result<Self, LimelightError>) {
        if !value_is_object(value) {
            return Err(refuse("an object"));
        }
        let t6c_ts = read_optional::<Vec<Double>>(value, "t6c_ts")?;
        let t6r_fs = read_optional::<Vec<Double>>(value, "t6r_fs")?;
        let t6r_ts = read_optional::<Vec<Double>>(value, "t6r_ts")?;
        let t6t_cs = read_optional::<Vec<Double>>(value, "t6t_cs")?;
        let t6t_rs = read_optional::<Vec<Double>>(value, "t6t_rs")?;
        let ta = read_optional::<Double>(value, "ta")?;
        let txp = read_optional::<Double>(value, "txp")?;
        let typ = read_optional::<Double>(value, "typ")?;
        let tx = read_optional::<Double>(value, "tx")?;
        let ty = read_optional::<Double>(value, "ty")?;
        let tx_nocross = read_optional::<Double>(value, "tx_nocross")?;
        let ty_nocross = read_optional::<Double>(value, "ty_nocross")?;
        let pts = read_optional::<Vec<Vec<Double>>>(value, "pts")?;
        Ok(ColorResult {
            t6c_ts,
            t6r_fs,
            t6r_ts,
            t6t_cs,
            t6t_rs,
            ta,
            txp,
            typ,
            tx,
            ty,
            tx_nocross,
            ty_nocross,
            pts,
        })
    }
}

} // verus!
