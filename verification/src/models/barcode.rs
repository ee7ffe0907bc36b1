//! The entries of a snapshot's `Barcode` list.

use vstd::prelude::*;
use crate::decode::{Decode, optional_member, read_optional, refuse};
use crate::double::Double;
use crate::duplicate::Duplicate;
use crate::error::LimelightError;
use crate::json::{value_is_object, Json};

verus! {

/// One barcode that the camera has read. A field that is absent was not
/// produced by the active pipeline; it does not stand for zero.
#[derive(Clone, Debug)]
pub struct BarcodeResult {
    /// Family of the code or marker.
    pub fam: Option<String>,
    /// Content of the barcode.
    pub data: Option<String>,
    /// Horizontal position of the target, in pixels.
    pub txp: Option<Double>,
    /// Vertical position of the target, in pixels.
    pub typ: Option<Double>,
    /// Horizontal offset of the target from the crosshair, in degrees.
    pub tx: Option<Double>,
    /// Vertical offset of the target from the crosshair, in degrees.
    pub ty: Option<Double>,
    /// Horizontal offset of the target from the principal pixel, in degrees.
    pub tx_nocross: Option<Double>,
    /// Vertical offset of the target from the principal pixel, in degrees.
    pub ty_nocross: Option<Double>,
    /// Area of the target, as a share of the image.
    pub ta: Option<Double>,
    /// Corner points of the target, each a list of coordinates.
    pub pts: Option<Vec<Vec<Double>>>,
}

/// A barcode as a mathematical value.
pub ghost struct BarcodeView {
    pub fam: Option<Seq<char>>,
    pub data: Option<Seq<char>>,
    pub txp: Option<Double>,
    pub typ: Option<Double>,
    pub tx: Option<Double>,
    pub ty: Option<Double>,
    pub tx_nocross: Option<Double>,
    pub ty_nocross: Option<Double>,
    pub ta: Option<Double>,
    pub pts: Option<Seq<Seq<Double>>>,
}

impl DeepView for BarcodeResult {
    type V = BarcodeView;

    open spec fn deep_view(&self) -> BarcodeView {
        BarcodeView {
            fam: self.fam.deep_view(),
            data: self.data.deep_view(),
            txp: self.txp.deep_view(),
            typ: self.typ.deep_view(),
            tx: self.tx.deep_view(),
            ty: self.ty.deep_view(),
            tx_nocross: self.tx_nocross.deep_view(),
            ty_nocross: self.ty_nocross.deep_view(),
            ta: self.ta.deep_view(),
            pts: self.pts.deep_view(),
        }
    }
}

impl View for BarcodeResult {
    type V = BarcodeView;

    open spec fn view(&self) -> BarcodeView {
        self.deep_view()
    }
}

impl BarcodeView {
    /// The barcode in which every field is absent.
    pub open spec fn empty() -> BarcodeView {
        BarcodeView {
            fam: None,
            data: None,
            txp: None,
            typ: None,
            tx: None,
            ty: None,
            tx_nocross: None,
            ty_nocross: None,
            ta: None,
            pts: None,
        }
    }
}

impl Default for BarcodeResult {
    fn default() -> (r: Self)
        ensures
            r@ == BarcodeView::empty(),
    {
        let r = BarcodeResult {
            fam: None,
            data: None,
            txp: None,
            typ: None,
            tx: None,
            ty: None,
            tx_nocross: None,
            ty_nocross: None,
            ta: None,
            pts: None,
        };
        r
    }
}

impl Duplicate for BarcodeResult {
    fn duplicate(&self) -> (r: Self) {
        BarcodeResult {
            fam: self.fam.duplicate(),
            data: self.data.duplicate(),
            txp: self.txp.duplicate(),
            typ: self.typ.duplicate(),
            tx: self.tx.duplicate(),
            ty: self.ty.duplicate(),
            tx_nocross: self.tx_nocross.duplicate(),
            ty_nocross: self.ty_nocross.duplicate(),
            ta: self.ta.duplicate(),
            pts: self.pts.duplicate(),
        }
    }
}

impl Decode for BarcodeResult {
    /// An object in which each known member is absent, `null` or of the type
    /// of its field. Members under other keys are passed over.
    open spec fn decode(j: Json) -> Option<BarcodeView> {
        if j is Object
            && optional_member::<String>(j, "fam"@) is Some
            && optional_member::<String>(j, "data"@) is Some
            && optional_member::<Double>(j, "txp"@) is Some
            && optional_member::<Double>(j, "typ"@) is Some
            && optional_member::<Double>(j, "tx"@) is Some
            && optional_member::<Double>(j, "ty"@) is Some
            && optional_member::<Double>(j, "tx_nocross"@) is Some
            && optional_member::<Double>(j, "ty_nocross"@) is Some
            && optional_member::<Double>(j, "ta"@) is Some
            && optional_member::<Vec<Vec<Double>>>(j, "pts"@) is Some
        {
            Some(
                BarcodeView {
                    fam: optional_member::<String>(j, "fam"@)->0,
                    data: optional_member::<String>(j, "data"@)->0,
                    txp: optional_member::<Double>(j, "txp"@)->0,
                    typ: optional_member::<Double>(j, "typ"@)->0,
                    tx: optional_member::<Double>(j, "tx"@)->0,
                    ty: optional_member::<Double>(j, "ty"@)->0,
                    tx_nocross: optional_member::<Double>(j, "tx_nocross"@)->0,
                    ty_nocross: optional_member::<Double>(j, "ty_nocross"@)->0,
                    ta: optional_member::<Double>(j, "ta"@)->0,
                    pts: optional_member::<Vec<Vec<Double>>>(j, "pts"@)->0,
                },
            )
        } else {
            None
        }
    }

    fn from_json(value: &serde_json::Value) -> (r: Result<Self, LimelightError>) {
        if !value_is_object(value) {
            return Err(refuse("an object"));
        }
        let fam = read_optional::<String>(value, "fam")?;
        let data = read_optional::<String>(value, "data")?;
        let txp = read_optional::<Double>(value, "txp")?;
        let typ = read_optional::<Double>(value, "typ")?;
        let tx = read_optional::<Double>(value, "tx")?;
        let ty = read_optional::<Double>(value, "ty")?;
        let tx_nocross = read_optional::<Double>(value, "tx_nocross")?;
        let ty_nocross = read_optional::<Double>(value, "ty_nocross")?;
        let ta = read_optional::<Double>(value, "ta")?;
        let pts = read_optional::<Vec<Vec<Double>>>(value, "pts")?;
        Ok(BarcodeResult {
            fam,
            data,
            txp,
            typ,
            tx,
            ty,
            tx_nocross,
            ty_nocross,
            ta,
            pts,
        })
    }
}

} // verus!
