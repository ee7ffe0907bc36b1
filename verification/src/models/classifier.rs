//! The entries of a snapshot's `Classifier` list.

use vstd::prelude::*;
use crate::decode::{Decode, optional_member, read_optional, refuse};
use crate::double::Double;
use crate::duplicate::Duplicate;
use crate::error::LimelightError;
use crate::json::{value_is_object, Json};

verus! {

/// One verdict of the neural classifier. A field that is absent was not
/// produced by the active pipeline; it does not stand for zero.
#[derive(Clone, Debug)]
pub struct ClassifierResult {
    /// Name of the recognised class.
    pub class: Option<String>,
    /// Number of the recognised class. Wire key `classID`.
    pub class_id: Option<i32>,
    /// Confidence of the recognition.
    pub conf: Option<Double>,
}

/// A classifier result as a mathematical value.
pub ghost struct ClassifierView {
    pub class: Option<Seq<char>>,
    pub class_id: Option<i32>,
    pub conf: Option<Double>,
}

impl DeepView for ClassifierResult {
    type V = ClassifierView;

    open spec fn deep_view(&self) -> ClassifierView {
        ClassifierView {
            class: self.class.deep_view(),
            class_id: self.class_id.deep_view(),
            conf: self.conf.deep_view(),
        }
    }
}

impl View for ClassifierResult {
    type V = ClassifierView;

    open spec fn view(&self) -> ClassifierView {
        self.deep_view()
    }
}

impl ClassifierView {
    /// The classifier result in which every field is absent.
    pub open spec fn empty() -> ClassifierView {
        ClassifierView {
            class: None,
            class_id: None,
            conf: None,
        }
    }
}

impl Default for ClassifierResult {
    fn default() -> (r: Self)
        ensures
            r@ == ClassifierView::empty(),
    {
        let r = ClassifierResult {
            class: None,
            class_id: None,
            conf: None,
        };
        r
    }
}

impl Duplicate for ClassifierResult {
    fn duplicate(&self) -> (r: Self) {
        ClassifierResult {
            class: self.class.duplicate(),
            class_id: self.class_id.duplicate(),
            conf: self.conf.duplicate(),
        }
    }
}

impl Decode for ClassifierResult {
    /// An object in which each known member is absent, `null` or of the type
    /// of its field. Members under other keys are passed over.
    open spec fn decode(j: Json) -> Option<ClassifierView> {
        if j is Object
            && optional_member::<String>(j, "class"@) is Some
            && optional_member::<i32>(j, "classID"@) is Some
            && optional_member::<Double>(j, "conf"@) is Some
        {
            Some(
                ClassifierView {
                    class: optional_member::<String>(j, "class"@)->0,
                    class_id: optional_member::<i32>(j, "classID"@)->0,
                    conf: optional_member::<Double>(j, "conf"@)->0,
                },
            )
        } else {
            None
        }
    }

    fn from_json(value: &serde_json::Value) -> (r: Result<Self, LimelightError>) {
        if !value_is_object(value) {
            return Err(refuse("an object"));
        }
        let class = read_optional::<String>(value, "class")?;
        let class_id = read_optional::<i32>(value, "classID")?;
        let conf = read_optional::<Double>(value, "conf")?;
        Ok(ClassifierResult {
            class,
            class_id,
            conf,
        })
    }
}

} // verus!
