//! Copies whose equality with what they were made from is proved. A snapshot
//! is kept by the client and handed to the subscribers as well, so the two
//! have to be the same snapshot.

use vstd::prelude::*;
use vstd::string::*;
use crate::double::Double;

verus! {

/// A type of which equal copies can be made.
pub trait Duplicate: Sized + DeepView {
    /// A copy that stands for the same value.
    fn duplicate(&self) -> (r: Self)
        ensures
            r.deep_view() == self.deep_view(),
    ;
}

impl Duplicate for Double {
    fn duplicate(&self) -> (r: Self) {
        Double { bits: self.bits }
    }
}

impl Duplicate for i32 {
    fn duplicate(&self) -> (r: Self) {
        *self
    }
}

impl Duplicate for String {
    fn duplicate(&self) -> (r: Self) {
        self.clone()
    }
}

impl<T: Duplicate> Duplicate for Vec<T> {
    fn duplicate(&self) -> (r: Self) {
        let mut out: Vec<T> = Vec::new();
        let mut i: usize = 0;
        while i < self.len()
            invariant
                i <= self.len(),
                out.len() == i,
                forall|k: int| 0 <= k < i ==> (#[trigger] out@[k]).deep_view() == self@[k].deep_view(),
            decreases self.len() - i,
        {
            out.push(self[i].duplicate());
            i += 1;
        }
        assert(out.deep_view() =~= self.deep_view());
        out
    }
}

impl<T: Duplicate> Duplicate for Option<T> {
    fn duplicate(&self) -> (r: Self) {
        match self {
            Some(x) => Some(x.duplicate()),
            None => None,
        }
    }
}

} // verus!
