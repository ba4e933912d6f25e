use vstd::prelude::*;

verus! {

/// A trait that only this crate can name, used to seal [`crate::Bool`].
pub trait Private {
}

impl Private for () {
}

} // verus!
