use vstd::prelude::*;

verus! {

/// Conversion of a value into its counterpart of another type.
pub trait Convert<U> {
    fn conv(&self) -> U;
}

} // verus!
