//! Vectors of a fixed number of components.

use std::ops::Add;
use std::ops::Div;
use std::ops::Mul;
use std::ops::Neg;
use std::ops::Sub;
use vstd::prelude::*;

verus! {

/// A vector of `N` components that can be added, subtracted, negated, and
/// scaled by a component.
pub trait Vector<const N: usize>: Sized + Add<Output = Self> + Sub<Output = Self> + Mul<
    Self::Element,
    Output = Self,
> + Div<Self::Element, Output = Self> + Neg<Output = Self> {
    type Element;

    /// Whether the squares of the components can be added up. They can
    /// unless the vector says otherwise here.
    open spec fn measurable(&self) -> bool {
        true
    }

    /// The components of the vector.
    fn as_array(&self) -> &[Self::Element; N];

    /// The components of the vector, for changing them.
    fn as_mut_array(&mut self) -> &mut [Self::Element; N];

    /// The sum of the squares of the components.
    fn magnitude_squared(&self) -> Self::Element
        requires
            self.measurable(),
    ;
}

} // verus!
