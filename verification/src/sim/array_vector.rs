//! A vector whose components are kept in an array.

use std::ops::Add;
use std::ops::Div;
use std::ops::Mul;
use std::ops::Neg;
use std::ops::Sub;
use vstd::prelude::*;
use vstd::std_specs::ops::AddSpec;
use vstd::std_specs::ops::AddSpecImpl;
use vstd::std_specs::ops::DivSpec;
use vstd::std_specs::ops::DivSpecImpl;
use vstd::std_specs::ops::MulSpec;
use vstd::std_specs::ops::MulSpecImpl;
use vstd::std_specs::ops::NegSpec;
use vstd::std_specs::ops::NegSpecImpl;
use vstd::std_specs::ops::SubSpec;
use vstd::std_specs::ops::SubSpecImpl;

use crate::sim::vector::Vector;

verus! {

/// A vector of `N` components, kept in an array.
#[derive(Clone, Copy, Debug)]
pub struct ArrayVector<T, const N: usize>(pub [T; N]);

impl<T, const N: usize> View for ArrayVector<T, N> {
    type V = Seq<T>;

    /// The components of the vector, in order.
    open spec fn view(&self) -> Seq<T> {
        self.0@
    }
}

/// What `add` asks of its operands: that the components can be combined one
/// by one. The result is stated with the method.
impl<T: Copy + Add<Output = T>, const N: usize> AddSpecImpl for ArrayVector<T, N> {
    open spec fn obeys_add_spec() -> bool {
        false
    }

    open spec fn add_req(self, rhs: Self) -> bool {
        forall|i: int| 0 <= i < N ==> (#[trigger] self@[i]).add_req(rhs@[i])
    }

    open spec fn add_spec(self, rhs: Self) -> Self {
        self
    }
}

impl<T: Copy + Add<Output = T>, const N: usize> Add for ArrayVector<T, N> {
    type Output = Self;

    /// The sum, component by component.
    fn add(self, rhs: Self) -> (out: Self)
        ensures
            T::obeys_add_spec() ==> forall|i: int|
                0 <= i < N ==> out@[i] == (#[trigger] self@[i]).add_spec(rhs@[i]),
    {
        let mut out: [T; N] = self.0;
        let mut i: usize = 0;
        while i < N
            invariant
                i <= N,
                forall|k: int| i <= k < N ==> out@[k] == self@[k],
                forall|k: int| 0 <= k < N ==> (#[trigger] self@[k]).add_req(rhs@[k]),
                T::obeys_add_spec() ==> forall|k: int|
                    0 <= k < i ==> out@[k] == (#[trigger] self@[k]).add_spec(rhs@[k]),
            decreases N - i,
        {
            out[i] = out[i] + rhs.0[i];
            i = i + 1;
        }
        ArrayVector(out)
    }
}

/// What `sub` asks of its operands: that the components can be combined one
/// by one. The result is stated with the method.
impl<T: Copy + Sub<Output = T>, const N: usize> SubSpecImpl for ArrayVector<T, N> {
    open spec fn obeys_sub_spec() -> bool {
        false
    }

    open spec fn sub_req(self, rhs: Self) -> bool {
        forall|i: int| 0 <= i < N ==> (#[trigger] self@[i]).sub_req(rhs@[i])
    }

    open spec fn sub_spec(self, rhs: Self) -> Self {
        self
    }
}

impl<T: Copy + Sub<Output = T>, const N: usize> Sub for ArrayVector<T, N> {
    type Output = Self;

    /// The difference, component by component.
    fn sub(self, rhs: Self) -> (out: Self)
        ensures
            T::obeys_sub_spec() ==> forall|i: int|
                0 <= i < N ==> out@[i] == (#[trigger] self@[i]).sub_spec(rhs@[i]),
    {
        let mut out: [T; N] = self.0;
        let mut i: usize = 0;
        while i < N
            invariant
                i <= N,
                forall|k: int| i <= k < N ==> out@[k] == self@[k],
                forall|k: int| 0 <= k < N ==> (#[trigger] self@[k]).sub_req(rhs@[k]),
                T::obeys_sub_spec() ==> forall|k: int|
                    0 <= k < i ==> out@[k] == (#[trigger] self@[k]).sub_spec(rhs@[k]),
            decreases N - i,
        {
            out[i] = out[i].sub(rhs.0[i]);
            i = i + 1;
        }
        ArrayVector(out)
    }
}

/// What `mul` asks of its operands: that the components can be combined one
/// by one. The result is stated with the method.
impl<T: Copy + Mul<Output = T>, const N: usize> MulSpecImpl<T> for ArrayVector<T, N> {
    open spec fn obeys_mul_spec() -> bool {
        false
    }

    open spec fn mul_req(self, rhs: T) -> bool {
        forall|i: int| 0 <= i < N ==> (#[trigger] self@[i]).mul_req(rhs)
    }

    open spec fn mul_spec(self, rhs: T) -> Self {
        self
    }
}

impl<T: Copy + Mul<Output = T>, const N: usize> Mul<T> for ArrayVector<T, N> {
    type Output = Self;

    /// The vector with each component multiplied by `rhs`.
    fn mul(self, rhs: T) -> (out: Self)
        ensures
            T::obeys_mul_spec() ==> forall|i: int|
                0 <= i < N ==> out@[i] == (#[trigger] self@[i]).mul_spec(rhs),
    {
        let mut out: [T; N] = self.0;
        let mut i: usize = 0;
        while i < N
            invariant
                i <= N,
                forall|k: int| i <= k < N ==> out@[k] == self@[k],
                forall|k: int| 0 <= k < N ==> (#[trigger] self@[k]).mul_req(rhs),
                T::obeys_mul_spec() ==> forall|k: int|
                    0 <= k < i ==> out@[k] == (#[trigger] self@[k]).mul_spec(rhs),
            decreases N - i,
        {
            out[i] = out[i].mul(rhs);
            i = i + 1;
        }
        ArrayVector(out)
    }
}

/// What `div` asks of its operands: that the components can be combined one
/// by one. The result is stated with the method.
impl<T: Copy + Div<Output = T>, const N: usize> DivSpecImpl<T> for ArrayVector<T, N> {
    open spec fn obeys_div_spec() -> bool {
        false
    }

    open spec fn div_req(self, rhs: T) -> bool {
        forall|i: int| 0 <= i < N ==> (#[trigger] self@[i]).div_req(rhs)
    }

    open spec fn div_spec(self, rhs: T) -> Self {
        self
    }
}

impl<T: Copy + Div<Output = T>, const N: usize> Div<T> for ArrayVector<T, N> {
    type Output = Self;

    /// The vector with each component divided by `rhs`.
    fn div(self, rhs: T) -> (out: Self)
        ensures
            T::obeys_div_spec() ==> forall|i: int|
                0 <= i < N ==> out@[i] == (#[trigger] self@[i]).div_spec(rhs),
    {
        let mut out: [T; N] = self.0;
        let mut i: usize = 0;
        while i < N
            invariant
                i <= N,
                forall|k: int| i <= k < N ==> out@[k] == self@[k],
                forall|k: int| 0 <= k < N ==> (#[trigger] self@[k]).div_req(rhs),
                T::obeys_div_spec() ==> forall|k: int|
                    0 <= k < i ==> out@[k] == (#[trigger] self@[k]).div_spec(rhs),
            decreases N - i,
        {
            out[i] = out[i].div(rhs);
            i = i + 1;
        }
        ArrayVector(out)
    }
}

/// What `neg` asks of its operand: that each component can be negated. The
/// result is stated with the method.
impl<T: Copy + Neg<Output = T>, const N: usize> NegSpecImpl for ArrayVector<T, N> {
    open spec fn obeys_neg_spec() -> bool {
        false
    }

    open spec fn neg_req(self) -> bool {
        forall|i: int| 0 <= i < N ==> (#[trigger] self@[i]).neg_req()
    }

    open spec fn neg_spec(self) -> Self {
        self
    }
}

impl<T: Copy + Neg<Output = T>, const N: usize> Neg for ArrayVector<T, N> {
    type Output = Self;

    /// The vector with each component negated.
    fn neg(self) -> (out: Self)
        ensures
            T::obeys_neg_spec() ==> forall|i: int|
                0 <= i < N ==> out@[i] == (#[trigger] self@[i]).neg_spec(),
    {
        let mut out: [T; N] = self.0;
        let mut i: usize = 0;
        while i < N
            invariant
                i <= N,
                forall|k: int| i <= k < N ==> out@[k] == self@[k],
                forall|k: int| 0 <= k < N ==> (#[trigger] self@[k]).neg_req(),
                T::obeys_neg_spec() ==> forall|k: int|
                    0 <= k < i ==> out@[k] == (#[trigger] self@[k]).neg_spec(),
            decreases N - i,
        {
            out[i] = out[i].neg();
            i = i + 1;
        }
        ArrayVector(out)
    }
}

impl<T: Copy + Add<Output = T>, const N: usize> ArrayVector<T, N> {
    /// Adds `rhs` to this vector, component by component.
    pub fn add_assign(&mut self, rhs: Self)
        requires
            forall|i: int| 0 <= i < N ==> (#[trigger] old(self)@[i]).add_req(rhs@[i]),
        ensures
            T::obeys_add_spec() ==> forall|i: int|
                0 <= i < N ==> final(self)@[i] == (#[trigger] old(self)@[i]).add_spec(rhs@[i]),
    {
        *self = *self + rhs;
    }
}

impl<T: Copy + Sub<Output = T>, const N: usize> ArrayVector<T, N> {
    /// Subtracts `rhs` from this vector, component by component.
    pub fn sub_assign(&mut self, rhs: Self)
        requires
            forall|i: int| 0 <= i < N ==> (#[trigger] old(self)@[i]).sub_req(rhs@[i]),
        ensures
            T::obeys_sub_spec() ==> forall|i: int|
                0 <= i < N ==> final(self)@[i] == (#[trigger] old(self)@[i]).sub_spec(rhs@[i]),
    {
        *self = (*self).sub(rhs);
    }
}

impl<T: Copy + Mul<Output = T>, const N: usize> ArrayVector<T, N> {
    /// Multiplies by `rhs` each component of this vector.
    pub fn mul_assign(&mut self, rhs: T)
        requires
            forall|i: int| 0 <= i < N ==> (#[trigger] old(self)@[i]).mul_req(rhs),
        ensures
            T::obeys_mul_spec() ==> forall|i: int|
                0 <= i < N ==> final(self)@[i] == (#[trigger] old(self)@[i]).mul_spec(rhs),
    {
        *self = (*self).mul(rhs);
    }
}

impl<T: Copy + Div<Output = T>, const N: usize> ArrayVector<T, N> {
    /// Divides by `rhs` each component of this vector.
    pub fn div_assign(&mut self, rhs: T)
        requires
            forall|i: int| 0 <= i < N ==> (#[trigger] old(self)@[i]).div_req(rhs),
        ensures
            T::obeys_div_spec() ==> forall|i: int|
                0 <= i < N ==> final(self)@[i] == (#[trigger] old(self)@[i]).div_spec(rhs),
    {
        *self = (*self).div(rhs);
    }
}

/// The sum of the squares of the first `n` components, added up in order from
/// the square of the first.
pub open spec fn squares<T: Add<Output = T> + Mul<Output = T>>(components: Seq<T>, n: nat) -> T
    decreases n,
{
    if n <= 1 {
        components[0].mul_spec(components[0])
    } else {
        squares(components, (n - 1) as nat).add_spec(
            components[n - 1].mul_spec(components[n - 1]),
        )
    }
}

/// Whether the first `n` components can be squared and the squares added up
/// in order.
pub open spec fn squares_req<T: Add<Output = T> + Mul<Output = T>>(components: Seq<T>, n: nat)
    -> bool
    decreases n,
{
    if n == 0 {
        true
    } else if n == 1 {
        components[0].mul_req(components[0])
    } else {
        &&& squares_req(components, (n - 1) as nat)
        &&& components[n - 1].mul_req(components[n - 1])
        &&& squares(components, (n - 1) as nat).add_req(
            components[n - 1].mul_spec(components[n - 1]),
        )
    }
}

impl<T, const N: usize> Vector<N> for ArrayVector<T, N> where
    T: Copy + Default + Add<Output = T> + Sub<Output = T> + Mul<Output = T> + Div<Output = T> + Neg<
        Output = T,
    >,
 {
    type Element = T;

    open spec fn measurable(&self) -> bool {
        T::obeys_add_spec() && T::obeys_mul_spec() && squares_req(self@, N as nat)
    }

    fn as_array(&self) -> (components: &[T; N])
        ensures
            components@ == self@,
    {
        &self.0
    }

    fn as_mut_array(&mut self) -> (components: &mut [T; N])
        ensures
            components@ == old(self)@,
            final(self)@ == final(components)@,
    {
        &mut self.0
    }

    /// The squares of the components, added up in order. A vector without
    /// components has the magnitude that `T` has by default.
    fn magnitude_squared(&self) -> (magnitude: T)
        ensures
            N > 0 ==> magnitude == squares(self@, N as nat),
            N == 0 ==> call_ensures(T::default, (), magnitude),
    {
        if N == 0 {
            return T::default();
        }
        proof {
            lemma_squares_req(self@, 1, N as nat);
        }
        let mut sum: T = self.0[0].mul(self.0[0]);
        let mut i: usize = 1;
        while i < N
            invariant
                1 <= i <= N,
                T::obeys_add_spec(),
                T::obeys_mul_spec(),
                squares_req(self@, N as nat),
                squares_req(self@, i as nat),
                sum == squares(self@, i as nat),
            decreases N - i,
        {
            proof {
                lemma_squares_req(self@, (i + 1) as nat, N as nat);
            }
            sum = sum + self.0[i].mul(self.0[i]);
            i = i + 1;
        }
        sum
    }
}

/// What can be squared and added up as far as `n` can be as far as any `m`
/// below it.
pub proof fn lemma_squares_req<T: Add<Output = T> + Mul<Output = T>>(
    components: Seq<T>,
    m: nat,
    n: nat,
)
    requires
        m <= n,
        squares_req(components, n),
    ensures
        squares_req(components, m),
    decreases n,
{
    if m < n {
        if n > 1 {
            lemma_squares_req(components, m, (n - 1) as nat);
        }
    }
}

} // verus!
