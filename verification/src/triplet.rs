//! Three-axis sample record.

use core::ops::{Add, Div, Mul, Sub};
use vstd::prelude::*;
use vstd::std_specs::convert::FromSpecImpl;
use vstd::std_specs::ops::{
    AddSpec, AddSpecImpl, DivSpec, DivSpecImpl, MulSpec, MulSpecImpl, SubSpec, SubSpecImpl,
};

verus! {

/// A reading `T` on three axes.
///
/// Which way the axes point is up to the sensor. `Triplet<T>` converts to and
/// from both `[T; 3]` and `(T, T, T)`; element zero is X, one is Y, two is Z.
#[derive(Debug, Clone, Copy, PartialEq, Eq, Structural)]
pub struct Triplet<T> {
    /// Reading from the X axis
    pub x: T,
    /// Reading from the Y axis
    pub y: T,
    /// Reading from the Z axis
    pub z: T,
}

impl<T> Triplet<T> {
    /// Combines two triplets axis by axis with `f`.
    pub fn scalar<F: Fn(T, T) -> T>(self, other: Triplet<T>, f: F) -> (r: Triplet<T>)
        requires
            f.requires((self.x, other.x)),
            f.requires((self.y, other.y)),
            f.requires((self.z, other.z)),
        ensures
            f.ensures((self.x, other.x), r.x),
            f.ensures((self.y, other.y), r.y),
            f.ensures((self.z, other.z), r.z),
    {
        Triplet { x: f(self.x, other.x), y: f(self.y, other.y), z: f(self.z, other.z) }
    }

    /// Applies `f` to the reading of each axis.
    pub fn map<X, F: Fn(T) -> X>(self, f: F) -> (r: Triplet<X>)
        requires
            f.requires((self.x,)),
            f.requires((self.y,)),
            f.requires((self.z,)),
        ensures
            f.ensures((self.x,), r.x),
            f.ensures((self.y,), r.y),
            f.ensures((self.z,), r.z),
    {
        Triplet { x: f(self.x), y: f(self.y), z: f(self.z) }
    }
}

impl<T: Default> Default for Triplet<T> {
    fn default() -> (r: Self)
        ensures
            T::default.ensures((), r.x),
            T::default.ensures((), r.y),
            T::default.ensures((), r.z),
    {
        Triplet { x: T::default(), y: T::default(), z: T::default() }
    }
}

impl<T: Copy> From<[T; 3]> for Triplet<T> {
    fn from(a: [T; 3]) -> (r: Self) {
        Triplet { x: a[0], y: a[1], z: a[2] }
    }
}

impl<T: Copy> FromSpecImpl<[T; 3]> for Triplet<T> {
    open spec fn obeys_from_spec() -> bool {
        true
    }

    open spec fn from_spec(a: [T; 3]) -> Self {
        Triplet { x: a[0], y: a[1], z: a[2] }
    }
}

impl<T> From<Triplet<T>> for [T; 3] {
    fn from(t: Triplet<T>) -> (r: Self) {
        [t.x, t.y, t.z]
    }
}

impl<T> FromSpecImpl<Triplet<T>> for [T; 3] {
    open spec fn obeys_from_spec() -> bool {
        true
    }

    open spec fn from_spec(t: Triplet<T>) -> Self {
        [t.x, t.y, t.z]
    }
}

impl<T> From<(T, T, T)> for Triplet<T> {
    fn from(t: (T, T, T)) -> (r: Self) {
        Triplet { x: t.0, y: t.1, z: t.2 }
    }
}

impl<T> FromSpecImpl<(T, T, T)> for Triplet<T> {
    open spec fn obeys_from_spec() -> bool {
        true
    }

    open spec fn from_spec(t: (T, T, T)) -> Self {
        Triplet { x: t.0, y: t.1, z: t.2 }
    }
}

impl<T> From<Triplet<T>> for (T, T, T) {
    fn from(t: Triplet<T>) -> (r: Self) {
        (t.x, t.y, t.z)
    }
}

impl<T> FromSpecImpl<Triplet<T>> for (T, T, T) {
    open spec fn obeys_from_spec() -> bool {
        true
    }

    open spec fn from_spec(t: Triplet<T>) -> Self {
        (t.x, t.y, t.z)
    }
}

impl<T: Mul<Output = T>> Mul for Triplet<T> {
    type Output = Triplet<T>;

    fn mul(self, other: Triplet<T>) -> (r: Triplet<T>) {
        Triplet { x: self.x * other.x, y: self.y * other.y, z: self.z * other.z }
    }
}

impl<T: Mul<Output = T>> MulSpecImpl for Triplet<T> {
    open spec fn obeys_mul_spec() -> bool {
        T::obeys_mul_spec()
    }

    open spec fn mul_req(self, other: Triplet<T>) -> bool {
        self.x.mul_req(other.x) && self.y.mul_req(other.y) && self.z.mul_req(other.z)
    }

    open spec fn mul_spec(self, other: Triplet<T>) -> Triplet<T> {
        Triplet {
            x: self.x.mul_spec(other.x),
            y: self.y.mul_spec(other.y),
            z: self.z.mul_spec(other.z),
        }
    }
}

impl<T: Add<Output = T>> Add for Triplet<T> {
    type Output = Triplet<T>;

    fn add(self, other: Triplet<T>) -> (r: Triplet<T>) {
        Triplet { x: self.x + other.x, y: self.y + other.y, z: self.z + other.z }
    }
}

impl<T: Add<Output = T>> AddSpecImpl for Triplet<T> {
    open spec fn obeys_add_spec() -> bool {
        T::obeys_add_spec()
    }

    open spec fn add_req(self, other: Triplet<T>) -> bool {
        self.x.add_req(other.x) && self.y.add_req(other.y) && self.z.add_req(other.z)
    }

    open spec fn add_spec(self, other: Triplet<T>) -> Triplet<T> {
        Triplet {
            x: self.x.add_spec(other.x),
            y: self.y.add_spec(other.y),
            z: self.z.add_spec(other.z),
        }
    }
}

impl<T: Sub<Output = T>> Sub for Triplet<T> {
    type Output = Triplet<T>;

    fn sub(self, other: Triplet<T>) -> (r: Triplet<T>) {
        Triplet { x: self.x - other.x, y: self.y - other.y, z: self.z - other.z }
    }
}

impl<T: Sub<Output = T>> SubSpecImpl for Triplet<T> {
    open spec fn obeys_sub_spec() -> bool {
        T::obeys_sub_spec()
    }

    open spec fn sub_req(self, other: Triplet<T>) -> bool {
        self.x.sub_req(other.x) && self.y.sub_req(other.y) && self.z.sub_req(other.z)
    }

    open spec fn sub_spec(self, other: Triplet<T>) -> Triplet<T> {
        Triplet {
            x: self.x.sub_spec(other.x),
            y: self.y.sub_spec(other.y),
            z: self.z.sub_spec(other.z),
        }
    }
}

impl<T: Div<Output = T>> Div for Triplet<T> {
    type Output = Triplet<T>;

    fn div(self, other: Triplet<T>) -> (r: Triplet<T>) {
        Triplet { x: self.x / other.x, y: self.y / other.y, z: self.z / other.z }
    }
}

impl<T: Div<Output = T>> DivSpecImpl for Triplet<T> {
    open spec fn obeys_div_spec() -> bool {
        T::obeys_div_spec()
    }

    open spec fn div_req(self, other: Triplet<T>) -> bool {
        self.x.div_req(other.x) && self.y.div_req(other.y) && self.z.div_req(other.z)
    }

    open spec fn div_spec(self, other: Triplet<T>) -> Triplet<T> {
        Triplet {
            x: self.x.div_spec(other.x),
            y: self.y.div_spec(other.y),
            z: self.z.div_spec(other.z),
        }
    }
}

} // verus!
