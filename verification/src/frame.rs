//! Keyframe building blocks: the frame-index type, one keyframe record with
//! its tangents, and the allocator that hands out identifiers for animatable
//! data types.

use vstd::prelude::*;

verus! {

/// A keyframe position, in frames. The width is fixed per build.
pub type FrameIndex = u32;

/// Frames per second: the unit the frame indices of a curve are expressed in.
pub type FramePerSecond = FrameIndex;

/// The identifier handed out for an animatable data type.
pub type KeyFrameDataType = usize;

/// The error conditions of this crate.
#[derive(Debug)]
pub enum ErrorCurve {
    /// The type-tag allocator has saturated its counter.
    KeyFrameDataTypeCannotAllocMore,
}

/// One keyframe record: a primary value and the two auxiliary values
/// (in-tangent and out-tangent) used by Hermite-style curves.
#[derive(Debug)]
pub struct CurveFrameValue<T> {
    /// The keyframe's primary value.
    pub value: T,
    /// The `[in-tangent, out-tangent]` pair.
    pub args: [T; 2],
}

impl<T> CurveFrameValue<T> {
    /// Packs a value with its `[in-tangent, out-tangent]` pair.
    pub fn new(value: T, args: [T; 2]) -> (r: Self)
        ensures
            r.value == value,
            r.args == args,
    {
        CurveFrameValue { value, args }
    }

    /// The primary value of the record.
    pub fn value(&self) -> (r: &T)
        ensures
            r == self.value,
    {
        &self.value
    }

    /// The in-tangent of the record.
    pub fn intangent(&self) -> (r: &T)
        ensures
            r == self.args[0],
    {
        &self.args[0]
    }

    /// The out-tangent of the record.
    pub fn outtangent(&self) -> (r: &T)
        ensures
            r == self.args[1],
    {
        &self.args[1]
    }
}

/// Hands out one identifier per animatable data type, counting upward from
/// zero; reports saturation instead of wrapping.
pub struct KeyFrameDataTypeAllocator {
    counter: KeyFrameDataType,
}

impl KeyFrameDataTypeAllocator {
    /// The spec-level counter value.
    pub closed spec fn counter(&self) -> KeyFrameDataType {
        self.counter
    }

    /// A fresh allocator, starting at zero.
    pub fn default() -> (r: Self)
        ensures
            r.counter() == 0,
    {
        Self { counter: 0 }
    }

    /// Returns the next identifier and advances the counter; fails exactly
    /// when the counter has reached its maximum.
    pub fn allocate(&mut self) -> (r: Result<KeyFrameDataType, ErrorCurve>)
        ensures
            old(self).counter() == KeyFrameDataType::MAX ==> (
                r is Err
                && final(self).counter() == old(self).counter()
            ),
            old(self).counter() < KeyFrameDataType::MAX ==> (
                r == Result::<KeyFrameDataType, ErrorCurve>::Ok(old(self).counter())
                && final(self).counter() == old(self).counter() + 1
            ),
    {
        if self.counter == KeyFrameDataType::MAX {
            Err(ErrorCurve::KeyFrameDataTypeCannotAllocMore)
        } else {
            let id = self.counter;
            self.counter += 1;
            Ok(id)
        }
    }
}

} // verus!
