//! The [`Codec`] wrapper that pairs a value with multi-format codecs.

use vstd::prelude::*;

verus! {

/// Codec extractor / response wrapper.
///
/// Pairs a value with encode and decode dispatch over every supported
/// [`ContentType`](crate::ContentType): the format of the wire bytes is picked
/// at run time from header text rather than fixed by the handler.
#[derive(Debug)]
pub struct Codec<T>(pub T);

impl<T> Codec<T> {
    /// Consumes the [`Codec`] and returns the inner value.
    pub fn into_inner(self) -> (r: T)
        ensures
            r == self.0,
    {
        self.0
    }
}

} // verus!
