use vstd::prelude::*;

verus! {

/// A simple wrapper type which allows types which implement only
/// `std::io::Read` or `std::io::Write` to be used in contexts which expect
/// an `AsyncRead` or `AsyncWrite`.
///
/// If these types issue an error with the kind `io::ErrorKind::WouldBlock`,
/// it is expected that they will notify the current task on readiness.
/// Synchronous `std` types should not issue errors of this kind and are safe
/// to use in this context. However, using these types with `AllowStdIo` will
/// cause the event loop to block, so they should be used with care.
#[derive(Debug, Copy, Clone, Eq, PartialEq, Ord, PartialOrd, Hash)]
pub struct AllowStdIo<T>(T);

impl<T> AllowStdIo<T> {
    /// The IO object that the wrapper holds.
    pub closed spec fn inner(self) -> T {
        self.0
    }

    /// The wrapper that holds `io`.
    pub closed spec fn wrapping(io: T) -> Self {
        AllowStdIo(io)
    }

    /// Creates a new `AllowStdIo` from an existing IO object.
    pub fn new(io: T) -> (s: Self)
        ensures
            s == Self::wrapping(io),
            s.inner() == io,
    {
        AllowStdIo(io)
    }

    /// Returns a reference to the contained IO object.
    pub fn get_ref(&self) -> (r: &T)
        ensures
            *r == self.inner(),
    {
        &self.0
    }

    /// Returns a mutable reference to the contained IO object.
    pub fn get_mut(&mut self) -> (r: &mut T)
        ensures
            *r == old(self).inner(),
            final(self).inner() == *final(r),
            *final(self) == Self::wrapping(*final(r)),
    {
        &mut self.0
    }

    /// Consumes self and returns the contained IO object.
    pub fn into_inner(self) -> (r: T)
        ensures
            r == self.inner(),
    {
        self.0
    }
}

/// Wrapping an IO object and taking it back out gives that same object.
pub proof fn lemma_inner_of_wrapping<T>(io: T)
    ensures
        AllowStdIo::<T>::wrapping(io).inner() == io,
{
}

/// Every wrapper is the wrapping of the object it holds: a wrapper holds
/// nothing besides its IO object.
pub proof fn lemma_wrapping_of_inner<T>(s: AllowStdIo<T>)
    ensures
        AllowStdIo::<T>::wrapping(s.inner()) == s,
{
}

/// Two wrappers are the same exactly when they hold the same IO object.
pub proof fn lemma_wrapping_injective<T>(a: T, b: T)
    ensures
        (AllowStdIo::<T>::wrapping(a) == AllowStdIo::<T>::wrapping(b)) == (a == b),
{
}

} // verus!
