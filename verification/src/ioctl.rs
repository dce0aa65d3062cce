//! Requests, along with their direction and the type of their argument.
use core::marker::PhantomData;
use vstd::prelude::*;

use crate::call::{zeroed_image, Call};

verus! {

/// A marker for the read direction
pub struct Read(());

/// A marker for the write direction
pub struct Write(());

/// A marker for the write/read direction
pub struct WriteRead(());

/// A marker for requests that take no argument, in the place of its type
pub struct Void(());

/// A defined `ioctl` along with its associated `direction` and `type`
pub struct Ioctl<D, T>(u64, PhantomData<(D, T)>);

impl<D: Clone, T: Clone> Clone for Ioctl<D, T> {
    fn clone(&self) -> (copy: Self)
        ensures
            copy == *self,
    {
        Self(self.0, PhantomData)
    }
}

impl<D: Copy, T: Copy> Copy for Ioctl<D, T> {

}

impl<D: PartialEq, T: PartialEq> PartialEq for Ioctl<D, T> {
    fn eq(&self, other: &Self) -> (equal: bool)
        ensures
            equal == (self.request() == other.request()),
    {
        self.0 == other.0
    }
}

impl<D: PartialEq, T: PartialEq> vstd::std_specs::cmp::PartialEqSpecImpl for Ioctl<D, T> {
    open spec fn obeys_eq_spec() -> bool {
        true
    }

    open spec fn eq_spec(&self, other: &Self) -> bool {
        self.request() == other.request()
    }
}

impl<D: Eq, T: Eq> Eq for Ioctl<D, T> {

}

impl<D, T> Ioctl<D, T> {
    pub closed spec fn spec_request(&self) -> u64 {
        self.0
    }

    /// The integer that identifies this `ioctl` to the kernel.
    #[verifier::when_used_as_spec(spec_request)]
    pub fn request(&self) -> (request: u64)
        ensures
            request == self.request(),
    {
        self.0
    }

    /// Define a new `ioctl` with an associated `direction` and `type`
    ///
    /// The `request` argument is the allocated integer which uniquely
    /// identifies this `ioctl`.
    ///
    /// # Safety
    ///
    /// Making the call of an `ioctl` with an incorrect `request`, `direction` or
    /// argument `type` can result in memory corruption. You are responsible to
    /// ensure these values are correct.
    ///
    /// Further, you are responsible to ensure that the argument `type` itself
    /// provides appropriate safe wrappers around its raw contents. For some
    /// `type`s none are required. For others, particularly `type`s that pass
    /// pointers to the kernel as `u64`, you need to ensure that things like
    /// lifetimes are correct.
    pub fn classic(request: u64) -> (ioctl: Self)
        ensures
            ioctl.request() == request,
    {
        Self(request, PhantomData)
    }

    /// Lie about the ioctl direction or type
    ///
    /// This function should be avoided unless necessary.
    ///
    /// Sometimes kernel developers make mistakes and use the wrong macros
    /// or types during their ioctl definitions. However, once merged these
    /// form part of the userspace API and won't be broken. Therefore, we
    /// need a way to use the `request` number with the incorrect type. This
    /// function allows this.
    ///
    /// Whenever using this function, it would be wise to include a comment
    /// with a link to the kernel's ioctl definition and explaining why the
    /// definition is incorrect.
    ///
    /// # Safety
    ///
    /// For safety details, see [`Ioctl::classic`]. One should note that this
    /// function discards the normal protections.
    pub fn lie<E, U>(self) -> (ioctl: Ioctl<E, U>)
        ensures
            ioctl.request() == self.request(),
    {
        Ioctl(self.0, PhantomData)
    }
}

impl Ioctl<Read, Void> {
    /// The call that reads a file descriptor's metadata as an integer.
    ///
    /// No argument is supplied to the call.
    pub fn ioctl(self) -> (call: Call<()>)
        ensures
            call.request() == self.request(),
    {
        Call::new(self.0, ())
    }
}

impl<T> Ioctl<Read, &T> {
    /// The call that reads a file descriptor's metadata as type `T`.
    ///
    /// The argument is the zeroed byte image of a `T`, so that bytes which the
    /// kernel does not initialize on some success path are stale zeros.
    pub fn ioctl(self) -> (call: Call<Vec<u8>>)
        ensures
            call.request() == self.request(),
            call.argument()@ == crate::call::zeros(vstd::layout::size_of::<T>()),
            call.argument()@.len() == vstd::layout::size_of::<T>(),
            forall|i: int| 0 <= i < call.argument()@.len() ==> call.argument()@[i] == 0,
    {
        Call::new(self.0, zeroed_image::<T>())
    }
}

impl Ioctl<Write, Void> {
    /// The call that modifies a file descriptor.
    ///
    /// No argument is supplied to the call.
    pub fn ioctl(self) -> (call: Call<()>)
        ensures
            call.request() == self.request(),
    {
        Call::new(self.0, ())
    }
}

impl Ioctl<Write, i32> {
    /// The call that modifies a file descriptor.
    ///
    /// A C-integer argument is provided.
    pub fn ioctl(self, data: i32) -> (call: Call<i32>)
        ensures
            call.request() == self.request(),
            *call.argument() == data,
    {
        Call::new(self.0, data)
    }
}

impl<T> Ioctl<Write, &T> {
    /// The call that modifies a file descriptor.
    ///
    /// A reference to an immutable instance of `T` is provided as the argument.
    pub fn ioctl<'d>(self, data: &'d T) -> (call: Call<&'d T>)
        ensures
            call.request() == self.request(),
            *call.argument() == data,
    {
        Call::new(self.0, data)
    }
}

impl<T> Ioctl<WriteRead, &T> {
    /// The call that modifies a file descriptor and reads its metadata.
    ///
    /// A reference to a mutable instance of `T` is provided as the argument.
    /// The kernel may overwrite any bytes of it, so `data` ends up as what the
    /// argument of the call was left with.
    pub fn ioctl<'d>(self, data: &'d mut T) -> (call: Call<&'d mut T>)
        ensures
            call.request() == self.request(),
            **call.argument() == *old(data),
            *final(*call.argument()) == *final(data),
    {
        Call::new(self.0, data)
    }
}

/// An `ioctl` of a given direction and type is its request number: however two
/// of them were defined, they are the same if their numbers are.
///
/// So lying about the direction and type of an `ioctl` and then lying back
/// restores it, and a number composed in a group may as well be defined as a
/// classic one.
pub proof fn lemma_request_identifies_ioctl<D, T>(a: Ioctl<D, T>, b: Ioctl<D, T>)
    ensures
        a == b <==> a.request() == b.request(),
{
}

/// `==` holds between two `ioctl`s exactly if their request numbers are equal.
pub proof fn lemma_equality_is_of_requests<D: PartialEq, T: PartialEq>(
    a: Ioctl<D, T>,
    b: Ioctl<D, T>,
)
    ensures
        vstd::std_specs::cmp::PartialEqSpec::eq_spec(&a, &b) <==> a.request() == b.request(),
{
}

} // verus!
