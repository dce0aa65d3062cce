//! The call that an `ioctl` stands for, and what its return value means.
use vstd::prelude::*;

verus! {

/// A call of `ioctl()` that is ready to be made.
///
/// Whoever makes the call passes the request number and the argument to the
/// kernel, and the raw return value to [`Call::finish`] or
/// [`Call::finish_read`]. What the argument `A` is depends on the request:
///
///   * `()`: no argument;
///   * `i32`: a C integer, by value;
///   * `&T` or `&mut T`: the address of the value;
///   * `Vec<u8>`: the address of the bytes, which stand for a value that the
///     kernel fills in.
pub struct Call<A> {
    request: u64,
    argument: A,
}

/// The call failed, and the operating system holds the reason as the last error
/// of the calling thread.
#[derive(Copy, Clone, Debug, PartialEq, Eq, Structural)]
pub struct LastOsError;

/// What a raw return value means: the kernel reports success by any integer
/// that is not negative, which is then part of the result.
pub open spec fn outcome(ret: i32) -> Result<u32, LastOsError> {
    if ret >= 0 {
        Ok(ret as u32)
    } else {
        Err(LastOsError)
    }
}

/// What a raw return value means for a call that lets the kernel fill in bytes.
pub open spec fn read_outcome(call: Call<Vec<u8>>, ret: i32) -> Result<
    (u32, Vec<u8>),
    LastOsError,
> {
    match outcome(ret) {
        Ok(status) => Ok((status, *call.argument())),
        Err(error) => Err(error),
    }
}

/// `len` bytes, all of them zero.
pub open spec fn zeros(len: nat) -> Seq<u8> {
    Seq::new(len, |i: int| 0u8)
}

impl<A> Call<A> {
    pub(crate) fn new(request: u64, argument: A) -> (call: Self)
        ensures
            call.request() == request,
            *call.argument() == argument,
    {
        Call { request, argument }
    }

    pub closed spec fn spec_request(&self) -> u64 {
        self.request
    }

    pub closed spec fn spec_argument(&self) -> &A {
        &self.argument
    }

    /// The request number.
    #[verifier::when_used_as_spec(spec_request)]
    pub fn request(&self) -> (request: u64)
        ensures
            request == self.request(),
    {
        self.request
    }

    /// The argument.
    #[verifier::when_used_as_spec(spec_argument)]
    pub fn argument(&self) -> (argument: &A)
        ensures
            argument == self.argument(),
    {
        &self.argument
    }

    /// The argument, for a kernel that may write to it.
    pub fn argument_mut(&mut self) -> (argument: &mut A)
        ensures
            *argument == *old(self).argument(),
            *final(argument) == *final(self).argument(),
            final(self).request() == old(self).request(),
    {
        &mut self.argument
    }

    /// Ends the call, given the value that the raw `ioctl()` returned.
    ///
    /// On success, returns the (positive) return value. Either way the call gives
    /// up its argument: what it borrowed mutably stays as the kernel has left it.
    pub fn finish(self, ret: i32) -> (result: Result<u32, LastOsError>)
        ensures
            result == outcome(ret),
            result is Ok <==> ret >= 0,
            result is Err <==> ret < 0,
            result matches Ok(status) ==> status == ret,
            has_resolved(*self.argument()),
    {
        match u32::try_from(ret) {
            Ok(status) => Ok(status),
            Err(_) => Err(LastOsError),
        }
    }
}

impl Call<Vec<u8>> {
    /// Ends the call, given the value that the raw `ioctl()` returned.
    ///
    /// On success, returns the (positive) return value and the bytes, as the
    /// kernel has left them.
    pub fn finish_read(self, ret: i32) -> (result: Result<(u32, Vec<u8>), LastOsError>)
        ensures
            result == read_outcome(self, ret),
            result is Ok <==> ret >= 0,
            result is Err <==> ret < 0,
            result matches Ok((status, bytes)) ==> status == ret && bytes == *self.argument(),
    {
        match u32::try_from(ret) {
            Ok(status) => Ok((status, self.argument)),
            Err(_) => Err(LastOsError),
        }
    }
}

/// The error of an allocation in `zerocopy`. It says nothing but that there was
/// no memory.
#[verifier::external_type_specification]
#[verifier::external_body]
pub struct ExAllocError(zerocopy::AllocError);

/// Calls `zerocopy::FromZeros::new_vec_zeroed` for bytes.
///
/// It is trusted to return, unless it fails, exactly `len` bytes that are all
/// zero. Whether it fails is up to the allocator and left open.
#[verifier::external_body]
fn new_vec_zeroed(len: usize) -> (bytes: Result<Vec<u8>, zerocopy::AllocError>)
    ensures
        bytes matches Ok(bytes) ==> bytes@ == zeros(len as nat),
{
    <u8 as zerocopy::FromZeros>::new_vec_zeroed(len)
}

/// The given bytes, or else `len` zeros from the standard library, which answers
/// a lack of memory as everywhere: by ending the program.
fn or_zeros(bytes: Result<Vec<u8>, zerocopy::AllocError>, len: usize) -> (image: Vec<u8>)
    requires
        len <= isize::MAX,
    ensures
        match bytes {
            Ok(bytes) => image == bytes,
            Err(_) => image@ == zeros(len as nat),
        },
{
    match bytes {
        Ok(bytes) => bytes,
        Err(_) => vec![0u8; len],
    }
}

/// The byte image of a zeroed `T`.
pub(crate) fn zeroed_image<T>() -> (image: Vec<u8>)
    ensures
        image@ == zeros(vstd::layout::size_of::<T>()),
{
    vstd::layout::layout_for_type_is_valid::<T>();
    let len: usize = core::mem::size_of::<T>();
    or_zeros(new_vec_zeroed(len), len)
}

/// A return value means either success, with that very value, or a failure.
pub proof fn lemma_outcome(ret: i32)
    ensures
        outcome(ret) is Ok <==> 0 <= ret,
        outcome(ret) is Err <==> ret < 0,
        outcome(ret) matches Ok(status) ==> status == ret,
{
}

/// Whatever bytes a call holds, and however many, the end of a read fails exactly
/// if the kernel returned a negative value, and succeeds otherwise, with the very
/// value that the kernel returned and the very bytes that it left.
pub proof fn lemma_read_outcome(call: Call<Vec<u8>>, ret: i32)
    ensures
        read_outcome(call, ret) is Err <==> ret < 0,
        read_outcome(call, ret) is Ok <==> ret >= 0,
        read_outcome(call, ret) matches Ok((status, bytes)) ==> status == ret && bytes
            == *call.argument(),
{
}

/// Two reads that end with the same success gave the same value back, and their
/// calls held the same bytes: nothing of either is lost.
pub proof fn lemma_read_outcome_loses_nothing(
    a: Call<Vec<u8>>,
    b: Call<Vec<u8>>,
    ret_a: i32,
    ret_b: i32,
)
    requires
        ret_a >= 0,
        read_outcome(a, ret_a) == read_outcome(b, ret_b),
    ensures
        ret_a == ret_b,
        *a.argument() == *b.argument(),
{
    lemma_read_outcome(a, ret_a);
    lemma_read_outcome(b, ret_b);
}

/// Zeros are as many as they should be, and each of them is zero.
pub proof fn lemma_zeros(len: nat)
    ensures
        zeros(len).len() == len,
        forall|i: int| 0 <= i < len ==> zeros(len)[i] == 0,
{
}

/// Where a call starts out with zeroed bytes, the bytes that the kernel does not
/// write are zero in the result of a success: a kernel that leaves some of them
/// alone exposes nothing but zeros.
pub proof fn lemma_untouched_bytes_are_zero(
    before: Call<Vec<u8>>,
    after: Call<Vec<u8>>,
    size: nat,
    written: Set<int>,
    ret: i32,
)
    requires
        before.argument()@ == zeros(size),
        after.argument()@.len() == size,
        forall|i: int|
            0 <= i < size && !written.contains(i) ==> after.argument()@[i] == before.argument()@[i],
    ensures
        read_outcome(after, ret) matches Ok((_, bytes)) ==> {
            &&& bytes@.len() == size
            &&& forall|i: int| 0 <= i < size && !written.contains(i) ==> bytes@[i] == 0
        },
{
}

} // verus!
