//! Pointer fields inside the arguments of requests.
use core::marker::PhantomData;
use vstd::prelude::*;

verus! {

/// An embedded pointer field that the kernel only *reads* through.
///
/// Some `ioctl`s embed the address of a second buffer as a raw integer
/// field (e.g. SCSI `SG_IO`'s `sg_io_hdr.dxferp`). A bare `u64` field
/// carries no information about what it points to or how long that pointee
/// needs to remain valid. `Ptr` closes that gap: it can only be constructed from
/// a live `&'a U`, and threading `'a` through the struct that embeds it makes
/// ordinary borrow-checking forbid mutating or dropping the pointee for as long
/// as the kernel might be reading through the address.
///
/// An address never turns back into a reference: no method dereferences it. So
/// a value whose address the kernel has overwritten is inert.
///
/// The borrow lasts exactly as long as this value does. `Ptr` only borrows
/// its target shared (unlike [`PtrMut`]'s exclusive borrow), so reading the
/// original binding is still fine, but mutating it while a `Ptr` derived
/// from it is still alive is a borrow-check error:
///
/// ```compile_fail
/// use iocuddle::Ptr;
///
/// let mut val: u32 = 42;
/// let p = Ptr::new(&val);
/// val = 1; // fails: `val` is still immutably borrowed by `p`
/// let _ = p;
/// ```
pub struct Ptr<'a, U> {
    addr: u64,
    _marker: PhantomData<&'a U>,
}

/// An embedded pointer field that the kernel *writes* through, and the
/// caller reads back afterward (e.g. `SG_IO`'s sense-buffer pointer).
///
/// Same lifetime-carrying discipline as [`Ptr`], but for the output direction:
/// constructed from `&'a mut U`, so no other Rust code can read or write the
/// pointee while this value is alive. Unlike [`Ptr`], this type does not
/// implement `Copy`/`Clone`: duplicating a token that represents exclusive
/// access to the kernel's write target is a footgun worth refusing to compile,
/// even where it wouldn't immediately violate the borrow on the pointee.
///
/// Touching the original binding while a `PtrMut` derived from it is still
/// alive is a borrow-check error:
///
/// ```compile_fail
/// use iocuddle::PtrMut;
///
/// let mut val: u32 = 42;
/// let p = PtrMut::new(&mut val);
/// val = 1; // fails: `val` is still exclusively borrowed by `p`
/// let _ = p;
/// ```
pub struct PtrMut<'a, U> {
    addr: u64,
    _marker: PhantomData<&'a mut U>,
}

/// Whether a value of type `U` can live at the address: it is not null, it is
/// aligned, and the value ends within the address space.
pub open spec fn is_address_for<U>(addr: int) -> bool {
    &&& 0 < addr
    &&& addr % vstd::layout::align_of::<U>() as int == 0
    &&& addr + vstd::layout::size_of::<U>() <= usize::MAX
}

/// A value can live exactly where the address is not null, is a multiple of its
/// alignment, and leaves room for its size below the end of the address space.
pub proof fn lemma_address_for<U>(addr: int)
    ensures
        is_address_for::<U>(addr) ==> addr > 0,
        is_address_for::<U>(addr) ==> addr % vstd::layout::align_of::<U>() as int == 0,
        is_address_for::<U>(addr) ==> addr + vstd::layout::size_of::<U>() <= usize::MAX,
        addr > 0 && addr % vstd::layout::align_of::<U>() as int == 0 && addr
            + vstd::layout::size_of::<U>() <= usize::MAX ==> is_address_for::<U>(addr),
{
}

/// The address behind `core::ptr::from_ref`.
///
/// It is trusted to be one where a `U` can live, as that is what a reference
/// guarantees: references are not null and aligned, and no allocated value
/// reaches beyond the address space. Which address it is depends on where the
/// value happens to be, and is left open.
#[verifier::external_body]
pub(crate) fn address_of<U>(r: &U) -> (addr: usize)
    ensures
        is_address_for::<U>(addr as int),
{
    core::ptr::from_ref(r) as usize
}

/// The address behind `core::ptr::from_mut`.
///
/// It is trusted to be one where a `U` can live, as for [`address_of`]. Which
/// address it is, and what will be written there through it while the borrow
/// lasts, is left open.
#[verifier::external_body]
pub(crate) fn address_of_mut<U>(r: &mut U) -> (addr: usize)
    ensures
        is_address_for::<U>(addr as int),
{
    core::ptr::from_mut(r) as usize
}

/// Whether `addr` is what [`address_of`] can return for a reference to the value
/// `*r`. To a specification a reference is its value, so this does not tell two
/// places with equal values apart.
pub closed spec fn came_from<U>(r: &U, addr: usize) -> bool {
    call_ensures(address_of::<U>, (r,), addr)
}

/// Whether `addr` is what [`address_of_mut`] can return for a mutable reference
/// to `value`, whatever is written through that reference later.
pub closed spec fn came_from_mut<U>(value: U, addr: usize) -> bool {
    exists|q: &mut U| #[trigger] call_ensures(address_of_mut::<U>, (q,), addr) && *q == value
}

/// An address came from a reference exactly if taking the address of that
/// reference can give it: for no pointee, whatever its size, does any other
/// address count.
pub(crate) proof fn lemma_came_from_taking_the_address<U>(r: &U, addr: usize)
    ensures
        came_from(r, addr) <==> call_ensures(address_of::<U>, (r,), addr),
{
}

/// An address came from a mutable reference exactly if taking the address of
/// such a reference, with that value behind it, can give it: for no pointee,
/// whatever its size, does any other address count.
pub(crate) proof fn lemma_came_from_taking_the_address_mut<U>(value: U, addr: usize)
    ensures
        came_from_mut(value, addr) <==> exists|q: &mut U|
            #[trigger] call_ensures(address_of_mut::<U>, (q,), addr) && *q == value,
{
}

/// Applies `f` to a reference, and says that the result came from there.
fn through<U, F: Fn(&U) -> usize>(r: &U, f: F) -> (addr: usize)
    requires
        call_requires(f, (r,)),
    ensures
        call_ensures(f, (r,), addr),
{
    f(r)
}

/// Applies `f` to a mutable reference, and says that the result came from there.
fn through_mut<U, F: Fn(&mut U) -> usize>(r: &mut U, f: F) -> (addr: usize)
    requires
        forall|q: &mut U| #[trigger] call_requires(f, (q,)),
    ensures
        exists|q: &mut U| #[trigger] call_ensures(f, (q,), addr) && *q == *old(r),
{
    f(r)
}

impl<'a, U: Clone> Clone for Ptr<'a, U> {
    fn clone(&self) -> (copy: Self)
        ensures
            copy == *self,
    {
        Ptr { addr: self.addr, _marker: PhantomData }
    }
}

impl<'a, U: Copy> Copy for Ptr<'a, U> {

}

impl<'a, U> Ptr<'a, U> {
    pub closed spec fn spec_addr(&self) -> u64 {
        self.addr
    }

    /// The address, as the kernel gets to see it.
    #[verifier::when_used_as_spec(spec_addr)]
    pub fn addr(&self) -> (addr: u64)
        ensures
            addr == self.addr(),
    {
        self.addr
    }

    fn at(addr: usize) -> (ptr: Self)
        ensures
            ptr.addr() == addr,
    {
        Ptr { addr: addr as u64, _marker: PhantomData }
    }

    /// Build a pointer-as-integer field from a live reference.
    ///
    /// The field is the address of the referent. Where the referent lives is left
    /// open; the contract says that the address was taken of this referent, and
    /// what holds of it wherever that is.
    pub fn new(r: &'a U) -> (ptr: Self)
        ensures
            came_from(r, ptr.addr() as usize),
            is_address_for::<U>(ptr.addr() as int),
    {
        Self::at(through(r, address_of::<U>))
    }
}

impl<'a, U> PtrMut<'a, U> {
    pub closed spec fn spec_addr(&self) -> u64 {
        self.addr
    }

    /// The address, as the kernel gets to see it.
    #[verifier::when_used_as_spec(spec_addr)]
    pub fn addr(&self) -> (addr: u64)
        ensures
            addr == self.addr(),
    {
        self.addr
    }

    fn at(addr: usize) -> (ptr: Self)
        ensures
            ptr.addr() == addr,
    {
        PtrMut { addr: addr as u64, _marker: PhantomData }
    }

    /// Build a pointer-as-integer field from a live mutable reference.
    ///
    /// The field is the address of the referent. Where the referent lives is left
    /// open; the contract says that the address was taken of this referent, and
    /// what holds of it wherever that is. It does not say what the referent is
    /// once the borrow ends: the kernel may write anything.
    pub fn new(r: &'a mut U) -> (ptr: Self)
        ensures
            came_from_mut(*old(r), ptr.addr() as usize),
            is_address_for::<U>(ptr.addr() as int),
    {
        Self::at(through_mut(r, address_of_mut::<U>))
    }
}

} // verus!
