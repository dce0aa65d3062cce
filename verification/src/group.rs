//! Groups of related requests.
use vstd::prelude::*;

use crate::ioctl::{Ioctl, Read, Write, WriteRead};
use crate::platform::Platform;

verus! {

/// A collection of related `ioctl`s
///
/// In the Linux kernel macros, this is called the `ioctl` `type`. We have
/// chosen a distinct name to disambiguate from the `ioctl` argument type.
#[derive(Copy, Clone, PartialEq, Eq, Structural)]
pub struct Group(u8);

impl View for Group {
    type V = u8;

    closed spec fn view(&self) -> u8 {
        self.0
    }
}

impl Group {
    /// Create a new group for related `ioctl`s from its allocated number
    pub fn new(value: u8) -> (group: Self)
        ensures
            group@ == value,
    {
        Self(value)
    }

    /// Define a new `ioctl` from the fields of its request number
    ///
    /// This corresponds to the `_IOC(dir, type, nr, size)` macro. A size that
    /// exceeds its field loses its upper bits, and so does a direction that
    /// reaches beyond the number.
    ///
    /// # Safety
    ///
    /// For safety details, see [`Ioctl::classic`].
    pub fn make<D, T>(self, platform: Platform, nr: u8, dir: u64, size: usize) -> (ioctl: Ioctl<
        D,
        T,
    >)
        ensures
            ioctl.request() == crate::request::encode(platform, dir, size as nat, self@, nr)
                % 0x1_0000_0000_0000_0000,
            dir < platform.direction_limit() ==> ioctl.request() == crate::request::encode(
                platform,
                dir,
                size as nat,
                self@,
                nr,
            ),
    {
        let size_bits: u64 = platform.size_bits();
        proof {
            lemma_fields_do_not_overlap(dir, size as u64, self.0 as u64, nr as u64);
            crate::platform::lemma_layout(platform);
        }
        let size_mask: u64 = (1u64 << size_bits) - 1;

        let mut req: u64 = dir;

        req = req << size_bits;
        req = req | (size as u64 & size_mask);

        req = req << 8;
        req = req | self.0 as u64;

        req = req << 8;
        req = req | nr as u64;

        Ioctl::classic(req)
    }

    /// Define a new `ioctl` with an associated `type`
    ///
    /// This corresponds to the `_IO(type, nr)` macro.
    ///
    /// The `nr` argument is the allocated integer which uniquely
    /// identifies this `ioctl` within the `Group`.
    ///
    /// # Safety
    ///
    /// For safety details, see [`Ioctl::classic`].
    ///
    /// It is important to note that this function can produce any style of
    /// ioctl. It is in many ways similar to [`Ioctl::classic`], but with
    /// namespacing.
    pub fn none<D, T>(self, platform: Platform, nr: u8) -> (ioctl: Ioctl<D, T>)
        ensures
            ioctl.request() == crate::request::encode(platform, platform.none(), 0, self@, nr),
    {
        self.make(platform, nr, platform.none(), 0)
    }

    /// Define a new `Read` `ioctl` with an associated `type`
    ///
    /// This corresponds to the `_IOR(type, nr, size)` macro.
    ///
    /// The `nr` argument is the allocated integer which uniquely
    /// identifies this `ioctl` within the `Group`.
    ///
    /// # Safety
    ///
    /// For safety details, see [`Ioctl::classic`].
    pub fn read<'a, T>(self, platform: Platform, nr: u8) -> (ioctl: Ioctl<Read, &'a T>)
        ensures
            ioctl.request() == crate::request::encode(
                platform,
                platform.read(),
                vstd::layout::size_of::<T>(),
                self@,
                nr,
            ),
    {
        self.make(platform, nr, platform.read(), core::mem::size_of::<T>())
    }

    /// Define a new `Write` `ioctl` with an associated `type`
    ///
    /// This corresponds to the `_IOW(type, nr, size)` macro.
    ///
    /// The `nr` argument is the allocated integer which uniquely
    /// identifies this `ioctl` within the `Group`.
    ///
    /// # Safety
    ///
    /// For safety details, see [`Ioctl::classic`].
    pub fn write<'a, T>(self, platform: Platform, nr: u8) -> (ioctl: Ioctl<Write, &'a T>)
        ensures
            ioctl.request() == crate::request::encode(
                platform,
                platform.write(),
                vstd::layout::size_of::<T>(),
                self@,
                nr,
            ),
    {
        self.make(platform, nr, platform.write(), core::mem::size_of::<T>())
    }

    /// Define a new `WriteRead` `ioctl` with an associated `type`
    ///
    /// This corresponds to the `_IOWR(type, nr, size)` macro.
    ///
    /// The `nr` argument is the allocated integer which uniquely
    /// identifies this `ioctl` within the `Group`.
    ///
    /// # Safety
    ///
    /// For safety details, see [`Ioctl::classic`].
    pub fn write_read<'a, T>(self, platform: Platform, nr: u8) -> (ioctl: Ioctl<WriteRead, &'a T>)
        ensures
            ioctl.request() == crate::request::encode(
                platform,
                platform.write_read(),
                vstd::layout::size_of::<T>(),
                self@,
                nr,
            ),
    {
        self.make(platform, nr, platform.write_read(), core::mem::size_of::<T>())
    }
}

/// Reading through a request that was composed in a group hands the kernel as
/// many bytes as the request number says, if the size of the argument type fits
/// into its field.
pub proof fn lemma_bytes_match_request<T>(
    platform: Platform,
    group: Group,
    nr: u8,
    ioctl: Ioctl<Read, &T>,
    call: crate::call::Call<Vec<u8>>,
)
    requires
        vstd::layout::size_of::<T>() < platform.size_limit(),
        ioctl.request() == crate::request::encode(
            platform,
            platform.read(),
            vstd::layout::size_of::<T>(),
            group@,
            nr,
        ),
        call.request() == ioctl.request(),
        call.argument()@ == crate::call::zeros(vstd::layout::size_of::<T>()),
    ensures
        call.argument()@.len() == crate::request::size_of_argument(
            platform,
            call.request() as nat,
        ),
{
    crate::request::lemma_fields_read_back(
        platform,
        platform.read(),
        vstd::layout::size_of::<T>(),
        group@,
        nr,
    );
}

/// A group is its number: two groups are equal exactly if their numbers are.
pub proof fn lemma_number_identifies_group(a: Group, b: Group)
    ensures
        a == b <==> a@ == b@,
{
}

/// Shifting the fields into place and joining them with `|` adds them up, on
/// either platform, but for the bits of the direction that are shifted out.
proof fn lemma_fields_do_not_overlap(dir: u64, size: u64, group: u64, nr: u64)
    requires
        group < 0x100,
        nr < 0x100,
    ensures
        ((((dir << 14 | (size & 0x3fff)) << 8) | group) << 8) | nr == (dir * 0x4000 * 0x1_0000 + (
        size % 0x4000) * 0x1_0000 + group * 0x100 + nr) % 0x1_0000_0000_0000_0000,
        ((((dir << 13 | (size & 0x1fff)) << 8) | group) << 8) | nr == (dir * 0x2000 * 0x1_0000 + (
        size % 0x2000) * 0x1_0000 + group * 0x100 + nr) % 0x1_0000_0000_0000_0000,
{
    assert(((((dir << 14 | (size & 0x3fff)) << 8) | group) << 8) | nr == (dir % 0x4_0000_0000)
        * 0x4000_0000 + (size % 0x4000) * 0x1_0000 + group * 0x100 + nr) by (bit_vector)
        requires
            group < 0x100,
            nr < 0x100,
    ;
    assert(((((dir << 13 | (size & 0x1fff)) << 8) | group) << 8) | nr == (dir % 0x8_0000_0000)
        * 0x2000_0000 + (size % 0x2000) * 0x1_0000 + group * 0x100 + nr) by (bit_vector)
        requires
            group < 0x100,
            nr < 0x100,
    ;
}

} // verus!
