//! The composition of request numbers.
//!
//! From the top bit down, a request number consists of the direction, the size
//! of the argument type, the group and the number within the group. This is the
//! kernel's `_IOC()` macro of `include/uapi/asm-generic/ioctl.h`.
use vstd::prelude::*;

use crate::platform::Platform;

verus! {

/// The request number with the given fields. A size that exceeds the size field
/// loses its upper bits.
pub open spec fn encode(
    platform: Platform,
    direction: u64,
    size: nat,
    group: u8,
    nr: u8,
) -> nat {
    direction as nat * platform.size_limit() * 0x1_0000 + (size % platform.size_limit()) * 0x1_0000
        + group as nat * 0x100 + nr as nat
}

/// The direction field of a request number.
pub open spec fn direction_of(platform: Platform, request: nat) -> nat {
    request / 0x1_0000 / platform.size_limit()
}

/// The size field of a request number.
pub open spec fn size_of_argument(platform: Platform, request: nat) -> nat {
    request / 0x1_0000 % platform.size_limit()
}

/// The group field of a request number.
pub open spec fn group_of(request: nat) -> nat {
    request / 0x100 % 0x100
}

/// The number field of a request number.
pub open spec fn nr_of(request: nat) -> nat {
    request % 0x100
}

/// This is the kernel's `_IOC()` macro: the fields, shifted into place and
/// joined, with the size cut to its field.
pub proof fn lemma_encode_is_ioc(
    platform: Platform,
    direction: u64,
    size: u64,
    group: u8,
    nr: u8,
)
    requires
        direction < platform.direction_limit(),
    ensures
        encode(platform, direction, size as nat, group, nr) == direction << (platform.size_bits()
            + 16) as u64 | (group as u64) << 8 | nr as u64 | (size & (platform.size_limit()
            - 1) as u64) << 16,
{
    match platform {
        Platform::Generic => {
            assert(direction << 30 | (group as u64) << 8 | nr as u64 | (size & 0x3fff) << 16
                == direction * 0x4000_0000 + (size % 0x4000) * 0x1_0000 + group * 0x100 + nr)
                by (bit_vector)
                requires
                    direction < 4,
            ;
        },
        Platform::Osf => {
            assert(direction << 29 | (group as u64) << 8 | nr as u64 | (size & 0x1fff) << 16
                == direction * 0x2000_0000 + (size % 0x2000) * 0x1_0000 + group * 0x100 + nr)
                by (bit_vector)
                requires
                    direction < 8,
            ;
        },
    }
}

/// In the asm-generic layout, the 64 bits of a number with any direction and size
/// are the direction from bit 30 up, fourteen bits of the size from bit 16 up,
/// the group from bit 8 up, and the number below.
pub proof fn lemma_generic_bits(direction: u64, size: u64, group: u8, nr: u8)
    ensures
        encode(Platform::Generic, direction, size as nat, group, nr) % 0x1_0000_0000_0000_0000
            == direction << 30 | (size & 0x3fff) << 16 | (group as u64) << 8 | nr as u64,
{
    assert(direction << 30 | (size & 0x3fff) << 16 | (group as u64) << 8 | nr as u64 == (direction
        % 0x4_0000_0000) * 0x4000_0000 + (size % 0x4000) * 0x1_0000 + group * 0x100 + nr)
        by (bit_vector);
}

/// In the layout of OSF/1, the 64 bits of a number with any direction and size
/// are the direction from bit 29 up, thirteen bits of the size from bit 16 up,
/// the group from bit 8 up, and the number below.
pub proof fn lemma_osf_bits(direction: u64, size: u64, group: u8, nr: u8)
    ensures
        encode(Platform::Osf, direction, size as nat, group, nr) % 0x1_0000_0000_0000_0000
            == direction << 29 | (size & 0x1fff) << 16 | (group as u64) << 8 | nr as u64,
{
    assert(direction << 29 | (size & 0x1fff) << 16 | (group as u64) << 8 | nr as u64 == (direction
        % 0x8_0000_0000) * 0x2000_0000 + (size % 0x2000) * 0x1_0000 + group * 0x100 + nr)
        by (bit_vector);
}

/// The fields of a request number are its bits: each is shifted down and cut to
/// its width.
pub proof fn lemma_fields_are_bits(platform: Platform, request: u64)
    ensures
        nr_of(request as nat) == request & 0xff,
        group_of(request as nat) == (request >> 8) & 0xff,
        size_of_argument(platform, request as nat) == (request >> 16) & (platform.size_limit()
            - 1) as u64,
        direction_of(platform, request as nat) == request >> (platform.size_bits() + 16) as u64,
{
    assert(request & 0xff == request % 0x100) by (bit_vector);
    assert((request >> 8) & 0xff == request / 0x100 % 0x100) by (bit_vector);
    assert((request >> 16) & 0x3fff == request / 0x1_0000 % 0x4000) by (bit_vector);
    assert((request >> 16) & 0x1fff == request / 0x1_0000 % 0x2000) by (bit_vector);
    assert(request >> 30 == request / 0x1_0000 / 0x4000) by (bit_vector);
    assert(request >> 29 == request / 0x1_0000 / 0x2000) by (bit_vector);
}

/// Each field can be read back from a request number; the size only as far as
/// it fits into its field.
pub proof fn lemma_fields_read_back(
    platform: Platform,
    direction: u64,
    size: nat,
    group: u8,
    nr: u8,
)
    ensures
        direction_of(platform, encode(platform, direction, size, group, nr)) == direction,
        size_of_argument(platform, encode(platform, direction, size, group, nr)) == size
            % platform.size_limit(),
        size < platform.size_limit() ==> size_of_argument(
            platform,
            encode(platform, direction, size, group, nr),
        ) == size,
        group_of(encode(platform, direction, size, group, nr)) == group,
        nr_of(encode(platform, direction, size, group, nr)) == nr,
{
    if size < platform.size_limit() {
        vstd::arithmetic::div_mod::lemma_small_mod(size, platform.size_limit());
    }
    let number = encode(platform, direction, size, group, nr);
    let low = group as nat * 0x100 + nr as nat;
    match platform {
        Platform::Generic => {
            let high = direction as nat * 0x4000 + size % 0x4000;
            assert(number == high * 0x1_0000 + low);
            assert(number / 0x1_0000 == high);
            assert(number / 0x100 == high * 0x100 + group);
        },
        Platform::Osf => {
            let high = direction as nat * 0x2000 + size % 0x2000;
            assert(number == high * 0x1_0000 + low);
            assert(number / 0x1_0000 == high);
            assert(number / 0x100 == high * 0x100 + group);
        },
    }
}

/// Shifts and masks undo the composition of a request number whose direction and
/// size fit into their fields.
pub proof fn lemma_bits_read_back(
    platform: Platform,
    direction: u64,
    size: nat,
    group: u8,
    nr: u8,
    request: u64,
)
    requires
        direction < platform.direction_limit(),
        size < platform.size_limit(),
        request == encode(platform, direction, size, group, nr),
    ensures
        request & 0xff == nr,
        (request >> 8) & 0xff == group,
        (request >> 16) & (platform.size_limit() - 1) as u64 == size,
        request >> (platform.size_bits() + 16) as u64 == direction,
{
    lemma_fields_are_bits(platform, request);
    lemma_fields_read_back(platform, direction, size, group, nr);
}

/// Two request numbers of a platform coincide exactly if their fields do, and
/// sizes count as equal where the size field cannot tell them apart.
///
/// So a group is a namespace, and within it a number identifies the request.
pub proof fn lemma_numbers_coincide(
    platform: Platform,
    a: (u64, nat, u8, u8),
    b: (u64, nat, u8, u8),
)
    ensures
        encode(platform, a.0, a.1, a.2, a.3) == encode(platform, b.0, b.1, b.2, b.3) <==> {
            &&& a.0 == b.0
            &&& a.1 % platform.size_limit() == b.1 % platform.size_limit()
            &&& a.2 == b.2
            &&& a.3 == b.3
        },
{
    lemma_fields_read_back(platform, a.0, a.1, a.2, a.3);
    lemma_fields_read_back(platform, b.0, b.1, b.2, b.3);
}

/// Requests of different groups, or with different numbers in one group, never
/// share a request number, whatever their directions and argument types.
pub proof fn lemma_groups_are_namespaces(
    platform: Platform,
    a: (u64, nat, u8, u8),
    b: (u64, nat, u8, u8),
)
    requires
        a.2 != b.2 || a.3 != b.3,
    ensures
        encode(platform, a.0, a.1, a.2, a.3) != encode(platform, b.0, b.1, b.2, b.3),
{
    lemma_numbers_coincide(platform, a, b);
}

/// Requests of different directions never share a request number, though their
/// group and their number may agree. `sizes` are those of the arguments that are
/// read, written, and both.
pub proof fn lemma_directions_differ(
    platform: Platform,
    sizes: (nat, nat, nat),
    group: u8,
    nr: u8,
)
    ensures
        ({
            let none = encode(platform, platform.none(), 0, group, nr);
            let read = encode(platform, platform.read(), sizes.0, group, nr);
            let write = encode(platform, platform.write(), sizes.1, group, nr);
            let write_read = encode(platform, platform.write_read(), sizes.2, group, nr);
            &&& none != read
            &&& none != write
            &&& none != write_read
            &&& read != write
            &&& read != write_read
            &&& write != write_read
        }),
{
    lemma_fields_read_back(platform, platform.none(), 0, group, nr);
    lemma_fields_read_back(platform, platform.read(), sizes.0, group, nr);
    lemma_fields_read_back(platform, platform.write(), sizes.1, group, nr);
    lemma_fields_read_back(platform, platform.write_read(), sizes.2, group, nr);
}

/// Joining two directions joins the numbers: it adds the bits of the one to those
/// of the other.
pub proof fn lemma_directions_join(
    platform: Platform,
    d1: u64,
    d2: u64,
    size: nat,
    group: u8,
    nr: u8,
)
    requires
        d1 < platform.direction_limit(),
        d2 < platform.direction_limit(),
    ensures
        d1 | d2 < platform.direction_limit(),
        encode(platform, d1 | d2, size, group, nr) == encode(
            platform,
            d1,
            size,
            group,
            nr,
        ) as u64 | encode(platform, d2, size, group, nr) as u64,
{
    let low = encode(platform, 0, size, group, nr) as u64;
    lemma_number_has_32_bits(platform, 0, size, group, nr);
    lemma_number_has_32_bits(platform, d1, size, group, nr);
    lemma_number_has_32_bits(platform, d2, size, group, nr);
    match platform {
        Platform::Generic => {
            assert(d1 | d2 < 4 && ((d1 * 0x4000_0000 + low) as u64 | (d2 * 0x4000_0000
                + low) as u64) == (d1 | d2) * 0x4000_0000 + low) by (bit_vector)
                requires
                    d1 < 4,
                    d2 < 4,
                    low < 0x4000_0000,
            ;
        },
        Platform::Osf => {
            assert(d1 | d2 < 8 && ((d1 * 0x2000_0000 + low) as u64 | (d2 * 0x2000_0000
                + low) as u64) == (d1 | d2) * 0x2000_0000 + low) by (bit_vector)
                requires
                    d1 < 8,
                    d2 < 8,
                    low < 0x2000_0000,
            ;
        },
    }
}

/// The number of a request whose data flows both ways has exactly the bits of
/// the numbers for the two single ways.
pub proof fn lemma_write_read_joins_read_and_write(
    platform: Platform,
    size: nat,
    group: u8,
    nr: u8,
)
    ensures
        encode(platform, platform.write_read(), size, group, nr) == encode(
            platform,
            platform.read(),
            size,
            group,
            nr,
        ) as u64 | encode(platform, platform.write(), size, group, nr) as u64,
{
    crate::platform::lemma_directions(platform);
    lemma_directions_join(platform, platform.read(), platform.write(), size, group, nr);
}

/// A request number with a direction of the platform has 32 bits, whatever the
/// width of the integer that holds it.
pub proof fn lemma_number_has_32_bits(
    platform: Platform,
    direction: u64,
    size: nat,
    group: u8,
    nr: u8,
)
    requires
        direction < platform.direction_limit(),
    ensures
        encode(platform, direction, size, group, nr) < 0x1_0000_0000,
{
}

} // verus!
