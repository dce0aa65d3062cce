//! How the platforms lay out a request number.
//!
//! Most architectures use the kernel's asm-generic layout, but several override
//! the direction bits and the width of the size field. The values are those of
//! the kernel's `arch/*/include/uapi/asm/ioctl.h` headers.
use vstd::prelude::*;

verus! {

/// The request layouts that the kernel knows.
#[derive(Copy, Clone, Debug, PartialEq, Eq, Structural)]
pub enum Platform {
    /// The asm-generic layout: x86, x86_64, arm, aarch64, riscv, s390x, etc.
    ///
    /// PA-RISC has the values of the two directions swapped. No Rust target
    /// exists for it, so it has no layout of its own here.
    Generic,
    /// The layout of the platforms derived from OSF/1: powerpc, mips, sparc.
    Osf,
}

/// Whether `arch` names an architecture with the OSF/1 layout.
pub open spec fn is_osf_arch(arch: Seq<char>) -> bool {
    ||| arch == "powerpc"@
    ||| arch == "powerpc64"@
    ||| arch == "mips"@
    ||| arch == "mips32r6"@
    ||| arch == "mips64"@
    ||| arch == "mips64r6"@
    ||| arch == "sparc"@
    ||| arch == "sparc64"@
}

/// Each of these eight architectures has the OSF/1 layout.
pub proof fn lemma_osf_architectures()
    ensures
        is_osf_arch("powerpc"@),
        is_osf_arch("powerpc64"@),
        is_osf_arch("mips"@),
        is_osf_arch("mips32r6"@),
        is_osf_arch("mips64"@),
        is_osf_arch("mips64r6"@),
        is_osf_arch("sparc"@),
        is_osf_arch("sparc64"@),
{
}

/// Every other architecture, under whatever name, has the asm-generic layout.
pub proof fn lemma_generic_architectures(arch: Seq<char>)
    requires
        arch != "powerpc"@,
        arch != "powerpc64"@,
        arch != "mips"@,
        arch != "mips32r6"@,
        arch != "mips64"@,
        arch != "mips64r6"@,
        arch != "sparc"@,
        arch != "sparc64"@,
    ensures
        !is_osf_arch(arch),
{
}

fn same_text(a: &str, b: &str) -> (same: bool)
    ensures
        same == (a@ == b@),
{
    a.to_owned() == b.to_owned()
}

impl Platform {
    /// The number of distinct sizes that fit into the size field.
    pub open spec fn size_limit(self) -> nat {
        match self {
            Platform::Generic => 0x4000,
            Platform::Osf => 0x2000,
        }
    }

    /// The number of distinct directions, given that a number has 32 bits.
    pub open spec fn direction_limit(self) -> nat {
        match self {
            Platform::Generic => 4,
            Platform::Osf => 8,
        }
    }

    /// The layout of the architecture with the given name, in the spelling of
    /// Rust's `target_arch`. Names without a layout of their own get the
    /// asm-generic one.
    pub fn for_arch(arch: &str) -> (platform: Self)
        ensures
            platform == (if is_osf_arch(arch@) {
                Platform::Osf
            } else {
                Platform::Generic
            }),
            platform == Platform::Osf <==> {
                ||| arch@ == "powerpc"@
                ||| arch@ == "powerpc64"@
                ||| arch@ == "mips"@
                ||| arch@ == "mips32r6"@
                ||| arch@ == "mips64"@
                ||| arch@ == "mips64r6"@
                ||| arch@ == "sparc"@
                ||| arch@ == "sparc64"@
            },
    {
        if same_text(arch, "powerpc") || same_text(arch, "powerpc64") || same_text(arch, "mips")
            || same_text(arch, "mips32r6") || same_text(arch, "mips64") || same_text(
            arch,
            "mips64r6",
        ) || same_text(arch, "sparc") || same_text(arch, "sparc64") {
            Platform::Osf
        } else {
            Platform::Generic
        }
    }

    /// The width of the size field.
    #[verifier::allow_in_spec]
    pub fn size_bits(self) -> (bits: u64)
        returns
            (match self {
                Platform::Generic => 14u64,
                Platform::Osf => 13u64,
            }),
    {
        match self {
            Platform::Generic => 14,
            Platform::Osf => 13,
        }
    }

    /// The direction of a request without data.
    #[verifier::allow_in_spec]
    pub fn none(self) -> (direction: u64)
        returns
            (match self {
                Platform::Generic => 0u64,
                Platform::Osf => 1u64,
            }),
    {
        match self {
            Platform::Generic => 0,
            Platform::Osf => 1,
        }
    }

    /// The direction of a request whose data flows from the kernel to userspace.
    #[verifier::allow_in_spec]
    pub fn read(self) -> (direction: u64)
        returns
            2u64,
    {
        2
    }

    /// The direction of a request whose data flows from userspace to the kernel.
    #[verifier::allow_in_spec]
    pub fn write(self) -> (direction: u64)
        returns
            (match self {
                Platform::Generic => 1u64,
                Platform::Osf => 4u64,
            }),
    {
        match self {
            Platform::Generic => 1,
            Platform::Osf => 4,
        }
    }

    /// The direction of a request whose data flows both ways.
    #[verifier::allow_in_spec]
    pub fn write_read(self) -> (direction: u64)
        returns
            (match self {
                Platform::Generic => 3u64,
                Platform::Osf => 6u64,
            }),
    {
        proof {
            assert(2u64 | 1 == 3 && 2u64 | 4 == 6) by (bit_vector);
        }
        self.read() | self.write()
    }
}

/// The four directions of a platform differ from each other, fit into its
/// direction field, and the one for both ways has the bits of the other two.
pub proof fn lemma_directions(platform: Platform)
    ensures
        platform.none() < platform.direction_limit(),
        platform.read() < platform.direction_limit(),
        platform.write() < platform.direction_limit(),
        platform.write_read() < platform.direction_limit(),
        platform.none() != platform.read(),
        platform.none() != platform.write(),
        platform.none() != platform.write_read(),
        platform.read() != platform.write(),
        platform.read() != platform.write_read(),
        platform.write() != platform.write_read(),
        platform.write_read() == platform.read() | platform.write(),
{
    assert(2u64 | 1 == 3 && 2u64 | 4 == 6) by (bit_vector);
}

/// The layouts in numbers: the asm-generic one has fourteen bits of size under
/// two of direction, and writes below reads; the one of OSF/1 has thirteen bits
/// of size under three of direction, one for each kind of request.
pub proof fn lemma_layouts_in_numbers()
    ensures
        Platform::Generic.size_bits() == 14,
        Platform::Generic.size_limit() == 16384,
        Platform::Generic.direction_limit() == 4,
        Platform::Generic.none() == 0,
        Platform::Generic.write() == 1,
        Platform::Generic.read() == 2,
        Platform::Generic.write_read() == 3,
        Platform::Osf.size_bits() == 13,
        Platform::Osf.size_limit() == 8192,
        Platform::Osf.direction_limit() == 8,
        Platform::Osf.none() == 1,
        Platform::Osf.read() == 2,
        Platform::Osf.write() == 4,
        Platform::Osf.write_read() == 6,
{
}

/// The size field and the direction field of a platform fill the upper half of
/// a 32-bit number, and the size field has as many values as its width says.
pub proof fn lemma_layout(platform: Platform)
    ensures
        platform.size_limit() * platform.direction_limit() == 0x1_0000,
        platform.size_limit() == 1u64 << platform.size_bits(),
{
    assert(1u64 << 14u64 == 0x4000 && 1u64 << 13u64 == 0x2000) by (bit_vector);
}

} // verus!
