use iocuddle::{Group, Ioctl, Platform, Read, Void, Write, WriteRead};

// The expected values of most tests are those of the asm-generic layout.

fn kvmio() -> Group {
    Group::new(0xAE)
}

fn pty() -> Group {
    Group::new(0x54) // 'T', matches <asm-generic/ioctls.h>
}

#[test]
fn req() {
    let kvm_create_vm: Ioctl<Read, Void> = kvmio().none(Platform::Generic, 0x01);

    assert_eq!(kvm_create_vm.request(), 0xae01);

    // The kernel answers with a file descriptor.
    let call = kvm_create_vm.ioctl();
    assert_eq!(call.request(), 0xae01);
    let fd: u32 = call.finish(4).unwrap();
    assert!(fd > 0);
}

#[test]
fn req_r() {
    let kvm_x86_get_mce_cap_supported: Ioctl<Read, &u64> = kvmio().read(Platform::Generic, 0x9d);

    assert_eq!(kvm_x86_get_mce_cap_supported.request(), 0x8008_ae9d);
}

#[test]
fn req_w() {
    let kvm_x86_setup_mce: Ioctl<Write, &u64> = kvmio().write(Platform::Generic, 0x9c);

    assert_eq!(kvm_x86_setup_mce.request(), 0x4008_ae9c);
}

#[test]
fn req_wr() {
    let kvm_ppc_allocate_htab: Ioctl<WriteRead, &u32> =
        kvmio().write_read(Platform::Generic, 0xa7);

    assert_eq!(kvm_ppc_allocate_htab.request(), 0xc004_aea7);
}

#[test]
fn group_read_runs_everywhere_via_tiocgptn() {
    let tiocgptn: Ioctl<Read, &u32> = pty().read(Platform::Generic, 0x30);
    assert_eq!(tiocgptn.request(), 0x8004_5430);

    let mut call = tiocgptn.ioctl();
    assert_eq!(call.request(), 0x8004_5430);
    assert_eq!(call.argument().len(), 4);
    // The kernel fills in the number of the terminal and returns zero.
    call.argument_mut().copy_from_slice(&7u32.to_ne_bytes());
    let (ret, ptn) = call.finish_read(0).unwrap();
    assert_eq!(ret, 0);
    assert_eq!(ptn, 7u32.to_ne_bytes());
}

#[test]
fn group_write_runs_everywhere_via_tiocsptlck() {
    let tiocsptlck: Ioctl<Write, &i32> = pty().write(Platform::Generic, 0x31);
    assert_eq!(tiocsptlck.request(), 0x4004_5431);

    // 0 unlocks the pty pair.
    let call = tiocsptlck.ioctl(&0);
    assert_eq!(call.request(), 0x4004_5431);
    assert_eq!(**call.argument(), 0);
    let ret = call.finish(0).unwrap();
    assert_eq!(ret, 0);
}

#[test]
fn osf_layout_has_its_own_directions_and_size_field() {
    let none: Ioctl<Read, Void> = kvmio().none(Platform::Osf, 0x01);
    assert_eq!(none.request(), 0x2000_ae01);
    assert_eq!(kvmio().read::<u64>(Platform::Osf, 0x9d).request(), 0x4008_ae9d);
    assert_eq!(kvmio().write::<u64>(Platform::Osf, 0x9c).request(), 0x8008_ae9c);
    assert_eq!(kvmio().write_read::<u32>(Platform::Osf, 0xa7).request(), 0xc004_aea7);
}

#[test]
fn platform_constants() {
    let generic = Platform::Generic;
    assert_eq!(generic.size_bits(), 14);
    assert_eq!(
        (generic.none(), generic.read(), generic.write(), generic.write_read()),
        (0, 2, 1, 3)
    );
    let osf = Platform::Osf;
    assert_eq!(osf.size_bits(), 13);
    assert_eq!((osf.none(), osf.read(), osf.write(), osf.write_read()), (1, 2, 4, 6));
}

#[test]
fn architectures_have_their_layout() {
    for arch in [
        "powerpc", "powerpc64", "mips", "mips32r6", "mips64", "mips64r6", "sparc", "sparc64",
    ] {
        assert_eq!(Platform::for_arch(arch), Platform::Osf);
    }
    for arch in ["x86", "x86_64", "arm", "aarch64", "riscv64", "s390x", "", "mips6", "Mips"] {
        assert_eq!(Platform::for_arch(arch), Platform::Generic);
    }
}

#[test]
fn size_is_cut_to_its_field() {
    let group = Group::new(0x12);
    // The largest size that fits, and the first that does not.
    assert_eq!(group.read::<[u8; 0x3fff]>(Platform::Generic, 0x34).request(), 0xbfff_1234);
    assert_eq!(group.read::<[u8; 0x4000]>(Platform::Generic, 0x34).request(), 0x8000_1234);
    assert_eq!(group.read::<[u8; 0x4001]>(Platform::Generic, 0x34).request(), 0x8001_1234);
    assert_eq!(group.write::<[u8; 0x1fff]>(Platform::Osf, 0x34).request(), 0x9fff_1234);
    assert_eq!(group.write::<[u8; 0x2000]>(Platform::Osf, 0x34).request(), 0x8000_1234);
    // A type without a size.
    assert_eq!(group.write_read::<()>(Platform::Generic, 0x34).request(), 0xc000_1234);
}

#[test]
fn fields_read_back() {
    for (platform, limit) in [(Platform::Generic, 0x4000), (Platform::Osf, 0x2000)] {
        let request = Group::new(0xfe).write::<[u8; 0x123]>(platform, 0xdc).request();
        assert_eq!(request % 0x100, 0xdc);
        assert_eq!(request / 0x100 % 0x100, 0xfe);
        assert_eq!(request / 0x1_0000 % limit, 0x123);
        assert_eq!(request / 0x1_0000 / limit, platform.write());
    }
}

#[test]
fn groups_are_namespaces() {
    let mut requests = vec![];
    for value in [0x00, 0x01, 0xff] {
        for nr in [0x00, 0x01, 0xff] {
            let group = Group::new(value);
            let none: Ioctl<Write, Void> = group.none(Platform::Generic, nr);
            requests.push(none.request());
            requests.push(group.read::<u16>(Platform::Generic, nr).request());
            requests.push(group.write::<u16>(Platform::Generic, nr).request());
            requests.push(group.write_read::<u16>(Platform::Generic, nr).request());
        }
    }
    let count = requests.len();
    requests.sort();
    requests.dedup();
    assert_eq!(requests.len(), count);
}

#[test]
fn write_read_joins_read_and_write() {
    for platform in [Platform::Generic, Platform::Osf] {
        let read = kvmio().read::<u64>(platform, 0x42).request();
        let write = kvmio().write::<u64>(platform, 0x42).request();
        assert_eq!(kvmio().write_read::<u64>(platform, 0x42).request(), read | write);
    }
}

#[test]
fn numbers_have_32_bits() {
    for platform in [Platform::Generic, Platform::Osf] {
        let largest = Group::new(0xff).write_read::<[u8; 0xffff]>(platform, 0xff).request();
        assert!(largest <= u32::MAX as u64);
    }
}

#[test]
fn classic_keeps_the_request() {
    let tiocinq: Ioctl<Read, &i32> = Ioctl::classic(0x541B);
    assert_eq!(tiocinq.request(), 0x541B);
    let widest: Ioctl<Write, i32> = Ioctl::classic(u64::MAX);
    assert_eq!(widest.request(), u64::MAX);
}

#[test]
fn lie_changes_the_type_alone() {
    let defined: Ioctl<Write, &u64> = kvmio().write(Platform::Generic, 0x9c);
    let lied: Ioctl<WriteRead, &u32> = defined.lie();
    assert_eq!(lied.request(), 0x4008_ae9c);
    let back: Ioctl<Write, &u64> = lied.lie();
    assert_eq!(back.request(), 0x4008_ae9c);
}

#[test]
fn groups_and_ioctls_are_values() {
    let group = kvmio();
    let copy = group;
    assert!(group == copy);
    assert!(group == group.clone());
    assert!(group != pty());

    let a: Ioctl<u8, u16> = Ioctl::classic(1);
    let b = a;
    assert!(a == b);
    assert!(a.clone() == b);
    assert!(a != Ioctl::classic(2));
}

#[test]
fn numbers_are_those_of_the_kernel_macro() {
    for (platform, shift) in [(Platform::Generic, 30), (Platform::Osf, 29)] {
        let number = Group::new(0x9a).read::<[u8; 0x1234]>(platform, 0x56).request();
        assert_eq!(number, platform.read() << shift | 0x9a << 8 | 0x56 | 0x1234 << 16);
    }
}

#[test]
fn calls_have_as_many_bytes_as_the_request_says() {
    let ioctl = Group::new(0x9a).read::<[u16; 0x111]>(Platform::Generic, 0x56);
    let call = ioctl.ioctl();
    assert_eq!(call.argument().len(), 0x222);
    assert_eq!(call.request() / 0x1_0000 % 0x4000, 0x222);
}

#[test]
fn make_composes_any_fields() {
    let make = |platform, nr, dir, size| {
        let ioctl: Ioctl<Read, Void> = Group::new(0xab).make(platform, nr, dir, size);
        ioctl.request()
    };
    assert_eq!(make(Platform::Generic, 0xcd, 3, 0x1234), 0xd234_abcd);
    assert_eq!(make(Platform::Osf, 0xcd, 5, 0x1234), 0xb234_abcd);
    // The size loses what exceeds its field, and touches no other.
    assert_eq!(make(Platform::Generic, 0xcd, 1, usize::MAX), 0x7fff_abcd);
    assert_eq!(make(Platform::Osf, 0xcd, 1, usize::MAX), 0x3fff_abcd);
    // So does a direction that reaches beyond the number.
    assert_eq!(make(Platform::Generic, 0xcd, 4, 0), 0x1_0000_abcd);
    assert_eq!(make(Platform::Generic, 0xcd, u64::MAX, 0), 0xffff_ffff_c000_abcd);
    assert_eq!(make(Platform::Osf, 0xcd, 1 << 35, 0), 0xabcd);
}

#[test]
fn make_does_not_depend_on_the_types() {
    let group = Group::new(0xab);
    let a: Ioctl<Read, &u8> = group.make(Platform::Generic, 1, 2, 8);
    let b: Ioctl<Write, [u64; 4]> = group.make(Platform::Generic, 1, 2, 8);
    assert_eq!(a.request(), b.request());
    assert_eq!(a.request(), group.read::<u64>(Platform::Generic, 1).request());
}

#[test]
fn directions_join() {
    for (platform, limit) in [(Platform::Generic, 4), (Platform::Osf, 8)] {
        let make = |dir| {
            let ioctl: Ioctl<Read, Void> = Group::new(0xab).make(platform, 0xcd, dir, 0x123);
            ioctl.request()
        };
        for d1 in 0..limit {
            for d2 in 0..limit {
                assert_eq!(make(d1 | d2), make(d1) | make(d2));
            }
        }
    }
}

#[test]
fn groups_are_their_numbers() {
    for a in 0..=255 {
        for b in 0..=255 {
            assert_eq!(Group::new(a) == Group::new(b), a == b);
        }
    }
}

#[test]
fn fields_are_bits() {
    let request = Group::new(0xab).write::<[u8; 0x123]>(Platform::Generic, 0xcd).request();
    assert_eq!(request & 0xff, 0xcd);
    assert_eq!((request >> 8) & 0xff, 0xab);
    assert_eq!((request >> 16) & 0x3fff, 0x123);
    assert_eq!(request >> 30, 1);
}
