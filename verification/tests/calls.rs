use iocuddle::{Ioctl, LastOsError, Read, Void, Write, WriteRead};

#[test]
fn fionread_gives_what_the_kernel_wrote() {
    let fionread: Ioctl<Read, &i32> = Ioctl::classic(0x541B);

    let mut call = fionread.ioctl();
    assert_eq!(call.request(), 0x541B);
    assert_eq!(*call.argument(), [0, 0, 0, 0]);
    call.argument_mut().copy_from_slice(&5i32.to_ne_bytes());

    let (ret, available) = call.finish_read(0).unwrap();
    assert_eq!(ret, 0);
    assert_eq!(available, 5i32.to_ne_bytes());
}

#[test]
fn fionbio_passes_a_reference() {
    let fionbio: Ioctl<Write, &i32> = Ioctl::classic(0x5421);

    let call = fionbio.ioctl(&1);
    assert_eq!(call.request(), 0x5421);
    assert_eq!(**call.argument(), 1);
    assert_eq!(call.finish(0), Ok(0));
}

#[test]
fn reference_arguments_are_passed_in_place() {
    let data: u64 = 9;
    let call = Ioctl::<Write, &u64>::classic(1).ioctl(&data);
    assert!(std::ptr::eq(*call.argument(), &data));
}

#[test]
fn tcsbrk_passes_an_integer() {
    let tcsbrk: Ioctl<Write, i32> = Ioctl::classic(0x5409);

    let call = tcsbrk.ioctl(-7);
    assert_eq!(call.request(), 0x5409);
    assert_eq!(*call.argument(), -7);
    assert_eq!(call.finish(0), Ok(0));
}

#[test]
fn tiocsbrk_passes_nothing() {
    let tiocsbrk: Ioctl<Write, Void> = Ioctl::classic(0x5427);
    let call = tiocsbrk.ioctl();
    assert_eq!(call.request(), 0x5427);
    assert_eq!(*call.argument(), ());
    assert_eq!(call.finish(0), Ok(0));

    let tioccbrk: Ioctl<Write, Void> = Ioctl::classic(0x5428);
    let call = tioccbrk.ioctl();
    assert_eq!(call.request(), 0x5428);
    assert_eq!(call.finish(0), Ok(0));
}

#[test]
fn write_read_keeps_what_the_kernel_wrote() {
    let mut data: u32 = 3;
    let mut call = Ioctl::<WriteRead, &u32>::classic(0xc004_aea7).ioctl(&mut data);
    assert_eq!(call.request(), 0xc004_aea7);
    assert_eq!(**call.argument(), 3);
    **call.argument_mut() = 24;
    assert_eq!(call.finish(0), Ok(0));
    assert_eq!(data, 24);
}

#[test]
fn return_values_are_told_apart() {
    for (ret, expected) in [
        (0, Ok(0)),
        (1, Ok(1)),
        (i32::MAX, Ok(2147483647)),
        (-1, Err(LastOsError)),
        (-22, Err(LastOsError)),
        (i32::MIN, Err(LastOsError)),
    ] {
        assert_eq!(Ioctl::<Read, Void>::classic(1).ioctl().finish(ret), expected);
        assert_eq!(Ioctl::<Write, Void>::classic(1).ioctl().finish(ret), expected);
        assert_eq!(Ioctl::<Write, i32>::classic(1).ioctl(5).finish(ret), expected);
        assert_eq!(Ioctl::<Write, &u8>::classic(1).ioctl(&5).finish(ret), expected);
        assert_eq!(Ioctl::<WriteRead, &u8>::classic(1).ioctl(&mut 5).finish(ret), expected);
        assert_eq!(
            Ioctl::<Read, &u8>::classic(1).ioctl().finish_read(ret),
            expected.map(|status| (status, vec![0]))
        );
    }
}

#[test]
fn untouched_bytes_are_zero() {
    let mut call = Ioctl::<Read, &[u8; 6]>::classic(1).ioctl();
    call.argument_mut()[1] = 0xaa;
    call.argument_mut()[4] = 0xbb;
    assert_eq!(call.finish_read(3), Ok((3, vec![0, 0xaa, 0, 0, 0xbb, 0])));
}

#[test]
fn nothing_to_read_has_no_bytes() {
    let call = Ioctl::<Read, &()>::classic(1).ioctl();
    assert_eq!(call.argument().len(), 0);
    assert_eq!(call.finish_read(0), Ok((0, vec![])));
}

#[test]
fn a_large_argument_is_zeroed_too() {
    let call = Ioctl::<Read, &[u64; 0x8000]>::classic(1).ioctl();
    assert_eq!(call.argument().len(), 0x4_0000);
    assert!(call.argument().iter().all(|byte| *byte == 0));
}
