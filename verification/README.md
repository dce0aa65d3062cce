# iocuddle

`iocuddle` is a library for building runtime-safe `ioctl()` interfaces, verified
with [Verus](https://github.com/verus-lang/verus).

Most approaches to interfacing with `ioctl`s from Rust rely on casting and/or
unsafe code at the call site. `iocuddle` moves that burden to the definition of
the `ioctl`: once it is defined, all executions of it can be done within safe
code.

## Layout

  * `src/platform.rs`: the layouts of request numbers and which architecture has
    which.
  * `src/request.rs`: what a request number is, how its fields are read back, and
    why different requests have different numbers.
  * `src/group.rs`: `Group`, which composes request numbers.
  * `src/ioctl.rs`: `Ioctl`, a request number with a direction and an argument
    type, and the call that it stands for.
  * `src/call.rs`: `Call`, a call that is ready to be made, and what the value
    that it returns means.
  * `src/ptr.rs`: `Ptr` and `PtrMut`, addresses inside of arguments.
  * `app/`: the calls into the kernel, and the argument types' layout.

## Defining `ioctl`s

Classic `ioctl`s have a request number from a table:

```rust
use iocuddle::{Ioctl, Read};

let tiocinq: Ioctl<Read, &i32> = Ioctl::classic(0x541B);
```

The numbers of modern ones are composed from a group, a number within the group,
a direction and the size of the argument type:

```rust
use iocuddle::{Group, Ioctl, Platform, Read, Write, WriteRead};

let kvm = Group::new(0xAE);
let platform = Platform::for_arch(std::env::consts::ARCH);

let allocate_htab: Ioctl<WriteRead, &u32> = kvm.write_read(platform, 0xa7);
let get_mce_cap_supported: Ioctl<Read, &u64> = kvm.read(platform, 0x9d);
let setup_mce: Ioctl<Write, &u64> = kvm.write(platform, 0x9c);
```

For the kernel documentation of the ioctl process, see
`Documentation/userspace-api/ioctl/ioctl-number.rst` in the kernel source tree.

License: Apache-2.0
