//! Building blocks for runtime-safe `ioctl()` interfaces, with proofs.
//!
//! An `ioctl` is described by an [`Ioctl`], which ties the request number to the
//! direction of the data flow and to the type of the argument. Request numbers
//! either come from a table ([`Ioctl::classic`]) or are composed from a
//! [`Group`], a number, a direction and the size of the argument type, in the
//! layout of a [`Platform`].
//!
//! Nothing in this crate talks to the kernel. `Ioctl::ioctl()` describes the
//! call that has to be made as a [`Call`]; whoever makes the call hands its raw
//! return value to [`Call::finish`] or [`Call::finish_read`].
//!
//! ## Requirements on `T`
//!
//! Whoever makes the call of an `Ioctl<D, T>` relies on two halves of a contract
//! that `T` must uphold. Both halves are necessary; neither is sufficient on its
//! own.
//!
//! **1. Representation.** Depending on the direction, the kernel may write
//! arbitrary bytes into the memory of a `T` that safe Rust code will
//! subsequently read back as a `T` value. This is only sound if every bit
//! pattern the kernel could leave behind is a legal value of `T`, and if no
//! padding bytes are exposed to the kernel uninitialized.
//!
//! **2. Construction.** The fields of `T` should be private to the module that
//! defines the `ioctl`, with the only public constructors/mutators being ones
//! that cannot produce an invalid `T`. When a field is itself the address of a
//! second buffer, use [`Ptr`]/[`PtrMut`] for that field rather than a bare
//! integer: their constructors can only be called with a genuine,
//! currently-live Rust borrow of the target, and that borrow's lifetime is
//! threaded through `T` into the call.
//!
//! Note what this contract does *not* cover: an ioctl whose kernel side retains
//! and uses a pointer *after* the call returns needs an RAII
//! registration/deregistration object, not a pointer wrapper.
pub mod call;
pub mod group;
pub mod ioctl;
pub mod platform;
pub mod ptr;
pub mod request;

pub use call::{Call, LastOsError};
pub use group::Group;
pub use ioctl::{Ioctl, Read, Void, Write, WriteRead};
pub use platform::Platform;
pub use ptr::{Ptr, PtrMut};
