//! Userspace client for an embedded kernel's alarm (timer) driver.
//!
//! The library has two halves. [`time`] holds the duration types --
//! hardware [`time::Ticks`], [`time::Milliseconds`] and the tick rate
//! [`time::Hz`] -- together with the conversion between them, which
//! rounds up and saturates. [`protocol`] holds the relative-sleep
//! protocol as a state machine: each state names the next syscall to
//! perform, and the transition function consumes the kernel's reply.
//! A thin unverified shim performs the actual syscalls and feeds the
//! outcomes back into the machine.

pub mod protocol;
pub mod time;
