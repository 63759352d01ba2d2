//! Userspace client core for a privileged kernel driver: request-code layout,
//! fixed-layout command payloads, the handle/info caching state machine, the
//! mount-list wire codec, and the persisted umount configuration.
//!
//! The library computes and interprets everything the driver protocol needs;
//! the actual device calls and file accesses are performed by the surrounding
//! program, which hands their outcomes back to the functions here.
use vstd::prelude::*;

pub mod ioc;
pub mod cmds;
pub mod calls;
pub mod client;
pub mod codec;
pub mod config;

verus! {

/// Errors the client core can report to callers.
#[derive(Clone, Copy, Debug, PartialEq, Eq, Structural)]
pub enum KsuError {
    /// The device call returned a negative result; the field carries the
    /// operating-system error number observed right after the call.
    Os(i32),
    /// A path argument holds an embedded null byte and cannot be passed to
    /// the driver as a null-terminated string.
    EmbeddedNul,
    /// The driver's mount-list buffer lacks a null terminator where one is
    /// required.
    MalformedBuffer,
}

/// Interprets the raw return of the privileged device call: a negative return
/// means failure and the operating-system error is reported; otherwise the
/// non-negative result code is handed through.
pub fn ksuctl_result(ret: i32, errno: i32) -> (r: Result<i32, KsuError>)
    ensures
        ret < 0 ==> r == Result::<i32, KsuError>::Err(KsuError::Os(errno)),
        ret >= 0 ==> r == Result::<i32, KsuError>::Ok(ret),
{
    if ret < 0 {
        Err(KsuError::Os(errno))
    } else {
        Ok(ret)
    }
}

} // verus!
