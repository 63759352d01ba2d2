//! Request-code layout for the driver's control interface.
//!
//! Every operation is selected by a 32-bit code in the Linux `_IOC` layout:
//! a transfer direction in bits 30..32, a payload size in bits 16..30 (this
//! driver always encodes size zero), a fixed magic byte in bits 8..16 and an
//! operation number in bits 0..8.
use vstd::prelude::*;

verus! {

/// Direction value: the call transfers no payload.
pub const IOC_NONE: u32 = 0;

/// Direction value: user memory is read by the kernel (`_IOW`).
pub const IOC_WRITE: u32 = 1;

/// Direction value: user memory is written by the kernel (`_IOR`).
pub const IOC_READ: u32 = 2;

/// Direction value: user memory is both read and written (`_IOWR`).
pub const IOC_READ_WRITE: u32 = 3;

/// The driver's magic byte, ASCII 'K'.
pub const KSU_MAGIC: u32 = 0x4B;

/// The request code with the given direction and operation number, in the
/// layout described at the top of this module.
pub open spec fn spec_ioc(dir: u32, nr: u32) -> u32
    recommends
        dir < 4,
        nr < 256,
{
    (dir << 30) | (KSU_MAGIC << 8) | nr
}

pub const KSU_IOCTL_GRANT_ROOT: u32 = (IOC_NONE << 30) | (KSU_MAGIC << 8) | 1;

pub const KSU_IOCTL_GET_INFO: u32 = (IOC_READ << 30) | (KSU_MAGIC << 8) | 2;

pub const KSU_IOCTL_REPORT_EVENT: u32 = (IOC_WRITE << 30) | (KSU_MAGIC << 8) | 3;

pub const KSU_IOCTL_SET_SEPOLICY: u32 = (IOC_READ_WRITE << 30) | (KSU_MAGIC << 8) | 4;

pub const KSU_IOCTL_CHECK_SAFEMODE: u32 = (IOC_READ << 30) | (KSU_MAGIC << 8) | 5;

pub const KSU_IOCTL_GET_FEATURE: u32 = (IOC_READ_WRITE << 30) | (KSU_MAGIC << 8) | 13;

pub const KSU_IOCTL_SET_FEATURE: u32 = (IOC_WRITE << 30) | (KSU_MAGIC << 8) | 14;

pub const KSU_IOCTL_GET_WRAPPER_FD: u32 = (IOC_WRITE << 30) | (KSU_MAGIC << 8) | 15;

pub const KSU_IOCTL_MANAGE_MARK: u32 = (IOC_READ_WRITE << 30) | (KSU_MAGIC << 8) | 16;

pub const KSU_IOCTL_NUKE_EXT4_SYSFS: u32 = (IOC_WRITE << 30) | (KSU_MAGIC << 8) | 17;

pub const KSU_IOCTL_MANAGE_TRY_UMOUNT: u32 = (IOC_WRITE << 30) | (KSU_MAGIC << 8) | 18;

/// The single extension operation lives in a reserved number range of the
/// same magic namespace.
pub const SUKISU_IOCTL_DYNAMIC_MANAGER: u32 = (IOC_READ_WRITE << 30) | (KSU_MAGIC << 8) | 103;

/// The full request-code table: every operation's code is exactly the `_IOC`
/// layout applied to its documented direction and operation number.
pub proof fn lemma_opcode_table()
    ensures
        KSU_IOCTL_GRANT_ROOT == spec_ioc(IOC_NONE, 1),
        KSU_IOCTL_GET_INFO == spec_ioc(IOC_READ, 2),
        KSU_IOCTL_REPORT_EVENT == spec_ioc(IOC_WRITE, 3),
        KSU_IOCTL_SET_SEPOLICY == spec_ioc(IOC_READ_WRITE, 4),
        KSU_IOCTL_CHECK_SAFEMODE == spec_ioc(IOC_READ, 5),
        KSU_IOCTL_GET_FEATURE == spec_ioc(IOC_READ_WRITE, 13),
        KSU_IOCTL_SET_FEATURE == spec_ioc(IOC_WRITE, 14),
        KSU_IOCTL_GET_WRAPPER_FD == spec_ioc(IOC_WRITE, 15),
        KSU_IOCTL_MANAGE_MARK == spec_ioc(IOC_READ_WRITE, 16),
        KSU_IOCTL_NUKE_EXT4_SYSFS == spec_ioc(IOC_WRITE, 17),
        KSU_IOCTL_MANAGE_TRY_UMOUNT == spec_ioc(IOC_WRITE, 18),
        SUKISU_IOCTL_DYNAMIC_MANAGER == spec_ioc(IOC_READ_WRITE, 103),
{
}

} // verus!
