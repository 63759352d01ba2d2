//! Fixed-layout command payloads of the driver protocol.
//!
//! Field names, order and widths follow the kernel's expectation for each
//! operation. Values of these types are handed to the surrounding program,
//! which copies them into equivalent C-layout structures for the device call
//! and hands the (possibly kernel-updated) payload back.
use vstd::prelude::*;

verus! {

/// Payload of the get-info operation; the kernel fills both fields.
#[derive(Clone, Copy, Debug, PartialEq, Eq, Structural)]
pub struct GetInfoCmd {
    pub version: u32,
    pub flags: u32,
}

/// Payload of the report-event operation.
#[derive(Clone, Copy, Debug, PartialEq, Eq, Structural)]
pub struct ReportEventCmd {
    pub event: u32,
}

/// Payload of the set-sepolicy operation; both words are interpreted by the
/// kernel's policy engine.
#[derive(Clone, Copy, Debug, PartialEq, Eq, Structural)]
pub struct SetSepolicyCmd {
    pub cmd: u64,
    pub arg: u64,
}

/// Payload of the safemode check; the kernel writes a non-zero byte when the
/// device is in safe mode.
#[derive(Clone, Copy, Debug, PartialEq, Eq, Structural)]
pub struct CheckSafemodeCmd {
    pub in_safe_mode: u8,
}

/// Payload of the get-feature operation; the caller sets the feature id and
/// the kernel writes the value and support flag back.
#[derive(Clone, Copy, Debug, PartialEq, Eq, Structural)]
pub struct GetFeatureCmd {
    pub feature_id: u32,
    pub value: u64,
    pub supported: u8,
}

/// Payload of the set-feature operation.
#[derive(Clone, Copy, Debug, PartialEq, Eq, Structural)]
pub struct SetFeatureCmd {
    pub feature_id: u32,
    pub value: u64,
}

/// Payload of the wrapped-fd retrieval; the result code of the call carries
/// the new descriptor.
#[derive(Clone, Copy, Debug, PartialEq, Eq, Structural)]
pub struct GetWrapperFdCmd {
    pub fd: i32,
    pub flags: u32,
}

/// Payload of the process-mark operation; `operation` selects the verb,
/// `pid` names the process (0 is the wildcard) and the kernel writes the
/// count for the get verb into `result`.
#[derive(Clone, Copy, Debug, PartialEq, Eq, Structural)]
pub struct ManageMarkCmd {
    pub operation: u32,
    pub pid: i32,
    pub result: u32,
}

/// Payload of the ext4-sysfs nuke; `arg` carries the address of the
/// null-terminated mount-point path. The surrounding program fills it from
/// the path bytes that [`crate::calls::nuke_ext4_sysfs`] prepares.
#[derive(Clone, Copy, Debug, PartialEq, Eq, Structural)]
pub struct NukeExt4SysfsCmd {
    pub arg: u64,
}

/// Payload of the dynamic-manager record operation; `operation` selects
/// set, get or clear of the single (size, hash) verification record.
#[derive(Clone, Copy, Debug, PartialEq, Eq)]
pub struct DynamicManage {
    pub operation: u32,
    pub size: u32,
    pub hash: [u8; 64],
}

/// Event number reported after early userspace setup.
pub const EVENT_POST_FS_DATA: u32 = 1;

/// Event number reported once boot has completed.
pub const EVENT_BOOT_COMPLETED: u32 = 2;

/// Event number reported after a module has been mounted.
pub const EVENT_MODULE_MOUNTED: u32 = 3;

/// Mark verb: query a process's mark (or the total count for pid 0).
pub const KSU_MARK_GET: u32 = 1;

/// Mark verb: mark a process (all processes for pid 0).
pub const KSU_MARK_MARK: u32 = 2;

/// Mark verb: unmark a process (all processes for pid 0).
pub const KSU_MARK_UNMARK: u32 = 3;

/// Mark verb: refresh the mark of every running process.
pub const KSU_MARK_REFRESH: u32 = 4;

/// Umount-list verb: clear the kernel-held list.
pub const KSU_UMOUNT_WIPE: u8 = 0;

/// Umount-list verb: append one (path, flags) entry.
pub const KSU_UMOUNT_ADD: u8 = 1;

/// Umount-list verb: delete the entry with the given path.
pub const KSU_UMOUNT_DEL: u8 = 2;

/// Umount-list verb: write the serialized list's byte length to user memory.
pub const KSU_UMOUNT_GETSIZE_NEW: u8 = 200;

/// Umount-list verb: fill a user buffer with the serialized list.
pub const KSU_UMOUNT_GETLIST_NEW: u8 = 201;

/// Dynamic-manager verb: set or replace the verification record.
pub const SUKISU_DYNAMIC_MANAGER_SET: u32 = 0;

/// Dynamic-manager verb: fetch the verification record.
pub const SUKISU_DYNAMIC_MANAGER_GET: u32 = 1;

/// Dynamic-manager verb: clear the verification record.
pub const SUKISU_DYNAMIC_MANAGER_CLEAR: u32 = 2;

} // verus!
