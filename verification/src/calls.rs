//! Typed capability operations of the driver protocol.
//!
//! Each operation builds a [`KsuRequest`]: the request code to submit and the
//! payload to pass. The surrounding program performs the device call and, for
//! operations whose payload the kernel writes, hands the updated payload back
//! to the `*_result` interpreter here.
use vstd::prelude::*;
use vstd::slice::{slice_index_get, slice_to_vec};
use vstd::string::StringSliceAdditionalSpecFns;
use vstd::utf8::encode_utf8;
use crate::KsuError;
use crate::cmds::{
    GetInfoCmd, ReportEventCmd, SetSepolicyCmd, CheckSafemodeCmd, GetFeatureCmd, SetFeatureCmd,
    GetWrapperFdCmd, ManageMarkCmd, DynamicManage, EVENT_POST_FS_DATA, EVENT_BOOT_COMPLETED,
    EVENT_MODULE_MOUNTED, KSU_MARK_GET, KSU_MARK_MARK, KSU_MARK_UNMARK, KSU_MARK_REFRESH,
    KSU_UMOUNT_WIPE, KSU_UMOUNT_ADD, KSU_UMOUNT_DEL, KSU_UMOUNT_GETSIZE_NEW,
    KSU_UMOUNT_GETLIST_NEW, SUKISU_DYNAMIC_MANAGER_SET, SUKISU_DYNAMIC_MANAGER_GET,
    SUKISU_DYNAMIC_MANAGER_CLEAR,
};
use crate::ioc::{
    KSU_IOCTL_GRANT_ROOT, KSU_IOCTL_GET_INFO, KSU_IOCTL_REPORT_EVENT, KSU_IOCTL_SET_SEPOLICY,
    KSU_IOCTL_CHECK_SAFEMODE, KSU_IOCTL_GET_FEATURE, KSU_IOCTL_SET_FEATURE,
    KSU_IOCTL_GET_WRAPPER_FD, KSU_IOCTL_MANAGE_MARK, KSU_IOCTL_NUKE_EXT4_SYSFS,
    KSU_IOCTL_MANAGE_TRY_UMOUNT, SUKISU_IOCTL_DYNAMIC_MANAGER,
};

verus! {

/// What the umount-list payload's pointer-sized argument refers to.
#[derive(Debug)]
pub enum UmountArg {
    /// No argument: the wipe verb.
    NoArg,
    /// The address of these null-terminated path bytes.
    PathZ(Vec<u8>),
    /// The address of an integer slot the kernel writes the list size into.
    SizeOut,
    /// The address of a caller-allocated buffer of exactly this many bytes.
    ListBuf(usize),
}

/// One privileged call to submit: which operation, with which payload.
#[derive(Debug)]
pub enum KsuRequest {
    GrantRoot,
    GetInfo(GetInfoCmd),
    ReportEvent(ReportEventCmd),
    SetSepolicy(SetSepolicyCmd),
    CheckSafemode(CheckSafemodeCmd),
    GetFeature(GetFeatureCmd),
    SetFeature(SetFeatureCmd),
    GetWrappedFd(GetWrapperFdCmd),
    ManageMark(ManageMarkCmd),
    /// The null-terminated bytes of the mount point to nuke.
    NukeExt4Sysfs(Vec<u8>),
    TryUmount { arg: UmountArg, flags: u32, mode: u8 },
    DynamicManager(DynamicManage),
}

/// The request code each request is submitted under.
pub open spec fn spec_opcode_of(req: KsuRequest) -> u32 {
    match req {
        KsuRequest::GrantRoot => KSU_IOCTL_GRANT_ROOT,
        KsuRequest::GetInfo(_) => KSU_IOCTL_GET_INFO,
        KsuRequest::ReportEvent(_) => KSU_IOCTL_REPORT_EVENT,
        KsuRequest::SetSepolicy(_) => KSU_IOCTL_SET_SEPOLICY,
        KsuRequest::CheckSafemode(_) => KSU_IOCTL_CHECK_SAFEMODE,
        KsuRequest::GetFeature(_) => KSU_IOCTL_GET_FEATURE,
        KsuRequest::SetFeature(_) => KSU_IOCTL_SET_FEATURE,
        KsuRequest::GetWrappedFd(_) => KSU_IOCTL_GET_WRAPPER_FD,
        KsuRequest::ManageMark(_) => KSU_IOCTL_MANAGE_MARK,
        KsuRequest::NukeExt4Sysfs(_) => KSU_IOCTL_NUKE_EXT4_SYSFS,
        KsuRequest::TryUmount { .. } => KSU_IOCTL_MANAGE_TRY_UMOUNT,
        KsuRequest::DynamicManager(_) => SUKISU_IOCTL_DYNAMIC_MANAGER,
    }
}

/// Returns the request code to submit `req` under.
pub fn opcode_of(req: &KsuRequest) -> (r: u32)
    ensures
        r == spec_opcode_of(*req),
{
    match req {
        KsuRequest::GrantRoot => KSU_IOCTL_GRANT_ROOT,
        KsuRequest::GetInfo(_) => KSU_IOCTL_GET_INFO,
        KsuRequest::ReportEvent(_) => KSU_IOCTL_REPORT_EVENT,
        KsuRequest::SetSepolicy(_) => KSU_IOCTL_SET_SEPOLICY,
        KsuRequest::CheckSafemode(_) => KSU_IOCTL_CHECK_SAFEMODE,
        KsuRequest::GetFeature(_) => KSU_IOCTL_GET_FEATURE,
        KsuRequest::SetFeature(_) => KSU_IOCTL_SET_FEATURE,
        KsuRequest::GetWrappedFd(_) => KSU_IOCTL_GET_WRAPPER_FD,
        KsuRequest::ManageMark(_) => KSU_IOCTL_MANAGE_MARK,
        KsuRequest::NukeExt4Sysfs(_) => KSU_IOCTL_NUKE_EXT4_SYSFS,
        KsuRequest::TryUmount { .. } => KSU_IOCTL_MANAGE_TRY_UMOUNT,
        KsuRequest::DynamicManager(_) => SUKISU_IOCTL_DYNAMIC_MANAGER,
    }
}

/// Converts a path to the null-terminated byte sequence the driver expects;
/// a path holding an embedded null byte is rejected before any device call.
pub fn path_to_z_bytes(path: &str) -> (r: Result<Vec<u8>, KsuError>)
    ensures
        r is Ok <==> !encode_utf8(path@).contains(0u8),
        r matches Ok(v) ==> v@ == encode_utf8(path@).push(0u8),
        r matches Err(e) ==> e == KsuError::EmbeddedNul,
{
    let bytes: &[u8] = path.as_bytes();
    let n: usize = bytes.len();
    let mut i: usize = 0;
    while i < n
        invariant
            i <= n,
            n == bytes@.len(),
            bytes@ == encode_utf8(path@),
            forall|j: int| 0 <= j < i ==> bytes@[j] != 0u8,
        decreases n - i,
    {
        if *slice_index_get(bytes, i) == 0u8 {
            assert(encode_utf8(path@).contains(0u8));
            return Err(KsuError::EmbeddedNul);
        }
        i += 1;
    }
    assert(!encode_utf8(path@).contains(0u8)) by {
        if encode_utf8(path@).contains(0u8) {
            let k = choose|k: int| 0 <= k < bytes@.len() && bytes@[k] == 0u8;
            assert(bytes@[k] != 0u8);
        }
    }
    let mut v = slice_to_vec(bytes);
    v.push(0u8);
    Ok(v)
}

/// The grant-root request: no payload; success or failure is carried by the
/// call's result alone and elevates the calling process.
pub fn grant_root() -> (r: KsuRequest)
    ensures
        r == KsuRequest::GrantRoot,
{
    KsuRequest::GrantRoot
}

/// The get-info request with a zero-initialized payload for the kernel to
/// fill.
pub fn get_info_request() -> (r: KsuRequest)
    ensures
        r == KsuRequest::GetInfo(GetInfoCmd { version: 0, flags: 0 }),
{
    KsuRequest::GetInfo(GetInfoCmd { version: 0, flags: 0 })
}

fn report_event(event: u32) -> (r: KsuRequest)
    ensures
        r == KsuRequest::ReportEvent(ReportEventCmd { event }),
{
    KsuRequest::ReportEvent(ReportEventCmd { event })
}

/// Reports the post-fs-data boot event; the call is informational and its
/// failure is not surfaced.
pub fn report_post_fs_data() -> (r: KsuRequest)
    ensures
        r == KsuRequest::ReportEvent(ReportEventCmd { event: EVENT_POST_FS_DATA }),
{
    report_event(EVENT_POST_FS_DATA)
}

/// Reports the boot-completed event; informational, failures not surfaced.
pub fn report_boot_complete() -> (r: KsuRequest)
    ensures
        r == KsuRequest::ReportEvent(ReportEventCmd { event: EVENT_BOOT_COMPLETED }),
{
    report_event(EVENT_BOOT_COMPLETED)
}

/// Reports the module-mounted event; informational, failures not surfaced.
pub fn report_module_mounted() -> (r: KsuRequest)
    ensures
        r == KsuRequest::ReportEvent(ReportEventCmd { event: EVENT_MODULE_MOUNTED }),
{
    report_event(EVENT_MODULE_MOUNTED)
}

/// The safemode query with a zeroed answer byte; a failed call leaves the
/// byte zero, which [`safemode_result`] reads as "not in safe mode".
pub fn check_kernel_safemode() -> (r: KsuRequest)
    ensures
        r == KsuRequest::CheckSafemode(CheckSafemodeCmd { in_safe_mode: 0 }),
{
    KsuRequest::CheckSafemode(CheckSafemodeCmd { in_safe_mode: 0 })
}

/// Reads the safemode answer: in safe mode exactly when the kernel wrote a
/// non-zero byte. On a failed call the byte is still zero, so failure is
/// absorbed as "not in safe mode".
pub fn safemode_result(resp: &CheckSafemodeCmd) -> (r: bool)
    ensures
        r == (resp.in_safe_mode != 0),
{
    resp.in_safe_mode != 0
}

/// The set-sepolicy request carrying the caller's policy words unchanged.
pub fn set_sepolicy(cmd: &SetSepolicyCmd) -> (r: KsuRequest)
    ensures
        r == KsuRequest::SetSepolicy(*cmd),
{
    KsuRequest::SetSepolicy(*cmd)
}

/// The get-feature request for one feature id, with zeroed answer fields.
pub fn get_feature(feature_id: u32) -> (r: KsuRequest)
    ensures
        r == KsuRequest::GetFeature(GetFeatureCmd { feature_id, value: 0, supported: 0 }),
{
    KsuRequest::GetFeature(GetFeatureCmd { feature_id, value: 0, supported: 0 })
}

/// Reads the get-feature answer: the value and whether the feature is
/// supported (non-zero support byte).
pub fn get_feature_result(resp: &GetFeatureCmd) -> (r: (u64, bool))
    ensures
        r.0 == resp.value,
        r.1 == (resp.supported != 0),
{
    (resp.value, resp.supported != 0)
}

/// The set-feature request for one feature id and value.
pub fn set_feature(feature_id: u32, value: u64) -> (r: KsuRequest)
    ensures
        r == KsuRequest::SetFeature(SetFeatureCmd { feature_id, value }),
{
    KsuRequest::SetFeature(SetFeatureCmd { feature_id, value })
}

/// The wrapped-fd request for one descriptor; the call's non-negative result
/// is the new descriptor.
pub fn get_wrapped_fd(fd: i32) -> (r: KsuRequest)
    ensures
        r == KsuRequest::GetWrappedFd(GetWrapperFdCmd { fd, flags: 0 }),
{
    KsuRequest::GetWrappedFd(GetWrapperFdCmd { fd, flags: 0 })
}

/// The mark request with the given verb and pid.
pub open spec fn spec_mark_request(operation: u32, pid: i32) -> KsuRequest {
    KsuRequest::ManageMark(ManageMarkCmd { operation, pid, result: 0 })
}

/// Queries the mark of one process; pid 0 asks for the total marked count.
/// The kernel writes the answer into the payload's `result` field.
pub fn mark_get(pid: i32) -> (r: KsuRequest)
    ensures
        r == spec_mark_request(KSU_MARK_GET, pid),
{
    KsuRequest::ManageMark(ManageMarkCmd { operation: KSU_MARK_GET, pid, result: 0 })
}

/// Reads the answer of a mark query.
pub fn mark_get_result(resp: &ManageMarkCmd) -> (r: u32)
    ensures
        r == resp.result,
{
    resp.result
}

/// Marks one process; pid 0 is the wildcard marking all processes.
pub fn mark_set(pid: i32) -> (r: KsuRequest)
    ensures
        r == spec_mark_request(KSU_MARK_MARK, pid),
{
    KsuRequest::ManageMark(ManageMarkCmd { operation: KSU_MARK_MARK, pid, result: 0 })
}

/// Unmarks one process; pid 0 is the wildcard unmarking all processes.
pub fn mark_unset(pid: i32) -> (r: KsuRequest)
    ensures
        r == spec_mark_request(KSU_MARK_UNMARK, pid),
{
    KsuRequest::ManageMark(ManageMarkCmd { operation: KSU_MARK_UNMARK, pid, result: 0 })
}

/// Refreshes the mark of every running process.
pub fn mark_refresh() -> (r: KsuRequest)
    ensures
        r == spec_mark_request(KSU_MARK_REFRESH, 0),
{
    KsuRequest::ManageMark(ManageMarkCmd { operation: KSU_MARK_REFRESH, pid: 0, result: 0 })
}

/// The wildcard pid names all processes through the same request code and
/// verb as a specific pid: the two requests differ in the pid field alone.
pub proof fn lemma_mark_wildcard_same_opcode(pid: i32)
    ensures
        spec_opcode_of(spec_mark_request(KSU_MARK_MARK, 0)) == spec_opcode_of(
            spec_mark_request(KSU_MARK_MARK, pid),
        ),
        spec_mark_request(KSU_MARK_MARK, 0) matches KsuRequest::ManageMark(w)
            && spec_mark_request(KSU_MARK_MARK, pid) matches KsuRequest::ManageMark(s)
            && w.operation == s.operation && w.result == s.result && w.pid == 0 && s.pid == pid,
{
}

/// The ext4-sysfs nuke request: the mount-point path as null-terminated
/// bytes; a path with an embedded null byte is rejected.
pub fn nuke_ext4_sysfs(mnt: &str) -> (r: Result<KsuRequest, KsuError>)
    ensures
        r is Ok <==> !encode_utf8(mnt@).contains(0u8),
        r matches Ok(req) ==> (req matches KsuRequest::NukeExt4Sysfs(z)
            && z@ == encode_utf8(mnt@).push(0u8)),
        r matches Err(e) ==> e == KsuError::EmbeddedNul,
{
    let z = path_to_z_bytes(mnt)?;
    Ok(KsuRequest::NukeExt4Sysfs(z))
}

/// The request that clears the kernel-held umount list.
pub fn umount_list_wipe() -> (r: KsuRequest)
    ensures
        r matches KsuRequest::TryUmount { arg, flags, mode }
            && arg == UmountArg::NoArg && flags == 0 && mode == KSU_UMOUNT_WIPE,
{
    KsuRequest::TryUmount { arg: UmountArg::NoArg, flags: 0, mode: KSU_UMOUNT_WIPE }
}

/// Holds exactly when `req` adds `path` with `flags` to the kernel-held
/// umount list.
pub open spec fn is_umount_add(req: KsuRequest, path: Seq<char>, flags: u32) -> bool {
    match req {
        KsuRequest::TryUmount { arg, flags: f, mode } => {
            &&& mode == KSU_UMOUNT_ADD
            &&& f == flags
            &&& arg matches UmountArg::PathZ(z) && z@ == encode_utf8(path).push(0u8)
        },
        _ => false,
    }
}

/// The request that adds one (path, flags) entry to the kernel-held umount
/// list; a path with an embedded null byte is rejected.
pub fn umount_list_add(path: &str, flags: u32) -> (r: Result<KsuRequest, KsuError>)
    ensures
        r is Ok <==> !encode_utf8(path@).contains(0u8),
        r matches Ok(req) ==> is_umount_add(req, path@, flags),
        r matches Err(e) ==> e == KsuError::EmbeddedNul,
{
    let z = path_to_z_bytes(path)?;
    Ok(KsuRequest::TryUmount { arg: UmountArg::PathZ(z), flags, mode: KSU_UMOUNT_ADD })
}

/// The request that deletes the entry with this path from the kernel-held
/// umount list; a path with an embedded null byte is rejected.
pub fn umount_list_del(path: &str) -> (r: Result<KsuRequest, KsuError>)
    ensures
        r is Ok <==> !encode_utf8(path@).contains(0u8),
        r matches Ok(req) ==> (req matches KsuRequest::TryUmount { arg, flags, mode }
            && mode == KSU_UMOUNT_DEL && flags == 0
            && (arg matches UmountArg::PathZ(z) && z@ == encode_utf8(path@).push(0u8))),
        r matches Err(e) ==> e == KsuError::EmbeddedNul,
{
    let z = path_to_z_bytes(path)?;
    Ok(KsuRequest::TryUmount { arg: UmountArg::PathZ(z), flags: 0, mode: KSU_UMOUNT_DEL })
}

/// The size query that opens a mount-list enumeration: the kernel writes the
/// serialized list's byte length into the caller's integer slot.
pub fn umount_list_size_request() -> (r: KsuRequest)
    ensures
        r matches KsuRequest::TryUmount { arg, flags, mode }
            && arg == UmountArg::SizeOut && flags == 0 && mode == KSU_UMOUNT_GETSIZE_NEW,
{
    KsuRequest::TryUmount { arg: UmountArg::SizeOut, flags: 0, mode: KSU_UMOUNT_GETSIZE_NEW }
}

/// The second step of a mount-list enumeration.
#[derive(Debug)]
pub enum ListFetchStep {
    /// The list is empty; no further device call is made.
    EmptyList,
    /// Submit this request with a buffer of the queried size.
    Fetch(KsuRequest),
}

/// Decides the second step of a mount-list enumeration from the size the
/// kernel reported: a size of zero yields the empty list with no further
/// device call; otherwise a buffer of exactly that size is to be filled.
pub fn umount_list_fetch_step(total_size: usize) -> (r: ListFetchStep)
    ensures
        total_size == 0 ==> r == ListFetchStep::EmptyList,
        total_size != 0 ==> (r matches ListFetchStep::Fetch(req)
            && req matches KsuRequest::TryUmount { arg, flags, mode }
            && arg == UmountArg::ListBuf(total_size) && flags == 0
            && mode == KSU_UMOUNT_GETLIST_NEW),
{
    if total_size == 0 {
        ListFetchStep::EmptyList
    } else {
        ListFetchStep::Fetch(
            KsuRequest::TryUmount {
                arg: UmountArg::ListBuf(total_size),
                flags: 0,
                mode: KSU_UMOUNT_GETLIST_NEW,
            },
        )
    }
}

/// The request that sets or replaces the dynamic-manager verification
/// record.
pub fn dynamic_manager_set(size: u32, hash: [u8; 64]) -> (r: KsuRequest)
    ensures
        r == KsuRequest::DynamicManager(
            DynamicManage { operation: SUKISU_DYNAMIC_MANAGER_SET, size, hash },
        ),
{
    KsuRequest::DynamicManager(DynamicManage { operation: SUKISU_DYNAMIC_MANAGER_SET, size, hash })
}

/// The request that fetches the dynamic-manager verification record into its
/// zeroed payload.
pub fn dynamic_manager_get() -> (r: KsuRequest)
    ensures
        r matches KsuRequest::DynamicManager(c)
            && c.operation == SUKISU_DYNAMIC_MANAGER_GET && c.size == 0
            && c.hash@ == Seq::<u8>::new(64, |i: int| 0u8),
{
    KsuRequest::DynamicManager(
        DynamicManage { operation: SUKISU_DYNAMIC_MANAGER_GET, size: 0, hash: [0u8; 64] },
    )
}

/// Reads the fetched dynamic-manager record: its size and 64-byte hash.
pub fn dynamic_manager_get_result(resp: &DynamicManage) -> (r: (u32, [u8; 64]))
    ensures
        r.0 == resp.size,
        r.1 == resp.hash,
{
    (resp.size, resp.hash)
}

/// The request that clears the dynamic-manager verification record.
pub fn dynamic_manager_clear() -> (r: KsuRequest)
    ensures
        r matches KsuRequest::DynamicManager(c)
            && c.operation == SUKISU_DYNAMIC_MANAGER_CLEAR && c.size == 0
            && c.hash@ == Seq::<u8>::new(64, |i: int| 0u8),
{
    KsuRequest::DynamicManager(
        DynamicManage { operation: SUKISU_DYNAMIC_MANAGER_CLEAR, size: 0, hash: [0u8; 64] },
    )
}

} // verus!
