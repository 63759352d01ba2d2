use ksud::calls::{
    check_kernel_safemode, dynamic_manager_clear, dynamic_manager_get, dynamic_manager_get_result,
    dynamic_manager_set, get_feature, get_feature_result, get_info_request, get_wrapped_fd,
    grant_root, mark_get, mark_get_result, mark_refresh, mark_set, mark_unset, nuke_ext4_sysfs,
    opcode_of, report_boot_complete, report_module_mounted, report_post_fs_data, safemode_result,
    set_feature, set_sepolicy, umount_list_add, umount_list_del, umount_list_fetch_step,
    umount_list_size_request, umount_list_wipe, KsuRequest, ListFetchStep, UmountArg,
};
use ksud::cmds::{CheckSafemodeCmd, GetFeatureCmd, ManageMarkCmd, SetSepolicyCmd};
use ksud::{ksuctl_result, KsuError};

#[test]
fn opcode_table_values() {
    assert_eq!(opcode_of(&grant_root()), 0x0000_4B01);
    assert_eq!(opcode_of(&get_info_request()), 0x8000_4B02);
    assert_eq!(opcode_of(&report_post_fs_data()), 0x4000_4B03);
    assert_eq!(opcode_of(&set_sepolicy(&SetSepolicyCmd { cmd: 0, arg: 0 })), 0xC000_4B04);
    assert_eq!(opcode_of(&check_kernel_safemode()), 0x8000_4B05);
    assert_eq!(opcode_of(&get_feature(0)), 0xC000_4B0D);
    assert_eq!(opcode_of(&set_feature(0, 0)), 0x4000_4B0E);
    assert_eq!(opcode_of(&get_wrapped_fd(3)), 0x4000_4B0F);
    assert_eq!(opcode_of(&mark_get(0)), 0xC000_4B10);
    assert_eq!(opcode_of(&nuke_ext4_sysfs("/m").unwrap()), 0x4000_4B11);
    assert_eq!(opcode_of(&umount_list_wipe()), 0x4000_4B12);
    assert_eq!(opcode_of(&dynamic_manager_clear()), 0xC000_4B67);
}

#[test]
fn report_events_carry_their_numbers() {
    for (req, n) in [
        (report_post_fs_data(), 1u32),
        (report_boot_complete(), 2),
        (report_module_mounted(), 3),
    ] {
        match req {
            KsuRequest::ReportEvent(c) => assert_eq!(c.event, n),
            _ => panic!("not a report request"),
        }
    }
}

#[test]
fn mark_wildcard_same_opcode_different_pid() {
    let wildcard = mark_set(0);
    let specific = mark_set(1234);
    assert_eq!(opcode_of(&wildcard), opcode_of(&specific));
    let (w, s) = match (wildcard, specific) {
        (KsuRequest::ManageMark(w), KsuRequest::ManageMark(s)) => (w, s),
        _ => panic!("not mark requests"),
    };
    assert_eq!(w.operation, 2);
    assert_eq!(s.operation, 2);
    assert_eq!(w.result, s.result);
    assert_eq!(w.pid, 0);
    assert_eq!(s.pid, 1234);
}

#[test]
fn mark_verbs() {
    for (req, verb, pid) in [
        (mark_get(7), 1u32, 7),
        (mark_set(8), 2, 8),
        (mark_unset(9), 3, 9),
        (mark_refresh(), 4, 0),
    ] {
        match req {
            KsuRequest::ManageMark(c) => {
                assert_eq!(c.operation, verb);
                assert_eq!(c.pid, pid);
                assert_eq!(c.result, 0);
            },
            _ => panic!("not a mark request"),
        }
    }
    assert_eq!(mark_get_result(&ManageMarkCmd { operation: 1, pid: 0, result: 42 }), 42);
}

#[test]
fn embedded_null_rejected_before_any_call() {
    assert_eq!(umount_list_add("a\0b", 1).unwrap_err(), KsuError::EmbeddedNul);
    assert_eq!(umount_list_del("\0").unwrap_err(), KsuError::EmbeddedNul);
    assert_eq!(nuke_ext4_sysfs("x\0").unwrap_err(), KsuError::EmbeddedNul);
}

#[test]
fn add_request_carries_terminated_path() {
    let req = umount_list_add("/x", 3).unwrap();
    match req {
        KsuRequest::TryUmount { arg: UmountArg::PathZ(z), flags, mode } => {
            assert_eq!(z, b"/x\0".to_vec());
            assert_eq!(flags, 3);
            assert_eq!(mode, 1);
        },
        _ => panic!("not an add request"),
    }
}

#[test]
fn del_and_wipe_requests() {
    match umount_list_del("/x").unwrap() {
        KsuRequest::TryUmount { arg: UmountArg::PathZ(z), flags, mode } => {
            assert_eq!(z, b"/x\0".to_vec());
            assert_eq!(flags, 0);
            assert_eq!(mode, 2);
        },
        _ => panic!("not a del request"),
    }
    match umount_list_wipe() {
        KsuRequest::TryUmount { arg: UmountArg::NoArg, flags, mode } => {
            assert_eq!(flags, 0);
            assert_eq!(mode, 0);
        },
        _ => panic!("not a wipe request"),
    }
}

#[test]
fn size_then_fetch_protocol() {
    match umount_list_size_request() {
        KsuRequest::TryUmount { arg: UmountArg::SizeOut, flags: 0, mode: 200 } => {},
        _ => panic!("not a size query"),
    }
    match umount_list_fetch_step(64) {
        ListFetchStep::Fetch(KsuRequest::TryUmount {
            arg: UmountArg::ListBuf(64),
            flags: 0,
            mode: 201,
        }) => {},
        _ => panic!("not a fetch of 64 bytes"),
    }
}

#[test]
fn zero_size_short_circuits_to_empty_list() {
    match umount_list_fetch_step(0) {
        ListFetchStep::EmptyList => {},
        _ => panic!("a second call would have been issued for size 0"),
    }
}

#[test]
fn safemode_and_feature_results() {
    assert!(!safemode_result(&CheckSafemodeCmd { in_safe_mode: 0 }));
    assert!(safemode_result(&CheckSafemodeCmd { in_safe_mode: 2 }));
    let (v, ok) = get_feature_result(&GetFeatureCmd { feature_id: 5, value: 99, supported: 1 });
    assert_eq!(v, 99);
    assert!(ok);
    let (_, no) = get_feature_result(&GetFeatureCmd { feature_id: 5, value: 0, supported: 0 });
    assert!(!no);
}

#[test]
fn dynamic_manager_requests_and_result() {
    let hash = [7u8; 64];
    match dynamic_manager_set(10, hash) {
        KsuRequest::DynamicManager(c) => {
            assert_eq!(c.operation, 0);
            assert_eq!(c.size, 10);
            assert_eq!(c.hash, hash);
        },
        _ => panic!("not a set request"),
    }
    match dynamic_manager_get() {
        KsuRequest::DynamicManager(c) => {
            assert_eq!(c.operation, 1);
            assert_eq!(c.size, 0);
            assert_eq!(c.hash, [0u8; 64]);
            let (s, h) = dynamic_manager_get_result(&c);
            assert_eq!(s, 0);
            assert_eq!(h, [0u8; 64]);
        },
        _ => panic!("not a get request"),
    }
}

#[test]
fn negative_return_maps_to_os_error() {
    assert_eq!(ksuctl_result(-1, 13), Err(KsuError::Os(13)));
    assert_eq!(ksuctl_result(0, 0), Ok(0));
    assert_eq!(ksuctl_result(5, 0), Ok(5));
}
