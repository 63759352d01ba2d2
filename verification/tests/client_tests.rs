use ksud::calls::KsuRequest;
use ksud::client::{AfterScan, HandleState, KsuClient, ResolveStep, VersionStep};
use ksud::cmds::GetInfoCmd;

#[test]
fn found_descriptor_is_cached_and_reused() {
    let mut c = KsuClient::new();
    assert_eq!(c.resolve_step(), ResolveStep::ScanFds);
    assert_eq!(c.handle_scanned(Some(5)), AfterScan::Done(5));
    assert_eq!(c.resolve_step(), ResolveStep::UseHandle(5));
    assert_eq!(c.resolve_step(), ResolveStep::UseHandle(5));
    assert_eq!(c.handle, HandleState::Resolved(5));
}

#[test]
fn failed_installation_caches_invalid_sentinel() {
    let mut c = KsuClient::new();
    assert_eq!(c.handle_scanned(None), AfterScan::Install);
    assert_eq!(c.resolve_step(), ResolveStep::ScanFds);
    c.handle_installed(-3);
    assert_eq!(c.resolve_step(), ResolveStep::UseHandle(-1));
}

#[test]
fn successful_installation_caches_descriptor() {
    let mut c = KsuClient::new();
    assert_eq!(c.handle_scanned(None), AfterScan::Install);
    c.handle_installed(7);
    assert_eq!(c.resolve_step(), ResolveStep::UseHandle(7));
}

#[test]
fn version_is_fetched_once_and_cached() {
    let mut c = KsuClient::new();
    let mut fetches = 0;
    for _ in 0..3 {
        match c.get_version() {
            VersionStep::Version(v) => assert_eq!(v, 3),
            VersionStep::Fetch(req) => {
                fetches += 1;
                match req {
                    KsuRequest::GetInfo(cmd) => {
                        assert_eq!(cmd.version, 0);
                        assert_eq!(cmd.flags, 0);
                    },
                    _ => panic!("not a get-info request"),
                }
                c.absorb_info(GetInfoCmd { version: 3, flags: 1 });
            },
        }
    }
    assert_eq!(fetches, 1, "more than one underlying call was made");
}

#[test]
fn failed_fetch_caches_zero_version() {
    let mut c = KsuClient::new();
    match c.get_version() {
        VersionStep::Fetch(_) => c.absorb_info(GetInfoCmd { version: 0, flags: 0 }),
        VersionStep::Version(_) => panic!("nothing cached yet"),
    }
    match c.get_version() {
        VersionStep::Version(v) => assert_eq!(v, 0),
        VersionStep::Fetch(_) => panic!("a second call was issued after a failed fetch"),
    }
}

#[test]
fn large_version_word_maps_to_signed() {
    let mut c = KsuClient::new();
    match c.get_version() {
        VersionStep::Fetch(_) => c.absorb_info(GetInfoCmd { version: 0xffff_ffff, flags: 0 }),
        VersionStep::Version(_) => panic!("nothing cached yet"),
    }
    match c.get_version() {
        VersionStep::Version(v) => assert_eq!(v, -1),
        VersionStep::Fetch(_) => panic!("cached value expected"),
    }
}
