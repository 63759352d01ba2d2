use ksud::calls::{KsuRequest, UmountArg};
use ksud::config::{load_umount_config, read_config, write_config, UmountConfig};
use ksud::KsuError;

const CANONICAL_EMPTY: &str = "{\n  \"paths\": {}\n}";

#[test]
fn missing_file_heals_to_canonical_empty() {
    let r = read_config(&None);
    assert_eq!(r.config.len(), 0);
    assert_eq!(r.rewrite.as_deref(), Some(CANONICAL_EMPTY));
}

#[test]
fn empty_file_heals_to_canonical_empty() {
    let r = read_config(&Some(String::new()));
    assert_eq!(r.config.len(), 0);
    assert_eq!(r.rewrite.as_deref(), Some(CANONICAL_EMPTY));
}

#[test]
fn invalid_json_heals_to_canonical_empty() {
    let r = read_config(&Some("{not json".to_string()));
    assert_eq!(r.config.len(), 0);
    assert_eq!(r.rewrite.as_deref(), Some(CANONICAL_EMPTY));
}

#[test]
fn healing_matches_fresh_file_payload() {
    let fresh = read_config(&None);
    let healed = read_config(&Some("\u{0}garbage".to_string()));
    assert_eq!(fresh.rewrite, healed.rewrite);
}

#[test]
fn wrong_shapes_heal() {
    for bad in [
        "[1,2,3]",
        "{\"paths\": [1]}",
        "{\"paths\": {\"/x\": \"one\"}}",
        "{\"paths\": {\"/x\": -1}}",
        "{\"paths\": {\"/x\": 1.5}}",
        "{\"paths\": {\"/x\": 4294967296}}",
        "{\"other\": {}}",
    ] {
        let r = read_config(&Some(bad.to_string()));
        assert_eq!(r.config.len(), 0, "input {bad:?} did not heal");
        assert_eq!(r.rewrite.as_deref(), Some(CANONICAL_EMPTY));
    }
}

#[test]
fn valid_config_parses_without_rewrite() {
    let r = read_config(&Some("{\"paths\": {\"/x\": 1, \"/y\": 4294967295}}".to_string()));
    assert!(r.rewrite.is_none());
    assert_eq!(r.config.len(), 2);
    let json = r.config.list_umount();
    assert!(json.contains("\"/x\""));
    assert!(json.contains("4294967295"));
}

#[test]
fn extra_top_level_fields_are_tolerated() {
    let r = read_config(&Some("{\"paths\": {\"/x\": 1}, \"extra\": 5}".to_string()));
    assert!(r.rewrite.is_none());
    assert_eq!(r.config.len(), 1);
}

#[test]
fn write_config_pretty_prints_entries() {
    let mut cfg = UmountConfig::new();
    cfg.add_umount("/x", 1);
    assert_eq!(write_config(&cfg), "{\n  \"paths\": {\n    \"/x\": 1\n  }\n}");
}

#[test]
fn add_overwrites_same_path() {
    let mut cfg = UmountConfig::new();
    cfg.add_umount("/x", 1);
    cfg.add_umount("/x", 9);
    assert_eq!(cfg.len(), 1);
    assert_eq!(cfg.list_umount(), "[{\"flags\":9,\"path\":\"/x\"}]");
}

#[test]
fn del_reports_whether_anything_was_removed() {
    let mut cfg = UmountConfig::new();
    cfg.add_umount("/x", 1);
    assert!(!cfg.del_umount("/missing"));
    assert_eq!(cfg.len(), 1);
    assert!(cfg.del_umount("/x"));
    assert_eq!(cfg.len(), 0);
    assert_eq!(cfg.list_umount(), "[]");
}

#[test]
fn wipe_empties_the_mapping() {
    let mut cfg = UmountConfig::new();
    cfg.add_umount("/x", 1);
    cfg.add_umount("/y", 2);
    cfg.wipe_umount();
    assert_eq!(cfg.len(), 0);
    assert_eq!(write_config(&cfg), CANONICAL_EMPTY);
}

struct MockKernelList {
    entries: Vec<(Vec<u8>, u32)>,
}

impl MockKernelList {
    fn apply(&mut self, req: &KsuRequest) {
        if let KsuRequest::TryUmount { arg: UmountArg::PathZ(z), flags, mode: 1 } = req {
            let mut p = z.clone();
            assert_eq!(p.pop(), Some(0));
            self.entries.push((p, *flags));
        }
    }
}

#[test]
fn declared_state_is_separate_from_active_state() {
    let mut kernel = MockKernelList { entries: Vec::new() };
    let mut cfg = UmountConfig::new();
    cfg.add_umount("/x", 1);
    assert_eq!(cfg.list_umount(), "[{\"flags\":1,\"path\":\"/x\"}]");
    assert!(kernel.entries.is_empty(), "an edit must not touch the kernel list");
    let reqs = load_umount_config(&cfg).unwrap();
    for r in &reqs {
        kernel.apply(r);
    }
    assert_eq!(kernel.entries, vec![(b"/x".to_vec(), 1)]);
}

#[test]
fn load_derives_one_add_per_entry() {
    let mut cfg = UmountConfig::new();
    cfg.add_umount("/a", 1);
    cfg.add_umount("/b", 2);
    let reqs = load_umount_config(&cfg).unwrap();
    assert_eq!(reqs.len(), 2);
}

#[test]
fn load_stops_on_embedded_null_path() {
    let mut cfg = UmountConfig::new();
    cfg.add_umount("/ok", 1);
    cfg.add_umount("bad\0path", 2);
    assert_eq!(load_umount_config(&cfg).unwrap_err(), KsuError::EmbeddedNul);
}

#[test]
fn persisted_form_round_trips_through_read_and_write() {
    let stored = "{\n  \"paths\": {\n    \"/x\": 1\n  }\n}".to_string();
    let r = read_config(&Some(stored.clone()));
    assert!(r.rewrite.is_none());
    assert_eq!(write_config(&r.config), stored);
}
