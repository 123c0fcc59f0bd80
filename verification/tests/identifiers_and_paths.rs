use onefuzz_agent::failure::failure_path;
use onefuzz_agent::machine_id::MachineId;
use onefuzz_agent::paths::{join_path, state_file_name, state_file_path, StateFile};
use onefuzz_agent::reboot::reboot_context_path;

#[test]
fn machine_id_keeps_its_value() {
    let id = MachineId::new(42);
    assert_eq!(id.value(), 42);
    assert_eq!(id, MachineId { value: 42 });
}

fn context_name(value: u128) -> String {
    state_file_name(StateFile::RebootContext, MachineId::new(value))
}

#[test]
fn machine_id_is_written_hyphenated_in_lower_case() {
    assert_eq!(
        context_name(0xa1a2a3a4b1b2c1c2d1d2d3d4d5d6d7d8),
        "reboot_context_a1a2a3a4-b1b2-c1c2-d1d2-d3d4d5d6d7d8.json"
    );
}

#[test]
fn machine_id_is_padded_with_zeros() {
    assert_eq!(context_name(0), "reboot_context_00000000-0000-0000-0000-000000000000.json");
    assert_eq!(context_name(1), "reboot_context_00000000-0000-0000-0000-000000000001.json");
    assert_eq!(context_name(0x10), "reboot_context_00000000-0000-0000-0000-000000000010.json");
}

#[test]
fn machine_id_of_the_largest_value() {
    assert_eq!(
        context_name(u128::MAX),
        "reboot_context_ffffffff-ffff-ffff-ffff-ffffffffffff.json"
    );
}

#[test]
fn machine_id_is_written_as_uuid_writes_it() {
    let value = 0x936da01f9abd4d9d80c702af85c822a8u128;
    assert_eq!(
        context_name(value),
        format!("reboot_context_{}.json", uuid::Uuid::from_u128(value))
    );
    assert_eq!(context_name(value), "reboot_context_936da01f-9abd-4d9d-80c7-02af85c822a8.json");
}

#[test]
fn state_file_names_hold_no_separator() {
    for value in [0u128, 1, u128::MAX, 0x2f2f2f2f2f2f2f2f2f2f2f2f2f2f2f2f] {
        let id = MachineId::new(value);
        assert!(!state_file_name(StateFile::Failure, id).contains('/'));
        assert!(!state_file_name(StateFile::RebootContext, id).contains('/'));
    }
}

#[test]
fn state_file_names_follow_the_scheme() {
    let id = MachineId::new(1);
    assert_eq!(
        state_file_name(StateFile::Failure, id),
        "onefuzz-agent-failure-00000000-0000-0000-0000-000000000001.txt"
    );
    assert_eq!(
        state_file_name(StateFile::RebootContext, id),
        "reboot_context_00000000-0000-0000-0000-000000000001.json"
    );
}

#[test]
fn join_path_puts_one_separator() {
    assert_eq!(join_path("/onefuzz", "a.txt"), "/onefuzz/a.txt");
    assert_eq!(join_path("/onefuzz/", "a.txt"), "/onefuzz/a.txt");
    assert_eq!(join_path("/", "a.txt"), "/a.txt");
    assert_eq!(join_path("relative/dir", "a.txt"), "relative/dir/a.txt");
}

#[test]
fn join_path_with_an_empty_directory_is_the_name() {
    assert_eq!(join_path("", "a.txt"), "a.txt");
}

#[test]
fn join_path_agrees_with_std_on_unix_paths() {
    for dir in ["/onefuzz", "/onefuzz/", "/", "", "a/b", "/état/données"] {
        let joined = std::path::Path::new(dir).join("reboot_context_x.json");
        assert_eq!(join_path(dir, "reboot_context_x.json"), joined.to_str().unwrap());
    }
}

#[test]
fn failure_path_is_inside_the_state_root() {
    let id = MachineId::new(1);
    assert_eq!(
        failure_path("/onefuzz", id),
        "/onefuzz/onefuzz-agent-failure-00000000-0000-0000-0000-000000000001.txt"
    );
    assert_eq!(failure_path("/onefuzz", id), state_file_path("/onefuzz", StateFile::Failure, id));
}

#[test]
fn reboot_context_path_is_inside_the_state_root() {
    let id = MachineId::new(0xa1a2a3a4b1b2c1c2d1d2d3d4d5d6d7d8);
    assert_eq!(
        reboot_context_path("/var/lib/agent/", id),
        "/var/lib/agent/reboot_context_a1a2a3a4-b1b2-c1c2-d1d2-d3d4d5d6d7d8.json"
    );
}

#[test]
fn different_machines_have_different_paths() {
    let ids = [0u128, 1, 2, 0x10, 1 << 64, 1 << 127, u128::MAX, u128::MAX - 1];
    for a in ids {
        for b in ids {
            if a != b {
                assert_ne!(
                    failure_path("/onefuzz", MachineId::new(a)),
                    failure_path("/onefuzz", MachineId::new(b))
                );
                assert_ne!(
                    reboot_context_path("/onefuzz", MachineId::new(a)),
                    reboot_context_path("/onefuzz", MachineId::new(b))
                );
            }
        }
    }
}

#[test]
fn the_two_files_of_a_machine_have_different_paths() {
    let id = MachineId::new(7);
    assert_ne!(failure_path("/onefuzz", id), reboot_context_path("/onefuzz", id));
}

#[test]
fn paths_of_neighbouring_identifiers_differ_in_one_digit() {
    let a = failure_path("/r", MachineId::new(0x0f));
    let b = failure_path("/r", MachineId::new(0x10));
    assert!(a.ends_with("00000000000f.txt"));
    assert!(b.ends_with("000000000010.txt"));
}
