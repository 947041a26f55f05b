use stack_manager::errors::{Invalid, StackError};
use stack_manager::registry::{
    config_file_path, get_compose_file_path, join_path, manifest_in, parse_stack_id, stack_dir,
    stack_dir_path, stack_id_of, DirEntry, Registry,
};

fn entry(name: &str, is_dir: bool, has_manifest: bool) -> DirEntry {
    DirEntry { name: name.as_bytes().to_vec(), is_dir, has_manifest }
}

fn stack(id: i32) -> DirEntry {
    entry(&format!("stack_{}", id), true, true)
}

#[test]
fn stack_dir_names() {
    assert_eq!(stack_dir(1), b"stack_1".to_vec());
    assert_eq!(stack_dir(120), b"stack_120".to_vec());
    assert_eq!(stack_dir(i32::MAX), b"stack_2147483647".to_vec());
}

#[test]
fn stack_id_of_reads_conforming_names() {
    assert_eq!(stack_id_of(b"stack_1"), Some(1));
    assert_eq!(stack_id_of(b"stack_42"), Some(42));
    assert_eq!(stack_id_of(b"stack_2147483647"), Some(i32::MAX));
}

#[test]
fn stack_id_of_passes_over_other_names() {
    for name in [
        "", "stack", "stack_", "stack_0", "stack_01", "stack_-1", "stack_+1", "stack_1a",
        "stack_ 1", "stack_1 ", "Stack_1", "stack-1", "xstack_1", "stack_2147483648",
        "stack_1_2", "stack_abc", "compose.yaml",
    ] {
        assert_eq!(stack_id_of(name.as_bytes()), None, "name {:?}", name);
    }
}

#[test]
fn stack_id_round_trip() {
    for id in [1, 2, 9, 10, 99, 100, 12345, i32::MAX] {
        assert_eq!(stack_id_of(&stack_dir(id)), Some(id));
    }
}

#[test]
fn parse_stack_id_wants_shortest_positive_decimal() {
    assert_eq!(parse_stack_id(b"3"), Some(3));
    assert_eq!(parse_stack_id(b"30"), Some(30));
    assert_eq!(parse_stack_id(b"03"), None);
    assert_eq!(parse_stack_id(b"0"), None);
    assert_eq!(parse_stack_id(b""), None);
    assert_eq!(parse_stack_id(b"abc"), None);
    assert_eq!(parse_stack_id(b"-3"), None);
    assert_eq!(parse_stack_id(b"2147483648"), None);
}

#[test]
fn registry_of_no_entries() {
    let registry = Registry::occupied(&vec![]);
    assert_eq!(registry.len(), 0);
    assert!(registry.is_empty());
    assert_eq!(registry.ids(), Vec::<i32>::new());
    assert_eq!(registry.highest(), 0);
    assert_eq!(registry.next_id(), Ok(1));
}

#[test]
fn registry_orders_and_skips() {
    let entries = vec![
        stack(5),
        entry("notes.txt", false, false),
        stack(2),
        entry("stack_x", true, true),
        stack(11),
        entry("stack_02", true, true),
    ];
    let registry = Registry::declared(&entries);
    assert_eq!(registry.ids(), vec![2, 5, 11]);
    assert_eq!(registry.len(), 3);
    assert!(!registry.is_empty());
    assert_eq!(registry.highest(), 11);
    assert_eq!(registry.next_id(), Ok(12));
}

#[test]
fn registry_counts_each_identifier_once() {
    let entries = vec![stack(3), stack(3), stack(1), stack(3)];
    let registry = Registry::occupied(&entries);
    assert_eq!(registry.ids(), vec![1, 3]);
    assert_eq!(registry.len(), 2);
}

#[test]
fn declared_needs_directory_and_manifest() {
    let entries = vec![
        entry("stack_1", true, true),
        entry("stack_2", true, false),
        entry("stack_3", false, true),
        entry("stack_4", false, false),
    ];
    assert_eq!(Registry::declared(&entries).ids(), vec![1]);
    assert_eq!(Registry::occupied(&entries).ids(), vec![1, 2, 3, 4]);
}

#[test]
fn next_id_is_one_above_highest() {
    assert_eq!(Registry::occupied(&vec![stack(1)]).next_id(), Ok(2));
    assert_eq!(Registry::occupied(&vec![stack(7), stack(3)]).next_id(), Ok(8));
    assert_eq!(Registry::occupied(&vec![stack(i32::MAX - 1)]).next_id(), Ok(i32::MAX));
}

#[test]
fn next_id_is_refused_after_the_last_identifier() {
    let registry = Registry::occupied(&vec![stack(1), stack(i32::MAX)]);
    assert_eq!(registry.highest(), i32::MAX);
    assert_eq!(registry.next_id(), Err(StackError::ValidationError(Invalid::IdsExhausted)));
}

#[test]
fn deleting_the_highest_stack() {
    // the sole stack: numbering starts again at 1
    assert_eq!(Registry::occupied(&vec![]).next_id(), Ok(1));
    // {1, 2, 5} without 5: the next is 3, not 5
    assert_eq!(Registry::occupied(&vec![stack(1), stack(2)]).next_id(), Ok(3));
    // {1, 2} without 2: the next is 2 again, since 1 is still in use
    assert_eq!(Registry::occupied(&vec![stack(1)]).next_id(), Ok(2));
}

#[test]
fn deleting_below_the_highest_does_not_free_the_identifier() {
    // {1, 2, 3} without 2
    assert_eq!(Registry::occupied(&vec![stack(1), stack(3)]).next_id(), Ok(4));
    // {1, 2, 3} without 1
    assert_eq!(Registry::occupied(&vec![stack(2), stack(3)]).next_id(), Ok(4));
}

#[test]
fn join_path_adds_one_slash() {
    assert_eq!(join_path(b"/srv/stacks", b"stack_1"), b"/srv/stacks/stack_1".to_vec());
    assert_eq!(join_path(b"/srv/stacks/", b"stack_1"), b"/srv/stacks/stack_1".to_vec());
    assert_eq!(join_path(b"", b"stack_1"), b"stack_1".to_vec());
    assert_eq!(join_path(b"/", b"x"), b"/x".to_vec());
}

#[test]
fn stack_paths() {
    assert_eq!(stack_dir_path(b"/srv/stacks", 4), b"/srv/stacks/stack_4".to_vec());
    assert_eq!(config_file_path(b"/srv/stacks", 4), b"/srv/stacks/stack_4/.env".to_vec());
    assert_eq!(
        get_compose_file_path(b"/srv/stacks", 4),
        b"/srv/stacks/stack_4/compose.yaml".to_vec()
    );
    assert_eq!(get_compose_file_path(b"stacks/", 12), b"stacks/stack_12/compose.yaml".to_vec());
    assert_eq!(manifest_in(b"/srv/stacks/stack_9"), b"/srv/stacks/stack_9/compose.yaml".to_vec());
}
