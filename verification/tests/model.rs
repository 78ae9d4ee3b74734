use qubit_task::model::checked_page_size;
use qubit_task::model::NameMap;
use qubit_task::model::TaskCursor;
use qubit_task::model::TaskId;
use qubit_task::model::TaskOutput;
use qubit_task::model::TaskPage;
use qubit_task::model::TaskQuery;
use qubit_task::model::TaskRequest;
use qubit_task::model::TaskRequestInfo;
use qubit_task::model::TaskState;
use qubit_task::model::TaskStateCounts;
use qubit_task::model::TaskStateKind;
use qubit_task::store::StoreError;
use qubit_task::text::decimal;
use qubit_task::text::signed_decimal;
use qubit_task::text::text_less;
use qubit_task::text::truncate_utf8;
use qubit_task::text::utf8_len;

#[test]
fn generated_ids_are_random_uuids() {
    let first = TaskId::generate();
    let second = TaskId::generate();
    assert_ne!(first, second);
    let text = first.text();
    assert_eq!(text.len(), 36);
    assert_eq!(text.as_bytes()[14], b'4');
    assert!(matches!(text.as_bytes()[19], b'8' | b'9' | b'a' | b'b'));
}

#[test]
fn id_text_is_the_hyphenated_lower_case_form() {
    let id = TaskId(0xa1a2a3a4_b1b2_c1c2_d1d2_d3d4d5d6d7d8);
    assert_eq!(id.text(), "a1a2a3a4-b1b2-c1c2-d1d2-d3d4d5d6d7d8");
    assert_eq!(TaskId(0).text(), "00000000-0000-0000-0000-000000000000");
    assert_eq!(TaskId(u128::MAX).text(), "ffffffff-ffff-ffff-ffff-ffffffffffff");
}

#[test]
fn id_text_sorts_as_the_number() {
    let numbers = [0u128, 9, 10, 15, 16, 255, 1 << 64, (1 << 64) + 1, u128::MAX - 1, u128::MAX];
    for a in numbers {
        for b in numbers {
            assert_eq!(a < b, text_less(&TaskId(a).text(), &TaskId(b).text()));
        }
    }
}

#[test]
fn new_requests_ask_for_one_cpu_slot() {
    let request = TaskRequest::new("image.resize", "2", b"input-key".to_vec());
    assert_eq!(request.resources.cpu_slots, 1);
    assert_eq!(request.resources.gpu_count, 0);
    assert!(request.correlation_key.is_none());
    assert!(request.idempotency_key.is_none());
    assert_eq!(request.metadata.len(), 0);
    let keyed = request.with_idempotency_key(String::from("key"));
    assert_eq!(keyed.idempotency_key.as_deref(), Some("key"));
    assert_eq!(keyed.payload, b"input-key".to_vec());
    assert!(keyed.same(&keyed.clone()));
    assert!(!keyed.same(&TaskRequest::new("image.resize", "2", b"input-key".to_vec())));
    let info = TaskRequestInfo::of(&keyed);
    assert!(info.with_payload(b"input-key".to_vec()).same(&keyed));
}

fn text(len: usize) -> String {
    "x".repeat(len)
}

#[test]
fn request_limits_are_checked_in_order() {
    let ok = TaskRequest::new("t", "1", Vec::new());
    assert_eq!(ok.validate_limits(), Ok(()));
    assert_eq!(
        TaskRequest::new("", "1", Vec::new()).validate_limits(),
        Err("task type and handler version must not be empty")
    );
    assert_eq!(
        TaskRequest::new("t", "", Vec::new()).validate_limits(),
        Err("task type and handler version must not be empty")
    );
    assert_eq!(TaskRequest::new(text(128), text(64), Vec::new()).validate_limits(), Ok(()));
    assert_eq!(
        TaskRequest::new(text(129), text(65), Vec::new()).validate_limits(),
        Err("task type exceeds the 128-byte limit")
    );
    assert_eq!(
        TaskRequest::new("t", text(65), Vec::new()).validate_limits(),
        Err("handler version exceeds the 64-byte limit")
    );
    // Limits count bytes, not characters.
    assert_eq!(
        TaskRequest::new("\u{e9}".repeat(65), "1", Vec::new()).validate_limits(),
        Err("task type exceeds the 128-byte limit")
    );
    assert_eq!(
        TaskRequest::new("t", "1", vec![0; 16 * 1024 * 1024 + 1]).validate_limits(),
        Err("payload exceeds the 16 MiB limit")
    );
    let mut correlated = TaskRequest::new("t", "1", Vec::new());
    correlated.correlation_key = Some(text(257));
    assert_eq!(correlated.validate_limits(), Err("correlation key exceeds the 256-byte limit"));
    assert_eq!(
        TaskRequest::new("t", "1", Vec::new()).with_idempotency_key(text(257)).validate_limits(),
        Err("idempotency key exceeds the 256-byte limit")
    );
}

#[test]
fn metadata_limits_follow_key_order() {
    let mut many = TaskRequest::new("t", "1", Vec::new());
    for i in 0..33 {
        many.metadata.insert(format!("k{i}"), String::new());
    }
    assert_eq!(many.validate_limits(), Err("metadata exceeds the 32-entry limit"));
    let mut long_key = TaskRequest::new("t", "1", Vec::new());
    long_key.metadata.insert(text(129), String::new());
    assert_eq!(long_key.validate_limits(), Err("metadata key exceeds the 128-byte limit"));
    // The entry of the smaller key is looked at first.
    let mut both = TaskRequest::new("t", "1", Vec::new());
    both.metadata.insert(text(129), String::new());
    both.metadata.insert("a".to_owned(), text(4097));
    assert_eq!(both.validate_limits(), Err("metadata value exceeds the 4096-byte limit"));
    let mut total = TaskRequest::new("t", "1", Vec::new());
    for key in ["a", "b", "c", "d"] {
        total.metadata.insert(key.to_owned(), text(4096));
    }
    assert_eq!(total.validate_limits(), Err("metadata exceeds the 16384-byte limit"));
}

#[test]
fn state_transitions_follow_the_lifecycle() {
    let states = || {
        vec![
            TaskState::Queued,
            TaskState::Running,
            TaskState::Blocked { reason: "r".to_owned() },
            TaskState::Succeeded,
            TaskState::Failed { category: "c".to_owned(), message: "m".to_owned() },
            TaskState::Panicked { message: "m".to_owned() },
            TaskState::Cancelled,
        ]
    };
    let table = [
        [false, true, true, false, false, false, true],
        [true, true, true, true, true, true, true],
        [true, false, false, false, false, false, true],
        [false; 7],
        [false; 7],
        [false; 7],
        [false; 7],
    ];
    for (i, from) in states().iter().enumerate() {
        assert_eq!(from.is_terminal(), i >= 3);
        for (j, to) in states().iter().enumerate() {
            assert_eq!(from.allows_transition_to(to), table[i][j]);
            assert_eq!(from.same(to), i == j);
        }
        assert!(from.same(&from.clone()));
    }
    assert_eq!(states()[2].kind(), TaskStateKind::Blocked);
    assert_eq!(TaskStateKind::Panicked.as_str(), "Panicked");
}

#[test]
fn diagnostics_are_bounded() {
    assert_eq!(TaskState::Blocked { reason: text(4096) }.validate_diagnostics(), Ok(()));
    assert_eq!(
        TaskState::Blocked { reason: text(4097) }.validate_diagnostics(),
        Err("blocked reason exceeds the 4096-byte limit")
    );
    assert_eq!(
        TaskState::Failed { category: text(129), message: String::new() }.validate_diagnostics(),
        Err("failure diagnostic exceeds its byte limit")
    );
    assert_eq!(
        TaskState::Panicked { message: text(4097) }.validate_diagnostics(),
        Err("panic diagnostic exceeds the 4096-byte limit")
    );
}

#[test]
fn truncation_keeps_whole_characters() {
    assert_eq!(truncate_utf8("short", 10), "short");
    assert_eq!(truncate_utf8("abcdef", 3), "abc");
    assert_eq!(truncate_utf8("a\u{e9}b", 2), "a");
    assert_eq!(truncate_utf8("a\u{e9}b", 3), "a\u{e9}");
    assert_eq!(truncate_utf8("\u{1f600}\u{1f600}", 7), "\u{1f600}");
    assert_eq!(truncate_utf8("\u{1f600}", 3), "");
    assert_eq!(utf8_len("a\u{e9}\u{1f600}"), 7);
}

#[test]
fn numbers_are_written_in_decimal() {
    assert_eq!(decimal(0), "0");
    assert_eq!(decimal(1024), "1024");
    assert_eq!(decimal(u64::MAX), "18446744073709551615");
    assert_eq!(signed_decimal(-7), "-7");
    assert_eq!(signed_decimal(i64::MIN), "-9223372036854775808");
    assert_eq!(signed_decimal(i64::MAX), "9223372036854775807");
}

#[test]
fn name_maps_stay_in_name_order() {
    let mut map: NameMap<u64> = NameMap::new();
    assert_eq!(map.insert("b".to_owned(), 2), None);
    assert_eq!(map.insert("a".to_owned(), 1), None);
    assert_eq!(map.insert("\u{e9}".to_owned(), 4), None);
    assert_eq!(map.insert("c".to_owned(), 3), None);
    assert_eq!(map.insert("b".to_owned(), 20), Some(2));
    let names: Vec<&str> = (0..map.len()).map(|i| map.name_at(i)).collect();
    assert_eq!(names, vec!["a", "b", "c", "\u{e9}"]);
    assert_eq!(map.get("b"), Some(&20));
    assert_eq!(map.get("d"), None);
    let mut other = map.clone();
    assert!(map.same_map(&other));
    assert_eq!(other.remove("c"), Some(3));
    assert_eq!(other.remove("c"), None);
    assert!(!map.same_map(&other));
    assert_eq!(*other.value_at(1), 20);
}

#[test]
fn name_maps_do_not_depend_on_insertion_order() {
    let mut forwards: NameMap<u64> = NameMap::new();
    let mut backwards: NameMap<u64> = NameMap::new();
    for i in 0..20u64 {
        forwards.insert(format!("name{i}"), i);
        backwards.insert(format!("name{}", 19 - i), 19 - i);
    }
    assert!(forwards.same_map(&backwards));
    backwards.insert("name7".to_owned(), 0);
    assert!(!forwards.same_map(&backwards));
}

#[test]
fn page_sizes_are_bounded() {
    assert!(matches!(checked_page_size(0), Ok(1)));
    assert!(matches!(checked_page_size(256), Ok(256)));
    assert!(matches!(
        checked_page_size(257),
        Err(StoreError::InvalidRequest("task history page limit is too large"))
    ));
}

#[test]
fn defaults_are_empty() {
    let query = TaskQuery { states: vec![TaskStateKind::Queued], limit: 20, ..TaskQuery::default() };
    assert_eq!(query.limit, 20);
    assert!(TaskPage::default().records.is_empty());
    let counts = TaskStateCounts::default();
    assert_eq!(counts.queued + counts.running + counts.blocked + counts.terminal, 0);
    assert_eq!(TaskOutput::default().summary, Vec::<u8>::new());
    assert!(TaskCursor::new(1, TaskId(5)).before(&TaskCursor::new(1, TaskId(6))));
    assert!(!TaskCursor::new(2, TaskId(5)).before(&TaskCursor::new(1, TaskId(6))));
}
