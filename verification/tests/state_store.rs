use edamame_posture::state::{Field, Platform, State, StorageError};
use edamame_posture::store::StateStore;
use edamame_posture::yaml::Scalar;

fn sample() -> State {
    State {
        pid: Some(1234),
        handle: None,
        is_success: false,
        connected_domain: "corp.example".to_string(),
        connected_user: "alice".to_string(),
        last_network_activity: String::new(),
    }
}

fn same(a: &State, b: &State) -> bool {
    a.pid == b.pid
        && a.handle == b.handle
        && a.is_success == b.is_success
        && a.connected_domain == b.connected_domain
        && a.connected_user == b.connected_user
        && a.last_network_activity == b.last_network_activity
}

#[test]
fn new_store_loads_the_empty_record() {
    let store = StateStore::new();
    let state = store.load().unwrap();
    assert_eq!(state.pid, None);
    assert_eq!(state.handle, None);
    assert!(!state.is_success);
    assert_eq!(state.connected_domain, "");
    assert_eq!(state.connected_user, "");
    assert_eq!(state.last_network_activity, "");
}

#[test]
fn record_is_written_as_a_mapping_of_six_fields() {
    let text = sample().to_yaml().unwrap();
    assert_eq!(
        text,
        "pid: 1234\nhandle: null\nis_success: false\nconnected_domain: corp.example\nconnected_user: alice\nlast_network_activity: ''\n"
    );
}

#[test]
fn save_then_load_gives_the_record_back() {
    let mut store = StateStore::new();
    let state = sample();
    store.save(&state).unwrap();
    assert!(store.contents.is_some());
    let back = store.load().unwrap();
    assert!(same(&state, &back));
}

#[test]
fn save_then_load_keeps_empty_texts_beside_a_worker() {
    let mut store = StateStore::new();
    let state = State {
        pid: Some(77),
        handle: Some(u64::MAX),
        is_success: true,
        connected_domain: String::new(),
        connected_user: String::new(),
        last_network_activity: "2024-05-01 10:00:00".to_string(),
    };
    store.save(&state).unwrap();
    let back = store.load().unwrap();
    assert!(same(&state, &back));
    assert_eq!(back.pid, Some(77));
    assert_eq!(back.connected_user, "");
}

#[test]
fn save_then_load_keeps_texts_that_look_like_other_values() {
    let mut store = StateStore::new();
    let state = State {
        pid: None,
        handle: None,
        is_success: false,
        connected_domain: "null".to_string(),
        connected_user: "123".to_string(),
        last_network_activity: "true".to_string(),
    };
    store.save(&state).unwrap();
    let back = store.load().unwrap();
    assert!(same(&state, &back));
}

#[test]
fn clear_then_load_gives_the_empty_record() {
    let mut store = StateStore::new();
    store.save(&sample()).unwrap();
    store.clear();
    assert!(store.contents.is_none());
    assert!(same(&store.load().unwrap(), &State::new()));
    store.clear();
    assert!(store.contents.is_none());
    assert!(same(&store.load().unwrap(), &State::new()));
}

#[test]
fn text_that_is_no_mapping_is_a_syntax_error() {
    assert_eq!(State::from_yaml("- a\n- b\n").unwrap_err(), StorageError::Syntax);
    assert_eq!(State::from_yaml("pid: [1\n").unwrap_err(), StorageError::Syntax);
    assert_eq!(State::from_yaml("pid: 1\npid: 2\n").unwrap_err(), StorageError::Syntax);
}

#[test]
fn empty_text_is_a_mapping_without_fields() {
    assert_eq!(State::from_yaml("").unwrap_err(), StorageError::Missing(Field::IsSuccess));
    let mut store = StateStore::new();
    store.contents = Some(String::new());
    assert_eq!(store.load().unwrap_err(), StorageError::Missing(Field::IsSuccess));
}

#[test]
fn missing_worker_fields_are_absent_and_other_fields_are_required() {
    let text = "is_success: true\nconnected_domain: d\nconnected_user: u\nlast_network_activity: x\n";
    let state = State::from_yaml(text).unwrap();
    assert_eq!(state.pid, None);
    assert_eq!(state.handle, None);
    assert!(state.is_success);
    assert_eq!(
        State::from_yaml("pid: 1\n").unwrap_err(),
        StorageError::Missing(Field::IsSuccess)
    );
    assert_eq!(
        State::from_yaml("is_success: true\nconnected_user: u\n").unwrap_err(),
        StorageError::Missing(Field::ConnectedDomain)
    );
    assert_eq!(
        State::from_yaml("is_success: true\nconnected_domain: d\n").unwrap_err(),
        StorageError::Missing(Field::ConnectedUser)
    );
    assert_eq!(
        State::from_yaml("is_success: true\nconnected_domain: d\nconnected_user: u\n").unwrap_err(),
        StorageError::Missing(Field::LastNetworkActivity)
    );
}

#[test]
fn fields_of_another_type_are_invalid() {
    let rest = "is_success: true\nconnected_domain: d\nconnected_user: u\nlast_network_activity: x\n";
    assert_eq!(
        State::from_yaml(&format!("pid: 4294967296\n{}", rest)).unwrap_err(),
        StorageError::Invalid(Field::Pid)
    );
    assert_eq!(State::from_yaml(&format!("pid: 4294967295\n{}", rest)).unwrap().pid, Some(u32::MAX));
    assert_eq!(
        State::from_yaml(&format!("pid: -1\n{}", rest)).unwrap_err(),
        StorageError::Invalid(Field::Pid)
    );
    assert_eq!(
        State::from_yaml(&format!("handle: abc\n{}", rest)).unwrap_err(),
        StorageError::Invalid(Field::Handle)
    );
    assert_eq!(
        State::from_yaml("is_success: 1\nconnected_domain: d\nconnected_user: u\nlast_network_activity: x\n")
            .unwrap_err(),
        StorageError::Invalid(Field::IsSuccess)
    );
    assert_eq!(
        State::from_yaml("is_success: true\nconnected_domain: [d]\nconnected_user: u\nlast_network_activity: x\n")
            .unwrap_err(),
        StorageError::Invalid(Field::ConnectedDomain)
    );
}

#[test]
fn entries_under_other_keys_are_passed_over() {
    let text = "extra: 1\npid: 9\nis_success: false\nconnected_domain: d\nconnected_user: u\nlast_network_activity: ''\n";
    let state = State::from_yaml(text).unwrap();
    assert_eq!(state.pid, Some(9));
    assert_eq!(state.last_network_activity, "");
}

#[test]
fn from_fields_reports_the_first_field_that_cannot_be_read() {
    let r = State::from_fields(
        Some(Scalar::Text("x".to_string())),
        Some(Scalar::Bool(true)),
        None,
        None,
        None,
        None,
    );
    assert_eq!(r.unwrap_err(), StorageError::Invalid(Field::Pid));
    let r = State::from_fields(
        None,
        Some(Scalar::Null),
        Some(Scalar::Bool(true)),
        Some(Scalar::Text("d".to_string())),
        Some(Scalar::Text("u".to_string())),
        Some(Scalar::Other),
    );
    assert_eq!(r.unwrap_err(), StorageError::Invalid(Field::LastNetworkActivity));
}

#[test]
fn mapping_of_a_record_reads_back_as_the_record() {
    let state = sample();
    let m = state.to_mapping();
    assert_eq!(m.len(), 6);
    let back = State::from_mapping(&m).unwrap();
    assert!(same(&state, &back));
}

#[test]
fn mapping_holds_the_fields_in_order_with_their_values() {
    let state = State {
        pid: Some(7),
        handle: Some(900),
        is_success: true,
        connected_domain: "d".to_string(),
        connected_user: "u".to_string(),
        last_network_activity: "t".to_string(),
    };
    let m = state.to_mapping();
    let found: Vec<(serde_yaml::Value, serde_yaml::Value)> =
        m.iter().map(|(k, v)| (k.clone(), v.clone())).collect();
    let text = |s: &str| serde_yaml::Value::String(s.to_string());
    assert_eq!(
        found,
        vec![
            (text("pid"), serde_yaml::Value::Number(7u64.into())),
            (text("handle"), serde_yaml::Value::Number(900u64.into())),
            (text("is_success"), serde_yaml::Value::Bool(true)),
            (text("connected_domain"), text("d")),
            (text("connected_user"), text("u")),
            (text("last_network_activity"), text("t")),
        ]
    );
    let empty = State::new().to_mapping();
    assert_eq!(empty.get("pid"), Some(&serde_yaml::Value::Null));
    assert_eq!(empty.get("handle"), Some(&serde_yaml::Value::Null));
    assert_eq!(empty.get("connected_user"), Some(&text("")));
}

#[test]
fn mapping_built_by_hand_is_read_by_its_text_keys() {
    let text = |s: &str| serde_yaml::Value::String(s.to_string());
    let mut m = serde_yaml::Mapping::new();
    m.insert(serde_yaml::Value::Number(1u64.into()), text("a number as key"));
    m.insert(text("last_network_activity"), text("t"));
    m.insert(text("connected_user"), text("u"));
    m.insert(text("connected_domain"), text("d"));
    m.insert(text("is_success"), serde_yaml::Value::Bool(false));
    m.insert(text("handle"), serde_yaml::Value::Number(12u64.into()));
    m.insert(text("is_success"), serde_yaml::Value::Bool(true));
    let state = State::from_mapping(&m).unwrap();
    assert_eq!(
        state,
        State {
            pid: None,
            handle: Some(12),
            is_success: true,
            connected_domain: "d".to_string(),
            connected_user: "u".to_string(),
            last_network_activity: "t".to_string(),
        }
    );
    m.insert(text("pid"), serde_yaml::Value::Number((-3i64).into()));
    assert_eq!(State::from_mapping(&m).unwrap_err(), StorageError::Invalid(Field::Pid));
    m.insert(text("pid"), serde_yaml::Value::Sequence(vec![]));
    assert_eq!(State::from_mapping(&m).unwrap_err(), StorageError::Invalid(Field::Pid));
    m.insert(text("pid"), serde_yaml::Value::Null);
    m.insert(text("handle"), serde_yaml::Value::Mapping(serde_yaml::Mapping::new()));
    assert_eq!(State::from_mapping(&m).unwrap_err(), StorageError::Invalid(Field::Handle));
}

#[test]
fn identity_is_the_pid_or_the_handle() {
    let state = State {
        pid: Some(7),
        handle: Some(900),
        is_success: false,
        connected_domain: String::new(),
        connected_user: String::new(),
        last_network_activity: String::new(),
    };
    assert_eq!(state.identity(Platform::Posix), Some(7));
    assert_eq!(state.identity(Platform::Handle), Some(900));
    assert_eq!(State::new().identity(Platform::Posix), None);
    assert_eq!(State::new().identity(Platform::Handle), None);
}

#[test]
fn texts_with_line_breaks_and_quotes_are_kept() {
    let mut store = StateStore::new();
    let state = State {
        pid: Some(1),
        handle: None,
        is_success: true,
        connected_domain: "a: b\n# c".to_string(),
        connected_user: " 'quoted' \"name\" ".to_string(),
        last_network_activity: "~".to_string(),
    };
    store.save(&state).unwrap();
    assert_eq!(store.load().unwrap(), state);
}

#[test]
fn save_stores_the_text_of_the_record() {
    let mut store = StateStore::new();
    let state = sample();
    store.save(&state).unwrap();
    assert_eq!(store.contents, Some(state.to_yaml().unwrap()));
    assert_eq!(store.load().unwrap(), state);
}

#[test]
fn save_reads_back_texts_of_every_early_character() {
    let mut bad = Vec::new();
    for code in 0u32..0x3000 {
        if let Some(c) = char::from_u32(code) {
            for text in [c.to_string(), format!("a{}b", c), format!("{} ", c), format!(" {}", c)] {
                let state = State {
                    pid: Some(1),
                    handle: None,
                    is_success: true,
                    connected_domain: text.clone(),
                    connected_user: String::new(),
                    last_network_activity: String::new(),
                };
                let mut store = StateStore::new();
                if let Err(e) = store.save(&state) {
                    bad.push((text, e));
                }
            }
        }
    }
    assert!(bad.is_empty(), "{:?}", &bad[..bad.len().min(20)]);
}

#[test]
fn same_as_compares_every_field() {
    let state = sample();
    assert!(state.same_as(&sample()));
    let mut other = sample();
    other.pid = None;
    assert!(!state.same_as(&other));
    let mut other = sample();
    other.handle = Some(1);
    assert!(!state.same_as(&other));
    let mut other = sample();
    other.is_success = true;
    assert!(!state.same_as(&other));
    let mut other = sample();
    other.connected_domain.push('x');
    assert!(!state.same_as(&other));
    let mut other = sample();
    other.connected_user.push('x');
    assert!(!state.same_as(&other));
    let mut other = sample();
    other.last_network_activity.push('x');
    assert!(!state.same_as(&other));
}
