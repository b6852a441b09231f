use craby_kv::error::{count_outcome, escalate, fatal, get_outcome, keys_outcome, KvError, Op};
use craby_kv::store::{Context, CrabyKv};

fn open(name: &str) -> CrabyKv {
    let path = format!("/tmp/craby_kv_tests/{}", name);
    let mut kv = CrabyKv::new(Context::new(7, path));
    kv.initialize().expect("open store");
    kv.clear().expect("start empty");
    kv
}

fn sorted(mut v: Vec<String>) -> Vec<String> {
    v.sort();
    v
}

#[test]
fn scenario_set_get_remove_clear() {
    let mut kv = open("scenario");
    kv.set("a", "1").unwrap();
    kv.set("b", "2").unwrap();
    assert_eq!(kv.size().unwrap(), 2);
    assert_eq!(sorted(kv.keys().unwrap()), vec!["a".to_string(), "b".to_string()]);
    assert_eq!(kv.get("a").unwrap(), Some("1".to_string()));
    kv.remove("a").unwrap();
    assert_eq!(kv.get("a").unwrap(), None);
    assert_eq!(kv.size().unwrap(), 1);
    kv.clear().unwrap();
    assert_eq!(kv.size().unwrap(), 0);
}

#[test]
fn text_round_trips() {
    let mut kv = open("round_trip");
    for (k, v) in [("plain", "value"), ("ключ", "значение"), ("emoji 🦀", "日本語 ✓"), ("", "empty key"), ("empty value", "")] {
        kv.set(k, v).unwrap();
        assert_eq!(kv.get(k).unwrap(), Some(v.to_string()));
    }
}

#[test]
fn unwritten_and_removed_keys_read_as_absent() {
    let mut kv = open("absent");
    assert_eq!(kv.get("never").unwrap(), None);
    kv.set("gone", "x").unwrap();
    kv.remove("gone").unwrap();
    assert_eq!(kv.get("gone").unwrap(), None);
}

#[test]
fn contains_agrees_with_get() {
    let mut kv = open("contains");
    kv.set("here", "1").unwrap();
    for k in ["here", "missing"] {
        let found = kv.contains(k).unwrap();
        assert_eq!(found, kv.get(k).unwrap().is_some());
    }
    assert!(kv.contains("here").unwrap());
    assert!(!kv.contains("missing").unwrap());
}

#[test]
fn last_write_wins() {
    let mut kv = open("last_write");
    kv.set("k", "v1").unwrap();
    kv.set("k", "v2").unwrap();
    assert_eq!(kv.get("k").unwrap(), Some("v2".to_string()));
    assert_eq!(kv.size().unwrap(), 1);
    assert_eq!(kv.keys().unwrap(), vec!["k".to_string()]);
}

#[test]
fn size_counts_keys_set_and_not_removed() {
    let mut kv = open("size");
    kv.set("a", "1").unwrap();
    kv.set("b", "2").unwrap();
    kv.set("c", "3").unwrap();
    kv.set("a", "4").unwrap();
    kv.remove("b").unwrap();
    kv.set("b", "5").unwrap();
    kv.remove("c").unwrap();
    assert_eq!(kv.size().unwrap(), 2);
    assert_eq!(sorted(kv.keys().unwrap()), vec!["a".to_string(), "b".to_string()]);
}

#[test]
fn clear_leaves_no_keys() {
    let mut kv = open("clear");
    kv.set("x", "1").unwrap();
    kv.set("y", "2").unwrap();
    kv.clear().unwrap();
    assert_eq!(kv.size().unwrap(), 0);
    assert!(kv.keys().unwrap().is_empty());
}

#[test]
fn remove_absent_key_is_no_error() {
    let mut kv = open("remove_absent");
    kv.set("kept", "1").unwrap();
    assert!(kv.remove("absent").is_ok());
    assert_eq!(kv.size().unwrap(), 1);
    assert_eq!(kv.get("kept").unwrap(), Some("1".to_string()));
}

#[test]
fn data_survives_a_new_instance() {
    {
        let mut kv = open("durable");
        kv.set("persist", "yes").unwrap();
    }
    let mut kv = CrabyKv::new(Context::new(8, "/tmp/craby_kv_tests/durable".to_string()));
    kv.initialize().unwrap();
    assert_eq!(kv.get("persist").unwrap(), Some("yes".to_string()));
    assert_eq!(kv.id(), 8);
}

#[test]
fn initialize_twice_reopens() {
    let mut kv = open("reopen");
    kv.set("k", "v").unwrap();
    kv.initialize().unwrap();
    assert!(kv.is_initialized());
    assert_eq!(kv.get("k").unwrap(), Some("v".to_string()));
}

#[test]
fn new_instance_is_not_initialized() {
    let kv = CrabyKv::new(Context::new(42, "/tmp/craby_kv_tests/unopened".to_string()));
    assert!(!kv.is_initialized());
    assert_eq!(kv.id(), 42);
}

#[test]
fn get_outcome_decodes_stored_bytes() {
    let r = get_outcome(Ok(Some("héllo".as_bytes().to_vec())));
    assert_eq!(r.unwrap(), Some("héllo".to_string()));
    let r = get_outcome(Ok(Some(vec![0x66, 0xFF, 0x6F])));
    assert_eq!(r.unwrap(), Some("f\u{FFFD}o".to_string()));
    let r = get_outcome(Ok(None));
    assert_eq!(r.unwrap(), None);
}

#[test]
fn get_outcome_makes_engine_errors_recoverable() {
    let r = get_outcome(Err(kv::Error::Message("disk hiccup".to_string())));
    match r {
        Err(e) => {
            assert!(!e.is_fatal());
            assert_eq!(e.op(), Op::Get);
            assert!(matches!(e, KvError::Recoverable { .. }));
            assert!(e.message().contains("disk hiccup"));
        }
        Ok(_) => panic!("an engine error must not read as a value"),
    }
}

#[test]
fn fatal_keeps_operation_and_message() {
    let e = fatal(Op::SetValue, &kv::Error::Message("no space".to_string()));
    assert!(e.is_fatal());
    assert_eq!(e.op(), Op::SetValue);
    assert_eq!(e.message(), "Message: no space");
}

#[test]
fn keys_lists_each_key_once() {
    let mut kv = open("keys_once");
    kv.set("b", "1").unwrap();
    kv.set("a", "2").unwrap();
    kv.set("b", "3").unwrap();
    kv.set("c", "4").unwrap();
    assert_eq!(sorted(kv.keys().unwrap()), vec!["a".to_string(), "b".to_string(), "c".to_string()]);
}

#[test]
fn escalate_passes_values_and_makes_errors_fatal() {
    let ok: Result<u32, kv::Error> = Ok(5);
    assert_eq!(escalate(Op::Contains, ok).unwrap(), 5);
    let failed: Result<u32, kv::Error> = Err(kv::Error::Message("broken".to_string()));
    let e = escalate(Op::Remove, failed).unwrap_err();
    assert!(e.is_fatal());
    assert_eq!(e.op(), Op::Remove);
    assert_eq!(e.message(), "Message: broken");
}

#[test]
fn keys_outcome_reads_each_key_as_text() {
    let items: Vec<Result<Vec<u8>, kv::Error>> = vec![Ok(b"a".to_vec()), Ok(vec![0x62, 0xFF]), Ok(Vec::new())];
    let ks = keys_outcome(&items).unwrap();
    assert_eq!(ks, vec!["a".to_string(), "b\u{FFFD}".to_string(), String::new()]);
    let none: Vec<Result<Vec<u8>, kv::Error>> = Vec::new();
    assert!(keys_outcome(&none).unwrap().is_empty());
}

#[test]
fn keys_outcome_fails_on_an_engine_error() {
    let items: Vec<Result<Vec<u8>, kv::Error>> =
        vec![Ok(b"a".to_vec()), Err(kv::Error::Message("bad page".to_string()))];
    let e = keys_outcome(&items).unwrap_err();
    assert!(e.is_fatal());
    assert_eq!(e.op(), Op::Keys);
    assert_eq!(e.message(), "Message: bad page");
}

#[test]
fn count_outcome_counts_items() {
    let items: Vec<Result<Vec<u8>, kv::Error>> = vec![Ok(b"a".to_vec()), Ok(b"b".to_vec()), Ok(b"c".to_vec())];
    assert_eq!(count_outcome(&items).unwrap(), 3);
    let none: Vec<Result<Vec<u8>, kv::Error>> = Vec::new();
    assert_eq!(count_outcome(&none).unwrap(), 0);
}

#[test]
fn count_outcome_fails_on_an_engine_error() {
    let items: Vec<Result<Vec<u8>, kv::Error>> =
        vec![Err(kv::Error::Message("bad page".to_string())), Ok(b"a".to_vec())];
    let e = count_outcome(&items).unwrap_err();
    assert!(e.is_fatal());
    assert_eq!(e.op(), Op::Size);
}
