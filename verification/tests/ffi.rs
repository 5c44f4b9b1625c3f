use zoxide_ffi::api::{
    query_options_from_c, zo_add, zo_query, zo_query_options, zo_remove, zo_stats, QueryOptions,
    SessionStats,
};
use zoxide_ffi::cstr::{cstr_array_to_vec, cstr_to_option_string, string_into_c};
use zoxide_ffi::error::{error_string, status_to_c, FfiError};
use zoxide_ffi::session::{with_session, zo_init, zo_shutdown, SessionSlot};

/// A stand-in for the database session: counts its operations and keeps the
/// added paths in memory.
struct CountingSession {
    adds: u64,
    queries: u64,
    removes: u64,
    paths: Vec<String>,
}

impl CountingSession {
    fn new() -> Self {
        CountingSession { adds: 0, queries: 0, removes: 0, paths: Vec::new() }
    }
}

fn create() -> Result<CountingSession, String> {
    Ok(CountingSession::new())
}

fn add(s: &mut CountingSession, path: String) -> Result<(), String> {
    s.paths.push(path);
    s.adds += 1;
    Ok(())
}

fn remove(s: &mut CountingSession, path: String) -> Result<(), String> {
    match s.paths.iter().position(|p| *p == path) {
        Some(i) => {
            s.paths.remove(i);
            s.removes += 1;
            Ok(())
        }
        None => Err(format!("path not found in database: {path}")),
    }
}

fn query(s: &mut CountingSession, q: QueryOptions) -> Result<String, String> {
    let found: Vec<&String> = s
        .paths
        .iter()
        .filter(|p| q.keywords.iter().all(|k| p.contains(k.as_str())))
        .collect();
    if found.is_empty() {
        return Err(String::new());
    }
    s.queries += 1;
    if q.list {
        Ok(found.iter().map(|p| p.as_str()).collect::<Vec<_>>().join("\n"))
    } else {
        Ok(found[0].clone())
    }
}

fn read_stats(s: &mut CountingSession, _: ()) -> Result<(SessionStats, usize), String> {
    Ok((
        SessionStats { adds: s.adds, queries: s.queries, removes: s.removes },
        s.paths.len(),
    ))
}

fn options() -> zo_query_options {
    zo_query_options {
        keywords: None,
        keywords_len: 0,
        exclude: None,
        base_dir: None,
        all: 0,
        interactive: 0,
        list: 0,
        score: 0,
    }
}

fn ready_slot() -> SessionSlot<CountingSession> {
    let mut slot = SessionSlot::new();
    assert!(zo_init(&mut slot, create).is_ok());
    slot
}

fn message<T>(r: Result<T, FfiError>) -> String {
    match r {
        Ok(_) => panic!("expected an error"),
        Err(e) => e.message(),
    }
}

fn assert_error<T>(r: Result<T, FfiError>, needle: &str) {
    let msg = message(r);
    assert!(msg.contains(needle), "error {msg:?} does not contain {needle:?}");
}

#[test]
fn test_empty_error_message_is_not_success() {
    let err = status_to_c::<()>(&Err(FfiError::Session(String::new())));
    assert!(err.is_some());
    let msg = String::from_utf8(err.unwrap()).unwrap();
    assert!(msg.is_empty(), "expected an empty message, got {msg:?}");
}

#[test]
fn test_init_is_idempotent() {
    let mut slot = SessionSlot::new();
    assert!(zo_init(&mut slot, create).is_ok(), "first zo_init");
    assert!(zo_add(&mut slot, Some("/tmp/a".as_bytes()), add).is_ok(), "zo_add");

    assert!(zo_init(&mut slot, create).is_ok(), "second zo_init");
    let stats = zo_stats(&mut slot, true, read_stats).unwrap();
    assert_eq!(stats.adds, 1, "a second zo_init must not reset counters");

    assert!(zo_shutdown(&mut slot).is_ok(), "zo_shutdown");
}

#[test]
fn test_shutdown_is_safe() {
    let mut slot: SessionSlot<CountingSession> = SessionSlot::new();
    assert!(zo_shutdown(&mut slot).is_ok(), "zo_shutdown");
    assert!(zo_shutdown(&mut slot).is_ok(), "zo_shutdown");
    assert!(zo_init(&mut slot, create).is_ok(), "zo_init");
    assert!(zo_shutdown(&mut slot).is_ok(), "zo_shutdown");
    assert!(zo_shutdown(&mut slot).is_ok(), "zo_shutdown");
}

#[test]
fn test_operations_require_init() {
    let mut slot: SessionSlot<CountingSession> = SessionSlot::new();
    assert!(zo_shutdown(&mut slot).is_ok(), "zo_shutdown");

    let path = "/tmp".as_bytes();
    assert_error(zo_add(&mut slot, Some(path), add), "session is not initialized");
    assert_error(zo_remove(&mut slot, Some(path), remove), "session is not initialized");
    let o = options();
    assert_error(zo_query(&mut slot, Some(&o), true, query), "session is not initialized");
    assert_error(zo_stats(&mut slot, true, read_stats), "session is not initialized");
}

#[test]
fn test_null_arguments_return_errors() {
    let mut slot = ready_slot();

    assert_error(zo_add(&mut slot, None, add), "null argument");
    assert_error(zo_remove(&mut slot, None, remove), "null argument");
    assert_error(zo_query(&mut slot, None, true, query), "null argument");
    assert_error(zo_stats(&mut slot, false, read_stats), "null argument");
    assert_error(zo_query(&mut slot, None, false, query), "null argument");
    assert_error(zo_query(&mut slot, None, true, query), "null argument");

    // A valid stats target must still work after the failure paths above.
    assert!(zo_stats(&mut slot, true, read_stats).is_ok(), "zo_stats");
}

#[test]
fn test_invalid_utf8_arguments() {
    let mut slot = ready_slot();
    let invalid: Vec<u8> = vec![0xff, b'x'];

    assert_error(zo_add(&mut slot, Some(&invalid), add), "path is not valid UTF-8");
    assert_error(zo_remove(&mut slot, Some(&invalid), remove), "path is not valid UTF-8");

    let mut o = options();
    o.exclude = Some(invalid.clone());
    assert_error(zo_query(&mut slot, Some(&o), true, query), "exclude is not valid UTF-8");
}

#[test]
fn test_query_failure_clears_output_slot() {
    let mut slot = ready_slot();
    let o = options();
    let mut out: Option<String> = Some("stale-pointer".to_string());
    // No matching entry: the query fails and must clear the caller's slot.
    let r = zo_query(&mut slot, Some(&o), true, query);
    out = r.as_ref().ok().cloned();
    assert_error(r, "");
    assert!(out.is_none(), "a failed query must clear the caller's output slot");
}

#[test]
fn test_null_keyword_array_with_positive_len_is_rejected() {
    let mut slot = ready_slot();
    let mut o = options();
    o.keywords_len = 1;
    assert_error(zo_query(&mut slot, Some(&o), true, query), "invalid keywords array");
}

// ---------------------------------------------------------------------------
// Further cases of the library's own logic
// ---------------------------------------------------------------------------

#[test]
fn string_into_c_stops_at_the_first_nul() {
    assert_eq!(string_into_c("abc\0def\0g"), b"abc".to_vec());
    assert_eq!(string_into_c("\0abc"), Vec::<u8>::new());
    assert_eq!(string_into_c("plain"), b"plain".to_vec());
    assert_eq!(string_into_c("alpha-🚀"), "alpha-🚀".as_bytes().to_vec());
    assert_eq!(string_into_c(""), Vec::<u8>::new());
}

#[test]
fn strings_survive_the_trip_through_c() {
    for text in ["/home/user/🚀-projects", "ascii", ""] {
        let bytes = string_into_c(text);
        assert_eq!(cstr_to_option_string(Some(&bytes)), Some(text.to_string()));
    }
}

#[test]
fn cstr_to_option_string_cases() {
    assert_eq!(cstr_to_option_string(None), None);
    assert_eq!(cstr_to_option_string(Some(&[0xff, b'x'])), None);
    assert_eq!(cstr_to_option_string(Some("é".as_bytes())), Some("é".to_string()));
    // A truncated multi-byte sequence is not UTF-8.
    assert_eq!(cstr_to_option_string(Some(&"é".as_bytes()[..1])), None);
}

#[test]
fn cstr_array_to_vec_cases() {
    let empty: Option<Vec<Option<Vec<u8>>>> = None;
    assert_eq!(cstr_array_to_vec(&empty, 0), Some(vec![]));
    assert_eq!(cstr_array_to_vec(&Some(vec![]), 0), Some(vec![]));
    let two = Some(vec![Some(b"foo".to_vec()), Some("bär".as_bytes().to_vec())]);
    assert_eq!(cstr_array_to_vec(&two, 2), Some(vec!["foo".to_string(), "bär".to_string()]));
    let with_null = Some(vec![Some(b"foo".to_vec()), None]);
    assert_eq!(cstr_array_to_vec(&with_null, 2), None);
    let with_invalid = Some(vec![Some(vec![0xc3]), Some(b"x".to_vec())]);
    assert_eq!(cstr_array_to_vec(&with_invalid, 2), None);
}

#[test]
fn error_messages() {
    assert_eq!(FfiError::NullArgument.message(), "null argument");
    assert_eq!(FfiError::PathNotUtf8.message(), "path is not valid UTF-8");
    assert_eq!(FfiError::InvalidKeywords.message(), "invalid keywords array");
    assert_eq!(FfiError::ExcludeNotUtf8.message(), "exclude is not valid UTF-8");
    assert_eq!(FfiError::BaseDirNotUtf8.message(), "base_dir is not valid UTF-8");
    assert_eq!(FfiError::NotInitialized.message(), "session is not initialized");
    assert_eq!(FfiError::Session("no match found".to_string()).message(), "no match found");
    assert_eq!(FfiError::Panic(Some("boom".to_string())).message(), "panic: boom");
    assert_eq!(FfiError::Panic(None).message(), "panic: unknown error");
}

#[test]
fn error_string_is_the_nul_free_message() {
    assert_eq!(error_string(&FfiError::NullArgument), b"null argument".to_vec());
    assert_eq!(error_string(&FfiError::Session("bad\0tail".to_string())), b"bad".to_vec());
}

#[test]
fn status_to_c_is_null_only_for_success() {
    assert_eq!(status_to_c::<u8>(&Ok(3)), None);
    assert_eq!(
        status_to_c::<u8>(&Err(FfiError::NotInitialized)),
        Some(b"session is not initialized".to_vec())
    );
}

#[test]
fn failed_init_leaves_no_session() {
    let mut slot: SessionSlot<CountingSession> = SessionSlot::new();
    let r = zo_init(&mut slot, || Err("cannot create data dir".to_string()));
    assert_eq!(message(r), "cannot create data dir");
    assert!(!slot.is_initialized());
    assert_error(zo_stats(&mut slot, true, read_stats), "session is not initialized");
}

#[test]
fn init_after_shutdown_starts_a_fresh_session() {
    let mut slot = ready_slot();
    assert!(zo_add(&mut slot, Some(b"/a"), add).is_ok());
    assert!(zo_shutdown(&mut slot).is_ok());
    assert!(!slot.is_initialized());
    assert!(zo_init(&mut slot, create).is_ok());
    let stats = zo_stats(&mut slot, true, read_stats).unwrap();
    assert_eq!((stats.adds, stats.queries, stats.removes, stats.entries), (0, 0, 0, 0));
}

#[test]
fn session_failures_are_passed_through() {
    let mut slot = ready_slot();
    assert_error(zo_remove(&mut slot, Some(b"/missing"), remove), "path not found in database: /missing");
    assert!(slot.is_initialized());
}

#[test]
fn add_remove_query_and_stats() {
    let mut slot = ready_slot();
    assert!(zo_add(&mut slot, Some(b"/work/alpha"), add).is_ok());
    assert!(zo_add(&mut slot, Some(b"/work/beta"), add).is_ok());

    let mut o = options();
    o.keywords = Some(vec![Some(b"alp".to_vec())]);
    o.keywords_len = 1;
    assert_eq!(zo_query(&mut slot, Some(&o), true, query).unwrap(), "/work/alpha");

    let mut all = options();
    all.list = 1;
    assert_eq!(zo_query(&mut slot, Some(&all), true, query).unwrap(), "/work/alpha\n/work/beta");

    assert!(zo_remove(&mut slot, Some(b"/work/alpha"), remove).is_ok());
    let stats = zo_stats(&mut slot, true, read_stats).unwrap();
    assert_eq!((stats.adds, stats.queries, stats.removes, stats.entries), (2, 2, 1, 1));
}

#[test]
fn query_checks_come_in_order() {
    let mut slot = ready_slot();
    let mut o = options();
    o.keywords = Some(vec![None]);
    o.keywords_len = 1;
    o.exclude = Some(vec![0xff]);
    o.base_dir = Some(vec![0xff]);
    // Without an output slot nothing else is looked at.
    assert_error(zo_query(&mut slot, Some(&o), false, query), "null argument");
    assert_error(zo_query(&mut slot, Some(&o), true, query), "invalid keywords array");
    o.keywords = None;
    o.keywords_len = 0;
    assert_error(zo_query(&mut slot, Some(&o), true, query), "exclude is not valid UTF-8");
    o.exclude = None;
    assert_error(zo_query(&mut slot, Some(&o), true, query), "base_dir is not valid UTF-8");
}

#[test]
fn query_options_are_decoded() {
    let o = zo_query_options {
        keywords: Some(vec![Some(b"foo".to_vec()), Some("🚀".as_bytes().to_vec())]),
        keywords_len: 2,
        exclude: Some(b"/home".to_vec()),
        base_dir: None,
        all: 7,
        interactive: 0,
        list: -1,
        score: 1,
    };
    let q = match query_options_from_c(&o) {
        Ok(q) => q,
        Err(e) => panic!("unexpected error: {}", e.message()),
    };
    assert_eq!(q.keywords, vec!["foo".to_string(), "🚀".to_string()]);
    assert_eq!(q.exclude, Some("/home".to_string()));
    assert_eq!(q.base_dir, None);
    assert!(q.all && !q.interactive && q.list && q.score);
}

#[test]
fn with_session_passes_the_argument_through() {
    let mut slot = ready_slot();
    let r = with_session(&mut slot, 41u64, |s: &mut CountingSession, x: u64| {
        s.adds += 1;
        Ok::<u64, String>(x + 1)
    });
    assert_eq!(r.ok(), Some(42));
    let stats = zo_stats(&mut slot, true, read_stats).unwrap();
    assert_eq!(stats.adds, 1);
}

#[test]
fn stats_read_failure_is_reported() {
    let mut slot = ready_slot();
    let r = zo_stats(&mut slot, true, |_: &mut CountingSession, _: ()| -> Result<(SessionStats, usize), String> {
        Err("cannot open database".to_string())
    });
    assert_eq!(message(r), "cannot open database");
}

#[test]
fn default_stats_are_zero() {
    let st = zoxide_ffi::api::zo_stats::default();
    assert_eq!((st.adds, st.queries, st.removes, st.entries), (0, 0, 0, 0));
}
