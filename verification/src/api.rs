//! The database operations of the C interface: argument checks in the
//! original order, then the operation on the session.
//!
//! Each function takes the arguments as the host read them from C (a NULL
//! pointer as `None`) and the operation itself as a closure, which the host
//! implements with the session's database commands.
use vstd::prelude::*;
use vstd::utf8::*;
use crate::cstr::{c_arg_text, c_array_entry, c_array_valid, cstr_array_to_vec, cstr_to_option_string};
use crate::error::FfiError;
use crate::session::{session_outcome, with_session, SessionSlot};

verus! {

/// Query parameters of `zo_query`, as read from the C struct.
///
/// `keywords` is `None` for a NULL array; otherwise it holds the
/// `keywords_len` entries, each `None` for a NULL pointer. `exclude` and
/// `base_dir` are `None` for NULL. The flags are C booleans: non-zero is true.
#[allow(non_camel_case_types)]
pub struct zo_query_options {
    pub keywords: Option<Vec<Option<Vec<u8>>>>,
    pub keywords_len: usize,
    pub exclude: Option<Vec<u8>>,
    pub base_dir: Option<Vec<u8>>,
    pub all: i32,
    pub interactive: i32,
    pub list: i32,
    pub score: i32,
}

/// A checked query, as the session runs it.
pub struct QueryOptions {
    /// Keywords to match (zoxide lowercases them itself).
    pub keywords: Vec<String>,
    /// Exclude this exact path from the result.
    pub exclude: Option<String>,
    /// Restrict results to this parent directory.
    pub base_dir: Option<String>,
    /// Include directories that no longer exist.
    pub all: bool,
    /// Let the user pick the result interactively.
    pub interactive: bool,
    /// Return every match instead of only the best one.
    pub list: bool,
    /// Prefix each result with its frecency score.
    pub score: bool,
}

/// The session's counters since it was created.
pub struct SessionStats {
    pub adds: u64,
    pub queries: u64,
    pub removes: u64,
}

/// Session statistics as C receives them.
#[allow(non_camel_case_types)]
#[derive(Debug)]
pub struct zo_stats {
    pub adds: u64,
    pub queries: u64,
    pub removes: u64,
    /// Number of entries in the database when the statistics were taken.
    pub entries: u64,
}

impl Default for zo_stats {
    fn default() -> (r: Self)
        ensures
            r.adds == 0 && r.queries == 0 && r.removes == 0 && r.entries == 0,
    {
        zo_stats { adds: 0, queries: 0, removes: 0, entries: 0 }
    }
}

/// The C string `arg` as an optional owned string argument: `None` for NULL.
pub open spec fn optional_text_ok(arg: Option<Vec<u8>>) -> bool {
    arg matches Some(b) ==> valid_utf8(b@)
}

/// The text of an optional argument that [`optional_text_ok`] accepts.
pub open spec fn optional_text(arg: Option<Vec<u8>>) -> Option<Seq<char>> {
    match arg {
        Some(b) => Some(decode_utf8(b@)),
        None => None,
    }
}

/// The view of an optional owned string.
pub open spec fn string_opt_view(s: Option<String>) -> Option<Seq<char>> {
    match s {
        Some(v) => Some(v@),
        None => None,
    }
}

/// The first check that the query parameters `o` fail, if any, in the order
/// in which they are checked: keywords, `exclude`, `base_dir`.
pub open spec fn query_options_error(o: zo_query_options) -> Option<FfiError> {
    if !c_array_valid(o.keywords, o.keywords_len) {
        Some(FfiError::InvalidKeywords)
    } else if !optional_text_ok(o.exclude) {
        Some(FfiError::ExcludeNotUtf8)
    } else if !optional_text_ok(o.base_dir) {
        Some(FfiError::BaseDirNotUtf8)
    } else {
        None
    }
}

/// `q` is the checked form of the query parameters `o`.
pub open spec fn query_options_match(q: QueryOptions, o: zo_query_options) -> bool {
    &&& q.keywords@.len() == o.keywords_len
    &&& forall|i: int| 0 <= i < o.keywords_len ==> (#[trigger] q.keywords@[i])@ == c_array_entry(o.keywords, i)
    &&& string_opt_view(q.exclude) == optional_text(o.exclude)
    &&& string_opt_view(q.base_dir) == optional_text(o.base_dir)
    &&& q.all == (o.all != 0)
    &&& q.interactive == (o.interactive != 0)
    &&& q.list == (o.list != 0)
    &&& q.score == (o.score != 0)
}

/// The checks of the query parameters in their order: a bad keyword array is
/// reported first, then a non-UTF-8 `exclude`, then a non-UTF-8 `base_dir`;
/// parameters that pass all three have no error.
pub proof fn lemma_query_option_checks_in_order(o: zo_query_options)
    ensures
        !c_array_valid(o.keywords, o.keywords_len) ==> query_options_error(o) == Some(
            FfiError::InvalidKeywords,
        ),
        c_array_valid(o.keywords, o.keywords_len) && o.exclude is Some && !valid_utf8(
            o.exclude.unwrap()@,
        ) ==> query_options_error(o) == Some(FfiError::ExcludeNotUtf8),
        c_array_valid(o.keywords, o.keywords_len) && (o.exclude is Some ==> valid_utf8(
            o.exclude.unwrap()@,
        )) && o.base_dir is Some && !valid_utf8(o.base_dir.unwrap()@) ==> query_options_error(o)
            == Some(FfiError::BaseDirNotUtf8),
        c_array_valid(o.keywords, o.keywords_len) && (o.exclude is Some ==> valid_utf8(
            o.exclude.unwrap()@,
        )) && (o.base_dir is Some ==> valid_utf8(o.base_dir.unwrap()@)) ==> query_options_error(o)
            is None,
{
}

/// Each flag of a checked query is its own C field read as a C boolean: the
/// query includes missing directories exactly when `all` is non-zero, is
/// interactive exactly when `interactive` is, lists exactly when `list` is,
/// and shows scores exactly when `score` is.
pub proof fn lemma_query_flags_follow_their_fields(q: QueryOptions, o: zo_query_options)
    requires
        query_options_match(q, o),
    ensures
        q.all <==> o.all != 0,
        q.interactive <==> o.interactive != 0,
        q.list <==> o.list != 0,
        q.score <==> o.score != 0,
{
}

/// The text of a checked query is the text of the C parameters: each keyword
/// is its C entry decoded, and `exclude` and `base_dir` are NULL exactly when
/// their C pointer is, and their decoded bytes otherwise.
pub proof fn lemma_query_text_follows_the_c_strings(q: QueryOptions, o: zo_query_options)
    requires
        query_options_match(q, o),
    ensures
        q.keywords@.len() == o.keywords_len,
        forall|i: int| 0 <= i < o.keywords_len ==> (#[trigger] q.keywords@[i])@ == decode_utf8(
            o.keywords.unwrap()@[i].unwrap()@,
        ),
        q.exclude is None <==> o.exclude is None,
        o.exclude matches Some(b) ==> q.exclude.unwrap()@ == decode_utf8(b@),
        q.base_dir is None <==> o.base_dir is None,
        o.base_dir matches Some(b) ==> q.base_dir.unwrap()@ == decode_utf8(b@),
{
}

/// The parameters are as the C contract demands: a present keyword array
/// holds exactly `keywords_len` entries.
pub open spec fn query_options_well_formed(o: zo_query_options) -> bool {
    o.keywords matches Some(v) ==> v@.len() == o.keywords_len
}

/// An optional C string argument as an optional owned string.
fn optional_string(arg: &Option<Vec<u8>>) -> (r: Option<Option<String>>)
    ensures
        r is Some <==> optional_text_ok(*arg),
        r matches Some(s) ==> string_opt_view(s) == optional_text(*arg),
{
    match arg {
        None => Some(None),
        Some(bytes) => match cstr_to_option_string(Some(bytes.as_slice())) {
            None => None,
            Some(s) => Some(Some(s)),
        },
    }
}

/// Checks the query parameters and converts them into a query.
///
/// Fails with the first failed check of [`query_options_error`]; otherwise
/// the query holds the decoded keywords and options and the flags as
/// booleans.
pub fn query_options_from_c(o: &zo_query_options) -> (r: Result<QueryOptions, FfiError>)
    requires
        query_options_well_formed(*o),
    ensures
        query_options_error(*o) matches Some(e) ==> r == Err::<QueryOptions, FfiError>(e),
        query_options_error(*o) is None ==> (r matches Ok(q) && query_options_match(q, *o)),
        r matches Ok(q) ==> {
            &&& q.all == (o.all != 0)
            &&& q.interactive == (o.interactive != 0)
            &&& q.list == (o.list != 0)
            &&& q.score == (o.score != 0)
        },
{
    let keywords = match cstr_array_to_vec(&o.keywords, o.keywords_len) {
        None => return Err(FfiError::InvalidKeywords),
        Some(k) => k,
    };
    let exclude = match optional_string(&o.exclude) {
        None => return Err(FfiError::ExcludeNotUtf8),
        Some(e) => e,
    };
    let base_dir = match optional_string(&o.base_dir) {
        None => return Err(FfiError::BaseDirNotUtf8),
        Some(b) => b,
    };
    Ok(QueryOptions {
        keywords,
        exclude,
        base_dir,
        all: o.all != 0,
        interactive: o.interactive != 0,
        list: o.list != 0,
        score: o.score != 0,
    })
}

/// The error for a path argument, if it has one: NULL before non-UTF-8.
pub open spec fn path_error(path: Option<&[u8]>) -> Option<FfiError> {
    match path {
        None => Some(FfiError::NullArgument),
        Some(b) => if valid_utf8(b@) {
            None
        } else {
            Some(FfiError::PathNotUtf8)
        },
    }
}

/// A path is rejected only when it is NULL or its bytes are not UTF-8: every
/// non-NULL UTF-8 path, whatever characters it holds (spaces, accents, ...),
/// passes the check, and what reaches the session is exactly its text.
pub proof fn lemma_only_null_or_invalid_paths_are_rejected(path: Option<&[u8]>)
    ensures
        path is None ==> path_error(path) == Some(FfiError::NullArgument),
        path is Some && valid_utf8(path.unwrap()@) ==> path_error(path) is None && c_arg_text(path) == Some(
            decode_utf8(path.unwrap()@),
        ),
        path is Some && !valid_utf8(path.unwrap()@) ==> path_error(path) == Some(FfiError::PathNotUtf8),
{
}

/// A path argument as an owned string.
fn path_argument(path: Option<&[u8]>) -> (r: Result<String, FfiError>)
    ensures
        path_error(path) matches Some(e) ==> r == Err::<String, FfiError>(e),
        path_error(path) is None ==> (r matches Ok(s) && s@ == c_arg_text(path).unwrap()),
        path is Some && valid_utf8(path.unwrap()@) ==> (r matches Ok(s) && s@ == decode_utf8(path.unwrap()@)),
        path is None ==> r == Err::<String, FfiError>(FfiError::NullArgument),
        path is Some && !valid_utf8(path.unwrap()@) ==> r == Err::<String, FfiError>(FfiError::PathNotUtf8),
{
    match path {
        None => Err(FfiError::NullArgument),
        Some(bytes) => match cstr_to_option_string(Some(bytes)) {
            None => Err(FfiError::PathNotUtf8),
            Some(s) => Ok(s),
        },
    }
}

/// Adds a directory to the database.
///
/// A NULL or non-UTF-8 path is rejected before the session is consulted, and
/// leaves it untouched. A valid path runs `add` on the session with the
/// decoded path, or fails with [`FfiError::NotInitialized`] when no session
/// exists.
pub fn zo_add<S, F: FnOnce(&mut S, String) -> Result<(), String>>(
    slot: &mut SessionSlot<S>,
    path: Option<&[u8]>,
    add: F,
) -> (r: Result<(), FfiError>)
    requires
        forall|s: &mut S, p: String| call_requires(add, (s, p)),
    ensures
        path_error(path) matches Some(e) ==> r == Err::<(), FfiError>(e) && final(slot)@ == old(slot)@,
        path_error(path) is None && old(slot)@ is None ==> r == Err::<(), FfiError>(FfiError::NotInitialized)
            && final(slot)@ is None,
        path_error(path) is None && old(slot)@ is Some ==> {
            &&& final(slot)@ is Some
            &&& exists|s: &mut S, p: String, res: Result<(), String>|
                *s == old(slot)@.unwrap() && p@ == c_arg_text(path).unwrap()
                    && call_ensures(add, (s, p), res) && r == session_outcome(res)
                    && final(slot)@ == Some(*final(s))
        },
        path is Some && valid_utf8(path.unwrap()@) && old(slot)@ is Some ==> exists|
            s: &mut S,
            p: String,
            res: Result<(), String>,
        |
            *s == old(slot)@.unwrap() && p@ == decode_utf8(path.unwrap()@) && call_ensures(add, (s, p), res) && r
                == session_outcome(res),
        path is Some && valid_utf8(path.unwrap()@) ==> r != Err::<(), FfiError>(FfiError::PathNotUtf8),
{
    proof {
        lemma_only_null_or_invalid_paths_are_rejected(path);
    }
    let p = match path_argument(path) {
        Err(e) => return Err(e),
        Ok(p) => p,
    };
    with_session(slot, p, add)
}

/// Removes a directory from the database.
///
/// The same checks as [`zo_add`], then `remove` runs on the session with the
/// decoded path; a path that is not in the database is the session's failure.
pub fn zo_remove<S, F: FnOnce(&mut S, String) -> Result<(), String>>(
    slot: &mut SessionSlot<S>,
    path: Option<&[u8]>,
    remove: F,
) -> (r: Result<(), FfiError>)
    requires
        forall|s: &mut S, p: String| call_requires(remove, (s, p)),
    ensures
        path_error(path) matches Some(e) ==> r == Err::<(), FfiError>(e) && final(slot)@ == old(slot)@,
        path_error(path) is None && old(slot)@ is None ==> r == Err::<(), FfiError>(FfiError::NotInitialized)
            && final(slot)@ is None,
        path_error(path) is None && old(slot)@ is Some ==> {
            &&& final(slot)@ is Some
            &&& exists|s: &mut S, p: String, res: Result<(), String>|
                *s == old(slot)@.unwrap() && p@ == c_arg_text(path).unwrap()
                    && call_ensures(remove, (s, p), res) && r == session_outcome(res)
                    && final(slot)@ == Some(*final(s))
        },
        path is Some && valid_utf8(path.unwrap()@) && old(slot)@ is Some ==> exists|
            s: &mut S,
            p: String,
            res: Result<(), String>,
        |
            *s == old(slot)@.unwrap() && p@ == decode_utf8(path.unwrap()@) && call_ensures(remove, (s, p), res) && r
                == session_outcome(res),
        path is Some && valid_utf8(path.unwrap()@) ==> r != Err::<(), FfiError>(FfiError::PathNotUtf8),
{
    proof {
        lemma_only_null_or_invalid_paths_are_rejected(path);
    }
    let p = match path_argument(path) {
        Err(e) => return Err(e),
        Ok(p) => p,
    };
    with_session(slot, p, remove)
}

/// The error that `zo_query` reports before running the query, if any, in
/// the order of the checks: missing output slot, missing options, then the
/// options themselves.
pub open spec fn query_error(options: Option<&zo_query_options>, out_present: bool) -> Option<FfiError> {
    if !out_present {
        Some(FfiError::NullArgument)
    } else {
        match options {
            None => Some(FfiError::NullArgument),
            Some(o) => query_options_error(*o),
        }
    }
}

/// A query without an output slot, or without options, is refused as a NULL
/// argument before anything else is looked at; otherwise the options' own
/// checks decide.
pub proof fn lemma_query_null_arguments_come_first(options: Option<&zo_query_options>, out_present: bool)
    ensures
        !out_present ==> query_error(options, out_present) == Some(FfiError::NullArgument),
        out_present && options is None ==> query_error(options, out_present) == Some(
            FfiError::NullArgument,
        ),
        out_present && options is Some ==> query_error(options, out_present) == query_options_error(
            *options.unwrap(),
        ),
{
}

/// Runs a query.
///
/// `out_present` tells whether C passed an output slot. The result is what
/// that slot receives: the query's output on success, and NULL (no output)
/// on every failure, so a caller never keeps a stale pointer. Invalid
/// arguments are rejected in the order of [`query_error`] and leave the
/// session untouched; valid ones run `query` on the session with the checked
/// query, or fail with [`FfiError::NotInitialized`] when no session exists.
pub fn zo_query<S, F: FnOnce(&mut S, QueryOptions) -> Result<String, String>>(
    slot: &mut SessionSlot<S>,
    options: Option<&zo_query_options>,
    out_present: bool,
    query: F,
) -> (r: Result<String, FfiError>)
    requires
        options matches Some(o) ==> query_options_well_formed(*o),
        forall|s: &mut S, q: QueryOptions| call_requires(query, (s, q)),
    ensures
        query_error(options, out_present) matches Some(e) ==> r == Err::<String, FfiError>(e)
            && final(slot)@ == old(slot)@,
        query_error(options, out_present) is None && old(slot)@ is None ==> r == Err::<String, FfiError>(
            FfiError::NotInitialized,
        ) && final(slot)@ is None,
        query_error(options, out_present) is None && old(slot)@ is Some ==> {
            &&& final(slot)@ is Some
            &&& exists|s: &mut S, q: QueryOptions, res: Result<String, String>|
                *s == old(slot)@.unwrap() && query_options_match(q, *options.unwrap())
                    && call_ensures(query, (s, q), res) && r == session_outcome(res)
                    && final(slot)@ == Some(*final(s))
        },
{
    if !out_present {
        return Err(FfiError::NullArgument);
    }
    let o = match options {
        None => return Err(FfiError::NullArgument),
        Some(o) => o,
    };
    let q = match query_options_from_c(o) {
        Err(e) => return Err(e),
        Ok(q) => q,
    };
    with_session(slot, q, query)
}

/// The statistics C receives for the session counters `counters` and a
/// database of `entries` entries.
pub open spec fn stats_match(st: zo_stats, counters: SessionStats, entries: usize) -> bool {
    &&& st.adds == counters.adds
    &&& st.queries == counters.queries
    &&& st.removes == counters.removes
    &&& st.entries == entries
}

/// Statistics report each counter in its own field: adds as adds, queries as
/// queries, removes as removes, and the database entry count as entries.
pub proof fn lemma_stats_fields_follow_their_sources(st: zo_stats, counters: SessionStats, entries: usize)
    requires
        stats_match(st, counters, entries),
    ensures
        st.adds == counters.adds,
        st.queries == counters.queries,
        st.removes == counters.removes,
        st.entries == entries,
{
}

/// Takes the session statistics.
///
/// `out_present` tells whether C passed an output struct; without one the
/// call fails with [`FfiError::NullArgument`]. Otherwise `read` takes the
/// session's counters and counts the database entries; its failure is the
/// call's failure, and on success the statistics combine both.
pub fn zo_stats<S, F: FnOnce(&mut S, ()) -> Result<(SessionStats, usize), String>>(
    slot: &mut SessionSlot<S>,
    out_present: bool,
    read: F,
) -> (r: Result<zo_stats, FfiError>)
    requires
        forall|s: &mut S| call_requires(read, (s, ())),
    ensures
        !out_present ==> r == Err::<zo_stats, FfiError>(FfiError::NullArgument) && final(slot)@ == old(slot)@,
        out_present && old(slot)@ is None ==> r == Err::<zo_stats, FfiError>(FfiError::NotInitialized)
            && final(slot)@ is None,
        out_present && old(slot)@ is Some ==> {
            &&& final(slot)@ is Some
            &&& exists|s: &mut S, res: Result<(SessionStats, usize), String>|
                *s == old(slot)@.unwrap() && call_ensures(read, (s, ()), res)
                    && final(slot)@ == Some(*final(s)) && match res {
                    Ok((counters, entries)) => r matches Ok(st) && stats_match(st, counters, entries)
                        && st.adds == counters.adds && st.queries == counters.queries && st.removes
                        == counters.removes && st.entries == entries,
                    Err(msg) => r == Err::<zo_stats, FfiError>(FfiError::Session(msg)),
                }
        },
{
    if !out_present {
        return Err(FfiError::NullArgument);
    }
    match with_session(slot, (), read) {
        Err(e) => Err(e),
        Ok((counters, entries)) => Ok(zo_stats {
            adds: counters.adds,
            queries: counters.queries,
            removes: counters.removes,
            entries: entries as u64,
        }),
    }
}

} // verus!
