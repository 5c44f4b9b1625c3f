//! The process-global session slot and its life cycle.
//!
//! The host keeps exactly one slot per process. `zo_init` fills it,
//! `zo_shutdown` empties it, and every database operation runs on the session
//! it holds. The session itself is the host's (it opens the database for each
//! command), so the slot is generic over it and never looks inside.
use vstd::prelude::*;
use crate::error::FfiError;

verus! {

/// Holds the process-global session, if one exists.
pub struct SessionSlot<S> {
    session: Option<S>,
}

impl<S> View for SessionSlot<S> {
    type V = Option<S>;

    closed spec fn view(&self) -> Option<S> {
        self.session
    }
}

/// The outcome of a session operation as the C interface reports it: the
/// operation's own failure message becomes a [`FfiError::Session`] error.
pub open spec fn session_outcome<T>(res: Result<T, String>) -> Result<T, FfiError> {
    match res {
        Ok(v) => Ok(v),
        Err(msg) => Err(FfiError::Session(msg)),
    }
}

/// An operation's success is passed through unchanged, and its failure
/// becomes a session error carrying the operation's own message.
pub proof fn lemma_session_outcome_passes_results_through<T>(res: Result<T, String>)
    ensures
        res matches Ok(v) ==> session_outcome(res) == Ok::<T, FfiError>(v),
        res matches Err(m) ==> session_outcome(res) == Err::<T, FfiError>(FfiError::Session(m)),
{
}

impl<S> SessionSlot<S> {
    /// An empty slot: no session exists yet.
    pub fn new() -> (r: Self)
        ensures
            r@ is None,
    {
        SessionSlot { session: None }
    }

    /// Whether a session exists.
    pub fn is_initialized(&self) -> (r: bool)
        ensures
            r == self@ is Some,
    {
        self.session.is_some()
    }
}

/// Creates the session unless one already exists.
///
/// With a session present this is a successful no-op: `create` is not called
/// and the existing session, with its counters, is kept. Otherwise `create`
/// is called once; its session is installed on success, and its failure
/// message is returned with the slot left empty.
pub fn zo_init<S, F: FnOnce() -> Result<S, String>>(slot: &mut SessionSlot<S>, create: F) -> (r: Result<(), FfiError>)
    requires
        call_requires(create, ()),
    ensures
        old(slot)@ is Some ==> r is Ok && final(slot)@ == old(slot)@,
        old(slot)@ is None ==> {
            &&& r is Ok <==> final(slot)@ is Some
            &&& final(slot)@ matches Some(s) ==> call_ensures(create, (), Ok::<S, String>(s))
            &&& r matches Err(e) ==> (e matches FfiError::Session(msg) && call_ensures(create, (), Err::<S, String>(msg)))
        },
{
    if slot.session.is_some() {
        return Ok(());
    }
    match create() {
        Ok(session) => {
            slot.session = Some(session);
            Ok(())
        },
        Err(msg) => Err(FfiError::Session(msg)),
    }
}

/// Drops the session. Safe without a session, and safe to repeat: the slot is
/// empty afterwards and the call always succeeds.
pub fn zo_shutdown<S>(slot: &mut SessionSlot<S>) -> (r: Result<(), FfiError>)
    ensures
        r is Ok,
        final(slot)@ is None,
{
    slot.session = None;
    Ok(())
}

/// Runs one operation `op` with argument `arg` on the session.
///
/// Without a session the operation is not run and the call fails with
/// [`FfiError::NotInitialized`]. Otherwise `op` gets the session and `arg`,
/// its result is passed through (its failure as [`FfiError::Session`]), and
/// the session stays installed.
pub fn with_session<S, A, T, F: FnOnce(&mut S, A) -> Result<T, String>>(
    slot: &mut SessionSlot<S>,
    arg: A,
    op: F,
) -> (r: Result<T, FfiError>)
    requires
        forall|s: &mut S| call_requires(op, (s, arg)),
    ensures
        old(slot)@ is None ==> r == Err::<T, FfiError>(FfiError::NotInitialized) && final(slot)@ is None,
        old(slot)@ is Some ==> {
            &&& final(slot)@ is Some
            &&& exists|s: &mut S, res: Result<T, String>|
                *s == old(slot)@.unwrap() && call_ensures(op, (s, arg), res) && r == session_outcome(res)
                    && final(slot)@ == Some(*final(s))
        },
{
    match slot.session.as_mut() {
        None => Err(FfiError::NotInitialized),
        Some(session) => {
            let res = op(session, arg);
            match res {
                Ok(v) => Ok(v),
                Err(msg) => Err(FfiError::Session(msg)),
            }
        },
    }
}

} // verus!
