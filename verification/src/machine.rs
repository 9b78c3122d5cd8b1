//! Per-request protocol state machine.
//!
//! Every request opens its own session with the remote store and walks one
//! pass through this machine: connect, upgrade to TLS, log in, then perform
//! its one operation — list, store, or retrieve. A retrieval additionally
//! opens a data stream, reads it to completion, and must finalize the
//! exhausted stream against the control connection before the request can
//! complete; skipping finalization would leave the session in an undefined
//! state, so the machine finalizes even when the read itself fails.
//!
//! The machine makes every decision; the surrounding server only performs
//! the I/O that the current state calls for and reports what happened as a
//! [`TransferEvent`].

use vstd::prelude::*;

use crate::listing::{ListError, StoredObject};

verus! {

/// What a request wants from the remote store once its session is up.
pub enum Op {
    /// Request the full directory listing.
    List,
    /// Store `data` under `remote_name`.
    Store { remote_name: Vec<u8>, data: Vec<u8> },
    /// Retrieve the object stored under `remote_name`.
    Retrieve { remote_name: Vec<u8> },
}

/// The step of session establishment that failed.
pub enum SessionStage {
    Connect,
    Secure,
    Login,
}

/// A failed session establishment: the stage that failed, with the
/// underlying cause as the transport reported it.
pub struct SessionError {
    pub stage: SessionStage,
    pub detail: String,
}

/// The remote store's classification of a refused command: either its own
/// filename-validity complaint, or anything else.
pub enum StoreFault {
    BadFilename,
    Other,
}

/// The states of one request against the remote store.
pub enum TransferState {
    /// A plain connection to the store is being opened.
    Connecting { op: Op },
    /// The connection is being upgraded in place to TLS against the
    /// configured trust anchor.
    Securing { op: Op },
    /// The login exchange is running.
    LoggingIn { op: Op },
    /// The listing command is running; its raw lines are to be translated.
    Listing,
    /// The store command is running.
    Storing { remote_name: Vec<u8>, data: Vec<u8> },
    /// The retrieval stream is being opened.
    OpeningStream { remote_name: Vec<u8> },
    /// The open retrieval stream is being read to completion.
    Reading,
    /// The protocol-mandated finalization of the retrieval stream is
    /// running; `content` is the fully read data, or `None` when the read
    /// itself failed and only the cleanup remains.
    Finalizing { content: Option<Vec<u8>> },
    /// The request is complete; the session is dropped.
    Done { outcome: TransferOutcome },
}

/// What the surrounding server observed while performing the I/O that the
/// current state called for.
pub enum TransferEvent {
    Connected,
    Secured,
    LoggedIn,
    /// Connecting, securing or logging in failed; `detail` is the cause as
    /// the transport reported it.
    SessionFailed { detail: String },
    /// The listing arrived and was translated.
    ListingTranslated { result: Result<Vec<StoredObject>, ListError> },
    /// The listing command itself was refused.
    ListingFailed,
    Stored,
    StoreFailed { fault: StoreFault },
    StreamOpened,
    StreamFailed { fault: StoreFault },
    ReadCompleted { data: Vec<u8> },
    ReadFailed,
    Finalized,
    FinalizeFailed,
}

/// How one request against the remote store ended.
pub enum TransferOutcome {
    Listed { objects: Vec<StoredObject> },
    Stored,
    Retrieved { data: Vec<u8> },
    SessionFailure { error: SessionError },
    /// Some entry of the listing violated the naming invariant.
    BadListing,
    /// The listing command itself was refused.
    ListingFailure,
    StoreFailure { fault: StoreFault },
    RetrieveFailure { fault: StoreFault },
    /// The retrieval stream could not be read to completion.
    ReadFailure,
    /// The exhausted retrieval stream could not be finalized.
    FinalizeFailure,
}

/// The transition relation of the machine, one step per observed event.
/// An event that the current state does not call for leaves the state
/// unchanged.
pub open spec fn spec_step(s: TransferState, e: TransferEvent) -> TransferState {
    match (s, e) {
        (TransferState::Connecting { op }, TransferEvent::Connected) => TransferState::Securing {
            op,
        },
        (
            TransferState::Connecting { op },
            TransferEvent::SessionFailed { detail },
        ) => TransferState::Done {
            outcome: TransferOutcome::SessionFailure {
                error: SessionError { stage: SessionStage::Connect, detail },
            },
        },
        (TransferState::Securing { op }, TransferEvent::Secured) => TransferState::LoggingIn { op },
        (
            TransferState::Securing { op },
            TransferEvent::SessionFailed { detail },
        ) => TransferState::Done {
            outcome: TransferOutcome::SessionFailure {
                error: SessionError { stage: SessionStage::Secure, detail },
            },
        },
        (TransferState::LoggingIn { op }, TransferEvent::LoggedIn) => match op {
            Op::List => TransferState::Listing,
            Op::Store { remote_name, data } => TransferState::Storing { remote_name, data },
            Op::Retrieve { remote_name } => TransferState::OpeningStream { remote_name },
        },
        (
            TransferState::LoggingIn { op },
            TransferEvent::SessionFailed { detail },
        ) => TransferState::Done {
            outcome: TransferOutcome::SessionFailure {
                error: SessionError { stage: SessionStage::Login, detail },
            },
        },
        (TransferState::Listing, TransferEvent::ListingTranslated { result }) => match result {
            Ok(objects) => TransferState::Done { outcome: TransferOutcome::Listed { objects } },
            Err(_) => TransferState::Done { outcome: TransferOutcome::BadListing },
        },
        (TransferState::Listing, TransferEvent::ListingFailed) => TransferState::Done {
            outcome: TransferOutcome::ListingFailure,
        },
        (TransferState::Storing { .. }, TransferEvent::Stored) => TransferState::Done {
            outcome: TransferOutcome::Stored,
        },
        (TransferState::Storing { .. }, TransferEvent::StoreFailed { fault }) => TransferState::Done {
            outcome: TransferOutcome::StoreFailure { fault },
        },
        (TransferState::OpeningStream { .. }, TransferEvent::StreamOpened) => TransferState::Reading,
        (
            TransferState::OpeningStream { .. },
            TransferEvent::StreamFailed { fault },
        ) => TransferState::Done { outcome: TransferOutcome::RetrieveFailure { fault } },
        (TransferState::Reading, TransferEvent::ReadCompleted { data }) => TransferState::Finalizing {
            content: Some(data),
        },
        (TransferState::Reading, TransferEvent::ReadFailed) => TransferState::Finalizing {
            content: None,
        },
        (TransferState::Finalizing { content }, TransferEvent::Finalized) => match content {
            Some(data) => TransferState::Done { outcome: TransferOutcome::Retrieved { data } },
            None => TransferState::Done { outcome: TransferOutcome::ReadFailure },
        },
        (TransferState::Finalizing { .. }, TransferEvent::FinalizeFailed) => TransferState::Done {
            outcome: TransferOutcome::FinalizeFailure,
        },
        (other, _) => other,
    }
}

/// Starts one request: every operation begins by opening a connection.
pub fn begin(op: Op) -> (s: TransferState)
    ensures
        s == (TransferState::Connecting { op }),
{
    TransferState::Connecting { op }
}

/// Advances the machine by one observed event, exactly as [`spec_step`]
/// says.
pub fn step(s: TransferState, e: TransferEvent) -> (next: TransferState)
    ensures
        next == spec_step(s, e),
{
    match (s, e) {
        (TransferState::Connecting { op }, TransferEvent::Connected) => TransferState::Securing {
            op,
        },
        (
            TransferState::Connecting { op },
            TransferEvent::SessionFailed { detail },
        ) => TransferState::Done {
            outcome: TransferOutcome::SessionFailure {
                error: SessionError { stage: SessionStage::Connect, detail },
            },
        },
        (TransferState::Securing { op }, TransferEvent::Secured) => TransferState::LoggingIn { op },
        (
            TransferState::Securing { op },
            TransferEvent::SessionFailed { detail },
        ) => TransferState::Done {
            outcome: TransferOutcome::SessionFailure {
                error: SessionError { stage: SessionStage::Secure, detail },
            },
        },
        (TransferState::LoggingIn { op }, TransferEvent::LoggedIn) => match op {
            Op::List => TransferState::Listing,
            Op::Store { remote_name, data } => TransferState::Storing { remote_name, data },
            Op::Retrieve { remote_name } => TransferState::OpeningStream { remote_name },
        },
        (
            TransferState::LoggingIn { op },
            TransferEvent::SessionFailed { detail },
        ) => TransferState::Done {
            outcome: TransferOutcome::SessionFailure {
                error: SessionError { stage: SessionStage::Login, detail },
            },
        },
        (TransferState::Listing, TransferEvent::ListingTranslated { result }) => match result {
            Ok(objects) => TransferState::Done { outcome: TransferOutcome::Listed { objects } },
            Err(_) => TransferState::Done { outcome: TransferOutcome::BadListing },
        },
        (TransferState::Listing, TransferEvent::ListingFailed) => TransferState::Done {
            outcome: TransferOutcome::ListingFailure,
        },
        (TransferState::Storing { .. }, TransferEvent::Stored) => TransferState::Done {
            outcome: TransferOutcome::Stored,
        },
        (TransferState::Storing { .. }, TransferEvent::StoreFailed { fault }) => TransferState::Done {
            outcome: TransferOutcome::StoreFailure { fault },
        },
        (TransferState::OpeningStream { .. }, TransferEvent::StreamOpened) => TransferState::Reading,
        (
            TransferState::OpeningStream { .. },
            TransferEvent::StreamFailed { fault },
        ) => TransferState::Done { outcome: TransferOutcome::RetrieveFailure { fault } },
        (TransferState::Reading, TransferEvent::ReadCompleted { data }) => TransferState::Finalizing {
            content: Some(data),
        },
        (TransferState::Reading, TransferEvent::ReadFailed) => TransferState::Finalizing {
            content: None,
        },
        (TransferState::Finalizing { content }, TransferEvent::Finalized) => match content {
            Some(data) => TransferState::Done { outcome: TransferOutcome::Retrieved { data } },
            None => TransferState::Done { outcome: TransferOutcome::ReadFailure },
        },
        (TransferState::Finalizing { .. }, TransferEvent::FinalizeFailed) => TransferState::Done {
            outcome: TransferOutcome::FinalizeFailure,
        },
        (other, _) => other,
    }
}

/// Once a retrieval stream is open and being read, no event completes the
/// request directly: every path out of `Reading` passes through
/// `Finalizing`, so the stream is finalized even when the read itself
/// fails.
pub proof fn lemma_reading_always_finalizes(s: TransferState, e: TransferEvent)
    requires
        s is Reading,
    ensures
        spec_step(s, e) is Reading || spec_step(s, e) is Finalizing,
{
}

/// Retrieved content is handed out only by the finalization step: a step
/// that completes a still-running request with the content arises only from
/// `Finalizing` after a completed read, on the store's acknowledgement of
/// the finalization.
pub proof fn lemma_retrieved_only_after_finalize(s: TransferState, e: TransferEvent)
    requires
        !(s is Done),
        spec_step(s, e) matches TransferState::Done { outcome: TransferOutcome::Retrieved { .. } },
    ensures
        s matches TransferState::Finalizing { content: Some(_) },
        e is Finalized,
{
}

/// A completed request is final: no event moves the machine out of `Done`.
pub proof fn lemma_done_is_final(s: TransferState, e: TransferEvent)
    requires
        s is Done,
    ensures
        spec_step(s, e) == s,
{
}

} // verus!
