use green_site_backend::listing::{ListError, StoredObject};
use green_site_backend::machine::{
    begin, step, Op, SessionStage, StoreFault, TransferEvent, TransferOutcome, TransferState,
};

fn login_sequence(s: TransferState) -> TransferState {
    let s = step(s, TransferEvent::Connected);
    let s = step(s, TransferEvent::Secured);
    step(s, TransferEvent::LoggedIn)
}

#[test]
fn list_request_walks_session_then_listing() {
    let s = begin(Op::List);
    assert!(matches!(s, TransferState::Connecting { .. }));
    let s = step(s, TransferEvent::Connected);
    assert!(matches!(s, TransferState::Securing { .. }));
    let s = step(s, TransferEvent::Secured);
    assert!(matches!(s, TransferState::LoggingIn { .. }));
    let s = step(s, TransferEvent::LoggedIn);
    assert!(matches!(s, TransferState::Listing));
    let objects = vec![StoredObject {
        id: b"1".to_vec(),
        display_name: b"a".to_vec(),
        size: 1,
    }];
    let s = step(s, TransferEvent::ListingTranslated { result: Ok(objects) });
    match s {
        TransferState::Done { outcome: TransferOutcome::Listed { objects } } => {
            assert_eq!(objects.len(), 1);
            assert_eq!(objects[0].id, b"1".to_vec());
        }
        _ => panic!("a translated listing completes the request"),
    }
}

#[test]
fn bad_listing_fails_the_request() {
    let s = login_sequence(begin(Op::List));
    let s = step(s, TransferEvent::ListingTranslated { result: Err(ListError::BadEntry) });
    assert!(matches!(s, TransferState::Done { outcome: TransferOutcome::BadListing }));
}

#[test]
fn refused_listing_command_fails_the_request() {
    let s = login_sequence(begin(Op::List));
    let s = step(s, TransferEvent::ListingFailed);
    assert!(matches!(s, TransferState::Done { outcome: TransferOutcome::ListingFailure }));
}

#[test]
fn store_request_completes_on_acknowledgement() {
    let s = begin(Op::Store { remote_name: b"1-a".to_vec(), data: b"hi".to_vec() });
    let s = login_sequence(s);
    match &s {
        TransferState::Storing { remote_name, data } => {
            assert_eq!(remote_name, &b"1-a".to_vec());
            assert_eq!(data, &b"hi".to_vec());
        }
        _ => panic!("after login a store request is storing"),
    }
    let s = step(s, TransferEvent::Stored);
    assert!(matches!(s, TransferState::Done { outcome: TransferOutcome::Stored }));
}

#[test]
fn store_failure_carries_the_fault() {
    let s = login_sequence(begin(Op::Store { remote_name: b"1-a".to_vec(), data: b"x".to_vec() }));
    let s = step(s, TransferEvent::StoreFailed { fault: StoreFault::BadFilename });
    assert!(matches!(
        s,
        TransferState::Done {
            outcome: TransferOutcome::StoreFailure { fault: StoreFault::BadFilename }
        }
    ));
}

#[test]
fn retrieve_request_reads_then_finalizes() {
    let s = begin(Op::Retrieve { remote_name: b"1-a".to_vec() });
    let s = login_sequence(s);
    assert!(matches!(s, TransferState::OpeningStream { .. }));
    let s = step(s, TransferEvent::StreamOpened);
    assert!(matches!(s, TransferState::Reading));
    let s = step(s, TransferEvent::ReadCompleted { data: b"hello".to_vec() });
    assert!(matches!(s, TransferState::Finalizing { .. }));
    let s = step(s, TransferEvent::Finalized);
    match s {
        TransferState::Done { outcome: TransferOutcome::Retrieved { data } } => {
            assert_eq!(data, b"hello".to_vec());
        }
        _ => panic!("a finalized retrieval hands the content out"),
    }
}

#[test]
fn failed_read_still_finalizes() {
    let s = login_sequence(begin(Op::Retrieve { remote_name: b"1-a".to_vec() }));
    let s = step(s, TransferEvent::StreamOpened);
    let s = step(s, TransferEvent::ReadFailed);
    assert!(matches!(s, TransferState::Finalizing { content: None }));
    let s = step(s, TransferEvent::Finalized);
    assert!(matches!(s, TransferState::Done { outcome: TransferOutcome::ReadFailure }));
}

#[test]
fn failed_finalization_fails_the_request() {
    let s = login_sequence(begin(Op::Retrieve { remote_name: b"1-a".to_vec() }));
    let s = step(s, TransferEvent::StreamOpened);
    let s = step(s, TransferEvent::ReadCompleted { data: b"hello".to_vec() });
    let s = step(s, TransferEvent::FinalizeFailed);
    assert!(matches!(s, TransferState::Done { outcome: TransferOutcome::FinalizeFailure }));
}

#[test]
fn refused_stream_fails_without_finalization() {
    let s = login_sequence(begin(Op::Retrieve { remote_name: b"1-a".to_vec() }));
    let s = step(s, TransferEvent::StreamFailed { fault: StoreFault::BadFilename });
    assert!(matches!(
        s,
        TransferState::Done {
            outcome: TransferOutcome::RetrieveFailure { fault: StoreFault::BadFilename }
        }
    ));
}

#[test]
fn session_failures_name_their_stage() {
    let s = begin(Op::List);
    let s = step(s, TransferEvent::SessionFailed { detail: "refused".to_string() });
    match s {
        TransferState::Done { outcome: TransferOutcome::SessionFailure { error } } => {
            assert!(matches!(error.stage, SessionStage::Connect));
            assert_eq!(error.detail, "refused");
        }
        _ => panic!("a connect failure fails the request"),
    }
    let s = step(begin(Op::List), TransferEvent::Connected);
    let s = step(s, TransferEvent::SessionFailed { detail: "handshake".to_string() });
    match s {
        TransferState::Done { outcome: TransferOutcome::SessionFailure { error } } => {
            assert!(matches!(error.stage, SessionStage::Secure));
        }
        _ => panic!("a TLS failure fails the request"),
    }
    let s = step(step(begin(Op::List), TransferEvent::Connected), TransferEvent::Secured);
    let s = step(s, TransferEvent::SessionFailed { detail: "530".to_string() });
    match s {
        TransferState::Done { outcome: TransferOutcome::SessionFailure { error } } => {
            assert!(matches!(error.stage, SessionStage::Login));
        }
        _ => panic!("a login failure fails the request"),
    }
}

#[test]
fn completed_request_is_final() {
    let s = login_sequence(begin(Op::List));
    let s = step(s, TransferEvent::ListingFailed);
    let s = step(s, TransferEvent::Connected);
    assert!(matches!(s, TransferState::Done { outcome: TransferOutcome::ListingFailure }));
}
