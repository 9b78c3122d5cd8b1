//! Client-facing outcomes.
//!
//! Every remote-protocol failure is translated to a client-facing response
//! here, and nowhere else: the remote store's own filename-validity
//! complaint surfaces as a client fault, everything else as an opaque
//! internal error whose message never carries internal detail.

use vstd::prelude::*;

use crate::listing::StoredObject;
use crate::machine::{StoreFault, TransferOutcome};
use crate::upload::UploadError;

verus! {

/// What the server sends back for one request.
pub struct ApiResponse {
    pub status: u16,
    pub body: ResponseBody,
}

/// The body of a response.
pub enum ResponseBody {
    /// No body.
    Empty,
    /// The raw bytes of the downloaded object.
    Content { data: Vec<u8> },
    /// The translated listing, for the transport layer to serialize.
    Objects { objects: Vec<StoredObject> },
    /// A client-facing error message.
    Message { text: String },
}

/// The body carries exactly the message `text`.
pub open spec fn is_message(b: ResponseBody, text: Seq<char>) -> bool {
    b matches ResponseBody::Message { text: t } && t@ == text
}

/// The body is the opaque internal-error message, the only text a failure
/// inside the system may show a client.
pub open spec fn is_internal_error(b: ResponseBody) -> bool {
    is_message(b, "Internal server error encountered. Please try again later."@)
}

/// The opaque 500 response.
pub fn internal_error_response() -> (r: ApiResponse)
    ensures
        r.status == 500,
        is_internal_error(r.body),
{
    ApiResponse {
        status: 500,
        body: ResponseBody::Message {
            text: "Internal server error encountered. Please try again later.".to_owned(),
        },
    }
}

/// The 404 response for an identifier absent from the current listing.
pub fn not_found_response() -> (r: ApiResponse)
    ensures
        r.status == 404,
        is_message(r.body, "Couldn't find requested file by ID"@),
{
    ApiResponse {
        status: 404,
        body: ResponseBody::Message { text: "Couldn't find requested file by ID".to_owned() },
    }
}

/// Maps the outcome of a listing request: the translated objects on
/// success, the opaque internal error on every failure — a malformed entry
/// is the system's fault, not the client's.
pub fn list_response(outcome: TransferOutcome) -> (r: ApiResponse)
    ensures
        outcome matches TransferOutcome::Listed { objects } ==> r.status == 200 && r.body == (
        ResponseBody::Objects { objects }),
        !(outcome is Listed) ==> r.status == 500 && is_internal_error(r.body),
{
    match outcome {
        TransferOutcome::Listed { objects } => ApiResponse {
            status: 200,
            body: ResponseBody::Objects { objects },
        },
        _ => internal_error_response(),
    }
}

/// The upload ended with the object stored.
pub open spec fn upload_ok(result: Result<TransferOutcome, UploadError>) -> bool {
    result matches Ok(TransferOutcome::Stored)
}

/// The remote store itself classified the fault as an invalid filename.
pub open spec fn upload_bad_remote_name(result: Result<TransferOutcome, UploadError>) -> bool {
    ||| result matches Ok(TransferOutcome::StoreFailure { fault: StoreFault::BadFilename })
    ||| result matches Err(UploadError::Store { bad_filename: true })
}

/// The request itself was at fault: no data, no declared filename, or a
/// malformed body.
pub open spec fn upload_client_fault(result: Result<TransferOutcome, UploadError>) -> bool {
    result matches Err(e) && (e is NoData || e is BadFileName || e is Multipart)
}

/// Maps the outcome of an upload request: success carries no body; the
/// store's filename complaint and the client's own faults are 400s with a
/// human-readable reason; every other failure is the opaque internal error.
pub fn upload_response(result: Result<TransferOutcome, UploadError>) -> (r: ApiResponse)
    ensures
        upload_ok(result) ==> r.status == 200 && r.body is Empty,
        upload_bad_remote_name(result) ==> r.status == 400 && is_message(
            r.body,
            "Bad file name"@,
        ),
        upload_client_fault(result) ==> r.status == 400 && is_message(
            r.body,
            "Malformed multipart file"@,
        ),
        !upload_ok(result) && !upload_bad_remote_name(result) && !upload_client_fault(result)
            ==> r.status == 500 && is_internal_error(r.body),
{
    match result {
        Ok(TransferOutcome::Stored) => ApiResponse { status: 200, body: ResponseBody::Empty },
        Ok(TransferOutcome::StoreFailure { fault: StoreFault::BadFilename }) => ApiResponse {
            status: 400,
            body: ResponseBody::Message { text: "Bad file name".to_owned() },
        },
        Err(UploadError::Store { bad_filename: true }) => ApiResponse {
            status: 400,
            body: ResponseBody::Message { text: "Bad file name".to_owned() },
        },
        Err(UploadError::Store { bad_filename: false }) => internal_error_response(),
        Err(_) => ApiResponse {
            status: 400,
            body: ResponseBody::Message { text: "Malformed multipart file".to_owned() },
        },
        Ok(_) => internal_error_response(),
    }
}

/// Maps the outcome of the retrieval half of a download: the object's bytes
/// on success; the store's filename complaint as a 400 whose message tells
/// the client the object does not exist — at download time a missing file
/// and an invalid filename are indistinguishable to the caller; every other
/// failure, read and finalization failures included, as the opaque internal
/// error.
pub fn download_response(outcome: TransferOutcome) -> (r: ApiResponse)
    ensures
        outcome matches TransferOutcome::Retrieved { data } ==> r.status == 200 && r.body == (
        ResponseBody::Content { data }),
        outcome matches TransferOutcome::RetrieveFailure { fault: StoreFault::BadFilename }
            ==> r.status == 400 && is_message(r.body, "File with requested ID doesn't exist."@),
        !(outcome is Retrieved) && !(outcome matches TransferOutcome::RetrieveFailure {
            fault: StoreFault::BadFilename,
        }) ==> r.status == 500 && is_internal_error(r.body),
{
    match outcome {
        TransferOutcome::Retrieved { data } => ApiResponse {
            status: 200,
            body: ResponseBody::Content { data },
        },
        TransferOutcome::RetrieveFailure { fault: StoreFault::BadFilename } => ApiResponse {
            status: 400,
            body: ResponseBody::Message { text: "File with requested ID doesn't exist.".to_owned() },
        },
        _ => internal_error_response(),
    }
}

} // verus!
