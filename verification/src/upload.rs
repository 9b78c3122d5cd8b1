//! Upload planning.
//!
//! An upload drains the request's data part into one buffer, then mints a
//! fresh 128-bit identifier and stores the buffer under the encoded remote
//! filename. An empty buffer (or an absent data part, which arrives here as
//! no chunks at all) is rejected before anything touches the remote store;
//! so is a part that declared no filename. No partial object can be left
//! behind: the store step is planned only once the buffer is complete.

use vstd::prelude::*;

use crate::codec::{
    decoded_id, decoded_name, digits_value, encode_file_name, encoded_name,
    lemma_encode_decode_round_trip, valid_remote_name,
};

verus! {

/// Why an upload was rejected before or at the remote store.
pub enum UploadError {
    /// The request carried no data part, or its data was empty.
    NoData,
    /// The data part declared no filename.
    BadFileName,
    /// The request body itself was malformed.
    Multipart,
    /// The remote store refused the transfer; `bad_filename` records whether
    /// it classified the fault as an invalid filename.
    Store { bad_filename: bool },
}

/// A fully assembled upload: the remote filename to store under, and the
/// complete data to store.
pub struct UploadPlan {
    pub remote_name: Vec<u8>,
    pub data: Vec<u8>,
}

/// The bytes of the chunk sequence `s`, in order.
pub open spec fn flattened(s: Seq<Seq<u8>>) -> Seq<u8>
    decreases s.len(),
{
    if s.len() == 0 {
        Seq::empty()
    } else {
        flattened(s.drop_last()) + s.last()
    }
}

/// Assembles an upload from the drained body chunks, the filename the data
/// part declared, and the minted identifier. Fails with `NoData` exactly
/// when the chunks hold no bytes at all, and with `BadFileName` exactly
/// when there is data but no declared filename; otherwise the plan stores
/// the concatenated bytes under the encoding of `(id, declared_name)`.
pub fn assemble_upload(chunks: &Vec<Vec<u8>>, declared_name: Option<&[u8]>, id: u128) -> (r:
    Result<UploadPlan, UploadError>)
    ensures
        r matches Err(e) ==> (e == UploadError::NoData || e == UploadError::BadFileName),
        (r matches Err(e) && e == UploadError::NoData) <==> flattened(chunks.deep_view()).len()
            == 0,
        (r matches Err(e) && e == UploadError::BadFileName) <==> flattened(
            chunks.deep_view(),
        ).len() > 0 && declared_name is None,
        r is Ok <==> flattened(chunks.deep_view()).len() > 0 && declared_name is Some,
        r matches Ok(plan) ==> plan.data@ == flattened(chunks.deep_view())
            && plan.remote_name@ == encoded_name(id as nat, declared_name.unwrap()@),
{
    let mut data: Vec<u8> = Vec::new();
    let mut i: usize = 0;
    while i < chunks.len()
        invariant
            i <= chunks@.len(),
            data@ == flattened(chunks.deep_view().take(i as int)),
        decreases chunks@.len() - i,
    {
        data.extend_from_slice(chunks[i].as_slice());
        proof {
            assert(chunks.deep_view().take(i as int + 1).drop_last() =~= chunks.deep_view().take(
                i as int,
            ));
            assert(chunks.deep_view().take(i as int + 1).last() == chunks@[i as int]@);
        }
        i += 1;
    }
    proof {
        assert(chunks.deep_view().take(chunks@.len() as int) =~= chunks.deep_view());
    }
    if data.is_empty() {
        return Err(UploadError::NoData);
    }
    match declared_name {
        None => Err(UploadError::BadFileName),
        Some(name) => Ok(UploadPlan { remote_name: encode_file_name(id, name), data }),
    }
}

/// A successful upload of a non-empty display name is stored under a
/// remote filename that decodes back to that display name and to the
/// minted identifier: the object reappears in the listing under the name
/// it was uploaded with.
pub proof fn lemma_upload_name_decodes_back(plan: UploadPlan, id: u128, name: Seq<u8>)
    requires
        name.len() > 0,
        plan.remote_name@ == encoded_name(id as nat, name),
    ensures
        valid_remote_name(plan.remote_name@),
        decoded_name(plan.remote_name@) == name,
        digits_value(decoded_id(plan.remote_name@)) == id as nat,
{
    lemma_encode_decode_round_trip(id as nat, name);
}

/// Relies on `rand::random`: draws a fresh identifier from the
/// thread-local, OS-seeded generator. Nothing can be promised of a random
/// value.
#[verifier::external_body]
fn mint_file_id() -> u128 {
    rand::random::<u128>()
}

/// Assembles an upload under a freshly minted random identifier: the
/// rejection cases are exactly those of [`assemble_upload`], and on success
/// the plan stores the concatenated bytes under the encoding of the minted
/// identifier and the declared filename.
pub fn plan_upload(chunks: &Vec<Vec<u8>>, declared_name: Option<&[u8]>) -> (r: Result<
    UploadPlan,
    UploadError,
>)
    ensures
        r matches Err(e) ==> (e == UploadError::NoData || e == UploadError::BadFileName),
        (r matches Err(e) && e == UploadError::NoData) <==> flattened(chunks.deep_view()).len()
            == 0,
        (r matches Err(e) && e == UploadError::BadFileName) <==> flattened(
            chunks.deep_view(),
        ).len() > 0 && declared_name is None,
        r is Ok <==> flattened(chunks.deep_view()).len() > 0 && declared_name is Some,
        r matches Ok(plan) ==> plan.data@ == flattened(chunks.deep_view()) && (exists|id: u128|
            plan.remote_name@ == encoded_name(id as nat, declared_name.unwrap()@)),
{
    let id = mint_file_id();
    let r = assemble_upload(chunks, declared_name, id);
    proof {
        if r is Ok {
            assert(r->Ok_0.remote_name@ == encoded_name(id as nat, declared_name.unwrap()@));
        }
    }
    r
}

} // verus!
