//! Request identifiers and the persisted record of a status query.

use crate::encoding::{hex_decoded, hex_encoded, is_hex_text};
use std::str::FromStr;
use vstd::prelude::*;

verus! {

/// The number of bytes in a request identifier.
pub const REQUEST_ID_BYTES: usize = 32;

/// The identifier of a request, computed from its content; the key under
/// which the request's outcome is polled.
#[derive(Debug, Clone, Copy)]
pub struct RequestId(pub [u8; 32]);

impl View for RequestId {
    type V = Seq<u8>;

    open spec fn view(&self) -> Seq<u8> {
        self.0@
    }
}

/// Whether a text is the written form of a request identifier: the
/// hexadecimal form of exactly 32 bytes.
pub open spec fn is_request_id_text(text: Seq<char>) -> bool {
    is_hex_text(text) && text.len() == 2 * REQUEST_ID_BYTES
}

#[verifier::external_type_specification]
#[verifier::external_body]
pub struct ExRequestIdFromStringError(ic_agent::request_id::error::RequestIdFromStringError);

/// `ic_agent::RequestId::from_str`, followed by `as_slice`: the text is
/// decoded as hexadecimal and accepted if it gives exactly 32 bytes, which
/// are the identifier.
#[verifier::external_body]
pub(crate) fn request_id_from_str(text: &str) -> (res: Result<
    [u8; 32],
    ic_agent::request_id::error::RequestIdFromStringError,
>)
    ensures
        res is Ok <==> is_request_id_text(text@),
        res matches Ok(id) ==> id@ == hex_decoded(text@),
{
    let id = ic_agent::RequestId::from_str(text)?;
    let mut bytes = [0u8; 32];
    bytes.copy_from_slice(id.as_slice());
    Ok(bytes)
}

/// `String::from` on an `ic_agent::RequestId` made by `RequestId::new`: the
/// lower-case hexadecimal form of the identifier's 32 bytes.
#[verifier::external_body]
pub(crate) fn request_id_to_string(id: &[u8; 32]) -> (text: String)
    ensures
        text@ == hex_encoded(id@),
{
    String::from(ic_agent::RequestId::new(id))
}

impl RequestId {
    /// Reads an identifier from its hexadecimal form.
    pub fn from_text(text: &str) -> (res: Option<RequestId>)
        ensures
            res is Some <==> is_request_id_text(text@),
            res matches Some(id) ==> id@ == hex_decoded(text@),
    {
        match request_id_from_str(text) {
            Ok(bytes) => Some(RequestId(bytes)),
            Err(_) => None,
        }
    }

    /// The lower-case hexadecimal form of the identifier.
    pub fn to_text(&self) -> (text: String)
        ensures
            text@ == hex_encoded(self@),
    {
        request_id_to_string(&self.0)
    }
}

/// Writing an identifier and reading the text again gives the identifier.
pub proof fn lemma_request_id_text_round_trip(id: RequestId)
    ensures
        is_request_id_text(hex_encoded(id@)),
        hex_decoded(hex_encoded(id@)) == id@,
{
    crate::encoding::lemma_hex_round_trip(id@);
}

/// The persisted record of one signed status query: the canister asked, the
/// request asked about, and the signed content of the query as hexadecimal
/// text. The content is fixed when the query is signed and is sent as it
/// stands whenever the query is submitted.
#[derive(Debug)]
pub struct RequestStatus {
    pub canister_id: String,
    pub request_id: String,
    pub content: String,
}

/// What a persisted record says, as plain text.
pub struct RequestStatusView {
    pub canister_id: Seq<char>,
    pub request_id: Seq<char>,
    pub content: Seq<char>,
}

impl View for RequestStatus {
    type V = RequestStatusView;

    open spec fn view(&self) -> RequestStatusView {
        RequestStatusView {
            canister_id: self.canister_id@,
            request_id: self.request_id@,
            content: self.content@,
        }
    }
}

impl Clone for RequestStatus {
    fn clone(&self) -> (res: Self)
        ensures
            res == *self,
    {
        RequestStatus {
            canister_id: self.canister_id.clone(),
            request_id: self.request_id.clone(),
            content: self.content.clone(),
        }
    }
}

} // verus!
