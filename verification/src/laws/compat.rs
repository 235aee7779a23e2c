//! What clients send of a credential, and what is handed on of it.
use vstd::prelude::*;
use super::{asks, refuses};
use crate::encoding::{base64_text, encodes, law_text_determines_bytes, normalized, Alphabet};
use crate::error::AppErrorModel;
use crate::flow::{ActionModel, ReplyModel};
use crate::types::{LoginResponseModel, RegistrationResponseModel};
use crate::webauthn::compat::{
    named_registration, parsed_assertion, parsed_registration, read_registration_script,
    receive_assertion_script, receive_registration_script, received_assertion,
    AssertionPayloadModel, LoginResponseCompatModel, RegistrationPayloadModel,
    RegistrationResponseCompatModel,
};

verus! {

/// Base64 in any dialect is kept as the unpadded URL-safe text of the same bytes, and nothing else
/// is kept.
pub proof fn law_kept_text(alphabet: Alphabet, padded: bool, bytes: Seq<u8>, text: Seq<char>)
    ensures
        normalized(base64_text(alphabet, padded, bytes)) == Some(
            base64_text(Alphabet::UrlSafe, false, bytes),
        ),
        normalized(text) is None <==> forall|bytes: Seq<u8>, alphabet: Alphabet, padded: bool|
            text != #[trigger] base64_text(alphabet, padded, bytes),
{
    let given = base64_text(alphabet, padded, bytes);
    assert(encodes(given, bytes));
    let chosen = choose|bytes: Seq<u8>| encodes(given, bytes);
    law_text_determines_bytes(given, bytes, chosen);
    if normalized(text) is None {
        assert forall|bytes: Seq<u8>, alphabet: Alphabet, padded: bool| text
            != #[trigger] base64_text(alphabet, padded, bytes) by {
            assert(!encodes(text, bytes));
        }
    }
}

/// Member by member, `response` is what a client sent as `payload`, with its base64 normalized.
pub open spec fn registration_of(
    response: RegistrationResponseModel,
    payload: RegistrationPayloadModel,
) -> bool {
    &&& normalized(payload.id) == Some(response.id)
    &&& normalized(payload.raw_id) == Some(response.raw_id)
    &&& response.type_ == payload.type_
    &&& normalized(payload.client_data_json) == Some(response.response.client_data_json)
    &&& normalized(payload.attestation_object) == Some(response.response.attestation_object)
    &&& response.client_extension_results == payload.client_extension_results
}

/// Member by member, `response` is what a client sent as `payload`, with its base64 normalized.
pub open spec fn assertion_of(
    response: LoginResponseModel,
    payload: AssertionPayloadModel,
) -> bool {
    &&& normalized(payload.id) == Some(response.id)
    &&& normalized(payload.raw_id) == Some(response.raw_id)
    &&& response.type_ == payload.type_
    &&& normalized(payload.client_data_json) == Some(response.response.client_data_json)
    &&& normalized(payload.authenticator_data) == Some(response.response.authenticator_data)
    &&& normalized(payload.signature) == Some(response.response.signature)
    &&& match payload.user_handle {
        Some(user_handle) => response.response.user_handle is Some && normalized(user_handle)
            == response.response.user_handle,
        None => response.response.user_handle is None,
    }
    &&& response.client_extension_results == payload.client_extension_results
}

/// Whether every member that should be base64 is.
pub open spec fn is_whole_registration(payload: RegistrationPayloadModel) -> bool {
    &&& normalized(payload.id) is Some
    &&& normalized(payload.raw_id) is Some
    &&& normalized(payload.client_data_json) is Some
    &&& normalized(payload.attestation_object) is Some
}

/// Whether every member that should be base64 is.
pub open spec fn is_whole_assertion(payload: AssertionPayloadModel) -> bool {
    &&& normalized(payload.id) is Some
    &&& normalized(payload.raw_id) is Some
    &&& normalized(payload.client_data_json) is Some
    &&& normalized(payload.authenticator_data) is Some
    &&& normalized(payload.signature) is Some
    &&& payload.user_handle is Some ==> normalized(payload.user_handle->0) is Some
}

/// A new credential is read member by member, under the name it came with, and refused as a whole
/// where one member is not base64.
pub proof fn law_registration_is_read(payload: RegistrationPayloadModel, reason: Seq<char>)
    ensures
        payload.normalize() is Some <==> is_whole_registration(payload),
        payload.normalize() matches Some(compat) ==> {
            &&& registration_of(compat.standard(), payload)
            &&& compat.id == compat.standard().id
            &&& compat.name == payload.name
            &&& compat.standard().name == payload.name
            &&& parsed_registration(Ok(payload)) == Ok::<
                RegistrationResponseCompatModel,
                AppErrorModel,
            >(compat)
        },
        payload.normalize() is None ==> parsed_registration(Ok(payload)) == Err::<
            RegistrationResponseCompatModel,
            AppErrorModel,
        >(AppErrorModel::BadRequest("Invalid deviceResponse"@)),
        parsed_registration(Err(reason)) == Err::<RegistrationResponseCompatModel, AppErrorModel>(
            AppErrorModel::BadRequest("Invalid deviceResponse"@),
        ),
{
}

/// A use of a credential is read member by member, and refused as a whole where one member is not
/// base64.
pub proof fn law_assertion_is_read(
    payload: AssertionPayloadModel,
    complaint: Seq<char>,
    reason: Seq<char>,
)
    ensures
        payload.normalize() is Some <==> is_whole_assertion(payload),
        payload.normalize() matches Some(compat) ==> {
            &&& assertion_of(compat.standard(), payload)
            &&& compat.id == compat.standard().id
            &&& parsed_assertion(Ok(payload), complaint) == Ok::<
                LoginResponseCompatModel,
                AppErrorModel,
            >(compat)
            &&& received_assertion(Ok(payload)) == Ok::<
                (Seq<char>, LoginResponseModel),
                AppErrorModel,
            >((compat.standard().id, compat.standard()))
        },
        payload.normalize() is None ==> {
            &&& parsed_assertion(Ok(payload), complaint) == Err::<
                LoginResponseCompatModel,
                AppErrorModel,
            >(AppErrorModel::BadRequest(complaint))
            &&& received_assertion(Ok(payload)) == Err::<
                (Seq<char>, LoginResponseModel),
                AppErrorModel,
            >(AppErrorModel::BadRequest("Invalid deviceResponse"@))
        },
        parsed_assertion(Err(reason), complaint) == Err::<LoginResponseCompatModel, AppErrorModel>(
            AppErrorModel::BadRequest(complaint),
        ),
        received_assertion(Err(reason)) == Err::<(Seq<char>, LoginResponseModel), AppErrorModel>(
            AppErrorModel::BadRequest("Invalid deviceResponse"@),
        ),
{
}

/// A credential goes by the name of the request, or else by the one it came with, and is otherwise
/// handed on as it was read.
pub proof fn law_registration_is_named(
    compat: RegistrationResponseCompatModel,
    name: Option<Seq<char>>,
)
    ensures
        ({
            let response = named_registration(compat, name);
            &&& response.id == compat.id
            &&& response.raw_id == compat.raw_id
            &&& response.type_ == compat.type_
            &&& response.response.client_data_json == compat.response.client_data_json
            &&& response.response.attestation_object == compat.response.attestation_object
            &&& response.client_extension_results == compat.client_extension_results
            &&& name is Some ==> response.name == name
            &&& name is None ==> response.name == compat.name
        }),
{
}

/// The document of a request is read as a new credential, which then goes by the name that was
/// asked for.
pub proof fn law_registration_is_received(
    body: serde_json::Value,
    name: Option<Seq<char>>,
    sent: Result<RegistrationPayloadModel, Seq<char>>,
    replies: Seq<ReplyModel>,
    at: int,
)
    requires
        0 <= at <= replies.len(),
        at < replies.len() ==> replies[at] == ReplyModel::Registration(sent),
    ensures
        ({
            let plain = read_registration_script(body, replies, at);
            let named = receive_registration_script(body, name, replies, at);
            if at == replies.len() {
                &&& asks(plain, ActionModel::ParseRegistration { body })
                &&& asks(named, ActionModel::ParseRegistration { body })
            } else if sent is Ok && is_whole_registration(sent->Ok_0) {
                &&& plain matches Ok((compat, end)) && {
                    &&& end == at + 1
                    &&& registration_of(compat.standard(), sent->Ok_0)
                    &&& compat.name == sent->Ok_0.name
                }
                &&& named matches Ok((response, end)) && {
                    &&& end == at + 1
                    &&& registration_of(response, sent->Ok_0)
                    &&& response.name == if name is Some {
                        name
                    } else {
                        sent->Ok_0.name
                    }
                }
            } else {
                &&& refuses(plain, "Invalid deviceResponse"@)
                &&& refuses(named, "Invalid deviceResponse"@)
            }
        }),
{
}

/// The document of a request is read as the use of a credential, and the id of the credential is
/// told beside it.
pub proof fn law_assertion_is_received(
    body: serde_json::Value,
    sent: Result<AssertionPayloadModel, Seq<char>>,
    replies: Seq<ReplyModel>,
    at: int,
)
    requires
        0 <= at <= replies.len(),
        at < replies.len() ==> replies[at] == ReplyModel::Assertion(sent),
    ensures
        ({
            let result = receive_assertion_script(body, replies, at);
            if at == replies.len() {
                asks(result, ActionModel::ParseAssertion { body })
            } else if sent is Ok && is_whole_assertion(sent->Ok_0) {
                &&& result matches Ok(((credential_id, response), end))
                &&& end == at + 1
                &&& credential_id == response.id
                &&& assertion_of(response, sent->Ok_0)
            } else {
                refuses(result, "Invalid deviceResponse"@)
            }
        }),
{
}

} // verus!
