//! The answers of browsers, as Bitwarden clients send them.
//!
//! Clients name some members differently than the standard does, and write binary members in any
//! dialect of base64. A payload holds the members as they came, whatever their names were; the
//! types behind it hold every binary member as unpadded URL-safe base64.
use vstd::prelude::*;
use vstd::std_specs::convert::FromSpecImpl;
use crate::encoding::{
    law_normalizing_is_idempotent, normalize_base64url, normalized, not_base64,
};
use crate::error::{bad_request, outcome, AppError, AppErrorModel};
use crate::flow::{
    ask, chain, progress, Action, ActionModel, Progress, ProgressModel, Reply, ReplyModel, Stop,
};
use crate::text::copy_optional;
use crate::types::{
    copy_extensions, AssertionResponse, AssertionResponseModel, AttestationResponse,
    AttestationResponseModel, LoginResponse, LoginResponseModel, RegistrationResponse,
    RegistrationResponseModel,
};

verus! {

/// The answer to a registration, member by member as it came.
#[derive(Debug)]
pub struct RegistrationPayload {
    pub id: String,
    pub raw_id: String,
    pub type_: String,
    pub client_data_json: String,
    pub attestation_object: String,
    pub client_extension_results: Option<serde_json::Value>,
    pub name: Option<String>,
}

/// Model of [`RegistrationPayload`].
pub struct RegistrationPayloadModel {
    pub id: Seq<char>,
    pub raw_id: Seq<char>,
    pub type_: Seq<char>,
    pub client_data_json: Seq<char>,
    pub attestation_object: Seq<char>,
    pub client_extension_results: Option<serde_json::Value>,
    pub name: Option<Seq<char>>,
}

impl DeepView for RegistrationPayload {
    type V = RegistrationPayloadModel;

    open spec fn deep_view(&self) -> RegistrationPayloadModel {
        RegistrationPayloadModel {
            id: self.id@,
            raw_id: self.raw_id@,
            type_: self.type_@,
            client_data_json: self.client_data_json@,
            attestation_object: self.attestation_object@,
            client_extension_results: self.client_extension_results,
            name: self.name.deep_view(),
        }
    }
}

/// The answer to an assertion, member by member as it came.
#[derive(Debug)]
pub struct AssertionPayload {
    pub id: String,
    pub raw_id: String,
    pub type_: String,
    pub client_data_json: String,
    pub authenticator_data: String,
    pub signature: String,
    pub user_handle: Option<String>,
    pub client_extension_results: Option<serde_json::Value>,
}

/// Model of [`AssertionPayload`].
pub struct AssertionPayloadModel {
    pub id: Seq<char>,
    pub raw_id: Seq<char>,
    pub type_: Seq<char>,
    pub client_data_json: Seq<char>,
    pub authenticator_data: Seq<char>,
    pub signature: Seq<char>,
    pub user_handle: Option<Seq<char>>,
    pub client_extension_results: Option<serde_json::Value>,
}

impl DeepView for AssertionPayload {
    type V = AssertionPayloadModel;

    open spec fn deep_view(&self) -> AssertionPayloadModel {
        AssertionPayloadModel {
            id: self.id@,
            raw_id: self.raw_id@,
            type_: self.type_@,
            client_data_json: self.client_data_json@,
            authenticator_data: self.authenticator_data@,
            signature: self.signature@,
            user_handle: self.user_handle.deep_view(),
            client_extension_results: self.client_extension_results,
        }
    }
}

/// The attestation in [`RegistrationResponseCompat`].
#[derive(Debug)]
pub struct AttestationResponseCompat {
    pub client_data_json: String,
    pub attestation_object: String,
}

/// Model of [`AttestationResponseCompat`].
pub struct AttestationResponseCompatModel {
    pub client_data_json: Seq<char>,
    pub attestation_object: Seq<char>,
}

impl DeepView for AttestationResponseCompat {
    type V = AttestationResponseCompatModel;

    open spec fn deep_view(&self) -> AttestationResponseCompatModel {
        AttestationResponseCompatModel {
            client_data_json: self.client_data_json@,
            attestation_object: self.attestation_object@,
        }
    }
}

/// The answer to a registration, with its binary members normalized.
#[derive(Debug)]
pub struct RegistrationResponseCompat {
    pub id: String,
    pub raw_id: String,
    pub type_: String,
    pub response: AttestationResponseCompat,
    pub client_extension_results: Option<serde_json::Value>,
    pub name: Option<String>,
}

/// Model of [`RegistrationResponseCompat`].
pub struct RegistrationResponseCompatModel {
    pub id: Seq<char>,
    pub raw_id: Seq<char>,
    pub type_: Seq<char>,
    pub response: AttestationResponseCompatModel,
    pub client_extension_results: Option<serde_json::Value>,
    pub name: Option<Seq<char>>,
}

impl DeepView for RegistrationResponseCompat {
    type V = RegistrationResponseCompatModel;

    open spec fn deep_view(&self) -> RegistrationResponseCompatModel {
        RegistrationResponseCompatModel {
            id: self.id@,
            raw_id: self.raw_id@,
            type_: self.type_@,
            response: self.response.deep_view(),
            client_extension_results: self.client_extension_results,
            name: self.name.deep_view(),
        }
    }
}

/// The assertion in [`LoginResponseCompat`].
#[derive(Debug)]
pub struct AssertionResponseCompat {
    pub client_data_json: String,
    pub authenticator_data: String,
    pub signature: String,
    pub user_handle: Option<String>,
}

/// Model of [`AssertionResponseCompat`].
pub struct AssertionResponseCompatModel {
    pub client_data_json: Seq<char>,
    pub authenticator_data: Seq<char>,
    pub signature: Seq<char>,
    pub user_handle: Option<Seq<char>>,
}

impl DeepView for AssertionResponseCompat {
    type V = AssertionResponseCompatModel;

    open spec fn deep_view(&self) -> AssertionResponseCompatModel {
        AssertionResponseCompatModel {
            client_data_json: self.client_data_json@,
            authenticator_data: self.authenticator_data@,
            signature: self.signature@,
            user_handle: self.user_handle.deep_view(),
        }
    }
}

/// The answer to an assertion, with its binary members normalized.
#[derive(Debug)]
pub struct LoginResponseCompat {
    pub id: String,
    pub raw_id: String,
    pub type_: String,
    pub response: AssertionResponseCompat,
    pub client_extension_results: Option<serde_json::Value>,
}

/// Model of [`LoginResponseCompat`].
pub struct LoginResponseCompatModel {
    pub id: Seq<char>,
    pub raw_id: Seq<char>,
    pub type_: Seq<char>,
    pub response: AssertionResponseCompatModel,
    pub client_extension_results: Option<serde_json::Value>,
}

impl DeepView for LoginResponseCompat {
    type V = LoginResponseCompatModel;

    open spec fn deep_view(&self) -> LoginResponseCompatModel {
        LoginResponseCompatModel {
            id: self.id@,
            raw_id: self.raw_id@,
            type_: self.type_@,
            response: self.response.deep_view(),
            client_extension_results: self.client_extension_results,
        }
    }
}

/// An optional member, normalized: `None` where it is there and is not base64.
pub open spec fn normalized_optional(text: Option<Seq<char>>) -> Option<Option<Seq<char>>> {
    match text {
        Some(text) => match normalized(text) {
            Some(kept) => Some(Some(kept)),
            None => None,
        },
        None => Some(None),
    }
}

impl RegistrationPayloadModel {
    /// The answer with its binary members normalized, if all of them are base64.
    pub open spec fn normalize(self) -> Option<RegistrationResponseCompatModel> {
        match (
            normalized(self.id),
            normalized(self.raw_id),
            normalized(self.client_data_json),
            normalized(self.attestation_object),
        ) {
            (Some(id), Some(raw_id), Some(client_data_json), Some(attestation_object)) => Some(
                RegistrationResponseCompatModel {
                    id,
                    raw_id,
                    type_: self.type_,
                    response: AttestationResponseCompatModel {
                        client_data_json,
                        attestation_object,
                    },
                    client_extension_results: self.client_extension_results,
                    name: self.name,
                },
            ),
            _ => None,
        }
    }
}

impl AssertionPayloadModel {
    /// The answer with its binary members normalized, if all of them are base64.
    pub open spec fn normalize(self) -> Option<LoginResponseCompatModel> {
        match (
            normalized(self.id),
            normalized(self.raw_id),
            normalized(self.client_data_json),
            normalized(self.authenticator_data),
            normalized(self.signature),
            normalized_optional(self.user_handle),
        ) {
            (
                Some(id),
                Some(raw_id),
                Some(client_data_json),
                Some(authenticator_data),
                Some(signature),
                Some(user_handle),
            ) => Some(
                LoginResponseCompatModel {
                    id,
                    raw_id,
                    type_: self.type_,
                    response: AssertionResponseCompatModel {
                        client_data_json,
                        authenticator_data,
                        signature,
                        user_handle,
                    },
                    client_extension_results: self.client_extension_results,
                },
            ),
            _ => None,
        }
    }
}

impl RegistrationResponseCompatModel {
    /// The answer in the standard shape.
    pub open spec fn standard(self) -> RegistrationResponseModel {
        RegistrationResponseModel {
            id: self.id,
            raw_id: self.raw_id,
            type_: self.type_,
            response: AttestationResponseModel {
                client_data_json: self.response.client_data_json,
                attestation_object: self.response.attestation_object,
            },
            client_extension_results: self.client_extension_results,
            name: self.name,
        }
    }
}

impl LoginResponseCompatModel {
    /// The answer in the standard shape.
    pub open spec fn standard(self) -> LoginResponseModel {
        LoginResponseModel {
            id: self.id,
            raw_id: self.raw_id,
            type_: self.type_,
            response: AssertionResponseModel {
                client_data_json: self.response.client_data_json,
                authenticator_data: self.response.authenticator_data,
                signature: self.response.signature,
                user_handle: self.response.user_handle,
            },
            client_extension_results: self.client_extension_results,
        }
    }
}

/// The registration that a client sent, or the error that it gets: `payload` is `Err` where the
/// body did not have the members of an answer.
pub open spec fn parsed_registration(
    payload: Result<RegistrationPayloadModel, Seq<char>>,
) -> Result<RegistrationResponseCompatModel, AppErrorModel> {
    match payload {
        Ok(payload) => match payload.normalize() {
            Some(compat) => Ok(compat),
            None => Err(AppErrorModel::BadRequest("Invalid deviceResponse"@)),
        },
        Err(_) => Err(AppErrorModel::BadRequest("Invalid deviceResponse"@)),
    }
}

/// The assertion that a client sent, or the error with text `complaint`.
pub open spec fn parsed_assertion(
    payload: Result<AssertionPayloadModel, Seq<char>>,
    complaint: Seq<char>,
) -> Result<LoginResponseCompatModel, AppErrorModel> {
    match payload {
        Ok(payload) => match payload.normalize() {
            Some(compat) => Ok(compat),
            None => Err(AppErrorModel::BadRequest(complaint)),
        },
        Err(_) => Err(AppErrorModel::BadRequest(complaint)),
    }
}

/// A registration in the standard shape, under `name` if there is one.
pub open spec fn named_registration(
    compat: RegistrationResponseCompatModel,
    name: Option<Seq<char>>,
) -> RegistrationResponseModel {
    RegistrationResponseModel {
        name: if name is Some {
            name
        } else {
            compat.name
        },
        ..compat.standard()
    }
}

impl From<RegistrationResponseCompat> for RegistrationResponse {
    fn from(compat: RegistrationResponseCompat) -> (response: RegistrationResponse) {
        RegistrationResponse {
            id: compat.id,
            raw_id: compat.raw_id,
            type_: compat.type_,
            response: AttestationResponse {
                client_data_json: compat.response.client_data_json,
                attestation_object: compat.response.attestation_object,
            },
            client_extension_results: compat.client_extension_results,
            name: compat.name,
        }
    }
}

impl FromSpecImpl<RegistrationResponseCompat> for RegistrationResponse {
    open spec fn obeys_from_spec() -> bool {
        true
    }

    open spec fn from_spec(compat: RegistrationResponseCompat) -> RegistrationResponse {
        RegistrationResponse {
            id: compat.id,
            raw_id: compat.raw_id,
            type_: compat.type_,
            response: AttestationResponse {
                client_data_json: compat.response.client_data_json,
                attestation_object: compat.response.attestation_object,
            },
            client_extension_results: compat.client_extension_results,
            name: compat.name,
        }
    }
}

impl From<LoginResponseCompat> for LoginResponse {
    fn from(compat: LoginResponseCompat) -> (response: LoginResponse) {
        LoginResponse {
            id: compat.id,
            raw_id: compat.raw_id,
            type_: compat.type_,
            response: AssertionResponse {
                client_data_json: compat.response.client_data_json,
                authenticator_data: compat.response.authenticator_data,
                signature: compat.response.signature,
                user_handle: compat.response.user_handle,
            },
            client_extension_results: compat.client_extension_results,
        }
    }
}

impl FromSpecImpl<LoginResponseCompat> for LoginResponse {
    open spec fn obeys_from_spec() -> bool {
        true
    }

    open spec fn from_spec(compat: LoginResponseCompat) -> LoginResponse {
        LoginResponse {
            id: compat.id,
            raw_id: compat.raw_id,
            type_: compat.type_,
            response: AssertionResponse {
                client_data_json: compat.response.client_data_json,
                authenticator_data: compat.response.authenticator_data,
                signature: compat.response.signature,
                user_handle: compat.response.user_handle,
            },
            client_extension_results: compat.client_extension_results,
        }
    }
}

impl RegistrationResponseCompat {
    /// The answer with its binary members normalized.
    pub fn normalize(payload: &RegistrationPayload) -> (compat: Option<RegistrationResponseCompat>)
        ensures
            compat.deep_view() == payload.deep_view().normalize(),
    {
        let id = normalize_base64url(payload.id.as_str())?;
        let raw_id = normalize_base64url(payload.raw_id.as_str())?;
        let client_data_json = normalize_base64url(payload.client_data_json.as_str())?;
        let attestation_object = normalize_base64url(payload.attestation_object.as_str())?;
        Some(
            RegistrationResponseCompat {
                id,
                raw_id,
                type_: payload.type_.clone(),
                response: AttestationResponseCompat { client_data_json, attestation_object },
                client_extension_results: copy_extensions(&payload.client_extension_results),
                name: copy_optional(&payload.name),
            },
        )
    }

    /// The registration that a client sent, with its binary members normalized, or the error that
    /// it gets.
    pub fn accept(payload: &Result<RegistrationPayload, String>) -> (compat: Result<
        RegistrationResponseCompat,
        AppError,
    >)
        ensures
            outcome(compat) == parsed_registration(outcome(*payload)),
    {
        match payload {
            Ok(payload) => match RegistrationResponseCompat::normalize(payload) {
                Some(compat) => Ok(compat),
                None => Err(bad_request("Invalid deviceResponse")),
            },
            Err(_) => Err(bad_request("Invalid deviceResponse")),
        }
    }

    /// The registration that a client sent, in the standard shape. A `name` takes the place of the
    /// one in the payload.
    pub fn parse(payload: &Result<RegistrationPayload, String>, name: Option<String>) -> (response:
        Result<RegistrationResponse, AppError>)
        ensures
            outcome(response) == match parsed_registration(outcome(*payload)) {
                Ok(compat) => Ok::<RegistrationResponseModel, AppErrorModel>(
                    named_registration(compat, name.deep_view()),
                ),
                Err(error) => Err(error),
            },
    {
        let mut compat = RegistrationResponseCompat::accept(payload)?;
        if name.is_some() {
            compat.name = name;
        }
        Ok(RegistrationResponse::from(compat))
    }
}

impl LoginResponseCompat {
    /// The answer with its binary members normalized.
    pub fn normalize(payload: &AssertionPayload) -> (compat: Option<LoginResponseCompat>)
        ensures
            compat.deep_view() == payload.deep_view().normalize(),
    {
        let id = normalize_base64url(payload.id.as_str())?;
        let raw_id = normalize_base64url(payload.raw_id.as_str())?;
        let client_data_json = normalize_base64url(payload.client_data_json.as_str())?;
        let authenticator_data = normalize_base64url(payload.authenticator_data.as_str())?;
        let signature = normalize_base64url(payload.signature.as_str())?;
        let user_handle = match &payload.user_handle {
            Some(text) => Some(normalize_base64url(text.as_str())?),
            None => None,
        };
        Some(
            LoginResponseCompat {
                id,
                raw_id,
                type_: payload.type_.clone(),
                response: AssertionResponseCompat {
                    client_data_json,
                    authenticator_data,
                    signature,
                    user_handle,
                },
                client_extension_results: copy_extensions(&payload.client_extension_results),
            },
        )
    }

    fn accept(payload: &Result<AssertionPayload, String>, complaint: &str) -> (compat: Result<
        LoginResponseCompat,
        AppError,
    >)
        ensures
            outcome(compat) == parsed_assertion(outcome(*payload), complaint@),
    {
        match payload {
            Ok(payload) => match LoginResponseCompat::normalize(payload) {
                Some(compat) => Ok(compat),
                None => Err(bad_request(complaint)),
            },
            Err(_) => Err(bad_request(complaint)),
        }
    }

    /// The assertion that a client sent as a JSON value: the credential id and the answer in the
    /// standard shape.
    pub fn parse(payload: &Result<AssertionPayload, String>) -> (response: Result<
        (String, LoginResponse),
        AppError,
    >)
        ensures
            outcome(response) == received_assertion(outcome(*payload)),
    {
        let compat = LoginResponseCompat::accept(payload, "Invalid deviceResponse")?;
        Ok((compat.id.clone(), LoginResponse::from(compat)))
    }

    /// The assertion that a client sent as JSON text: the credential id and the answer in the
    /// standard shape.
    pub fn parse_str(payload: &Result<AssertionPayload, String>) -> (response: Result<
        (String, LoginResponse),
        AppError,
    >)
        ensures
            outcome(response) == match parsed_assertion(
                outcome(*payload),
                "Invalid WebAuthn response"@,
            ) {
                Ok(compat) => Ok::<(Seq<char>, LoginResponseModel), AppErrorModel>(
                    (compat.id, compat.standard()),
                ),
                Err(error) => Err(error),
            },
            outcome(response) matches Ok((id, read)) ==> id == read.id,
            outcome(response) matches Err(error) ==> error == AppErrorModel::BadRequest(
                "Invalid WebAuthn response"@,
            ),
    {
        let compat = LoginResponseCompat::accept(payload, "Invalid WebAuthn response")?;
        Ok((compat.id.clone(), LoginResponse::from(compat)))
    }
}

/// The registration in the body of a request, with its binary members normalized.
pub open spec fn read_registration_script(
    body: serde_json::Value,
    replies: Seq<ReplyModel>,
    at: int,
) -> ProgressModel<RegistrationResponseCompatModel> {
    ask(
        ActionModel::ParseRegistration { body },
        replies,
        at,
        |reply: ReplyModel|
            match reply {
                ReplyModel::Registration(payload) => Some(parsed_registration(payload)),
                _ => None,
            },
    )
}

/// The registration in the body of a request, with its binary members normalized.
pub fn read_registration(body: &serde_json::Value, replies: &Vec<Reply>, at: usize) -> (result:
    Progress<RegistrationResponseCompat>)
    ensures
        progress(result) == read_registration_script(*body, replies.deep_view(), at as int),
{
    if at >= replies.len() {
        return Err(Stop::Ask(Action::ParseRegistration { body: body.clone() }));
    }
    match &replies[at] {
        Reply::Registration(payload) => match RegistrationResponseCompat::accept(payload) {
            Ok(compat) => Ok((compat, at + 1)),
            Err(error) => Err(Stop::Fail(error)),
        },
        _ => Err(Stop::Unexpected),
    }
}

/// The registration in the body of a request, in the standard shape and under `name`.
pub open spec fn receive_registration_script(
    body: serde_json::Value,
    name: Option<Seq<char>>,
    replies: Seq<ReplyModel>,
    at: int,
) -> ProgressModel<RegistrationResponseModel> {
    chain(
        read_registration_script(body, replies, at),
        |compat: RegistrationResponseCompatModel, at: int| Ok(
            (named_registration(compat, name), at),
        ),
    )
}

/// The registration in the body of a request, in the standard shape. A `name` takes the place of
/// the one in the body.
pub fn receive_registration(
    body: &serde_json::Value,
    name: Option<String>,
    replies: &Vec<Reply>,
    at: usize,
) -> (result: Progress<RegistrationResponse>)
    ensures
        progress(result) == receive_registration_script(
            *body,
            name.deep_view(),
            replies.deep_view(),
            at as int,
        ),
{
    if at >= replies.len() {
        return Err(Stop::Ask(Action::ParseRegistration { body: body.clone() }));
    }
    match &replies[at] {
        Reply::Registration(payload) => match RegistrationResponseCompat::parse(payload, name) {
            Ok(response) => Ok((response, at + 1)),
            Err(error) => Err(Stop::Fail(error)),
        },
        _ => Err(Stop::Unexpected),
    }
}

/// The assertion that a client sent: the credential id and the answer in the standard shape.
pub open spec fn received_assertion(payload: Result<AssertionPayloadModel, Seq<char>>) -> Result<
    (Seq<char>, LoginResponseModel),
    AppErrorModel,
> {
    match parsed_assertion(payload, "Invalid deviceResponse"@) {
        Ok(compat) => Ok((compat.id, compat.standard())),
        Err(error) => Err(error),
    }
}

/// The assertion in the body of a request: the credential id and the answer in the standard shape.
pub open spec fn receive_assertion_script(
    body: serde_json::Value,
    replies: Seq<ReplyModel>,
    at: int,
) -> ProgressModel<(Seq<char>, LoginResponseModel)> {
    ask(
        ActionModel::ParseAssertion { body },
        replies,
        at,
        |reply: ReplyModel|
            match reply {
                ReplyModel::Assertion(payload) => Some(received_assertion(payload)),
                _ => None,
            },
    )
}

/// The assertion in the body of a request: the credential id and the answer in the standard shape.
pub fn receive_assertion(body: &serde_json::Value, replies: &Vec<Reply>, at: usize) -> (result:
    Progress<(String, LoginResponse)>)
    ensures
        progress(result) == receive_assertion_script(*body, replies.deep_view(), at as int),
{
    if at >= replies.len() {
        return Err(Stop::Ask(Action::ParseAssertion { body: body.clone() }));
    }
    match &replies[at] {
        Reply::Assertion(payload) => match LoginResponseCompat::parse(payload) {
            Ok(assertion) => Ok((assertion, at + 1)),
            Err(error) => Err(Stop::Fail(error)),
        },
        _ => Err(Stop::Unexpected),
    }
}

/// The binary members of an accepted registration are in the one dialect that the server keeps.
pub proof fn law_registration_members_are_canonical(payload: RegistrationPayloadModel)
    ensures
        payload.normalize() matches Some(compat) ==> {
            &&& normalized(compat.id) == Some(compat.id)
            &&& normalized(compat.raw_id) == Some(compat.raw_id)
            &&& normalized(compat.response.client_data_json) == Some(
                compat.response.client_data_json,
            )
            &&& normalized(compat.response.attestation_object) == Some(
                compat.response.attestation_object,
            )
        },
{
    law_normalizing_is_idempotent(payload.id);
    law_normalizing_is_idempotent(payload.raw_id);
    law_normalizing_is_idempotent(payload.client_data_json);
    law_normalizing_is_idempotent(payload.attestation_object);
}

/// The binary members of an accepted assertion are in the one dialect that the server keeps.
pub proof fn law_assertion_members_are_canonical(payload: AssertionPayloadModel)
    ensures
        payload.normalize() matches Some(compat) ==> {
            &&& normalized(compat.id) == Some(compat.id)
            &&& normalized(compat.raw_id) == Some(compat.raw_id)
            &&& normalized(compat.response.client_data_json) == Some(
                compat.response.client_data_json,
            )
            &&& normalized(compat.response.authenticator_data) == Some(
                compat.response.authenticator_data,
            )
            &&& normalized(compat.response.signature) == Some(compat.response.signature)
            &&& compat.response.user_handle matches Some(user_handle) ==> normalized(user_handle)
                == Some(user_handle)
        },
{
    law_normalizing_is_idempotent(payload.id);
    law_normalizing_is_idempotent(payload.raw_id);
    law_normalizing_is_idempotent(payload.client_data_json);
    law_normalizing_is_idempotent(payload.authenticator_data);
    law_normalizing_is_idempotent(payload.signature);
    if let Some(user_handle) = payload.user_handle {
        law_normalizing_is_idempotent(user_handle);
    }
}

/// A registration is refused exactly where a binary member is not base64 in any dialect.
pub proof fn law_registration_is_refused_for_bad_members(payload: RegistrationPayloadModel)
    ensures
        parsed_registration(Ok(payload)) is Err <==> {
            ||| not_base64(payload.id)
            ||| not_base64(payload.raw_id)
            ||| not_base64(payload.client_data_json)
            ||| not_base64(payload.attestation_object)
        },
{
}

/// An assertion is refused exactly where a binary member that it has is not base64 in any dialect.
pub proof fn law_assertion_is_refused_for_bad_members(
    payload: AssertionPayloadModel,
    complaint: Seq<char>,
)
    ensures
        parsed_assertion(Ok(payload), complaint) is Err <==> {
            ||| not_base64(payload.id)
            ||| not_base64(payload.raw_id)
            ||| not_base64(payload.client_data_json)
            ||| not_base64(payload.authenticator_data)
            ||| not_base64(payload.signature)
            ||| (payload.user_handle matches Some(user_handle) && not_base64(user_handle))
        },
{
}

} // verus!
