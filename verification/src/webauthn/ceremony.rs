//! Registrations and assertions: what is asked of the passkey protocol, what is made of its answer,
//! and the options as Bitwarden clients read them.
use vstd::prelude::*;
use crate::error::{bad_request, AppErrorModel};
use crate::flow::{
    ask, chain, progress, Action, ActionModel, Progress, ProgressModel, Reply, ReplyModel, Stop,
    StopModel,
};
use crate::json::{
    json_string_list, law_set_some_then_get, law_set_then_get, parse_string_list, Json, JsonModel,
};
use crate::text::same_text;
use crate::types::{
    AuthenticatorSelection, AuthenticatorSelectionModel, CredentialDescriptor,
    CredentialDescriptorModel, LoginResponse, LoginResponseModel, PasskeyConfig,
    PasskeyConfigModel, PubKeyCredParam, PubKeyCredParamModel, PublicKeyCredentialCreationOptions,
    PublicKeyCredentialCreationOptionsModel, PublicKeyCredentialRequestOptions,
    PublicKeyCredentialRequestOptionsModel, RegistrationResponse, RegistrationResponseModel,
};
use crate::webauthn::store::{
    StoreMode, StoreModeModel, WebauthnCredentialRow, WebauthnCredentialRowModel,
};
use crate::webauthn::{
    allowed_origin, verify_origin_and_align_config, verify_origin_and_align_config_script,
};

verus! {

// The passkey protocol.

/// What the passkey protocol gave, or the bad request that its failure is answered with.
pub open spec fn or_complaint<T>(result: Result<T, Seq<char>>, complaint: Seq<char>) -> Result<
    T,
    AppErrorModel,
> {
    match result {
        Ok(value) => Ok(value),
        Err(_) => Err(AppErrorModel::BadRequest(complaint)),
    }
}

/// A registration that the passkey protocol starts, with its own choice of authenticator.
pub open spec fn start_registration_script(
    mode: StoreModeModel,
    user_id: Seq<char>,
    username: Seq<char>,
    display_name: Seq<char>,
    config: PasskeyConfigModel,
    now_ms: i64,
    replies: Seq<ReplyModel>,
    at: int,
) -> ProgressModel<PublicKeyCredentialCreationOptionsModel> {
    ask(
        ActionModel::StartRegistration { mode, user_id, username, display_name, config, now_ms },
        replies,
        at,
        |reply: ReplyModel|
            match reply {
                ReplyModel::RegistrationStarted(result) => Some(
                    or_complaint(result, "WebAuthn registration start failed"@),
                ),
                _ => None,
            },
    )
}

/// A registration that the passkey protocol starts, with its own choice of authenticator.
pub fn start_registration(
    mode: StoreMode,
    user_id: &str,
    username: &str,
    display_name: &str,
    config: &PasskeyConfig,
    now_ms: i64,
    replies: &Vec<Reply>,
    at: usize,
) -> (result: Progress<PublicKeyCredentialCreationOptions>)
    ensures
        progress(result) == start_registration_script(
            mode.deep_view(),
            user_id@,
            username@,
            display_name@,
            config.deep_view(),
            now_ms,
            replies.deep_view(),
            at as int,
        ),
{
    if at >= replies.len() {
        return Err(
            Stop::Ask(
                Action::StartRegistration {
                    mode,
                    user_id: user_id.to_string(),
                    username: username.to_string(),
                    display_name: display_name.to_string(),
                    config: config.clone(),
                    now_ms,
                },
            ),
        );
    }
    match &replies[at] {
        Reply::RegistrationStarted(Ok(options)) => Ok((options.clone(), at + 1)),
        Reply::RegistrationStarted(Err(_)) => Err(
            Stop::Fail(bad_request("WebAuthn registration start failed")),
        ),
        _ => Err(Stop::Unexpected),
    }
}

/// A registration that the passkey protocol finishes against this configuration.
pub open spec fn finish_registration_script(
    mode: StoreModeModel,
    user_id: Seq<char>,
    config: PasskeyConfigModel,
    attestation: RegistrationResponseModel,
    now_ms: i64,
    replies: Seq<ReplyModel>,
    at: int,
) -> ProgressModel<()> {
    ask(
        ActionModel::FinishRegistration { mode, user_id, config, attestation, now_ms },
        replies,
        at,
        |reply: ReplyModel|
            match reply {
                ReplyModel::RegistrationFinished(result) => Some(
                    or_complaint(result, "WebAuthn registration failed"@),
                ),
                _ => None,
            },
    )
}

/// A registration that the passkey protocol finishes against this configuration.
pub fn finish_registration(
    mode: StoreMode,
    user_id: &str,
    config: &PasskeyConfig,
    attestation: RegistrationResponse,
    now_ms: i64,
    replies: &Vec<Reply>,
    at: usize,
) -> (result: Progress<()>)
    ensures
        progress(result) == finish_registration_script(
            mode.deep_view(),
            user_id@,
            config.deep_view(),
            attestation.deep_view(),
            now_ms,
            replies.deep_view(),
            at as int,
        ),
{
    if at >= replies.len() {
        return Err(
            Stop::Ask(
                Action::FinishRegistration {
                    mode,
                    user_id: user_id.to_string(),
                    config: config.clone(),
                    attestation,
                    now_ms,
                },
            ),
        );
    }
    match &replies[at] {
        Reply::RegistrationFinished(Ok(_)) => Ok(((), at + 1)),
        Reply::RegistrationFinished(Err(_)) => Err(
            Stop::Fail(bad_request("WebAuthn registration failed")),
        ),
        _ => Err(Stop::Unexpected),
    }
}

/// An assertion that the passkey protocol starts, with its own choice of user verification.
pub open spec fn start_login_script(
    mode: StoreModeModel,
    config: PasskeyConfigModel,
    now_ms: i64,
    replies: Seq<ReplyModel>,
    at: int,
) -> ProgressModel<PublicKeyCredentialRequestOptionsModel> {
    ask(
        ActionModel::StartLogin { mode, config, now_ms },
        replies,
        at,
        |reply: ReplyModel|
            match reply {
                ReplyModel::LoginStarted(result) => Some(
                    or_complaint(result, "WebAuthn assertion start failed"@),
                ),
                _ => None,
            },
    )
}

/// An assertion that the passkey protocol starts, with its own choice of user verification.
pub fn start_login(
    mode: StoreMode,
    config: &PasskeyConfig,
    now_ms: i64,
    replies: &Vec<Reply>,
    at: usize,
) -> (result: Progress<PublicKeyCredentialRequestOptions>)
    ensures
        progress(result) == start_login_script(
            mode.deep_view(),
            config.deep_view(),
            now_ms,
            replies.deep_view(),
            at as int,
        ),
{
    if at >= replies.len() {
        return Err(Stop::Ask(Action::StartLogin { mode, config: config.clone(), now_ms }));
    }
    match &replies[at] {
        Reply::LoginStarted(Ok(options)) => Ok((options.clone(), at + 1)),
        Reply::LoginStarted(Err(_)) => Err(
            Stop::Fail(bad_request("WebAuthn assertion start failed")),
        ),
        _ => Err(Stop::Unexpected),
    }
}

/// An assertion that the passkey protocol finishes against this configuration: the user who owns
/// the credential.
pub open spec fn finish_login_script(
    mode: StoreModeModel,
    config: PasskeyConfigModel,
    assertion: LoginResponseModel,
    now_ms: i64,
    complaint: Seq<char>,
    replies: Seq<ReplyModel>,
    at: int,
) -> ProgressModel<Seq<char>> {
    ask(
        ActionModel::FinishLogin { mode, config, assertion, now_ms },
        replies,
        at,
        |reply: ReplyModel|
            match reply {
                ReplyModel::LoginFinished(result) => Some(or_complaint(result, complaint)),
                _ => None,
            },
    )
}

/// An assertion that the passkey protocol finishes against this configuration: the user who owns
/// the credential. Its failure is a bad request with the text `complaint`.
pub fn finish_login<'a>(
    mode: StoreMode,
    config: &PasskeyConfig,
    assertion: LoginResponse,
    now_ms: i64,
    complaint: &str,
    replies: &'a Vec<Reply>,
    at: usize,
) -> (result: Progress<&'a String>)
    ensures
        progress(result) == finish_login_script(
            mode.deep_view(),
            config.deep_view(),
            assertion.deep_view(),
            now_ms,
            complaint@,
            replies.deep_view(),
            at as int,
        ),
{
    if at >= replies.len() {
        return Err(
            Stop::Ask(Action::FinishLogin { mode, config: config.clone(), assertion, now_ms }),
        );
    }
    match &replies[at] {
        Reply::LoginFinished(Ok(user_id)) => Ok((user_id, at + 1)),
        Reply::LoginFinished(Err(_)) => Err(Stop::Fail(bad_request(complaint))),
        _ => Err(Stop::Unexpected),
    }
}

// Registration.

/// Options for a registration whose authenticator suits what the credential is for.
pub open spec fn start_ceremony_registration_script(
    mode: StoreModeModel,
    user_id: Seq<char>,
    username: Seq<char>,
    display_name: Seq<char>,
    config: PasskeyConfigModel,
    now_ms: i64,
    replies: Seq<ReplyModel>,
    at: int,
) -> ProgressModel<PublicKeyCredentialCreationOptionsModel> {
    chain(
        start_registration_script(
            mode,
            user_id,
            username,
            display_name,
            config,
            now_ms,
            replies,
            at,
        ),
        |options: PublicKeyCredentialCreationOptionsModel, at: int|
            Ok(
                (
                    PublicKeyCredentialCreationOptionsModel {
                        authenticator_selection: Some(mode.usage().selection()),
                        ..options
                    },
                    at,
                ),
            ),
    )
}

/// Options for a registration whose authenticator suits what the credential is for: the choice of
/// authenticator is replaced, the rest is the passkey protocol's.
pub fn start_ceremony_registration(
    mode: StoreMode,
    user_id: &str,
    username: &str,
    display_name: &str,
    config: &PasskeyConfig,
    now_ms: i64,
    replies: &Vec<Reply>,
    at: usize,
) -> (result: Progress<PublicKeyCredentialCreationOptions>)
    ensures
        progress(result) == start_ceremony_registration_script(
            mode.deep_view(),
            user_id@,
            username@,
            display_name@,
            config.deep_view(),
            now_ms,
            replies.deep_view(),
            at as int,
        ),
{
    let usage = mode.usage();
    let (options, at) = start_registration(
        mode,
        user_id,
        username,
        display_name,
        config,
        now_ms,
        replies,
        at,
    )?;
    let mut options = options;
    options.authenticator_selection = Some(usage.authenticator_selection());
    Ok((options, at))
}

/// A registration that is finished with the origin in its client data, where that is allowed.
pub open spec fn finish_ceremony_registration_script(
    mode: StoreModeModel,
    user_id: Seq<char>,
    config: PasskeyConfigModel,
    response: RegistrationResponseModel,
    now_ms: i64,
    replies: Seq<ReplyModel>,
    at: int,
) -> ProgressModel<()> {
    chain(
        verify_origin_and_align_config_script(
            config,
            response.response.client_data_json,
            replies,
            at,
        ),
        |aligned: PasskeyConfigModel, at: int|
            finish_registration_script(mode, user_id, aligned, response, now_ms, replies, at),
    )
}

/// Finishes a registration, of either kind of credential. The origin in the client data takes the
/// place of the configured one where it is allowed.
pub fn finish_ceremony_registration(
    mode: StoreMode,
    user_id: &str,
    config: &PasskeyConfig,
    response: RegistrationResponse,
    now_ms: i64,
    replies: &Vec<Reply>,
    at: usize,
) -> (result: Progress<()>)
    ensures
        progress(result) == finish_ceremony_registration_script(
            mode.deep_view(),
            user_id@,
            config.deep_view(),
            response.deep_view(),
            now_ms,
            replies.deep_view(),
            at as int,
        ),
{
    let (aligned, at) = verify_origin_and_align_config(
        config,
        response.response.client_data_json.as_str(),
        replies,
        at,
    )?;
    finish_registration(mode, user_id, &aligned, response, now_ms, replies, at)
}

// Assertion.

/// Options for a login with any discoverable passkey.
pub open spec fn start_login_assertion_script(
    mode: StoreModeModel,
    config: PasskeyConfigModel,
    now_ms: i64,
    replies: Seq<ReplyModel>,
    at: int,
) -> ProgressModel<PublicKeyCredentialRequestOptionsModel> {
    chain(
        start_login_script(mode, config, now_ms, replies, at),
        |options: PublicKeyCredentialRequestOptionsModel, at: int|
            Ok(
                (
                    PublicKeyCredentialRequestOptionsModel {
                        user_verification: Some("required"@),
                        ..options
                    },
                    at,
                ),
            ),
    )
}

/// Options for a login with any discoverable passkey: the user must be verified, the rest is the
/// passkey protocol's.
pub fn start_login_assertion(
    mode: StoreMode,
    config: &PasskeyConfig,
    now_ms: i64,
    replies: &Vec<Reply>,
    at: usize,
) -> (result: Progress<PublicKeyCredentialRequestOptions>)
    ensures
        progress(result) == start_login_assertion_script(
            mode.deep_view(),
            config.deep_view(),
            now_ms,
            replies.deep_view(),
            at as int,
        ),
{
    let (options, at) = start_login(mode, config, now_ms, replies, at)?;
    let mut options = options;
    options.user_verification = Some("required".to_string());
    Ok((options, at))
}

/// The transports of a descriptor: those that a JSON text lists, unless there are none.
pub open spec fn usable(transports: Option<Seq<Seq<char>>>) -> Option<Seq<Seq<char>>> {
    match transports {
        Some(list) => if list.len() == 0 {
            None
        } else {
            Some(list)
        },
        None => None,
    }
}

/// The descriptor of a credential whose transports were read.
pub open spec fn descriptor_with(
    credential_id: Seq<char>,
    transports: Option<Seq<Seq<char>>>,
) -> CredentialDescriptorModel {
    CredentialDescriptorModel {
        type_: "public-key"@,
        id: credential_id,
        transports: usable(transports),
    }
}

/// The descriptor of a security key.
pub open spec fn descriptor(row: WebauthnCredentialRowModel) -> CredentialDescriptorModel {
    descriptor_with(row.credential_id, json_string_list(row.transports))
}

/// The descriptor of a credential whose transports were read.
pub fn describe_with(credential_id: &str, transports: Option<Vec<String>>) -> (description:
    CredentialDescriptor)
    ensures
        description.deep_view() == descriptor_with(credential_id@, transports.deep_view()),
{
    let transports = match transports {
        Some(list) => if list.len() == 0 {
            None
        } else {
            Some(list)
        },
        None => None,
    };
    CredentialDescriptor {
        type_: "public-key".to_string(),
        id: credential_id.to_string(),
        transports,
    }
}

/// The descriptor of a security key. Transports that are no list of strings, or an empty one, are
/// left out.
pub fn describe(row: &WebauthnCredentialRow) -> (description: CredentialDescriptor)
    ensures
        description.deep_view() == descriptor(row.deep_view()),
{
    describe_with(row.credential_id.as_str(), parse_string_list(row.transports.as_str()))
}

/// The descriptors of security keys, in their order.
pub open spec fn descriptors(
    rows: Seq<WebauthnCredentialRowModel>,
) -> Seq<CredentialDescriptorModel> {
    Seq::new(rows.len(), |i: int| descriptor(rows[i]))
}

/// The descriptors of security keys, in their order.
pub fn describe_all(rows: &[WebauthnCredentialRow]) -> (list: Vec<CredentialDescriptor>)
    ensures
        list.deep_view() == descriptors(rows.deep_view()),
{
    let mut list: Vec<CredentialDescriptor> = Vec::new();
    for i in 0..rows.len()
        invariant
            list@.len() == i,
            forall|j: int|
                0 <= j < i ==> (#[trigger] list@[j]).deep_view() == descriptor(
                    rows@[j].deep_view(),
                ),
    {
        list.push(describe(&rows[i]));
    }
    assert(list.deep_view() =~= descriptors(rows.deep_view()));
    list
}

/// Options for the second step of a login, with one of these credentials.
pub open spec fn start_assertion_for_script(
    mode: StoreModeModel,
    config: PasskeyConfigModel,
    allowed: Seq<CredentialDescriptorModel>,
    now_ms: i64,
    replies: Seq<ReplyModel>,
    at: int,
) -> ProgressModel<PublicKeyCredentialRequestOptionsModel> {
    chain(
        start_login_script(mode, config, now_ms, replies, at),
        |options: PublicKeyCredentialRequestOptionsModel, at: int|
            Ok(
                (
                    PublicKeyCredentialRequestOptionsModel {
                        allow_credentials: Some(allowed),
                        user_verification: Some("discouraged"@),
                        ..options
                    },
                    at,
                ),
            ),
    )
}

/// Options for the second step of a login: one of these credentials, and no need to verify the
/// user. The rest is the passkey protocol's.
pub fn start_assertion_for(
    mode: StoreMode,
    config: &PasskeyConfig,
    allowed: Vec<CredentialDescriptor>,
    now_ms: i64,
    replies: &Vec<Reply>,
    at: usize,
) -> (result: Progress<PublicKeyCredentialRequestOptions>)
    ensures
        progress(result) == start_assertion_for_script(
            mode.deep_view(),
            config.deep_view(),
            allowed.deep_view(),
            now_ms,
            replies.deep_view(),
            at as int,
        ),
{
    let (options, at) = start_login(mode, config, now_ms, replies, at)?;
    let mut options = options;
    options.allow_credentials = Some(allowed);
    options.user_verification = Some("discouraged".to_string());
    Ok((options, at))
}

/// Options for the second step of a login, with one of these security keys.
pub open spec fn start_2fa_assertion_script(
    mode: StoreModeModel,
    config: PasskeyConfigModel,
    user_creds: Seq<WebauthnCredentialRowModel>,
    now_ms: i64,
    replies: Seq<ReplyModel>,
    at: int,
) -> ProgressModel<PublicKeyCredentialRequestOptionsModel> {
    start_assertion_for_script(mode, config, descriptors(user_creds), now_ms, replies, at)
}

/// Options for the second step of a login, with one of these security keys.
pub fn start_2fa_assertion(
    mode: StoreMode,
    config: &PasskeyConfig,
    user_creds: &[WebauthnCredentialRow],
    now_ms: i64,
    replies: &Vec<Reply>,
    at: usize,
) -> (result: Progress<PublicKeyCredentialRequestOptions>)
    ensures
        progress(result) == start_2fa_assertion_script(
            mode.deep_view(),
            config.deep_view(),
            user_creds.deep_view(),
            now_ms,
            replies.deep_view(),
            at as int,
        ),
{
    start_assertion_for(mode, config, describe_all(user_creds), now_ms, replies, at)
}

/// The user who owns the credential, who must be the expected one if there is one.
pub open spec fn expected_owner(
    owner: Seq<char>,
    expected: Option<Seq<char>>,
    at: int,
) -> ProgressModel<Seq<char>> {
    if expected is Some && owner != expected->0 {
        Err(StopModel::Fail(AppErrorModel::BadRequest("WebAuthn verification failed"@)))
    } else {
        Ok((owner, at))
    }
}

/// An assertion that is finished with the origin in its client data, where that is allowed.
pub open spec fn finish_assertion_script(
    mode: StoreModeModel,
    config: PasskeyConfigModel,
    response: LoginResponseModel,
    expected_user_id: Option<Seq<char>>,
    now_ms: i64,
    replies: Seq<ReplyModel>,
    at: int,
) -> ProgressModel<Seq<char>> {
    chain(
        verify_origin_and_align_config_script(
            config,
            response.response.client_data_json,
            replies,
            at,
        ),
        |aligned: PasskeyConfigModel, at: int|
            chain(
                finish_login_script(
                    mode,
                    aligned,
                    response,
                    now_ms,
                    "WebAuthn verification failed"@,
                    replies,
                    at,
                ),
                |owner: Seq<char>, at: int| expected_owner(owner, expected_user_id, at),
            ),
    )
}

/// Finishes an assertion: the user who owns the credential.
///
/// Where `expected_user_id` is `Some`, the credential must be that user's. A login with a
/// discoverable passkey does not know the user and passes `None`.
pub fn finish_assertion<'a>(
    mode: StoreMode,
    config: &PasskeyConfig,
    response: LoginResponse,
    expected_user_id: Option<&str>,
    now_ms: i64,
    replies: &'a Vec<Reply>,
    at: usize,
) -> (result: Progress<&'a String>)
    ensures
        progress(result) == finish_assertion_script(
            mode.deep_view(),
            config.deep_view(),
            response.deep_view(),
            expected_user_id.deep_view(),
            now_ms,
            replies.deep_view(),
            at as int,
        ),
{
    let (aligned, at) = verify_origin_and_align_config(
        config,
        response.response.client_data_json.as_str(),
        replies,
        at,
    )?;
    let (owner, at) = finish_login(
        mode,
        &aligned,
        response,
        now_ms,
        "WebAuthn verification failed",
        replies,
        at,
    )?;
    if let Some(expected) = expected_user_id {
        if !same_text(owner.as_str(), expected) {
            return Err(Stop::Fail(bad_request("WebAuthn verification failed")));
        }
    }
    Ok((owner, at))
}

// JSON for Bitwarden clients.

/// Values that Bitwarden clients read as JSON.
pub trait ToBitwardenJson {
    /// The JSON object.
    spec fn bitwarden_json(&self) -> JsonModel;

    /// The JSON object.
    fn to_bitwarden_json(&self) -> (json: Json)
        ensures
            json is Object,
            json.deep_view() == self.bitwarden_json(),
    ;
}

/// A string member that may be missing.
pub open spec fn text_if_some(text: Option<Seq<char>>) -> Option<JsonModel> {
    match text {
        Some(text) => Some(JsonModel::Text(text)),
        None => None,
    }
}

fn json_if_some(text: &Option<String>) -> (json: Option<Json>)
    ensures
        json.deep_view() == text_if_some(text.deep_view()),
{
    match text {
        Some(text) => Some(Json::text(text.as_str())),
        None => None,
    }
}

impl CredentialDescriptorModel {
    /// The descriptor as JSON.
    pub open spec fn json(self) -> JsonModel {
        JsonModel::object().with("type"@, JsonModel::Text(self.type_)).with(
            "id"@,
            JsonModel::Text(self.id),
        ).with_some(
            "transports"@,
            match self.transports {
                Some(transports) => Some(JsonModel::texts(transports)),
                None => None,
            },
        )
    }
}

/// A list of descriptors as JSON.
pub open spec fn descriptors_json(list: Seq<CredentialDescriptorModel>) -> JsonModel {
    JsonModel::List(Seq::new(list.len(), |i: int| list[i].json()))
}

impl PubKeyCredParamModel {
    /// The kind of key as JSON.
    pub open spec fn json(self) -> JsonModel {
        JsonModel::object().with("type"@, JsonModel::Text(self.type_)).with(
            "alg"@,
            JsonModel::Number(self.alg as int),
        )
    }
}

/// A list of kinds of keys as JSON.
pub open spec fn params_json(list: Seq<PubKeyCredParamModel>) -> JsonModel {
    JsonModel::List(Seq::new(list.len(), |i: int| list[i].json()))
}

impl AuthenticatorSelectionModel {
    /// The choice of authenticator as JSON: what it does not say has no member.
    pub open spec fn json(self) -> JsonModel {
        JsonModel::object().with_some(
            "authenticatorAttachment"@,
            text_if_some(self.authenticator_attachment),
        ).with_some(
            "requireResidentKey"@,
            match self.require_resident_key {
                Some(value) => Some(JsonModel::Bool(value)),
                None => None,
            },
        ).with_some("residentKey"@, text_if_some(self.resident_key)).with_some(
            "userVerification"@,
            text_if_some(self.user_verification),
        )
    }
}

/// A timeout as JSON.
pub open spec fn timeout_json(timeout: Option<u64>) -> Option<JsonModel> {
    match timeout {
        Some(timeout) => Some(JsonModel::Number(timeout as int)),
        None => None,
    }
}

impl PublicKeyCredentialCreationOptionsModel {
    /// The options as JSON: a list of excluded credentials is always there, and what the options
    /// do not say has no member.
    pub open spec fn json(self) -> JsonModel {
        JsonModel::object().with("challenge"@, JsonModel::Text(self.challenge)).with(
            "excludeCredentials"@,
            descriptors_json(
                match self.exclude_credentials {
                    Some(list) => list,
                    None => Seq::empty(),
                },
            ),
        ).with(
            "rp"@,
            JsonModel::object().with("id"@, JsonModel::Text(self.rp.id)).with(
                "name"@,
                JsonModel::Text(self.rp.name),
            ),
        ).with(
            "user"@,
            JsonModel::object().with("id"@, JsonModel::Text(self.user.id)).with(
                "name"@,
                JsonModel::Text(self.user.name),
            ).with("displayName"@, JsonModel::Text(self.user.display_name)),
        ).with("pubKeyCredParams"@, params_json(self.pub_key_cred_params)).with_some(
            "timeout"@,
            timeout_json(self.timeout),
        ).with_some(
            "authenticatorSelection"@,
            match self.authenticator_selection {
                Some(selection) => Some(selection.json()),
                None => None,
            },
        ).with_some("attestation"@, text_if_some(self.attestation))
    }
}

impl PublicKeyCredentialRequestOptionsModel {
    /// The options as JSON: what they do not say has no member.
    pub open spec fn json(self) -> JsonModel {
        JsonModel::object().with("challenge"@, JsonModel::Text(self.challenge)).with(
            "rpId"@,
            JsonModel::Text(self.rp_id),
        ).with_some("timeout"@, timeout_json(self.timeout)).with_some(
            "allowCredentials"@,
            match self.allow_credentials {
                Some(list) => Some(descriptors_json(list)),
                None => None,
            },
        ).with_some("userVerification"@, text_if_some(self.user_verification))
    }
}

impl ToBitwardenJson for CredentialDescriptor {
    open spec fn bitwarden_json(&self) -> JsonModel {
        self.deep_view().json()
    }

    fn to_bitwarden_json(&self) -> (json: Json) {
        let mut json = Json::object();
        json.set("type", Json::text(self.type_.as_str()));
        json.set("id", Json::text(self.id.as_str()));
        if let Some(transports) = &self.transports {
            json.set("transports", Json::texts(transports));
        }
        json
    }
}

impl ToBitwardenJson for PubKeyCredParam {
    open spec fn bitwarden_json(&self) -> JsonModel {
        self.deep_view().json()
    }

    fn to_bitwarden_json(&self) -> (json: Json) {
        let mut json = Json::object();
        json.set("type", Json::text(self.type_.as_str()));
        json.set("alg", Json::Int(self.alg as i64));
        json
    }
}

impl ToBitwardenJson for AuthenticatorSelection {
    open spec fn bitwarden_json(&self) -> JsonModel {
        self.deep_view().json()
    }

    fn to_bitwarden_json(&self) -> (json: Json) {
        let mut json = Json::object();
        json.set_some("authenticatorAttachment", json_if_some(&self.authenticator_attachment));
        if let Some(value) = self.require_resident_key {
            json.set("requireResidentKey", Json::Bool(value));
        }
        json.set_some("residentKey", json_if_some(&self.resident_key));
        json.set_some("userVerification", json_if_some(&self.user_verification));
        json
    }
}

/// The JSON of every item of a list, in its order.
fn list_json<T: ToBitwardenJson>(list: &Vec<T>) -> (json: Json)
    ensures
        json.deep_view() == JsonModel::List(
            Seq::new(list@.len(), |i: int| list@[i].bitwarden_json()),
        ),
{
    let mut items: Vec<Json> = Vec::new();
    for i in 0..list.len()
        invariant
            items@.len() == i,
            forall|j: int|
                0 <= j < i ==> (#[trigger] items@[j]).model() == list@[j].bitwarden_json(),
    {
        items.push(list[i].to_bitwarden_json());
    }
    let json = Json::List(items);
    assert(json.model()->List_0 =~= Seq::new(list@.len(), |i: int| list@[i].bitwarden_json()));
    json
}

impl ToBitwardenJson for PublicKeyCredentialCreationOptions {
    open spec fn bitwarden_json(&self) -> JsonModel {
        self.deep_view().json()
    }

    fn to_bitwarden_json(&self) -> (json: Json) {
        let mut json = Json::object();
        json.set("challenge", Json::text(self.challenge.as_str()));
        let excluded = match &self.exclude_credentials {
            Some(list) => list_json(list),
            None => Json::List(Vec::new()),
        };
        proof {
            let list = match self.deep_view().exclude_credentials {
                Some(list) => list,
                None => Seq::empty(),
            };
            assert(excluded.model()->List_0 =~= descriptors_json(list)->List_0);
        }
        json.set("excludeCredentials", excluded);
        let mut rp = Json::object();
        rp.set("id", Json::text(self.rp.id.as_str()));
        rp.set("name", Json::text(self.rp.name.as_str()));
        json.set("rp", rp);
        let mut user = Json::object();
        user.set("id", Json::text(self.user.id.as_str()));
        user.set("name", Json::text(self.user.name.as_str()));
        user.set("displayName", Json::text(self.user.display_name.as_str()));
        json.set("user", user);
        let params = list_json(&self.pub_key_cred_params);
        assert(params.model()->List_0 =~= params_json(
            self.deep_view().pub_key_cred_params,
        )->List_0);
        json.set("pubKeyCredParams", params);
        if let Some(timeout) = self.timeout {
            json.set("timeout", Json::UInt(timeout));
        }
        if let Some(selection) = &self.authenticator_selection {
            json.set("authenticatorSelection", selection.to_bitwarden_json());
        }
        json.set_some("attestation", json_if_some(&self.attestation));
        json
    }
}

impl ToBitwardenJson for PublicKeyCredentialRequestOptions {
    open spec fn bitwarden_json(&self) -> JsonModel {
        self.deep_view().json()
    }

    fn to_bitwarden_json(&self) -> (json: Json) {
        let mut json = Json::object();
        json.set("challenge", Json::text(self.challenge.as_str()));
        json.set("rpId", Json::text(self.rp_id.as_str()));
        if let Some(timeout) = self.timeout {
            json.set("timeout", Json::UInt(timeout));
        }
        if let Some(list) = &self.allow_credentials {
            let allowed = list_json(list);
            assert(allowed.model()->List_0 =~= descriptors_json(list.deep_view())->List_0);
            json.set("allowCredentials", allowed);
        }
        json.set_some("userVerification", json_if_some(&self.user_verification));
        json
    }
}

// Laws.

/// An assertion that must be of one user is never accepted for another.
pub proof fn law_assertion_is_of_the_expected_user(
    mode: StoreModeModel,
    config: PasskeyConfigModel,
    response: LoginResponseModel,
    expected_user_id: Option<Seq<char>>,
    now_ms: i64,
    replies: Seq<ReplyModel>,
    at: int,
)
    requires
        0 <= at,
    ensures
        finish_assertion_script(
            mode,
            config,
            response,
            expected_user_id,
            now_ms,
            replies,
            at,
        ) matches Ok((owner, end)) ==> {
            &&& at < end <= replies.len()
            &&& replies[end - 1] == ReplyModel::LoginFinished(Ok(owner))
            &&& expected_user_id matches Some(expected) ==> owner == expected
        },
{
}

/// The passkey protocol is handed the relying party as it is configured, but for the origin, which
/// may be another one that is allowed.
pub proof fn law_only_allowed_origins_are_checked(
    mode: StoreModeModel,
    user_id: Seq<char>,
    config: PasskeyConfigModel,
    registration: RegistrationResponseModel,
    assertion: LoginResponseModel,
    expected_user_id: Option<Seq<char>>,
    now_ms: i64,
    replies: Seq<ReplyModel>,
    at: int,
)
    ensures
        finish_ceremony_registration_script(
            mode,
            user_id,
            config,
            registration,
            now_ms,
            replies,
            at,
        ) matches Err(StopModel::Ask(ActionModel::FinishRegistration { config: checked, .. })) ==> {
            &&& checked.rp_id == config.rp_id
            &&& checked.state_ttl == config.state_ttl
            &&& checked.origin == config.origin || allowed_origin(config.origin, checked.origin)
        },
        finish_assertion_script(
            mode,
            config,
            assertion,
            expected_user_id,
            now_ms,
            replies,
            at,
        ) matches Err(StopModel::Ask(ActionModel::FinishLogin { config: checked, .. })) ==> {
            &&& checked.rp_id == config.rp_id
            &&& checked.state_ttl == config.state_ttl
            &&& checked.origin == config.origin || allowed_origin(config.origin, checked.origin)
        },
{
}

/// The JSON of request options has a member for whatever the options say, with that value, and no
/// member for what they do not say.
pub proof fn law_request_members(options: PublicKeyCredentialRequestOptionsModel)
    ensures
        options.json().get("challenge"@) == Some(JsonModel::Text(options.challenge)),
        options.json().get("rpId"@) == Some(JsonModel::Text(options.rp_id)),
        options.json().get("timeout"@) == timeout_json(options.timeout),
        options.json().get("allowCredentials"@) == match options.allow_credentials {
            Some(list) => Some(descriptors_json(list)),
            None => None,
        },
        options.json().get("userVerification"@) == text_if_some(options.user_verification),
{
    broadcast use {law_set_then_get, law_set_some_then_get};

    reveal_strlit("challenge");
    assert("challenge"@.len() == 9);
    reveal_strlit("rpId");
    assert("rpId"@.len() == 4);
    reveal_strlit("timeout");
    assert("timeout"@.len() == 7);
    reveal_strlit("allowCredentials");
    assert("allowCredentials"@.len() == 16);
    reveal_strlit("userVerification");
    assert("userVerification"@.len() == 16);
    assert("allowCredentials"@[0] != "userVerification"@[0]);
}

/// The JSON of creation options has a member for whatever the options say, with that value, and no
/// member for what they do not say; but the list of excluded credentials is always there.
pub proof fn law_creation_members(options: PublicKeyCredentialCreationOptionsModel)
    ensures
        options.json().get("challenge"@) == Some(JsonModel::Text(options.challenge)),
        options.json().get("excludeCredentials"@) == Some(
            descriptors_json(
                match options.exclude_credentials {
                    Some(list) => list,
                    None => Seq::empty(),
                },
            ),
        ),
        options.json().get("pubKeyCredParams"@) == Some(params_json(options.pub_key_cred_params)),
        options.json().get("timeout"@) == timeout_json(options.timeout),
        options.json().get("authenticatorSelection"@) == match options.authenticator_selection {
            Some(selection) => Some(selection.json()),
            None => None,
        },
        options.json().get("attestation"@) == text_if_some(options.attestation),
        options.json().get("rp"@) matches Some(rp) && {
            &&& rp.get("id"@) == Some(JsonModel::Text(options.rp.id))
            &&& rp.get("name"@) == Some(JsonModel::Text(options.rp.name))
        },
        options.json().get("user"@) matches Some(user) && {
            &&& user.get("id"@) == Some(JsonModel::Text(options.user.id))
            &&& user.get("name"@) == Some(JsonModel::Text(options.user.name))
            &&& user.get("displayName"@) == Some(JsonModel::Text(options.user.display_name))
        },
{
    broadcast use {law_set_then_get, law_set_some_then_get};

    reveal_strlit("challenge");
    assert("challenge"@.len() == 9);
    reveal_strlit("excludeCredentials");
    assert("excludeCredentials"@.len() == 18);
    reveal_strlit("rp");
    assert("rp"@.len() == 2);
    reveal_strlit("user");
    assert("user"@.len() == 4);
    reveal_strlit("pubKeyCredParams");
    assert("pubKeyCredParams"@.len() == 16);
    reveal_strlit("timeout");
    assert("timeout"@.len() == 7);
    reveal_strlit("authenticatorSelection");
    assert("authenticatorSelection"@.len() == 22);
    reveal_strlit("attestation");
    assert("attestation"@.len() == 11);
    reveal_strlit("id");
    assert("id"@.len() == 2);
    reveal_strlit("name");
    assert("name"@.len() == 4);
    reveal_strlit("displayName");
    assert("displayName"@.len() == 11);
}

/// The JSON of a choice of authenticator, and that of a credential, have a member for whatever they
/// say, with that value, and no member for what they do not say.
pub proof fn law_selection_and_descriptor_members(
    selection: AuthenticatorSelectionModel,
    credential: CredentialDescriptorModel,
)
    ensures
        selection.json().get("authenticatorAttachment"@) == text_if_some(
            selection.authenticator_attachment,
        ),
        selection.json().get("requireResidentKey"@) == match selection.require_resident_key {
            Some(value) => Some(JsonModel::Bool(value)),
            None => None,
        },
        selection.json().get("residentKey"@) == text_if_some(selection.resident_key),
        selection.json().get("userVerification"@) == text_if_some(selection.user_verification),
        credential.json().get("type"@) == Some(JsonModel::Text(credential.type_)),
        credential.json().get("id"@) == Some(JsonModel::Text(credential.id)),
        credential.json().get("transports"@) == match credential.transports {
            Some(transports) => Some(JsonModel::texts(transports)),
            None => None,
        },
{
    broadcast use {law_set_then_get, law_set_some_then_get};

    reveal_strlit("authenticatorAttachment");
    assert("authenticatorAttachment"@.len() == 23);
    reveal_strlit("requireResidentKey");
    assert("requireResidentKey"@.len() == 18);
    reveal_strlit("residentKey");
    assert("residentKey"@.len() == 11);
    reveal_strlit("userVerification");
    assert("userVerification"@.len() == 16);
    reveal_strlit("type");
    assert("type"@.len() == 4);
    reveal_strlit("id");
    assert("id"@.len() == 2);
    reveal_strlit("transports");
    assert("transports"@.len() == 10);
}

} // verus!
