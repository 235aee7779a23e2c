//! The values that a WebAuthn ceremony passes between the server, the passkey protocol and the
//! browser.
use vstd::prelude::*;
use crate::text::{copy_optional, copy_texts};

verus! {

/// Declares `serde_json::Value`: JSON that the server hands on and never looks into.
#[verifier::external_type_specification]
#[verifier::external_body]
pub struct OpaqueJson(serde_json::Value);

/// Specifies `Clone::clone` of `serde_json::Value`: the copy is the same JSON value.
pub assume_specification[ <serde_json::Value as Clone>::clone ](value: &serde_json::Value) -> (copy: serde_json::Value)
    ensures
        copy == *value,
;

/// A copy of the client's extension results.
pub fn copy_extensions(value: &Option<serde_json::Value>) -> (copy: Option<serde_json::Value>)
    ensures
        copy == *value,
{
    match value {
        Some(value) => Some(value.clone()),
        None => None,
    }
}

/// The relying party, as the passkey protocol sees it.
#[derive(Debug)]
pub struct PasskeyConfig {
    /// The host that credentials are bound to.
    pub rp_id: String,
    /// The name that a browser shows.
    pub rp_name: String,
    /// The origin that client data must carry.
    pub origin: String,
    /// How long a ceremony may take, in seconds.
    pub state_ttl: i64,
}

/// Model of [`PasskeyConfig`].
pub struct PasskeyConfigModel {
    pub rp_id: Seq<char>,
    pub rp_name: Seq<char>,
    pub origin: Seq<char>,
    pub state_ttl: i64,
}

impl DeepView for PasskeyConfig {
    type V = PasskeyConfigModel;

    open spec fn deep_view(&self) -> PasskeyConfigModel {
        PasskeyConfigModel {
            rp_id: self.rp_id@,
            rp_name: self.rp_name@,
            origin: self.origin@,
            state_ttl: self.state_ttl,
        }
    }
}

impl Clone for PasskeyConfig {
    fn clone(&self) -> (copy: PasskeyConfig)
        ensures
            copy.deep_view() == self.deep_view(),
    {
        PasskeyConfig {
            rp_id: self.rp_id.clone(),
            rp_name: self.rp_name.clone(),
            origin: self.origin.clone(),
            state_ttl: self.state_ttl,
        }
    }
}

/// A credential, as the passkey protocol reads it.
#[derive(Debug)]
pub struct StoredPasskey {
    pub user_id: String,
    pub cred_id: String,
    pub public_key: String,
    pub name: String,
    pub created_at: i64,
    pub last_used_at: i64,
    pub counter: i64,
}

/// Model of [`StoredPasskey`].
pub struct StoredPasskeyModel {
    pub user_id: Seq<char>,
    pub cred_id: Seq<char>,
    pub public_key: Seq<char>,
    pub name: Seq<char>,
    pub created_at: i64,
    pub last_used_at: i64,
    pub counter: i64,
}

impl DeepView for StoredPasskey {
    type V = StoredPasskeyModel;

    open spec fn deep_view(&self) -> StoredPasskeyModel {
        StoredPasskeyModel {
            user_id: self.user_id@,
            cred_id: self.cred_id@,
            public_key: self.public_key@,
            name: self.name@,
            created_at: self.created_at,
            last_used_at: self.last_used_at,
            counter: self.counter,
        }
    }
}

/// The relying party, as a browser is told of it.
#[derive(Debug)]
pub struct RpEntity {
    pub name: String,
    pub id: String,
}

/// Model of [`RpEntity`].
pub struct RpEntityModel {
    pub name: Seq<char>,
    pub id: Seq<char>,
}

impl DeepView for RpEntity {
    type V = RpEntityModel;

    open spec fn deep_view(&self) -> RpEntityModel {
        RpEntityModel {
            name: self.name@,
            id: self.id@,
        }
    }
}

impl Clone for RpEntity {
    fn clone(&self) -> (copy: RpEntity)
        ensures
            copy.deep_view() == self.deep_view(),
    {
        RpEntity {
            name: self.name.clone(),
            id: self.id.clone(),
        }
    }
}

/// The account that a credential is made for.
#[derive(Debug)]
pub struct UserEntity {
    pub id: String,
    pub name: String,
    pub display_name: String,
}

/// Model of [`UserEntity`].
pub struct UserEntityModel {
    pub id: Seq<char>,
    pub name: Seq<char>,
    pub display_name: Seq<char>,
}

impl DeepView for UserEntity {
    type V = UserEntityModel;

    open spec fn deep_view(&self) -> UserEntityModel {
        UserEntityModel {
            id: self.id@,
            name: self.name@,
            display_name: self.display_name@,
        }
    }
}

impl Clone for UserEntity {
    fn clone(&self) -> (copy: UserEntity)
        ensures
            copy.deep_view() == self.deep_view(),
    {
        UserEntity {
            id: self.id.clone(),
            name: self.name.clone(),
            display_name: self.display_name.clone(),
        }
    }
}

/// A kind of key that the server accepts.
#[derive(Debug)]
pub struct PubKeyCredParam {
    pub type_: String,
    pub alg: i32,
}

/// Model of [`PubKeyCredParam`].
pub struct PubKeyCredParamModel {
    pub type_: Seq<char>,
    pub alg: i32,
}

impl DeepView for PubKeyCredParam {
    type V = PubKeyCredParamModel;

    open spec fn deep_view(&self) -> PubKeyCredParamModel {
        PubKeyCredParamModel {
            type_: self.type_@,
            alg: self.alg,
        }
    }
}

impl Clone for PubKeyCredParam {
    fn clone(&self) -> (copy: PubKeyCredParam)
        ensures
            copy.deep_view() == self.deep_view(),
    {
        PubKeyCredParam {
            type_: self.type_.clone(),
            alg: self.alg,
        }
    }
}

/// A credential that a ceremony names.
#[derive(Debug)]
pub struct CredentialDescriptor {
    pub type_: String,
    pub id: String,
    pub transports: Option<Vec<String>>,
}

/// Model of [`CredentialDescriptor`].
pub struct CredentialDescriptorModel {
    pub type_: Seq<char>,
    pub id: Seq<char>,
    pub transports: Option<Seq<Seq<char>>>,
}

impl DeepView for CredentialDescriptor {
    type V = CredentialDescriptorModel;

    open spec fn deep_view(&self) -> CredentialDescriptorModel {
        CredentialDescriptorModel {
            type_: self.type_@,
            id: self.id@,
            transports: self.transports.deep_view(),
        }
    }
}

impl Clone for CredentialDescriptor {
    fn clone(&self) -> (copy: CredentialDescriptor)
        ensures
            copy.deep_view() == self.deep_view(),
    {
        CredentialDescriptor {
            type_: self.type_.clone(),
            id: self.id.clone(),
            transports: (match &self.transports {
                Some(value) => Some(copy_texts(value)),
                None => None,
            }),
        }
    }
}

/// What the server asks of an authenticator.
#[derive(Debug)]
pub struct AuthenticatorSelection {
    pub authenticator_attachment: Option<String>,
    pub require_resident_key: Option<bool>,
    pub resident_key: Option<String>,
    pub user_verification: Option<String>,
}

/// Model of [`AuthenticatorSelection`].
pub struct AuthenticatorSelectionModel {
    pub authenticator_attachment: Option<Seq<char>>,
    pub require_resident_key: Option<bool>,
    pub resident_key: Option<Seq<char>>,
    pub user_verification: Option<Seq<char>>,
}

impl DeepView for AuthenticatorSelection {
    type V = AuthenticatorSelectionModel;

    open spec fn deep_view(&self) -> AuthenticatorSelectionModel {
        AuthenticatorSelectionModel {
            authenticator_attachment: self.authenticator_attachment.deep_view(),
            require_resident_key: self.require_resident_key.deep_view(),
            resident_key: self.resident_key.deep_view(),
            user_verification: self.user_verification.deep_view(),
        }
    }
}

impl Clone for AuthenticatorSelection {
    fn clone(&self) -> (copy: AuthenticatorSelection)
        ensures
            copy.deep_view() == self.deep_view(),
    {
        AuthenticatorSelection {
            authenticator_attachment: copy_optional(&self.authenticator_attachment),
            require_resident_key: self.require_resident_key,
            resident_key: copy_optional(&self.resident_key),
            user_verification: copy_optional(&self.user_verification),
        }
    }
}

/// The options for making a credential.
#[derive(Debug)]
pub struct PublicKeyCredentialCreationOptions {
    pub rp: RpEntity,
    pub user: UserEntity,
    pub challenge: String,
    pub pub_key_cred_params: Vec<PubKeyCredParam>,
    pub timeout: Option<u64>,
    pub exclude_credentials: Option<Vec<CredentialDescriptor>>,
    pub authenticator_selection: Option<AuthenticatorSelection>,
    pub attestation: Option<String>,
}

/// Model of [`PublicKeyCredentialCreationOptions`].
pub struct PublicKeyCredentialCreationOptionsModel {
    pub rp: RpEntityModel,
    pub user: UserEntityModel,
    pub challenge: Seq<char>,
    pub pub_key_cred_params: Seq<PubKeyCredParamModel>,
    pub timeout: Option<u64>,
    pub exclude_credentials: Option<Seq<CredentialDescriptorModel>>,
    pub authenticator_selection: Option<AuthenticatorSelectionModel>,
    pub attestation: Option<Seq<char>>,
}

impl DeepView for PublicKeyCredentialCreationOptions {
    type V = PublicKeyCredentialCreationOptionsModel;

    open spec fn deep_view(&self) -> PublicKeyCredentialCreationOptionsModel {
        PublicKeyCredentialCreationOptionsModel {
            rp: self.rp.deep_view(),
            user: self.user.deep_view(),
            challenge: self.challenge@,
            pub_key_cred_params: self.pub_key_cred_params.deep_view(),
            timeout: self.timeout.deep_view(),
            exclude_credentials: self.exclude_credentials.deep_view(),
            authenticator_selection: self.authenticator_selection.deep_view(),
            attestation: self.attestation.deep_view(),
        }
    }
}

impl Clone for PublicKeyCredentialCreationOptions {
    fn clone(&self) -> (copy: PublicKeyCredentialCreationOptions)
        ensures
            copy.deep_view() == self.deep_view(),
    {
        PublicKeyCredentialCreationOptions {
            rp: self.rp.clone(),
            user: self.user.clone(),
            challenge: self.challenge.clone(),
            pub_key_cred_params: copy_params(&self.pub_key_cred_params),
            timeout: self.timeout,
            exclude_credentials: (match &self.exclude_credentials {
                Some(value) => Some(copy_descriptors(value)),
                None => None,
            }),
            authenticator_selection: (match &self.authenticator_selection {
                Some(value) => Some(value.clone()),
                None => None,
            }),
            attestation: copy_optional(&self.attestation),
        }
    }
}

/// The options for using a credential.
#[derive(Debug)]
pub struct PublicKeyCredentialRequestOptions {
    pub challenge: String,
    pub timeout: Option<u64>,
    pub rp_id: String,
    pub allow_credentials: Option<Vec<CredentialDescriptor>>,
    pub user_verification: Option<String>,
}

/// Model of [`PublicKeyCredentialRequestOptions`].
pub struct PublicKeyCredentialRequestOptionsModel {
    pub challenge: Seq<char>,
    pub timeout: Option<u64>,
    pub rp_id: Seq<char>,
    pub allow_credentials: Option<Seq<CredentialDescriptorModel>>,
    pub user_verification: Option<Seq<char>>,
}

impl DeepView for PublicKeyCredentialRequestOptions {
    type V = PublicKeyCredentialRequestOptionsModel;

    open spec fn deep_view(&self) -> PublicKeyCredentialRequestOptionsModel {
        PublicKeyCredentialRequestOptionsModel {
            challenge: self.challenge@,
            timeout: self.timeout.deep_view(),
            rp_id: self.rp_id@,
            allow_credentials: self.allow_credentials.deep_view(),
            user_verification: self.user_verification.deep_view(),
        }
    }
}

impl Clone for PublicKeyCredentialRequestOptions {
    fn clone(&self) -> (copy: PublicKeyCredentialRequestOptions)
        ensures
            copy.deep_view() == self.deep_view(),
    {
        PublicKeyCredentialRequestOptions {
            challenge: self.challenge.clone(),
            timeout: self.timeout,
            rp_id: self.rp_id.clone(),
            allow_credentials: (match &self.allow_credentials {
                Some(value) => Some(copy_descriptors(value)),
                None => None,
            }),
            user_verification: copy_optional(&self.user_verification),
        }
    }
}

/// What an authenticator answers when it made a credential.
#[derive(Debug)]
pub struct AttestationResponse {
    pub client_data_json: String,
    pub attestation_object: String,
}

/// Model of [`AttestationResponse`].
pub struct AttestationResponseModel {
    pub client_data_json: Seq<char>,
    pub attestation_object: Seq<char>,
}

impl DeepView for AttestationResponse {
    type V = AttestationResponseModel;

    open spec fn deep_view(&self) -> AttestationResponseModel {
        AttestationResponseModel {
            client_data_json: self.client_data_json@,
            attestation_object: self.attestation_object@,
        }
    }
}

/// The answer of a browser to [`PublicKeyCredentialCreationOptions`].
#[derive(Debug)]
pub struct RegistrationResponse {
    pub id: String,
    pub raw_id: String,
    pub type_: String,
    pub response: AttestationResponse,
    pub client_extension_results: Option<serde_json::Value>,
    pub name: Option<String>,
}

/// Model of [`RegistrationResponse`].
pub struct RegistrationResponseModel {
    pub id: Seq<char>,
    pub raw_id: Seq<char>,
    pub type_: Seq<char>,
    pub response: AttestationResponseModel,
    pub client_extension_results: Option<serde_json::Value>,
    pub name: Option<Seq<char>>,
}

impl DeepView for RegistrationResponse {
    type V = RegistrationResponseModel;

    open spec fn deep_view(&self) -> RegistrationResponseModel {
        RegistrationResponseModel {
            id: self.id@,
            raw_id: self.raw_id@,
            type_: self.type_@,
            response: self.response.deep_view(),
            client_extension_results: self.client_extension_results,
            name: self.name.deep_view(),
        }
    }
}

/// What an authenticator answers when it used a credential.
#[derive(Debug)]
pub struct AssertionResponse {
    pub client_data_json: String,
    pub authenticator_data: String,
    pub signature: String,
    pub user_handle: Option<String>,
}

/// Model of [`AssertionResponse`].
pub struct AssertionResponseModel {
    pub client_data_json: Seq<char>,
    pub authenticator_data: Seq<char>,
    pub signature: Seq<char>,
    pub user_handle: Option<Seq<char>>,
}

impl DeepView for AssertionResponse {
    type V = AssertionResponseModel;

    open spec fn deep_view(&self) -> AssertionResponseModel {
        AssertionResponseModel {
            client_data_json: self.client_data_json@,
            authenticator_data: self.authenticator_data@,
            signature: self.signature@,
            user_handle: self.user_handle.deep_view(),
        }
    }
}

/// The answer of a browser to [`PublicKeyCredentialRequestOptions`].
#[derive(Debug)]
pub struct LoginResponse {
    pub id: String,
    pub raw_id: String,
    pub type_: String,
    pub response: AssertionResponse,
    pub client_extension_results: Option<serde_json::Value>,
}

/// Model of [`LoginResponse`].
pub struct LoginResponseModel {
    pub id: Seq<char>,
    pub raw_id: Seq<char>,
    pub type_: Seq<char>,
    pub response: AssertionResponseModel,
    pub client_extension_results: Option<serde_json::Value>,
}

impl DeepView for LoginResponse {
    type V = LoginResponseModel;

    open spec fn deep_view(&self) -> LoginResponseModel {
        LoginResponseModel {
            id: self.id@,
            raw_id: self.raw_id@,
            type_: self.type_@,
            response: self.response.deep_view(),
            client_extension_results: self.client_extension_results,
        }
    }
}

/// A copy of a list of key parameters.
fn copy_params(list: &Vec<PubKeyCredParam>) -> (copy: Vec<PubKeyCredParam>)
    ensures
        copy.deep_view() == list.deep_view(),
{
    let mut copy: Vec<PubKeyCredParam> = Vec::new();
    for i in 0..list.len()
        invariant
            copy@.len() == i,
            forall|j: int| 0 <= j < i ==> (#[trigger] copy@[j]).deep_view() == list@[j].deep_view(),
    {
        copy.push(list[i].clone());
    }
    assert(copy.deep_view() =~= list.deep_view());
    copy
}

/// A copy of a list of descriptors.
fn copy_descriptors(list: &Vec<CredentialDescriptor>) -> (copy: Vec<CredentialDescriptor>)
    ensures
        copy.deep_view() == list.deep_view(),
{
    let mut copy: Vec<CredentialDescriptor> = Vec::new();
    for i in 0..list.len()
        invariant
            copy@.len() == i,
            forall|j: int| 0 <= j < i ==> (#[trigger] copy@[j]).deep_view() == list@[j].deep_view(),
    {
        copy.push(list[i].clone());
    }
    assert(copy.deep_view() =~= list.deep_view());
    copy
}

} // verus!
