//! What clients receive of a ceremony.
use vstd::prelude::*;
use super::{law_new_member_goes_last, lists_texts};
use crate::json::{law_set_some_then_get, law_set_then_get, JsonModel};
use crate::types::{
    AuthenticatorSelection, AuthenticatorSelectionModel, CredentialDescriptor,
    CredentialDescriptorModel, PubKeyCredParam, PubKeyCredParamModel,
    PublicKeyCredentialCreationOptions, PublicKeyCredentialCreationOptionsModel,
    PublicKeyCredentialRequestOptions, PublicKeyCredentialRequestOptionsModel,
};
use crate::webauthn::ceremony::{descriptors_json, params_json, ToBitwardenJson};

verus! {

/// A member with this text, or no member where there is none.
pub open spec fn told(member: Option<JsonModel>, text: Option<Seq<char>>) -> bool {
    match text {
        Some(text) => member == Some(JsonModel::Text(text)),
        None => member is None,
    }
}

/// A member with this number, or no member where there is none.
pub open spec fn told_number(member: Option<JsonModel>, number: Option<u64>) -> bool {
    match number {
        Some(number) => member == Some(JsonModel::Number(number as int)),
        None => member is None,
    }
}

/// A JSON list of these credentials, in this order.
pub open spec fn lists_credentials(
    json: JsonModel,
    credentials: Seq<CredentialDescriptorModel>,
) -> bool {
    &&& json matches JsonModel::List(list)
    &&& list.len() == credentials.len()
    &&& forall|i: int| 0 <= i < credentials.len() ==> #[trigger] list[i] == credentials[i].json()
}

/// A credential is told by its type, its id, and its transports if any are known.
pub proof fn law_credential_document(credential: CredentialDescriptorModel)
    ensures
        credential.json() is Object,
        credential.json().get("type"@) == Some(JsonModel::Text(credential.type_)),
        credential.json().get("id"@) == Some(JsonModel::Text(credential.id)),
        match credential.transports {
            Some(transports) => credential.json().get("transports"@) matches Some(json)
                && lists_texts(json, transports),
            None => credential.json().get("transports"@) is None,
        },
        forall|other: Seq<char>|
            other != "type"@ && other != "id"@
            && other != "transports"@ ==> (#[trigger] credential.json().get(
                other,
            )) is None,
{
    broadcast use {law_set_then_get, law_set_some_then_get};

    reveal_strlit("type");
    assert("type"@.len() == 4);
    reveal_strlit("id");
    assert("id"@.len() == 2);
    reveal_strlit("transports");
    assert("transports"@.len() == 10);
}

/// Lists of credentials and of algorithms are told item by item, in their order.
pub proof fn law_listed_documents(
    credentials: Seq<CredentialDescriptorModel>,
    params: Seq<PubKeyCredParamModel>,
)
    ensures
        lists_credentials(descriptors_json(credentials), credentials),
        params_json(params) matches JsonModel::List(list) && {
            &&& list.len() == params.len()
            &&& forall|i: int| 0 <= i < params.len() ==> #[trigger] list[i] == params[i].json()
        },
{
}

/// An algorithm is told by its type and its number.
pub proof fn law_algorithm_document(param: PubKeyCredParamModel)
    ensures
        param.json() == JsonModel::Object(
            seq![
                ("type"@, JsonModel::Text(param.type_)),
                ("alg"@, JsonModel::Number(param.alg as int)),
            ],
        ),
{
    reveal_strlit("type");
    assert("type"@.len() == 4);
    reveal_strlit("alg");
    assert("alg"@.len() == 3);
    let type_ = ("type"@, JsonModel::Text(param.type_));
    let alg = ("alg"@, JsonModel::Number(param.alg as int));
    law_new_member_goes_last(Seq::empty(), type_, seq![type_]);
    law_new_member_goes_last(seq![type_], alg, seq![type_, alg]);
}

/// The demands on the authenticator are told one by one, as far as there are any.
pub proof fn law_selection_document(selection: AuthenticatorSelectionModel)
    ensures
        selection.json() is Object,
        told(
            selection.json().get("authenticatorAttachment"@),
            selection.authenticator_attachment,
        ),
        match selection.require_resident_key {
            Some(required) => selection.json().get("requireResidentKey"@) == Some(
                JsonModel::Bool(required),
            ),
            None => selection.json().get("requireResidentKey"@) is None,
        },
        told(selection.json().get("residentKey"@), selection.resident_key),
        told(selection.json().get("userVerification"@), selection.user_verification),
        forall|other: Seq<char>|
            other != "authenticatorAttachment"@ && other != "requireResidentKey"@
            && other != "residentKey"@
            && other != "userVerification"@ ==> (#[trigger] selection.json().get(
                other,
            )) is None,
{
    broadcast use {law_set_then_get, law_set_some_then_get};

    reveal_strlit("authenticatorAttachment");
    assert("authenticatorAttachment"@.len() == 23);
    reveal_strlit("requireResidentKey");
    assert("requireResidentKey"@.len() == 18);
    reveal_strlit("residentKey");
    assert("residentKey"@.len() == 11);
    reveal_strlit("userVerification");
    assert("userVerification"@.len() == 16);
}

/// The options of a login are told as they are: what is there is there under its own name, and
/// nothing else is.
pub proof fn law_request_document(options: PublicKeyCredentialRequestOptionsModel)
    ensures
        options.json() is Object,
        options.json().get("challenge"@) == Some(JsonModel::Text(options.challenge)),
        options.json().get("rpId"@) == Some(JsonModel::Text(options.rp_id)),
        told_number(options.json().get("timeout"@), options.timeout),
        match options.allow_credentials {
            Some(credentials) => options.json().get("allowCredentials"@) matches Some(json)
                && lists_credentials(json, credentials),
            None => options.json().get("allowCredentials"@) is None,
        },
        told(options.json().get("userVerification"@), options.user_verification),
        forall|other: Seq<char>|
            other != "challenge"@ && other != "rpId"@
            && other != "timeout"@
            && other != "allowCredentials"@
            && other != "userVerification"@ ==> (#[trigger] options.json().get(
                other,
            )) is None,
{
    broadcast use {law_set_then_get, law_set_some_then_get};

    reveal_strlit("challenge");
    assert("challenge"@.len() == 9);
    reveal_strlit("rpId");
    assert("rpId"@.len() == 4);
    reveal_strlit("timeout");
    assert("timeout"@.len() == 7);
    reveal_strlit("allowCredentials");
    assert("allowCredentials"@.len() == 16);
    reveal_strlit("userVerification");
    assert("userVerification"@.len() == 16);
    assert("allowCredentials"@[0] != "userVerification"@[0]);
}

/// The options of a registration are told as they are: what is there is there under its own name,
/// and nothing else is. Where no credential is excluded, the list of those that are is empty.
pub proof fn law_creation_document(options: PublicKeyCredentialCreationOptionsModel)
    ensures
        options.json() is Object,
        options.json().get("challenge"@) == Some(JsonModel::Text(options.challenge)),
        options.json().get("excludeCredentials"@) matches Some(json) && lists_credentials(
            json,
            match options.exclude_credentials {
                Some(credentials) => credentials,
                None => Seq::empty(),
            },
        ),
        options.json().get("rp"@) == Some(
            JsonModel::Object(
                seq![
                    ("id"@, JsonModel::Text(options.rp.id)),
                    ("name"@, JsonModel::Text(options.rp.name)),
                ],
            ),
        ),
        options.json().get("user"@) == Some(
            JsonModel::Object(
                seq![
                    ("id"@, JsonModel::Text(options.user.id)),
                    ("name"@, JsonModel::Text(options.user.name)),
                    ("displayName"@, JsonModel::Text(options.user.display_name)),
                ],
            ),
        ),
        options.json().get("pubKeyCredParams"@) matches Some(JsonModel::List(list)) && {
            &&& list.len() == options.pub_key_cred_params.len()
            &&& forall|i: int|
                0 <= i < list.len() ==> #[trigger] list[i] == options.pub_key_cred_params[i].json()
        },
        told_number(options.json().get("timeout"@), options.timeout),
        match options.authenticator_selection {
            Some(selection) => options.json().get("authenticatorSelection"@) == Some(
                selection.json(),
            ),
            None => options.json().get("authenticatorSelection"@) is None,
        },
        told(options.json().get("attestation"@), options.attestation),
        forall|other: Seq<char>|
            other != "challenge"@ && other != "excludeCredentials"@
            && other != "rp"@
            && other != "user"@
            && other != "pubKeyCredParams"@
            && other != "timeout"@
            && other != "authenticatorSelection"@
            && other != "attestation"@ ==> (#[trigger] options.json().get(
                other,
            )) is None,
{
    broadcast use {law_set_then_get, law_set_some_then_get};

    reveal_strlit("challenge");
    assert("challenge"@.len() == 9);
    reveal_strlit("excludeCredentials");
    assert("excludeCredentials"@.len() == 18);
    reveal_strlit("rp");
    assert("rp"@.len() == 2);
    reveal_strlit("user");
    assert("user"@.len() == 4);
    reveal_strlit("pubKeyCredParams");
    assert("pubKeyCredParams"@.len() == 16);
    reveal_strlit("timeout");
    assert("timeout"@.len() == 7);
    reveal_strlit("authenticatorSelection");
    assert("authenticatorSelection"@.len() == 22);
    reveal_strlit("attestation");
    assert("attestation"@.len() == 11);
    reveal_strlit("id");
    assert("id"@.len() == 2);
    reveal_strlit("name");
    assert("name"@.len() == 4);
    reveal_strlit("displayName");
    assert("displayName"@.len() == 11);
    assert("rp"@[0] != "id"@[0]);
    assert("user"@[0] != "name"@[0]);
    assert("attestation"@[0] != "displayName"@[0]);
    let id = ("id"@, JsonModel::Text(options.rp.id));
    let name = ("name"@, JsonModel::Text(options.rp.name));
    law_new_member_goes_last(Seq::empty(), id, seq![id]);
    law_new_member_goes_last(seq![id], name, seq![id, name]);
    let id = ("id"@, JsonModel::Text(options.user.id));
    let name = ("name"@, JsonModel::Text(options.user.name));
    let display_name = ("displayName"@, JsonModel::Text(options.user.display_name));
    law_new_member_goes_last(Seq::empty(), id, seq![id]);
    law_new_member_goes_last(seq![id], name, seq![id, name]);
    law_new_member_goes_last(seq![id, name], display_name, seq![id, name, display_name]);
}

/// What a value is told as depends on the value alone: it is the document of its model.
pub proof fn law_documents_of_values(
    credential: CredentialDescriptor,
    param: PubKeyCredParam,
    selection: AuthenticatorSelection,
    creation: PublicKeyCredentialCreationOptions,
    request: PublicKeyCredentialRequestOptions,
)
    ensures
        credential.bitwarden_json() == credential.deep_view().json(),
        param.bitwarden_json() == param.deep_view().json(),
        selection.bitwarden_json() == selection.deep_view().json(),
        creation.bitwarden_json() == creation.deep_view().json(),
        request.bitwarden_json() == request.deep_view().json(),
{
}

} // verus!
