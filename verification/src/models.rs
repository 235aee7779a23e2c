//! Accounts, their second factors, and the requests that concern them.
use vstd::prelude::*;
use crate::text::copy_optional;

verus! {

/// A second factor that counts as one: a provider that the client can be asked for.
#[derive(Debug, Clone, Copy, PartialEq, Eq, Structural)]
pub enum TwoFactorType {
    /// A time-based one-time password.
    Authenticator,
    /// A security key.
    Webauthn,
}

impl TwoFactorType {
    /// The provider number that clients know.
    pub open spec fn number(self) -> i32 {
        match self {
            TwoFactorType::Authenticator => 0,
            TwoFactorType::Webauthn => 7,
        }
    }

    /// The provider number that clients know.
    pub fn as_i32(self) -> (number: i32)
        ensures
            number == self.number(),
    {
        match self {
            TwoFactorType::Authenticator => 0,
            TwoFactorType::Webauthn => 7,
        }
    }
}

/// A row of the `twofactor` table, or the entry that stands for all security keys of an account.
#[derive(Debug)]
pub struct TwoFactor {
    pub uuid: String,
    pub user_uuid: String,
    /// The provider number.
    pub atype: i32,
    pub enabled: bool,
    /// The secret of a time-based one-time password.
    pub data: String,
    /// The last time step that was accepted.
    pub last_used: i64,
}

/// Model of [`TwoFactor`].
pub struct TwoFactorModel {
    pub uuid: Seq<char>,
    pub user_uuid: Seq<char>,
    pub atype: i32,
    pub enabled: bool,
    pub data: Seq<char>,
    pub last_used: i64,
}

impl DeepView for TwoFactor {
    type V = TwoFactorModel;

    open spec fn deep_view(&self) -> TwoFactorModel {
        TwoFactorModel {
            uuid: self.uuid@,
            user_uuid: self.user_uuid@,
            atype: self.atype,
            enabled: self.enabled,
            data: self.data@,
            last_used: self.last_used,
        }
    }
}

impl Clone for TwoFactor {
    fn clone(&self) -> (copy: TwoFactor)
        ensures
            copy.deep_view() == self.deep_view(),
    {
        TwoFactor {
            uuid: self.uuid.clone(),
            user_uuid: self.user_uuid.clone(),
            atype: self.atype,
            enabled: self.enabled,
            data: self.data.clone(),
            last_used: self.last_used,
        }
    }
}

/// What the endpoints read of an account.
#[derive(Debug)]
pub struct User {
    pub name: Option<String>,
    /// The recovery code.
    pub totp_recover: Option<String>,
}

/// Model of [`User`].
pub struct UserModel {
    pub name: Option<Seq<char>>,
    pub totp_recover: Option<Seq<char>>,
}

impl DeepView for User {
    type V = UserModel;

    open spec fn deep_view(&self) -> UserModel {
        UserModel {
            name: self.name.deep_view(),
            totp_recover: self.totp_recover.deep_view(),
        }
    }
}

/// What proves that the caller owns the account.
#[derive(Debug)]
pub struct PasswordOrOtpData {
    pub master_password_hash: Option<String>,
    pub otp: Option<String>,
}

/// Model of [`PasswordOrOtpData`].
pub struct PasswordOrOtpDataModel {
    pub master_password_hash: Option<Seq<char>>,
    pub otp: Option<Seq<char>>,
}

impl DeepView for PasswordOrOtpData {
    type V = PasswordOrOtpDataModel;

    open spec fn deep_view(&self) -> PasswordOrOtpDataModel {
        PasswordOrOtpDataModel {
            master_password_hash: self.master_password_hash.deep_view(),
            otp: self.otp.deep_view(),
        }
    }
}

impl Clone for PasswordOrOtpData {
    fn clone(&self) -> (copy: PasswordOrOtpData)
        ensures
            copy.deep_view() == self.deep_view(),
    {
        PasswordOrOtpData {
            master_password_hash: copy_optional(&self.master_password_hash),
            otp: copy_optional(&self.otp),
        }
    }
}

/// What proves that the caller owns the account, out of the body of a request.
pub fn password_or_otp(master_password_hash: &Option<String>, otp: &Option<String>) -> (data:
    PasswordOrOtpData)
    ensures
        data.deep_view() == (PasswordOrOtpDataModel {
            master_password_hash: master_password_hash.deep_view(),
            otp: otp.deep_view(),
        }),
{
    PasswordOrOtpData {
        master_password_hash: copy_optional(master_password_hash),
        otp: copy_optional(otp),
    }
}

/// The body of a request to turn on one-time passwords.
#[derive(Debug)]
pub struct EnableAuthenticatorData {
    pub key: String,
    pub token: String,
    pub master_password_hash: Option<String>,
    pub otp: Option<String>,
}

/// Model of [`EnableAuthenticatorData`].
pub struct EnableAuthenticatorDataModel {
    pub key: Seq<char>,
    pub token: Seq<char>,
    pub master_password_hash: Option<Seq<char>>,
    pub otp: Option<Seq<char>>,
}

impl EnableAuthenticatorDataModel {
    /// What proves that the caller owns the account.
    pub open spec fn credentials(self) -> PasswordOrOtpDataModel {
        PasswordOrOtpDataModel { master_password_hash: self.master_password_hash, otp: self.otp }
    }
}

impl DeepView for EnableAuthenticatorData {
    type V = EnableAuthenticatorDataModel;

    open spec fn deep_view(&self) -> EnableAuthenticatorDataModel {
        EnableAuthenticatorDataModel {
            key: self.key@,
            token: self.token@,
            master_password_hash: self.master_password_hash.deep_view(),
            otp: self.otp.deep_view(),
        }
    }
}

/// The body of a request to turn off a second factor.
#[derive(Debug)]
pub struct DisableTwoFactorData {
    pub master_password_hash: Option<String>,
    pub otp: Option<String>,
    pub type_: i32,
}

/// Model of [`DisableTwoFactorData`].
pub struct DisableTwoFactorDataModel {
    pub master_password_hash: Option<Seq<char>>,
    pub otp: Option<Seq<char>>,
    pub type_: i32,
}

impl DisableTwoFactorDataModel {
    /// What proves that the caller owns the account.
    pub open spec fn credentials(self) -> PasswordOrOtpDataModel {
        PasswordOrOtpDataModel { master_password_hash: self.master_password_hash, otp: self.otp }
    }
}

impl DeepView for DisableTwoFactorData {
    type V = DisableTwoFactorDataModel;

    open spec fn deep_view(&self) -> DisableTwoFactorDataModel {
        DisableTwoFactorDataModel {
            master_password_hash: self.master_password_hash.deep_view(),
            otp: self.otp.deep_view(),
            type_: self.type_,
        }
    }
}

/// The body of a request to turn off one-time passwords by their key.
#[derive(Debug)]
pub struct DisableAuthenticatorData {
    pub key: String,
    pub master_password_hash: Option<String>,
    pub otp: Option<String>,
    pub type_: i32,
}

/// Model of [`DisableAuthenticatorData`].
pub struct DisableAuthenticatorDataModel {
    pub key: Seq<char>,
    pub master_password_hash: Option<Seq<char>>,
    pub otp: Option<Seq<char>>,
    pub type_: i32,
}

impl DisableAuthenticatorDataModel {
    /// What proves that the caller owns the account.
    pub open spec fn credentials(self) -> PasswordOrOtpDataModel {
        PasswordOrOtpDataModel { master_password_hash: self.master_password_hash, otp: self.otp }
    }
}

impl DeepView for DisableAuthenticatorData {
    type V = DisableAuthenticatorDataModel;

    open spec fn deep_view(&self) -> DisableAuthenticatorDataModel {
        DisableAuthenticatorDataModel {
            key: self.key@,
            master_password_hash: self.master_password_hash.deep_view(),
            otp: self.otp.deep_view(),
            type_: self.type_,
        }
    }
}

/// New key material for one credential, when the account key changes.
#[derive(Debug)]
pub struct WebAuthnRotateKeyData {
    pub id: String,
    pub encrypted_user_key: String,
    pub encrypted_public_key: String,
}

/// Model of [`WebAuthnRotateKeyData`].
pub struct WebAuthnRotateKeyDataModel {
    pub id: Seq<char>,
    pub encrypted_user_key: Seq<char>,
    pub encrypted_public_key: Seq<char>,
}

impl DeepView for WebAuthnRotateKeyData {
    type V = WebAuthnRotateKeyDataModel;

    open spec fn deep_view(&self) -> WebAuthnRotateKeyDataModel {
        WebAuthnRotateKeyDataModel {
            id: self.id@,
            encrypted_user_key: self.encrypted_user_key@,
            encrypted_public_key: self.encrypted_public_key@,
        }
    }
}

} // verus!
