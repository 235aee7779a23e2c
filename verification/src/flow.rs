//! Endpoints as resumable procedures.
//!
//! A procedure takes the replies that its actions have had so far and says what comes next: an
//! action for the caller to perform, whose reply it then puts behind the others, or the end. It
//! reads replies in order, from the place it is told to start at; one that it gets through hands
//! on the place after the last reply it read. Nothing is kept between calls, so one list of
//! replies always leads to one answer.
use vstd::prelude::*;
use crate::error::{outcome, AppError, AppErrorModel};
use crate::json::{Json, JsonModel};
use crate::models::{
    PasswordOrOtpData, PasswordOrOtpDataModel, TwoFactor, TwoFactorModel, TwoFactorType, User,
    UserModel,
};
use crate::sql::{DbError, DbErrorModel, Statement, StatementModel};
use crate::types::{
    LoginResponse, LoginResponseModel, PasskeyConfig, PasskeyConfigModel,
    PublicKeyCredentialCreationOptions, PublicKeyCredentialCreationOptionsModel,
    PublicKeyCredentialRequestOptions, PublicKeyCredentialRequestOptionsModel,
    RegistrationResponse, RegistrationResponseModel,
};
use crate::webauthn::compat::{
    AssertionPayload, AssertionPayloadModel, RegistrationPayload, RegistrationPayloadModel,
};
use crate::webauthn::prf::{LoginCredentialWithPrf, LoginCredentialWithPrfModel};
use crate::webauthn::store::{
    StoreMode, StoreModeModel, WebauthnCredentialRow, WebauthnCredentialRowModel,
};

verus! {

/// What the rows of a query are.
#[derive(Debug, Clone, Copy, PartialEq, Eq, Structural)]
pub enum Rows {
    /// At most one second factor.
    TwoFactor,
    /// At most one row; only whether there is one counts.
    Presence,
    /// At most one recovery code.
    RecoveryCode,
    /// At most one row id of a login passkey.
    LoginRowId,
    /// At most one login passkey with its PRF keys.
    LoginCredential,
    /// Login passkeys with their PRF keys.
    LoginCredentials,
    /// Security keys.
    SecurityKeys,
}

/// Something that a procedure needs done.
#[derive(Debug)]
pub enum Action {
    /// Find the account with this id.
    FindUser { user_id: String },
    /// Check the password or one-time code of the account that was found.
    VerifyUser { data: PasswordOrOtpData },
    /// Decode base32.
    DecodeBase32 { text: String },
    /// Check a time-based one-time password of a time step after `last_used`.
    ValidateTotp { token: String, key: String, last_used: i64 },
    /// Make a secret for time-based one-time passwords.
    GenerateTotpSecret,
    /// Make a recovery code.
    GenerateRecoveryCode,
    /// Make a second factor.
    NewTwoFactor { user_id: String, type_: TwoFactorType, secret: String },
    /// Compare two secrets in constant time.
    CompareSecrets { stored: String, given: String },
    /// Describe second factors to a client, one JSON value for each.
    DescribeProviders { providers: Vec<TwoFactor> },
    /// Run a statement.
    Execute { statement: Statement },
    /// Run statements in one batch.
    ExecuteAll { statements: Vec<Statement> },
    /// Run a query and read its rows.
    Fetch { statement: Statement, rows: Rows },
    /// Run two queries in one batch: second factors, and whether there are security keys.
    FetchTwoFactors { twofactors: Statement, security_keys: Statement },
    /// Read the time in milliseconds.
    ReadClock,
    /// Read the members of an answer to a registration.
    ParseRegistration { body: serde_json::Value },
    /// Read the members of an answer to an assertion.
    ParseAssertion { body: serde_json::Value },
    /// Read the origin in client data, which is JSON.
    ReadOrigin { client_data: Vec<u8> },
    /// Start a registration of the passkey protocol over a store of this mode.
    StartRegistration {
        mode: StoreMode,
        user_id: String,
        username: String,
        display_name: String,
        config: PasskeyConfig,
        now_ms: i64,
    },
    /// Finish a registration of the passkey protocol over a store of this mode.
    FinishRegistration {
        mode: StoreMode,
        user_id: String,
        config: PasskeyConfig,
        attestation: RegistrationResponse,
        now_ms: i64,
    },
    /// Start an assertion of the passkey protocol over a store of this mode.
    StartLogin { mode: StoreMode, config: PasskeyConfig, now_ms: i64 },
    /// Finish an assertion of the passkey protocol over a store of this mode.
    FinishLogin { mode: StoreMode, config: PasskeyConfig, assertion: LoginResponse, now_ms: i64 },
}

/// Model of [`Action`].
pub enum ActionModel {
    FindUser { user_id: Seq<char> },
    VerifyUser { data: PasswordOrOtpDataModel },
    DecodeBase32 { text: Seq<char> },
    ValidateTotp { token: Seq<char>, key: Seq<char>, last_used: i64 },
    GenerateTotpSecret,
    GenerateRecoveryCode,
    NewTwoFactor { user_id: Seq<char>, type_: TwoFactorType, secret: Seq<char> },
    CompareSecrets { stored: Seq<char>, given: Seq<char> },
    DescribeProviders { providers: Seq<TwoFactorModel> },
    Execute { statement: StatementModel },
    ExecuteAll { statements: Seq<StatementModel> },
    Fetch { statement: StatementModel, rows: Rows },
    FetchTwoFactors { twofactors: StatementModel, security_keys: StatementModel },
    ReadClock,
    ParseRegistration { body: serde_json::Value },
    ParseAssertion { body: serde_json::Value },
    ReadOrigin { client_data: Seq<u8> },
    StartRegistration {
        mode: StoreModeModel,
        user_id: Seq<char>,
        username: Seq<char>,
        display_name: Seq<char>,
        config: PasskeyConfigModel,
        now_ms: i64,
    },
    FinishRegistration {
        mode: StoreModeModel,
        user_id: Seq<char>,
        config: PasskeyConfigModel,
        attestation: RegistrationResponseModel,
        now_ms: i64,
    },
    StartLogin { mode: StoreModeModel, config: PasskeyConfigModel, now_ms: i64 },
    FinishLogin {
        mode: StoreModeModel,
        config: PasskeyConfigModel,
        assertion: LoginResponseModel,
        now_ms: i64,
    },
}

impl DeepView for Action {
    type V = ActionModel;

    open spec fn deep_view(&self) -> ActionModel {
        match self {
            Action::FindUser { user_id } => ActionModel::FindUser {
                user_id: user_id@,
            },
            Action::VerifyUser { data } => ActionModel::VerifyUser {
                data: data.deep_view(),
            },
            Action::DecodeBase32 { text } => ActionModel::DecodeBase32 {
                text: text@,
            },
            Action::ValidateTotp { token, key, last_used } => ActionModel::ValidateTotp {
                token: token@,
                key: key@,
                last_used: *last_used,
            },
            Action::GenerateTotpSecret => ActionModel::GenerateTotpSecret,
            Action::GenerateRecoveryCode => ActionModel::GenerateRecoveryCode,
            Action::NewTwoFactor { user_id, type_, secret } => ActionModel::NewTwoFactor {
                user_id: user_id@,
                type_: *type_,
                secret: secret@,
            },
            Action::CompareSecrets { stored, given } => ActionModel::CompareSecrets {
                stored: stored@,
                given: given@,
            },
            Action::DescribeProviders { providers } => ActionModel::DescribeProviders {
                providers: providers.deep_view(),
            },
            Action::Execute { statement } => ActionModel::Execute {
                statement: statement.deep_view(),
            },
            Action::ExecuteAll { statements } => ActionModel::ExecuteAll {
                statements: statements.deep_view(),
            },
            Action::Fetch { statement, rows } => ActionModel::Fetch {
                statement: statement.deep_view(),
                rows: *rows,
            },
            Action::FetchTwoFactors { twofactors, security_keys } => ActionModel::FetchTwoFactors {
                twofactors: twofactors.deep_view(),
                security_keys: security_keys.deep_view(),
            },
            Action::ReadClock => ActionModel::ReadClock,
            Action::ParseRegistration { body } => ActionModel::ParseRegistration {
                body: *body,
            },
            Action::ParseAssertion { body } => ActionModel::ParseAssertion {
                body: *body,
            },
            Action::ReadOrigin { client_data } => ActionModel::ReadOrigin {
                client_data: client_data@,
            },
            Action::StartRegistration {
                mode,
                user_id,
                username,
                display_name,
                config,
                now_ms,
            } => ActionModel::StartRegistration {
                mode: mode.deep_view(),
                user_id: user_id@,
                username: username@,
                display_name: display_name@,
                config: config.deep_view(),
                now_ms: *now_ms,
            },
            Action::FinishRegistration {
                mode,
                user_id,
                config,
                attestation,
                now_ms,
            } => ActionModel::FinishRegistration {
                mode: mode.deep_view(),
                user_id: user_id@,
                config: config.deep_view(),
                attestation: attestation.deep_view(),
                now_ms: *now_ms,
            },
            Action::StartLogin { mode, config, now_ms } => ActionModel::StartLogin {
                mode: mode.deep_view(),
                config: config.deep_view(),
                now_ms: *now_ms,
            },
            Action::FinishLogin { mode, config, assertion, now_ms } => ActionModel::FinishLogin {
                mode: mode.deep_view(),
                config: config.deep_view(),
                assertion: assertion.deep_view(),
                now_ms: *now_ms,
            },
        }
    }
}

/// What came of an action.
#[derive(Debug)]
pub enum Reply {
    /// To `FindUser`.
    User(Result<User, AppError>),
    /// To `VerifyUser`.
    Verified(Result<(), AppError>),
    /// To `DecodeBase32`.
    Decoded(Result<Vec<u8>, AppError>),
    /// To `ValidateTotp`: the time step that the password is for.
    TimeStep(Result<i64, AppError>),
    /// To `GenerateTotpSecret` and `GenerateRecoveryCode`.
    Generated(Result<String, AppError>),
    /// To `NewTwoFactor`.
    NewTwoFactor(TwoFactor),
    /// To `CompareSecrets`.
    Same(bool),
    /// To `DescribeProviders`.
    Providers(Vec<Json>),
    /// To `Execute` and `ExecuteAll`: whether the database says that it changed, if it says so.
    Executed(Result<Option<bool>, DbError>),
    /// To `Fetch` of [`Rows::TwoFactor`].
    TwoFactor(Result<Option<TwoFactor>, DbError>),
    /// To `Fetch` of [`Rows::Presence`].
    Presence(Result<bool, DbError>),
    /// To `Fetch` of [`Rows::RecoveryCode`]: the row, and the code in it.
    RecoveryCode(Result<Option<Option<String>>, DbError>),
    /// To `Fetch` of [`Rows::LoginRowId`].
    LoginRowId(Result<Option<String>, DbError>),
    /// To `Fetch` of [`Rows::LoginCredential`].
    LoginCredential(Result<Option<LoginCredentialWithPrf>, DbError>),
    /// To `Fetch` of [`Rows::LoginCredentials`].
    LoginCredentials(Result<Vec<LoginCredentialWithPrf>, DbError>),
    /// To `Fetch` of [`Rows::SecurityKeys`].
    SecurityKeys(Result<Vec<WebauthnCredentialRow>, DbError>),
    /// To `FetchTwoFactors`: the second factors, and how many rows tell of security keys.
    TwoFactors(Result<(Vec<TwoFactor>, usize), DbError>),
    /// To `ReadClock`.
    Time(i64),
    /// To `ParseRegistration`.
    Registration(Result<RegistrationPayload, String>),
    /// To `ParseAssertion`.
    Assertion(Result<AssertionPayload, String>),
    /// To `ReadOrigin`: the origin, if the client data has one.
    Origin(Option<String>),
    /// To `StartRegistration`.
    RegistrationStarted(Result<PublicKeyCredentialCreationOptions, String>),
    /// To `FinishRegistration`.
    RegistrationFinished(Result<(), String>),
    /// To `StartLogin`.
    LoginStarted(Result<PublicKeyCredentialRequestOptions, String>),
    /// To `FinishLogin`: the id of the user who owns the credential.
    LoginFinished(Result<String, String>),
}

/// Model of [`Reply`].
pub enum ReplyModel {
    User(Result<UserModel, AppErrorModel>),
    Verified(Result<(), AppErrorModel>),
    Decoded(Result<Seq<u8>, AppErrorModel>),
    TimeStep(Result<i64, AppErrorModel>),
    Generated(Result<Seq<char>, AppErrorModel>),
    NewTwoFactor(TwoFactorModel),
    Same(bool),
    Providers(Seq<JsonModel>),
    Executed(Result<Option<bool>, DbErrorModel>),
    TwoFactor(Result<Option<TwoFactorModel>, DbErrorModel>),
    Presence(Result<bool, DbErrorModel>),
    RecoveryCode(Result<Option<Option<Seq<char>>>, DbErrorModel>),
    LoginRowId(Result<Option<Seq<char>>, DbErrorModel>),
    LoginCredential(Result<Option<LoginCredentialWithPrfModel>, DbErrorModel>),
    LoginCredentials(Result<Seq<LoginCredentialWithPrfModel>, DbErrorModel>),
    SecurityKeys(Result<Seq<WebauthnCredentialRowModel>, DbErrorModel>),
    TwoFactors(Result<(Seq<TwoFactorModel>, usize), DbErrorModel>),
    Time(i64),
    Registration(Result<RegistrationPayloadModel, Seq<char>>),
    Assertion(Result<AssertionPayloadModel, Seq<char>>),
    Origin(Option<Seq<char>>),
    RegistrationStarted(Result<PublicKeyCredentialCreationOptionsModel, Seq<char>>),
    RegistrationFinished(Result<(), Seq<char>>),
    LoginStarted(Result<PublicKeyCredentialRequestOptionsModel, Seq<char>>),
    LoginFinished(Result<Seq<char>, Seq<char>>),
}

impl DeepView for Reply {
    type V = ReplyModel;

    open spec fn deep_view(&self) -> ReplyModel {
        match self {
            Reply::User(value) => ReplyModel::User(outcome(*value)),
            Reply::Verified(value) => ReplyModel::Verified(outcome(*value)),
            Reply::Decoded(value) => ReplyModel::Decoded(outcome(*value)),
            Reply::TimeStep(value) => ReplyModel::TimeStep(outcome(*value)),
            Reply::Generated(value) => ReplyModel::Generated(outcome(*value)),
            Reply::NewTwoFactor(value) => ReplyModel::NewTwoFactor(value.deep_view()),
            Reply::Same(value) => ReplyModel::Same(*value),
            Reply::Providers(value) => ReplyModel::Providers(value.deep_view()),
            Reply::Executed(value) => ReplyModel::Executed(outcome(*value)),
            Reply::TwoFactor(value) => ReplyModel::TwoFactor(outcome(*value)),
            Reply::Presence(value) => ReplyModel::Presence(outcome(*value)),
            Reply::RecoveryCode(value) => ReplyModel::RecoveryCode(outcome(*value)),
            Reply::LoginRowId(value) => ReplyModel::LoginRowId(outcome(*value)),
            Reply::LoginCredential(value) => ReplyModel::LoginCredential(outcome(*value)),
            Reply::LoginCredentials(value) => ReplyModel::LoginCredentials(outcome(*value)),
            Reply::SecurityKeys(value) => ReplyModel::SecurityKeys(outcome(*value)),
            Reply::TwoFactors(value) => ReplyModel::TwoFactors(outcome(*value)),
            Reply::Time(value) => ReplyModel::Time(*value),
            Reply::Registration(value) => ReplyModel::Registration(outcome(*value)),
            Reply::Assertion(value) => ReplyModel::Assertion(outcome(*value)),
            Reply::Origin(value) => ReplyModel::Origin(value.deep_view()),
            Reply::RegistrationStarted(value) => ReplyModel::RegistrationStarted(outcome(*value)),
            Reply::RegistrationFinished(value) => ReplyModel::RegistrationFinished(outcome(*value)),
            Reply::LoginStarted(value) => ReplyModel::LoginStarted(outcome(*value)),
            Reply::LoginFinished(value) => ReplyModel::LoginFinished(outcome(*value)),
        }
    }
}

/// Why a procedure did not get through.
#[derive(Debug)]
pub enum Stop {
    /// It needs this done first.
    Ask(Action),
    /// It failed.
    Fail(AppError),
    /// A reply does not belong to the action that it is the reply to.
    Unexpected,
}

/// Model of [`Stop`].
pub enum StopModel {
    Ask(ActionModel),
    Fail(AppErrorModel),
    Unexpected,
}

impl DeepView for Stop {
    type V = StopModel;

    open spec fn deep_view(&self) -> StopModel {
        match self {
            Stop::Ask(value) => StopModel::Ask(value.deep_view()),
            Stop::Fail(value) => StopModel::Fail(value.deep_view()),
            Stop::Unexpected => StopModel::Unexpected,
        }
    }
}

/// A procedure that got through with a value, and the place of the first reply it did not read; or
/// that stopped.
pub type Progress<T> = Result<(T, usize), Stop>;

/// Model of [`Progress`].
pub type ProgressModel<T> = Result<(T, int), StopModel>;

/// The model of how far a procedure got.
pub open spec fn progress<T: DeepView>(result: Progress<T>) -> ProgressModel<T::V> {
    match result {
        Ok((value, at)) => Ok((value.deep_view(), at as int)),
        Err(stop) => Err(stop.deep_view()),
    }
}

/// `first`, and with its value what `rest` does from there.
pub open spec fn chain<T, U>(
    first: ProgressModel<T>,
    rest: spec_fn(T, int) -> ProgressModel<U>,
) -> ProgressModel<U> {
    match first {
        Ok((value, at)) => rest(value, at),
        Err(stop) => Err(stop),
    }
}

/// The reply at `at`, as far as it is there: the action until it is, and then what `read` makes of
/// it. A reply of the wrong kind is one that `read` makes nothing of.
pub open spec fn ask<T>(
    action: ActionModel,
    replies: Seq<ReplyModel>,
    at: int,
    read: spec_fn(ReplyModel) -> Option<Result<T, AppErrorModel>>,
) -> ProgressModel<T> {
    if at >= replies.len() {
        Err(StopModel::Ask(action))
    } else {
        match read(replies[at]) {
            Some(Ok(value)) => Ok((value, at + 1)),
            Some(Err(error)) => Err(StopModel::Fail(error)),
            None => Err(StopModel::Unexpected),
        }
    }
}

/// Whether `reply` is of the kind that `action` calls for.
pub open spec fn answers(action: ActionModel, reply: ReplyModel) -> bool {
    match action {
        ActionModel::FindUser { .. } => reply is User,
        ActionModel::VerifyUser { .. } => reply is Verified,
        ActionModel::DecodeBase32 { .. } => reply is Decoded,
        ActionModel::ValidateTotp { .. } => reply is TimeStep,
        ActionModel::GenerateTotpSecret | ActionModel::GenerateRecoveryCode => reply is Generated,
        ActionModel::NewTwoFactor { .. } => reply is NewTwoFactor,
        ActionModel::CompareSecrets { .. } => reply is Same,
        ActionModel::DescribeProviders { .. } => reply is Providers,
        ActionModel::Execute { .. } | ActionModel::ExecuteAll { .. } => reply is Executed,
        ActionModel::Fetch { rows, .. } => match rows {
            Rows::TwoFactor => reply is TwoFactor,
            Rows::Presence => reply is Presence,
            Rows::RecoveryCode => reply is RecoveryCode,
            Rows::LoginRowId => reply is LoginRowId,
            Rows::LoginCredential => reply is LoginCredential,
            Rows::LoginCredentials => reply is LoginCredentials,
            Rows::SecurityKeys => reply is SecurityKeys,
        },
        ActionModel::FetchTwoFactors { .. } => reply is TwoFactors,
        ActionModel::ReadClock => reply is Time,
        ActionModel::ParseRegistration { .. } => reply is Registration,
        ActionModel::ParseAssertion { .. } => reply is Assertion,
        ActionModel::ReadOrigin { .. } => reply is Origin,
        ActionModel::StartRegistration { .. } => reply is RegistrationStarted,
        ActionModel::FinishRegistration { .. } => reply is RegistrationFinished,
        ActionModel::StartLogin { .. } => reply is LoginStarted,
        ActionModel::FinishLogin { .. } => reply is LoginFinished,
    }
}

/// Whether a reply says that its action failed.
pub open spec fn failed(reply: ReplyModel) -> bool {
    match reply {
        ReplyModel::User(result) => result is Err,
        ReplyModel::Verified(result) => result is Err,
        ReplyModel::Decoded(result) => result is Err,
        ReplyModel::TimeStep(result) => result is Err,
        ReplyModel::Generated(result) => result is Err,
        ReplyModel::Executed(result) => result is Err,
        ReplyModel::TwoFactor(result) => result is Err,
        ReplyModel::Presence(result) => result is Err,
        ReplyModel::RecoveryCode(result) => result is Err,
        ReplyModel::LoginRowId(result) => result is Err,
        ReplyModel::LoginCredential(result) => result is Err,
        ReplyModel::LoginCredentials(result) => result is Err,
        ReplyModel::SecurityKeys(result) => result is Err,
        ReplyModel::TwoFactors(result) => result is Err,
        ReplyModel::Registration(result) => result is Err,
        ReplyModel::Assertion(result) => result is Err,
        ReplyModel::RegistrationStarted(result) => result is Err,
        ReplyModel::RegistrationFinished(result) => result is Err,
        ReplyModel::LoginStarted(result) => result is Err,
        ReplyModel::LoginFinished(result) => result is Err,
        _ => false,
    }
}

/// What the database said, or the error that the endpoint answers.
pub open spec fn answered<T>(result: Result<T, DbErrorModel>, malformed: AppErrorModel) -> Result<
    T,
    AppErrorModel,
> {
    match result {
        Ok(value) => Ok(value),
        Err(error) => Err(error.answer(malformed)),
    }
}

/// The account with an id.
pub open spec fn find_user_script(
    user_id: Seq<char>,
    replies: Seq<ReplyModel>,
    at: int,
) -> ProgressModel<UserModel> {
    ask(
        ActionModel::FindUser { user_id },
        replies,
        at,
        |reply: ReplyModel|
            match reply {
                ReplyModel::User(value) => Some(value),
                _ => None,
            },
    )
}

/// The account with an id.
pub fn find_user<'a>(
    user_id: &str,
    replies: &'a Vec<Reply>,
    at: usize,
) -> (result: Progress<&'a User>)
    ensures
        progress(result) == find_user_script(
            user_id@,
            replies.deep_view(),
            at as int,
        ),
{
    if at >= replies.len() {
        return Err(Stop::Ask(Action::FindUser { user_id: user_id.to_string() }));
    }
    match &replies[at] {
        Reply::User(Ok(value)) => Ok((value, at + 1)),
        Reply::User(Err(error)) => Err(Stop::Fail(error.clone())),
        _ => Err(Stop::Unexpected),
    }
}

/// Whether the password or one-time code of the account that was found is right.
pub open spec fn verify_user_script(
    data: PasswordOrOtpDataModel,
    replies: Seq<ReplyModel>,
    at: int,
) -> ProgressModel<()> {
    ask(
        ActionModel::VerifyUser { data },
        replies,
        at,
        |reply: ReplyModel|
            match reply {
                ReplyModel::Verified(value) => Some(value),
                _ => None,
            },
    )
}

/// Whether the password or one-time code of the account that was found is right.
pub fn verify_user<'a>(
    data: &PasswordOrOtpData,
    replies: &'a Vec<Reply>,
    at: usize,
) -> (result: Progress<()>)
    ensures
        progress(result) == verify_user_script(
            data.deep_view(),
            replies.deep_view(),
            at as int,
        ),
{
    if at >= replies.len() {
        return Err(Stop::Ask(Action::VerifyUser { data: data.clone() }));
    }
    match &replies[at] {
        Reply::Verified(Ok(_)) => Ok(((), at + 1)),
        Reply::Verified(Err(error)) => Err(Stop::Fail(error.clone())),
        _ => Err(Stop::Unexpected),
    }
}

/// The bytes of a base32 text.
pub open spec fn decode_base32_script(
    text: Seq<char>,
    replies: Seq<ReplyModel>,
    at: int,
) -> ProgressModel<Seq<u8>> {
    ask(
        ActionModel::DecodeBase32 { text },
        replies,
        at,
        |reply: ReplyModel|
            match reply {
                ReplyModel::Decoded(value) => Some(value),
                _ => None,
            },
    )
}

/// The bytes of a base32 text.
pub fn decode_base32<'a>(
    text: &str,
    replies: &'a Vec<Reply>,
    at: usize,
) -> (result: Progress<&'a Vec<u8>>)
    ensures
        progress(result) == decode_base32_script(
            text@,
            replies.deep_view(),
            at as int,
        ),
{
    if at >= replies.len() {
        return Err(Stop::Ask(Action::DecodeBase32 { text: text.to_string() }));
    }
    match &replies[at] {
        Reply::Decoded(Ok(value)) => Ok((value, at + 1)),
        Reply::Decoded(Err(error)) => Err(Stop::Fail(error.clone())),
        _ => Err(Stop::Unexpected),
    }
}

/// The time step of a one-time password.
pub open spec fn validate_totp_script(
    token: Seq<char>,
    key: Seq<char>,
    last_used: i64,
    replies: Seq<ReplyModel>,
    at: int,
) -> ProgressModel<i64> {
    ask(
        ActionModel::ValidateTotp { token, key, last_used },
        replies,
        at,
        |reply: ReplyModel|
            match reply {
                ReplyModel::TimeStep(value) => Some(value),
                _ => None,
            },
    )
}

/// The time step of a one-time password.
pub fn validate_totp<'a>(
    token: &str,
    key: &str,
    last_used: i64,
    replies: &'a Vec<Reply>,
    at: usize,
) -> (result: Progress<i64>)
    ensures
        progress(result) == validate_totp_script(
            token@,
            key@,
            last_used,
            replies.deep_view(),
            at as int,
        ),
{
    if at >= replies.len() {
        return Err(
            Stop::Ask(
                Action::ValidateTotp { token: token.to_string(), key: key.to_string(), last_used },
            ),
        );
    }
    match &replies[at] {
        Reply::TimeStep(Ok(value)) => Ok((*value, at + 1)),
        Reply::TimeStep(Err(error)) => Err(Stop::Fail(error.clone())),
        _ => Err(Stop::Unexpected),
    }
}

/// A new secret for one-time passwords.
pub open spec fn generate_totp_secret_script(
    replies: Seq<ReplyModel>,
    at: int,
) -> ProgressModel<Seq<char>> {
    ask(
        ActionModel::GenerateTotpSecret,
        replies,
        at,
        |reply: ReplyModel|
            match reply {
                ReplyModel::Generated(value) => Some(value),
                _ => None,
            },
    )
}

/// A new secret for one-time passwords.
pub fn generate_totp_secret<'a>(
    replies: &'a Vec<Reply>,
    at: usize,
) -> (result: Progress<&'a String>)
    ensures
        progress(result) == generate_totp_secret_script(
            replies.deep_view(),
            at as int,
        ),
{
    if at >= replies.len() {
        return Err(Stop::Ask(Action::GenerateTotpSecret));
    }
    match &replies[at] {
        Reply::Generated(Ok(value)) => Ok((value, at + 1)),
        Reply::Generated(Err(error)) => Err(Stop::Fail(error.clone())),
        _ => Err(Stop::Unexpected),
    }
}

/// A new recovery code.
pub open spec fn generate_recovery_code_script(
    replies: Seq<ReplyModel>,
    at: int,
) -> ProgressModel<Seq<char>> {
    ask(
        ActionModel::GenerateRecoveryCode,
        replies,
        at,
        |reply: ReplyModel|
            match reply {
                ReplyModel::Generated(value) => Some(value),
                _ => None,
            },
    )
}

/// A new recovery code.
pub fn generate_recovery_code<'a>(
    replies: &'a Vec<Reply>,
    at: usize,
) -> (result: Progress<&'a String>)
    ensures
        progress(result) == generate_recovery_code_script(
            replies.deep_view(),
            at as int,
        ),
{
    if at >= replies.len() {
        return Err(Stop::Ask(Action::GenerateRecoveryCode));
    }
    match &replies[at] {
        Reply::Generated(Ok(value)) => Ok((value, at + 1)),
        Reply::Generated(Err(error)) => Err(Stop::Fail(error.clone())),
        _ => Err(Stop::Unexpected),
    }
}

/// A new second factor.
pub open spec fn new_twofactor_script(
    user_id: Seq<char>,
    type_: TwoFactorType,
    secret: Seq<char>,
    replies: Seq<ReplyModel>,
    at: int,
) -> ProgressModel<TwoFactorModel> {
    ask(
        ActionModel::NewTwoFactor { user_id, type_, secret },
        replies,
        at,
        |reply: ReplyModel|
            match reply {
                ReplyModel::NewTwoFactor(value) => Some(Ok(value)),
                _ => None,
            },
    )
}

/// A new second factor.
pub fn new_twofactor<'a>(
    user_id: &str,
    type_: TwoFactorType,
    secret: &str,
    replies: &'a Vec<Reply>,
    at: usize,
) -> (result: Progress<&'a TwoFactor>)
    ensures
        progress(result) == new_twofactor_script(
            user_id@,
            type_,
            secret@,
            replies.deep_view(),
            at as int,
        ),
{
    if at >= replies.len() {
        return Err(
            Stop::Ask(
                Action::NewTwoFactor {
                    user_id: user_id.to_string(),
                    type_,
                    secret: secret.to_string(),
                },
            ),
        );
    }
    match &replies[at] {
        Reply::NewTwoFactor(value) => Ok((value, at + 1)),
        _ => Err(Stop::Unexpected),
    }
}

/// Whether two secrets are the same.
pub open spec fn compare_secrets_script(
    stored: Seq<char>,
    given: Seq<char>,
    replies: Seq<ReplyModel>,
    at: int,
) -> ProgressModel<bool> {
    ask(
        ActionModel::CompareSecrets { stored, given },
        replies,
        at,
        |reply: ReplyModel|
            match reply {
                ReplyModel::Same(value) => Some(Ok(value)),
                _ => None,
            },
    )
}

/// Whether two secrets are the same.
pub fn compare_secrets<'a>(
    stored: &str,
    given: &str,
    replies: &'a Vec<Reply>,
    at: usize,
) -> (result: Progress<bool>)
    ensures
        progress(result) == compare_secrets_script(
            stored@,
            given@,
            replies.deep_view(),
            at as int,
        ),
{
    if at >= replies.len() {
        return Err(
            Stop::Ask(
                Action::CompareSecrets { stored: stored.to_string(), given: given.to_string() },
            ),
        );
    }
    match &replies[at] {
        Reply::Same(value) => Ok((*value, at + 1)),
        _ => Err(Stop::Unexpected),
    }
}

/// The time.
pub open spec fn read_clock_script(
    replies: Seq<ReplyModel>,
    at: int,
) -> ProgressModel<i64> {
    ask(
        ActionModel::ReadClock,
        replies,
        at,
        |reply: ReplyModel|
            match reply {
                ReplyModel::Time(value) => Some(Ok(value)),
                _ => None,
            },
    )
}

/// The time.
pub fn read_clock<'a>(
    replies: &'a Vec<Reply>,
    at: usize,
) -> (result: Progress<i64>)
    ensures
        progress(result) == read_clock_script(
            replies.deep_view(),
            at as int,
        ),
{
    if at >= replies.len() {
        return Err(Stop::Ask(Action::ReadClock));
    }
    match &replies[at] {
        Reply::Time(value) => Ok((*value, at + 1)),
        _ => Err(Stop::Unexpected),
    }
}

/// What the database says of a statement that it ran.
pub open spec fn execute_script(
    statement: StatementModel,
    replies: Seq<ReplyModel>,
    at: int,
) -> ProgressModel<Option<bool>> {
    ask(
        ActionModel::Execute { statement },
        replies,
        at,
        |reply: ReplyModel|
            match reply {
                ReplyModel::Executed(value) => Some(answered(value, AppErrorModel::Database)),
                _ => None,
            },
    )
}

/// What the database says of a statement that it ran.
pub fn execute<'a>(
    statement: Statement,
    replies: &'a Vec<Reply>,
    at: usize,
) -> (result: Progress<Option<bool>>)
    ensures
        progress(result) == execute_script(
            statement.deep_view(),
            replies.deep_view(),
            at as int,
        ),
{
    if at >= replies.len() {
        return Err(Stop::Ask(Action::Execute { statement }));
    }
    match &replies[at] {
        Reply::Executed(Ok(value)) => Ok((*value, at + 1)),
        Reply::Executed(Err(error)) => Err(Stop::Fail(error.answer(AppError::Database))),
        _ => Err(Stop::Unexpected),
    }
}

/// What the database said, where every failure is a database error.
pub open spec fn or_database<T>(result: Result<T, DbErrorModel>) -> Result<T, AppErrorModel> {
    match result {
        Ok(value) => Ok(value),
        Err(_) => Err(AppErrorModel::Database),
    }
}

/// What the database says of a statement that it ran, where every failure is a database error.
pub open spec fn execute_or_database_script(
    statement: StatementModel,
    replies: Seq<ReplyModel>,
    at: int,
) -> ProgressModel<Option<bool>> {
    ask(
        ActionModel::Execute { statement },
        replies,
        at,
        |reply: ReplyModel|
            match reply {
                ReplyModel::Executed(value) => Some(or_database(value)),
                _ => None,
            },
    )
}

/// What the database says of a statement that it ran, where every failure is a database error.
pub fn execute_or_database(
    statement: Statement,
    replies: &Vec<Reply>,
    at: usize,
) -> (result: Progress<Option<bool>>)
    ensures
        progress(result) == execute_or_database_script(
            statement.deep_view(),
            replies.deep_view(),
            at as int,
        ),
{
    if at >= replies.len() {
        return Err(Stop::Ask(Action::Execute { statement }));
    }
    match &replies[at] {
        Reply::Executed(Ok(value)) => Ok((*value, at + 1)),
        Reply::Executed(Err(_)) => Err(Stop::Fail(AppError::Database)),
        _ => Err(Stop::Unexpected),
    }
}

/// What the database says of a batch that it ran, where every failure is a database error.
pub open spec fn execute_all_script(
    statements: Seq<StatementModel>,
    replies: Seq<ReplyModel>,
    at: int,
) -> ProgressModel<Option<bool>> {
    ask(
        ActionModel::ExecuteAll { statements },
        replies,
        at,
        |reply: ReplyModel|
            match reply {
                ReplyModel::Executed(value) => Some(or_database(value)),
                _ => None,
            },
    )
}

/// What the database says of a batch that it ran, where every failure is a database error.
pub fn execute_all(
    statements: Vec<Statement>,
    replies: &Vec<Reply>,
    at: usize,
) -> (result: Progress<Option<bool>>)
    ensures
        progress(result) == execute_all_script(
            statements.deep_view(),
            replies.deep_view(),
            at as int,
        ),
{
    if at >= replies.len() {
        return Err(Stop::Ask(Action::ExecuteAll { statements }));
    }
    match &replies[at] {
        Reply::Executed(Ok(value)) => Ok((*value, at + 1)),
        Reply::Executed(Err(_)) => Err(Stop::Fail(AppError::Database)),
        _ => Err(Stop::Unexpected),
    }
}

/// The second factor that a query finds. A row of the wrong shape is an internal error.
pub open spec fn fetch_twofactor_script(
    statement: StatementModel,
    replies: Seq<ReplyModel>,
    at: int,
) -> ProgressModel<Option<TwoFactorModel>> {
    ask(
        ActionModel::Fetch { statement, rows: Rows::TwoFactor },
        replies,
        at,
        |reply: ReplyModel|
            match reply {
                ReplyModel::TwoFactor(value) => Some(answered(value, AppErrorModel::Internal)),
                _ => None,
            },
    )
}

/// The second factor that a query finds. A row of the wrong shape is an internal error.
pub fn fetch_twofactor<'a>(
    statement: Statement,
    replies: &'a Vec<Reply>,
    at: usize,
) -> (result: Progress<&'a Option<TwoFactor>>)
    ensures
        progress(result) == fetch_twofactor_script(
            statement.deep_view(),
            replies.deep_view(),
            at as int,
        ),
{
    if at >= replies.len() {
        return Err(Stop::Ask(Action::Fetch { statement, rows: Rows::TwoFactor }));
    }
    match &replies[at] {
        Reply::TwoFactor(Ok(value)) => Ok((value, at + 1)),
        Reply::TwoFactor(Err(error)) => Err(Stop::Fail(error.answer(AppError::Internal))),
        _ => Err(Stop::Unexpected),
    }
}

/// Whether a query finds a row.
pub open spec fn fetch_presence_script(
    statement: StatementModel,
    replies: Seq<ReplyModel>,
    at: int,
) -> ProgressModel<bool> {
    ask(
        ActionModel::Fetch { statement, rows: Rows::Presence },
        replies,
        at,
        |reply: ReplyModel|
            match reply {
                ReplyModel::Presence(value) => Some(answered(value, AppErrorModel::Database)),
                _ => None,
            },
    )
}

/// Whether a query finds a row.
pub fn fetch_presence<'a>(
    statement: Statement,
    replies: &'a Vec<Reply>,
    at: usize,
) -> (result: Progress<bool>)
    ensures
        progress(result) == fetch_presence_script(
            statement.deep_view(),
            replies.deep_view(),
            at as int,
        ),
{
    if at >= replies.len() {
        return Err(Stop::Ask(Action::Fetch { statement, rows: Rows::Presence }));
    }
    match &replies[at] {
        Reply::Presence(Ok(value)) => Ok((*value, at + 1)),
        Reply::Presence(Err(error)) => Err(Stop::Fail(error.answer(AppError::Database))),
        _ => Err(Stop::Unexpected),
    }
}

/// The recovery code that a query finds.
pub open spec fn fetch_recovery_code_script(
    statement: StatementModel,
    replies: Seq<ReplyModel>,
    at: int,
) -> ProgressModel<Option<Option<Seq<char>>>> {
    ask(
        ActionModel::Fetch { statement, rows: Rows::RecoveryCode },
        replies,
        at,
        |reply: ReplyModel|
            match reply {
                ReplyModel::RecoveryCode(value) => Some(answered(value, AppErrorModel::Database)),
                _ => None,
            },
    )
}

/// The recovery code that a query finds.
pub fn fetch_recovery_code<'a>(
    statement: Statement,
    replies: &'a Vec<Reply>,
    at: usize,
) -> (result: Progress<&'a Option<Option<String>>>)
    ensures
        progress(result) == fetch_recovery_code_script(
            statement.deep_view(),
            replies.deep_view(),
            at as int,
        ),
{
    if at >= replies.len() {
        return Err(Stop::Ask(Action::Fetch { statement, rows: Rows::RecoveryCode }));
    }
    match &replies[at] {
        Reply::RecoveryCode(Ok(value)) => Ok((value, at + 1)),
        Reply::RecoveryCode(Err(error)) => Err(Stop::Fail(error.answer(AppError::Database))),
        _ => Err(Stop::Unexpected),
    }
}

/// The row id that a query finds.
pub open spec fn fetch_login_row_id_script(
    statement: StatementModel,
    replies: Seq<ReplyModel>,
    at: int,
) -> ProgressModel<Option<Seq<char>>> {
    ask(
        ActionModel::Fetch { statement, rows: Rows::LoginRowId },
        replies,
        at,
        |reply: ReplyModel|
            match reply {
                ReplyModel::LoginRowId(value) => Some(answered(value, AppErrorModel::Database)),
                _ => None,
            },
    )
}

/// The row id that a query finds.
pub fn fetch_login_row_id<'a>(
    statement: Statement,
    replies: &'a Vec<Reply>,
    at: usize,
) -> (result: Progress<&'a Option<String>>)
    ensures
        progress(result) == fetch_login_row_id_script(
            statement.deep_view(),
            replies.deep_view(),
            at as int,
        ),
{
    if at >= replies.len() {
        return Err(Stop::Ask(Action::Fetch { statement, rows: Rows::LoginRowId }));
    }
    match &replies[at] {
        Reply::LoginRowId(Ok(value)) => Ok((value, at + 1)),
        Reply::LoginRowId(Err(error)) => Err(Stop::Fail(error.answer(AppError::Database))),
        _ => Err(Stop::Unexpected),
    }
}

/// The login passkey that a query finds.
pub open spec fn fetch_login_credential_script(
    statement: StatementModel,
    replies: Seq<ReplyModel>,
    at: int,
) -> ProgressModel<Option<LoginCredentialWithPrfModel>> {
    ask(
        ActionModel::Fetch { statement, rows: Rows::LoginCredential },
        replies,
        at,
        |reply: ReplyModel|
            match reply {
                ReplyModel::LoginCredential(value) => Some(
                    answered(value, AppErrorModel::Database),
                ),
                _ => None,
            },
    )
}

/// The login passkey that a query finds.
pub fn fetch_login_credential<'a>(
    statement: Statement,
    replies: &'a Vec<Reply>,
    at: usize,
) -> (result: Progress<&'a Option<LoginCredentialWithPrf>>)
    ensures
        progress(result) == fetch_login_credential_script(
            statement.deep_view(),
            replies.deep_view(),
            at as int,
        ),
{
    if at >= replies.len() {
        return Err(Stop::Ask(Action::Fetch { statement, rows: Rows::LoginCredential }));
    }
    match &replies[at] {
        Reply::LoginCredential(Ok(value)) => Ok((value, at + 1)),
        Reply::LoginCredential(Err(error)) => Err(Stop::Fail(error.answer(AppError::Database))),
        _ => Err(Stop::Unexpected),
    }
}

/// The login passkeys that a query finds.
pub open spec fn fetch_login_credentials_script(
    statement: StatementModel,
    replies: Seq<ReplyModel>,
    at: int,
) -> ProgressModel<Seq<LoginCredentialWithPrfModel>> {
    ask(
        ActionModel::Fetch { statement, rows: Rows::LoginCredentials },
        replies,
        at,
        |reply: ReplyModel|
            match reply {
                ReplyModel::LoginCredentials(value) => Some(
                    answered(value, AppErrorModel::Database),
                ),
                _ => None,
            },
    )
}

/// The login passkeys that a query finds.
pub fn fetch_login_credentials<'a>(
    statement: Statement,
    replies: &'a Vec<Reply>,
    at: usize,
) -> (result: Progress<&'a Vec<LoginCredentialWithPrf>>)
    ensures
        progress(result) == fetch_login_credentials_script(
            statement.deep_view(),
            replies.deep_view(),
            at as int,
        ),
{
    if at >= replies.len() {
        return Err(Stop::Ask(Action::Fetch { statement, rows: Rows::LoginCredentials }));
    }
    match &replies[at] {
        Reply::LoginCredentials(Ok(value)) => Ok((value, at + 1)),
        Reply::LoginCredentials(Err(error)) => Err(Stop::Fail(error.answer(AppError::Database))),
        _ => Err(Stop::Unexpected),
    }
}

/// The security keys that a query finds.
pub open spec fn fetch_security_keys_script(
    statement: StatementModel,
    replies: Seq<ReplyModel>,
    at: int,
) -> ProgressModel<Seq<WebauthnCredentialRowModel>> {
    ask(
        ActionModel::Fetch { statement, rows: Rows::SecurityKeys },
        replies,
        at,
        |reply: ReplyModel|
            match reply {
                ReplyModel::SecurityKeys(value) => Some(answered(value, AppErrorModel::Database)),
                _ => None,
            },
    )
}

/// The security keys that a query finds.
pub fn fetch_security_keys<'a>(
    statement: Statement,
    replies: &'a Vec<Reply>,
    at: usize,
) -> (result: Progress<&'a Vec<WebauthnCredentialRow>>)
    ensures
        progress(result) == fetch_security_keys_script(
            statement.deep_view(),
            replies.deep_view(),
            at as int,
        ),
{
    if at >= replies.len() {
        return Err(Stop::Ask(Action::Fetch { statement, rows: Rows::SecurityKeys }));
    }
    match &replies[at] {
        Reply::SecurityKeys(Ok(value)) => Ok((value, at + 1)),
        Reply::SecurityKeys(Err(error)) => Err(Stop::Fail(error.answer(AppError::Database))),
        _ => Err(Stop::Unexpected),
    }
}

/// The second factors that one query finds, and how many rows the other.
pub open spec fn fetch_twofactors_script(
    twofactors: StatementModel,
    security_keys: StatementModel,
    replies: Seq<ReplyModel>,
    at: int,
) -> ProgressModel<(Seq<TwoFactorModel>, usize)> {
    ask(
        ActionModel::FetchTwoFactors { twofactors, security_keys },
        replies,
        at,
        |reply: ReplyModel|
            match reply {
                ReplyModel::TwoFactors(value) => Some(answered(value, AppErrorModel::Database)),
                _ => None,
            },
    )
}

/// The second factors that one query finds, and how many rows the other.
pub fn fetch_twofactors<'a>(
    twofactors: Statement,
    security_keys: Statement,
    replies: &'a Vec<Reply>,
    at: usize,
) -> (result: Progress<&'a (Vec<TwoFactor>, usize)>)
    ensures
        progress(result) == fetch_twofactors_script(
            twofactors.deep_view(),
            security_keys.deep_view(),
            replies.deep_view(),
            at as int,
        ),
{
    if at >= replies.len() {
        return Err(Stop::Ask(Action::FetchTwoFactors { twofactors, security_keys }));
    }
    match &replies[at] {
        Reply::TwoFactors(Ok(value)) => Ok((value, at + 1)),
        Reply::TwoFactors(Err(error)) => Err(Stop::Fail(error.answer(AppError::Database))),
        _ => Err(Stop::Unexpected),
    }
}

/// The origin in client data.
pub open spec fn read_origin_script(
    client_data: Seq<u8>,
    replies: Seq<ReplyModel>,
    at: int,
) -> ProgressModel<Option<Seq<char>>> {
    ask(
        ActionModel::ReadOrigin { client_data },
        replies,
        at,
        |reply: ReplyModel|
            match reply {
                ReplyModel::Origin(value) => Some(Ok(value)),
                _ => None,
            },
    )
}

/// The origin in client data.
pub fn read_origin<'a>(
    client_data: Vec<u8>,
    replies: &'a Vec<Reply>,
    at: usize,
) -> (result: Progress<&'a Option<String>>)
    ensures
        progress(result) == read_origin_script(
            client_data@,
            replies.deep_view(),
            at as int,
        ),
{
    if at >= replies.len() {
        return Err(Stop::Ask(Action::ReadOrigin { client_data }));
    }
    match &replies[at] {
        Reply::Origin(value) => Ok((value, at + 1)),
        _ => Err(Stop::Unexpected),
    }
}

/// How a client is told of second factors.
pub open spec fn describe_providers_script(
    providers: Seq<TwoFactorModel>,
    replies: Seq<ReplyModel>,
    at: int,
) -> ProgressModel<Seq<JsonModel>> {
    ask(
        ActionModel::DescribeProviders { providers },
        replies,
        at,
        |reply: ReplyModel|
            match reply {
                ReplyModel::Providers(value) => Some(Ok(value)),
                _ => None,
            },
    )
}

/// How a client is told of second factors.
pub fn describe_providers<'a>(
    providers: Vec<TwoFactor>,
    replies: &'a Vec<Reply>,
    at: usize,
) -> (result: Progress<&'a Vec<Json>>)
    ensures
        progress(result) == describe_providers_script(
            providers.deep_view(),
            replies.deep_view(),
            at as int,
        ),
{
    if at >= replies.len() {
        return Err(Stop::Ask(Action::DescribeProviders { providers }));
    }
    match &replies[at] {
        Reply::Providers(value) => Ok((value, at + 1)),
        _ => Err(Stop::Unexpected),
    }
}

} // verus!
