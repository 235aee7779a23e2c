//! The error that an endpoint answers with.
use vstd::prelude::*;

verus! {

/// Why a request was not served.
#[derive(Debug)]
pub enum AppError {
    /// The request itself is at fault; the text tells the client how.
    BadRequest(String),
    /// What the request names does not exist.
    NotFound(String),
    /// The caller is not who the request needs.
    Unauthorized(String),
    /// The database did not answer as it should.
    Database,
    /// Stored data is not what the server wrote.
    Internal,
}

/// Model of [`AppError`].
pub enum AppErrorModel {
    BadRequest(Seq<char>),
    NotFound(Seq<char>),
    Unauthorized(Seq<char>),
    Database,
    Internal,
}

impl DeepView for AppError {
    type V = AppErrorModel;

    open spec fn deep_view(&self) -> AppErrorModel {
        match self {
            AppError::BadRequest(text) => AppErrorModel::BadRequest(text@),
            AppError::NotFound(text) => AppErrorModel::NotFound(text@),
            AppError::Unauthorized(text) => AppErrorModel::Unauthorized(text@),
            AppError::Database => AppErrorModel::Database,
            AppError::Internal => AppErrorModel::Internal,
        }
    }
}

/// `AppError::BadRequest` with this text.
pub fn bad_request(text: &str) -> (error: AppError)
    ensures
        error.deep_view() == AppErrorModel::BadRequest(text@),
{
    AppError::BadRequest(text.to_string())
}

impl Clone for AppError {
    fn clone(&self) -> (error: AppError)
        ensures
            error.deep_view() == self.deep_view(),
    {
        match self {
            AppError::BadRequest(text) => AppError::BadRequest(text.clone()),
            AppError::NotFound(text) => AppError::NotFound(text.clone()),
            AppError::Unauthorized(text) => AppError::Unauthorized(text.clone()),
            AppError::Database => AppError::Database,
            AppError::Internal => AppError::Internal,
        }
    }
}

/// The model of a result: the models of its value or of its error.
pub open spec fn outcome<T: DeepView, E: DeepView>(result: Result<T, E>) -> Result<T::V, E::V> {
    match result {
        Ok(value) => Ok(value.deep_view()),
        Err(error) => Err(error.deep_view()),
    }
}

} // verus!
