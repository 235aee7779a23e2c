//! SQL statements, before they are sent.
use vstd::prelude::*;
use crate::error::{AppError, AppErrorModel};

verus! {

/// A value bound to a placeholder. Every number that the server stores is an integer.
#[derive(Debug)]
pub enum SqlValue {
    Null,
    Int(i64),
    Bool(bool),
    Text(String),
}

/// Model of [`SqlValue`].
pub enum SqlValueModel {
    Null,
    Int(int),
    Bool(bool),
    Text(Seq<char>),
}

impl DeepView for SqlValue {
    type V = SqlValueModel;

    open spec fn deep_view(&self) -> SqlValueModel {
        match self {
            SqlValue::Null => SqlValueModel::Null,
            SqlValue::Int(value) => SqlValueModel::Int(*value as int),
            SqlValue::Bool(value) => SqlValueModel::Bool(*value),
            SqlValue::Text(text) => SqlValueModel::Text(text@),
        }
    }
}

impl SqlValueModel {
    /// A string, or `NULL`.
    pub open spec fn optional_text(text: Option<Seq<char>>) -> SqlValueModel {
        match text {
            Some(text) => SqlValueModel::Text(text),
            None => SqlValueModel::Null,
        }
    }
}

impl SqlValue {
    /// A string.
    pub fn text(text: &str) -> (value: SqlValue)
        ensures
            value.deep_view() == SqlValueModel::Text(text@),
    {
        SqlValue::Text(text.to_string())
    }

    /// A string, or `NULL`.
    pub fn optional_str(text: Option<&str>) -> (value: SqlValue)
        ensures
            value.deep_view() == SqlValueModel::optional_text(text.deep_view()),
    {
        match text {
            Some(text) => SqlValue::text(text),
            None => SqlValue::Null,
        }
    }

    /// A string, or `NULL`.
    pub fn optional_text(text: &Option<String>) -> (value: SqlValue)
        ensures
            value.deep_view() == SqlValueModel::optional_text(text.deep_view()),
    {
        match text {
            Some(text) => SqlValue::Text(text.clone()),
            None => SqlValue::Null,
        }
    }
}

/// An SQL statement with the values of its placeholders `?1`, `?2` and so on.
#[derive(Debug)]
pub struct Statement {
    pub sql: String,
    pub params: Vec<SqlValue>,
}

/// Model of [`Statement`].
pub struct StatementModel {
    pub sql: Seq<char>,
    pub params: Seq<SqlValueModel>,
}

impl DeepView for Statement {
    type V = StatementModel;

    open spec fn deep_view(&self) -> StatementModel {
        StatementModel { sql: self.sql@, params: self.params.deep_view() }
    }
}

/// A statement with its values.
pub fn statement(sql: &str, params: Vec<SqlValue>) -> (statement: Statement)
    ensures
        statement.deep_view() == (StatementModel { sql: sql@, params: params.deep_view() }),
{
    Statement { sql: sql.to_string(), params }
}

/// Why the database gave no answer. The texts are the driver's own.
#[derive(Debug)]
pub enum DbError {
    /// A value could not be bound: the error that this means for the endpoint, and the text.
    Bind(AppError, String),
    /// The query failed.
    Query(String),
    /// A row does not have the shape it should have.
    Row(String),
}

/// Model of [`DbError`].
pub enum DbErrorModel {
    Bind(AppErrorModel, Seq<char>),
    Query(Seq<char>),
    Row(Seq<char>),
}

impl DeepView for DbError {
    type V = DbErrorModel;

    open spec fn deep_view(&self) -> DbErrorModel {
        match self {
            DbError::Bind(error, text) => DbErrorModel::Bind(error.deep_view(), text@),
            DbError::Query(text) => DbErrorModel::Query(text@),
            DbError::Row(text) => DbErrorModel::Row(text@),
        }
    }
}

impl DbErrorModel {
    /// What the endpoint answers: its own error where a value could not be bound, `Database` where
    /// the query failed, and `malformed` where a row has the wrong shape.
    pub open spec fn answer(self, malformed: AppErrorModel) -> AppErrorModel {
        match self {
            DbErrorModel::Bind(error, _) => error,
            DbErrorModel::Query(_) => AppErrorModel::Database,
            DbErrorModel::Row(_) => malformed,
        }
    }
}

impl DbError {
    /// What the endpoint answers.
    pub fn answer(&self, malformed: AppError) -> (error: AppError)
        ensures
            error.deep_view() == self.deep_view().answer(malformed.deep_view()),
    {
        match self {
            DbError::Bind(error, _) => error.clone(),
            DbError::Query(_) => AppError::Database,
            DbError::Row(_) => malformed,
        }
    }
}

} // verus!
