//! The flat error taxonomy of the data-access layer. Every store-level
//! failure is surfaced to the immediate caller unchanged; nothing here is
//! retried or recovered locally.

use vstd::prelude::*;

verus! {

/// Errors of the model layer.
///
/// `EntityNotFound`, `UserAlreadyExists`, `UniqueViolation`,
/// `ListLimitOverMax` and `CountFail` are reserved taxonomy members for
/// future enforcement; no operation of this layer raises them today.
#[derive(Debug)]
pub enum Error {
    EntityNotFound { entity: &'static str, id: i64 },
    ListLimitOverMax { max: i64, actual: i64 },
    CountFail,
    UserAlreadyExists { username: String },
    UniqueViolation { table: String, constraint: String },
    CrudDocumentError,
    CreateError,
    ReadError,
    UpdateError,
    DeleteError,
    FilterError,
    ObIdError,
    QueryError,
    SessionError,
    CrudSessionError(String),
    CantCreateModelManagerProvider(String),
    NoSession,
}

impl Error {
    /// A short name of the error kind, for callers that report it.
    pub fn describe(&self) -> (r: String)
        ensures
            r@.len() > 0,
    {
        let s: &str = match self {
            Error::EntityNotFound { .. } => "entity not found",
            Error::ListLimitOverMax { .. } => "list limit over max",
            Error::CountFail => "count failed",
            Error::UserAlreadyExists { .. } => "user already exists",
            Error::UniqueViolation { .. } => "unique violation",
            Error::CrudDocumentError => "document error",
            Error::CreateError => "create failed",
            Error::ReadError => "read failed",
            Error::UpdateError => "update failed",
            Error::DeleteError => "delete failed",
            Error::FilterError => "filter error",
            Error::ObIdError => "malformed object id",
            Error::QueryError => "query failed",
            Error::SessionError => "session error",
            Error::CrudSessionError(_) => "session error",
            Error::CantCreateModelManagerProvider(_) => "cannot create model manager provider",
            Error::NoSession => "no session",
        };
        proof {
            reveal_strlit("entity not found");
            reveal_strlit("list limit over max");
            reveal_strlit("count failed");
            reveal_strlit("user already exists");
            reveal_strlit("unique violation");
            reveal_strlit("document error");
            reveal_strlit("create failed");
            reveal_strlit("read failed");
            reveal_strlit("update failed");
            reveal_strlit("delete failed");
            reveal_strlit("filter error");
            reveal_strlit("malformed object id");
            reveal_strlit("query failed");
            reveal_strlit("session error");
            reveal_strlit("cannot create model manager provider");
            reveal_strlit("no session");
        }
        s.to_owned()
    }
}

} // verus!
