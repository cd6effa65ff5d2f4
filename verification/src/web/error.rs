//! Server errors and the client errors they are reported as.

use crate::model;
use crate::pwd;
use crate::rpc;
use crate::text::string_append;
use crate::web::mw_auth::CtxExtError;
use vstd::prelude::*;

verus! {

/// HTTP 400.
pub const STATUS_BAD_REQUEST: u16 = 400;

/// HTTP 403.
pub const STATUS_FORBIDDEN: u16 = 403;

/// HTTP 500.
pub const STATUS_INTERNAL_SERVER_ERROR: u16 = 500;

/// The failure of the JSON-RPC router for one call.
#[derive(Debug)]
pub enum RpcRouterError {
    /// No handler carries the method.
    MethodUnknown,
    /// The params could not be read, with the reason.
    ParamsParsing(String),
    /// The method needs params and the call had none.
    ParamsMissingButRequested,
    /// Any other router failure, by its message.
    Other(String),
}

/// A failure of the web layer.
#[derive(Debug)]
pub enum Error {
    // -- Login
    LoginFailUsernameNotFound,
    LoginFailUserHasNoPwd { user_id: i64 },
    LoginFailPwdNotMatching { user_id: i64 },
    // -- CtxExtError
    CtxExt(CtxExtError),
    // -- Extractors
    ReqStampNotInReqExt,
    // -- Modules
    Model(model::Error),
    Pwd(pwd::Error),
    /// A token failure, by its message.
    Token(String),
    Rpc(rpc::Error),
    /// The request is not a JSON-RPC request, with the reason.
    RpcRequestParsing(String),
    /// A handler failed with an application error.
    RpcLibRpc(rpc::Error),
    /// A handler failed with an error of an unhandled type, by its name.
    RpcHandlerErrorUnhandled(String),
    /// The router failed for the call `id` (its JSON text) of `method`.
    RpcRouter { id: String, method: String, error: RpcRouterError },
    // -- External Modules
    SerdeJson(String),
}

impl From<CtxExtError> for Error {
    fn from(val: CtxExtError) -> (r: Self) {
        Error::CtxExt(val)
    }
}

impl vstd::std_specs::convert::FromSpecImpl<CtxExtError> for Error {
    open spec fn obeys_from_spec() -> bool {
        true
    }

    open spec fn from_spec(val: CtxExtError) -> Self {
        Error::CtxExt(val)
    }
}

impl From<model::Error> for Error {
    fn from(val: model::Error) -> (r: Self) {
        Error::Model(val)
    }
}

impl vstd::std_specs::convert::FromSpecImpl<model::Error> for Error {
    open spec fn obeys_from_spec() -> bool {
        true
    }

    open spec fn from_spec(val: model::Error) -> Self {
        Error::Model(val)
    }
}

impl From<pwd::Error> for Error {
    fn from(val: pwd::Error) -> (r: Self) {
        Error::Pwd(val)
    }
}

impl vstd::std_specs::convert::FromSpecImpl<pwd::Error> for Error {
    open spec fn obeys_from_spec() -> bool {
        true
    }

    open spec fn from_spec(val: pwd::Error) -> Self {
        Error::Pwd(val)
    }
}

impl From<rpc::Error> for Error {
    fn from(val: rpc::Error) -> (r: Self) {
        Error::Rpc(val)
    }
}

impl vstd::std_specs::convert::FromSpecImpl<rpc::Error> for Error {
    open spec fn obeys_from_spec() -> bool {
        true
    }

    open spec fn from_spec(val: rpc::Error) -> Self {
        Error::Rpc(val)
    }
}

/// What the client is told of an error.
#[derive(Debug)]
#[allow(non_camel_case_types)]
pub enum ClientError {
    LOGIN_FAIL,
    NO_AUTH,
    ENTITY_NOT_FOUND { entity: &'static str, id: i64 },
    RPC_REQUEST_INVALID(String),
    RPC_REQUEST_METHOD_UNKNOWN(String),
    RPC_PARAMS_INVALID(String),
    SERVICE_ERROR,
}

/// A client error as plain values.
#[allow(non_camel_case_types)]
pub ghost enum ClientErrorView {
    LOGIN_FAIL,
    NO_AUTH,
    ENTITY_NOT_FOUND { entity: Seq<char>, id: i64 },
    RPC_REQUEST_INVALID(Seq<char>),
    RPC_REQUEST_METHOD_UNKNOWN(Seq<char>),
    RPC_PARAMS_INVALID(Seq<char>),
    SERVICE_ERROR,
}

impl View for ClientError {
    type V = ClientErrorView;

    open spec fn view(&self) -> ClientErrorView {
        match self {
            ClientError::LOGIN_FAIL => ClientErrorView::LOGIN_FAIL,
            ClientError::NO_AUTH => ClientErrorView::NO_AUTH,
            ClientError::ENTITY_NOT_FOUND { entity, id } => ClientErrorView::ENTITY_NOT_FOUND {
                entity: entity@,
                id: *id,
            },
            ClientError::RPC_REQUEST_INVALID(s) => ClientErrorView::RPC_REQUEST_INVALID(s@),
            ClientError::RPC_REQUEST_METHOD_UNKNOWN(s) => ClientErrorView::RPC_REQUEST_METHOD_UNKNOWN(s@),
            ClientError::RPC_PARAMS_INVALID(s) => ClientErrorView::RPC_PARAMS_INVALID(s@),
            ClientError::SERVICE_ERROR => ClientErrorView::SERVICE_ERROR,
        }
    }
}

/// The HTTP status and client error that a server error is reported as.
pub open spec fn client_status_and_error_spec(e: Error) -> (u16, ClientErrorView) {
    match e {
        Error::LoginFailUsernameNotFound
        | Error::LoginFailUserHasNoPwd { .. }
        | Error::LoginFailPwdNotMatching { .. } => (STATUS_FORBIDDEN, ClientErrorView::LOGIN_FAIL),
        Error::CtxExt(_) => (STATUS_FORBIDDEN, ClientErrorView::NO_AUTH),
        Error::Model(model::Error::EntityNotFound { entity, id }) => (
            STATUS_BAD_REQUEST,
            ClientErrorView::ENTITY_NOT_FOUND { entity: entity@, id },
        ),
        Error::RpcRequestParsing(reason) => (
            STATUS_BAD_REQUEST,
            ClientErrorView::RPC_REQUEST_INVALID(reason@),
        ),
        Error::RpcRouter { error: RpcRouterError::MethodUnknown, method, .. } => (
            STATUS_BAD_REQUEST,
            ClientErrorView::RPC_REQUEST_METHOD_UNKNOWN("rpc method '"@ + method@ + "' unknown"@),
        ),
        Error::RpcRouter { error: RpcRouterError::ParamsParsing(reason), .. } => (
            STATUS_BAD_REQUEST,
            ClientErrorView::RPC_PARAMS_INVALID(reason@),
        ),
        Error::RpcRouter { error: RpcRouterError::ParamsMissingButRequested, method, .. } => (
            STATUS_BAD_REQUEST,
            ClientErrorView::RPC_PARAMS_INVALID(
                "Params missing. Method '"@ + method@ + "' requires params"@,
            ),
        ),
        _ => (STATUS_INTERNAL_SERVER_ERROR, ClientErrorView::SERVICE_ERROR),
    }
}

/// `prefix`, then `middle`, then `suffix`.
fn concat3(prefix: &str, middle: &str, suffix: &str) -> (s: String)
    ensures
        s@ == prefix@ + middle@ + suffix@,
{
    let mut s = String::new();
    string_append(&mut s, prefix);
    string_append(&mut s, middle);
    string_append(&mut s, suffix);
    s
}

impl Error {
    /// The HTTP status and client error this error is reported as: login
    /// failures are forbidden, context failures are forbidden without auth,
    /// a missing entity and invalid JSON-RPC requests are bad requests, and
    /// everything else is a service error.
    pub fn client_status_and_error(&self) -> (r: (u16, ClientError))
        ensures
            (r.0, r.1@) == client_status_and_error_spec(*self),
    {
        match self {
            Error::LoginFailUsernameNotFound
            | Error::LoginFailUserHasNoPwd { .. }
            | Error::LoginFailPwdNotMatching { .. } => (STATUS_FORBIDDEN, ClientError::LOGIN_FAIL),
            Error::CtxExt(_) => (STATUS_FORBIDDEN, ClientError::NO_AUTH),
            Error::Model(model::Error::EntityNotFound { entity, id }) => (
                STATUS_BAD_REQUEST,
                ClientError::ENTITY_NOT_FOUND { entity, id: *id },
            ),
            Error::RpcRequestParsing(reason) => (
                STATUS_BAD_REQUEST,
                ClientError::RPC_REQUEST_INVALID(reason.clone()),
            ),
            Error::RpcRouter { error: RpcRouterError::MethodUnknown, method, .. } => (
                STATUS_BAD_REQUEST,
                ClientError::RPC_REQUEST_METHOD_UNKNOWN(
                    concat3("rpc method '", method.as_str(), "' unknown"),
                ),
            ),
            Error::RpcRouter { error: RpcRouterError::ParamsParsing(reason), .. } => (
                STATUS_BAD_REQUEST,
                ClientError::RPC_PARAMS_INVALID(reason.clone()),
            ),
            Error::RpcRouter { error: RpcRouterError::ParamsMissingButRequested, method, .. } => (
                STATUS_BAD_REQUEST,
                ClientError::RPC_PARAMS_INVALID(
                    concat3("Params missing. Method '", method.as_str(), "' requires params"),
                ),
            ),
            _ => (STATUS_INTERNAL_SERVER_ERROR, ClientError::SERVICE_ERROR),
        }
    }
}

// region:    --- Laws

/// How each server error is reported to the client:
/// - every failure to resolve the request context is forbidden (403) without
///   auth, whatever the failure;
/// - every login failure is forbidden (403) as a login failure;
/// - a missing entity is a bad request (400) naming the table and id;
/// - an unreadable JSON-RPC request, an unknown method and unreadable or
///   missing params are bad requests (400) with their message;
/// - every other error is a service error (500).
pub proof fn lemma_client_errors(e: Error)
    ensures
        e matches Error::CtxExt(_) ==> client_status_and_error_spec(e) == (
            403u16,
            ClientErrorView::NO_AUTH,
        ),
        (e is LoginFailUsernameNotFound || e is LoginFailUserHasNoPwd || e is LoginFailPwdNotMatching)
            ==> client_status_and_error_spec(e) == (403u16, ClientErrorView::LOGIN_FAIL),
        e matches Error::Model(model::Error::EntityNotFound { entity, id }) ==> client_status_and_error_spec(e)
            == (400u16, ClientErrorView::ENTITY_NOT_FOUND { entity: entity@, id }),
        e matches Error::RpcRequestParsing(reason) ==> client_status_and_error_spec(e) == (
            400u16,
            ClientErrorView::RPC_REQUEST_INVALID(reason@),
        ),
        e matches Error::RpcRouter { error: RpcRouterError::MethodUnknown, method, .. }
            ==> client_status_and_error_spec(e) == (
            400u16,
            ClientErrorView::RPC_REQUEST_METHOD_UNKNOWN(
                seq!['r', 'p', 'c', ' ', 'm', 'e', 't', 'h', 'o', 'd', ' ', '\''] + method@ + seq![
                    '\'',
                    ' ',
                    'u',
                    'n',
                    'k',
                    'n',
                    'o',
                    'w',
                    'n',
                ],
            ),
        ),
        e matches Error::RpcRouter { error: RpcRouterError::ParamsParsing(reason), .. }
            ==> client_status_and_error_spec(e) == (
            400u16,
            ClientErrorView::RPC_PARAMS_INVALID(reason@),
        ),
        e matches Error::RpcRouter { error: RpcRouterError::ParamsMissingButRequested, .. }
            ==> client_status_and_error_spec(e).0 == 400u16 && client_status_and_error_spec(e).1 is RPC_PARAMS_INVALID,
        (e is ReqStampNotInReqExt || e is Pwd || e is Token || e is Rpc || e is RpcLibRpc
            || e is RpcHandlerErrorUnhandled || e is SerdeJson || (e matches Error::RpcRouter {
            error: RpcRouterError::Other(_),
            ..
        }) || (e matches Error::Model(m) && !(m is EntityNotFound)))
            ==> client_status_and_error_spec(e) == (500u16, ClientErrorView::SERVICE_ERROR),
{
    reveal_strlit("rpc method '");
    reveal_strlit("' unknown");
    assert("rpc method '"@ =~= seq!['r', 'p', 'c', ' ', 'm', 'e', 't', 'h', 'o', 'd', ' ', '\'']);
    assert("' unknown"@ =~= seq!['\'', ' ', 'u', 'n', 'k', 'n', 'o', 'w', 'n']);
}

/// The message for missing params names the method:
/// `Params missing. Method '<method>' requires params`.
pub proof fn lemma_params_missing_message(id: String, method: String)
    ensures
        client_status_and_error_spec(
            Error::RpcRouter { id, method, error: RpcRouterError::ParamsMissingButRequested },
        ).1 == ClientErrorView::RPC_PARAMS_INVALID(
            seq![
                'P', 'a', 'r', 'a', 'm', 's', ' ', 'm', 'i', 's', 's', 'i', 'n', 'g', '.', ' ', 'M',
                'e', 't', 'h', 'o', 'd', ' ', '\'',
            ] + method@ + seq![
                '\'', ' ', 'r', 'e', 'q', 'u', 'i', 'r', 'e', 's', ' ', 'p', 'a', 'r', 'a', 'm', 's',
            ],
        ),
{
    reveal_strlit("Params missing. Method '");
    reveal_strlit("' requires params");
    assert("Params missing. Method '"@ =~= seq![
        'P', 'a', 'r', 'a', 'm', 's', ' ', 'm', 'i', 's', 's', 'i', 'n', 'g', '.', ' ', 'M', 'e',
        't', 'h', 'o', 'd', ' ', '\'',
    ]);
    assert("' requires params"@ =~= seq![
        '\'', ' ', 'r', 'e', 'q', 'u', 'i', 'r', 'e', 's', ' ', 'p', 'a', 'r', 'a', 'm', 's',
    ]);
}

// endregion: --- Laws

} // verus!
