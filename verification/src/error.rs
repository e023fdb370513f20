//! Application outcomes and their fixed mapping to the protocol: each
//! failure category maps to one HTTP status (for intermediaries that
//! read the status line) and one protocol status code (for clients that
//! read the trailer), plus a message text.

use vstd::prelude::*;
use vstd::string::*;
use crate::context::ProtoContext;
use crate::digits::dec_of;
use crate::status::{code_of, ProtoStatus};

verus! {

/// An application-level result category. A non-success category may
/// carry a text: for most categories a full message that replaces the
/// default, for `InvalidArgument` the detail that failed to parse.
pub enum Outcome {
    Success,
    NotFound(Option<String>),
    AlreadyExists(Option<String>),
    InvalidArgument(Option<String>),
    Unauthenticated(Option<String>),
    Internal(Option<String>),
}

/// The HTTP status line value of a category.
pub open spec fn http_status_of(o: Outcome) -> u16 {
    match o {
        Outcome::Success => 200,
        Outcome::NotFound(_) => 404,
        Outcome::AlreadyExists(_) => 409,
        Outcome::InvalidArgument(_) => 400,
        Outcome::Unauthenticated(_) => 401,
        Outcome::Internal(_) => 400,
    }
}

/// The protocol status of a category.
pub open spec fn proto_status_of(o: Outcome) -> ProtoStatus {
    match o {
        Outcome::Success => ProtoStatus::Success,
        Outcome::NotFound(_) => ProtoStatus::NotFound,
        Outcome::AlreadyExists(_) => ProtoStatus::AlreadyExists,
        Outcome::InvalidArgument(_) => ProtoStatus::InvalidArgument,
        Outcome::Unauthenticated(_) => ProtoStatus::Unauthenticated,
        Outcome::Internal(_) => ProtoStatus::InvalidArgument,
    }
}

/// The message text of a category.
pub open spec fn message_of(o: Outcome) -> Seq<char> {
    match o {
        Outcome::Success => Seq::empty(),
        Outcome::NotFound(m) => match m {
            Some(s) => s@,
            None => "Not found"@,
        },
        Outcome::AlreadyExists(m) => match m {
            Some(s) => s@,
            None => "Already exists"@,
        },
        Outcome::InvalidArgument(d) => match d {
            Some(s) => "Failed to parse '"@ + s@ + "'"@,
            None => "Something didn't work!"@,
        },
        Outcome::Unauthenticated(m) => match m {
            Some(s) => s@,
            None => "Unauthorized"@,
        },
        Outcome::Internal(m) => match m {
            Some(s) => s@,
            None => "Something didn't work!"@,
        },
    }
}

/// Outcome mapping determinism: each category maps to one fixed pair of
/// HTTP status and protocol status code, whatever text it carries.
pub proof fn lemma_outcome_mapping(o: Outcome)
    ensures
        o is Success ==> http_status_of(o) == 200 && code_of(proto_status_of(o)) == 0,
        o is NotFound ==> http_status_of(o) == 404 && code_of(proto_status_of(o)) == 5,
        o is AlreadyExists ==> http_status_of(o) == 409 && code_of(proto_status_of(o)) == 6,
        o is InvalidArgument ==> http_status_of(o) == 400 && code_of(proto_status_of(o)) == 3,
        o is Unauthenticated ==> http_status_of(o) == 401 && code_of(proto_status_of(o)) == 16,
        o is Internal ==> http_status_of(o) == 400 && code_of(proto_status_of(o)) == 3,
{
}

impl Outcome {
    /// The HTTP status line value of this category.
    pub fn http_status(&self) -> (r: u16)
        ensures
            r == http_status_of(*self),
    {
        match self {
            Outcome::Success => 200,
            Outcome::NotFound(_) => 404,
            Outcome::AlreadyExists(_) => 409,
            Outcome::InvalidArgument(_) => 400,
            Outcome::Unauthenticated(_) => 401,
            Outcome::Internal(_) => 400,
        }
    }

    /// The protocol status of this category.
    pub fn proto_status(&self) -> (r: ProtoStatus)
        ensures
            r == proto_status_of(*self),
    {
        match self {
            Outcome::Success => ProtoStatus::Success,
            Outcome::NotFound(_) => ProtoStatus::NotFound,
            Outcome::AlreadyExists(_) => ProtoStatus::AlreadyExists,
            Outcome::InvalidArgument(_) => ProtoStatus::InvalidArgument,
            Outcome::Unauthenticated(_) => ProtoStatus::Unauthenticated,
            Outcome::Internal(_) => ProtoStatus::InvalidArgument,
        }
    }

    /// The message text of this category.
    pub fn message(self) -> (r: String)
        ensures
            r@ == message_of(self),
    {
        match self {
            Outcome::Success => String::new(),
            Outcome::NotFound(m) => match m {
                Some(s) => s,
                None => String::from_str("Not found"),
            },
            Outcome::AlreadyExists(m) => match m {
                Some(s) => s,
                None => String::from_str("Already exists"),
            },
            Outcome::InvalidArgument(d) => match d {
                Some(s) => {
                    let mut out = String::from_str("Failed to parse '");
                    out.append(s.as_str());
                    out.append("'");
                    out
                },
                None => String::from_str("Something didn't work!"),
            },
            Outcome::Unauthenticated(m) => match m {
                Some(s) => s,
                None => String::from_str("Unauthorized"),
            },
            Outcome::Internal(m) => match m {
                Some(s) => s,
                None => String::from_str("Something didn't work!"),
            },
        }
    }
}

/// An error value that carries the request's context onward, so the
/// caller can turn it directly into a response, together with a message
/// and an optional upstream cause.
pub struct RpcError<T> {
    pub context: ProtoContext<T>,
    pub message: String,
    pub cause: Option<String>,
}

/// The error's context is the caller's own, carried over whole but for
/// the status line and the header table: body, inbound slot, query
/// parameters, extra state and protocol version are untouched, so the
/// caller can finalize the carried context directly into a response.
pub open spec fn context_carried_over<T>(pre: ProtoContext<T>, post: ProtoContext<T>) -> bool {
    &&& post.body == pre.body
    &&& post.inbound == pre.inbound
    &&& post.query_params == pre.query_params
    &&& post.extra == pre.extra
    &&& post.spec_version() == pre.spec_version()
}

/// Applies the fixed mapping of `outcome` to `context`: sets the HTTP
/// status line, enters the protocol status code under `grpc-status` in
/// the headers (from where finalization carries it into the trailers),
/// and wraps the context in an error value with the category's message
/// and no cause.
pub fn apply_outcome<T>(context: ProtoContext<T>, outcome: Outcome) -> (r: RpcError<T>)
    requires
        context.wf(),
    ensures
        r.context.wf(),
        r.context.status == http_status_of(outcome),
        r.context.spec_headers() == context.spec_headers().insert(
            "grpc-status"@,
            dec_of(code_of(proto_status_of(outcome)) as nat),
        ),
        context_carried_over(context, r.context),
        r.message@ == message_of(outcome),
        r.cause is None,
{
    let mut ctx = context;
    ctx.status(outcome.http_status() as u32);
    ctx.set_proto_status(outcome.proto_status().code());
    let message = outcome.message();
    RpcError { context: ctx, message, cause: None }
}

/// The error constructors that a handler raises; each applies one fixed
/// category to the context it is given.
pub trait ProtoErrorSet<T>: Sized {
    /// The context carried by the error.
    spec fn err_context(&self) -> ProtoContext<T>;

    /// The message carried by the error.
    spec fn err_message(&self) -> Seq<char>;

    /// The upstream cause carried by the error, if any.
    spec fn err_cause(&self) -> Option<String>;

    /// The already-exists outcome: HTTP 409, protocol status 6.
    fn already_exists_error(context: ProtoContext<T>) -> (r: Self)
        requires
            context.wf(),
        ensures
            r.err_context().wf(),
            r.err_context().status == 409,
            r.err_context().spec_headers() == context.spec_headers().insert(
                "grpc-status"@,
                dec_of(6),
            ),
            context_carried_over(context, r.err_context()),
            r.err_message() == "Already exists"@,
            r.err_cause() is None,
    ;

    /// The invalid-argument outcome for a parse failure: HTTP 400,
    /// protocol status 3, the unparsable detail quoted in the message.
    fn parsing_error(context: ProtoContext<T>, error: &str) -> (r: Self)
        requires
            context.wf(),
        ensures
            r.err_context().wf(),
            r.err_context().status == 400,
            r.err_context().spec_headers() == context.spec_headers().insert(
                "grpc-status"@,
                dec_of(3),
            ),
            context_carried_over(context, r.err_context()),
            r.err_message() == "Failed to parse '"@ + error@ + "'"@,
            r.err_cause() is None,
    ;

    /// The generic failure outcome: HTTP 400, protocol status 3.
    fn generic_error(context: ProtoContext<T>) -> (r: Self)
        requires
            context.wf(),
        ensures
            r.err_context().wf(),
            r.err_context().status == 400,
            r.err_context().spec_headers() == context.spec_headers().insert(
                "grpc-status"@,
                dec_of(3),
            ),
            context_carried_over(context, r.err_context()),
            r.err_message() == "Something didn't work!"@,
            r.err_cause() is None,
    ;

    /// The unauthenticated outcome: HTTP 401, protocol status 16.
    fn unauthorized_error(context: ProtoContext<T>) -> (r: Self)
        requires
            context.wf(),
        ensures
            r.err_context().wf(),
            r.err_context().status == 401,
            r.err_context().spec_headers() == context.spec_headers().insert(
                "grpc-status"@,
                dec_of(16),
            ),
            context_carried_over(context, r.err_context()),
            r.err_message() == "Unauthorized"@,
            r.err_cause() is None,
    ;

    /// The not-found outcome: HTTP 404, protocol status 5.
    fn not_found_error(context: ProtoContext<T>) -> (r: Self)
        requires
            context.wf(),
        ensures
            r.err_context().wf(),
            r.err_context().status == 404,
            r.err_context().spec_headers() == context.spec_headers().insert(
                "grpc-status"@,
                dec_of(5),
            ),
            context_carried_over(context, r.err_context()),
            r.err_message() == "Not found"@,
            r.err_cause() is None,
    ;
}

impl<T> ProtoErrorSet<T> for RpcError<T> {
    open spec fn err_context(&self) -> ProtoContext<T> {
        self.context
    }

    open spec fn err_message(&self) -> Seq<char> {
        self.message@
    }

    open spec fn err_cause(&self) -> Option<String> {
        self.cause
    }

    fn already_exists_error(context: ProtoContext<T>) -> (r: Self) {
        apply_outcome(context, Outcome::AlreadyExists(None))
    }

    fn parsing_error(context: ProtoContext<T>, error: &str) -> (r: Self) {
        apply_outcome(context, Outcome::InvalidArgument(Some(String::from_str(error))))
    }

    fn generic_error(context: ProtoContext<T>) -> (r: Self) {
        apply_outcome(context, Outcome::Internal(None))
    }

    fn unauthorized_error(context: ProtoContext<T>) -> (r: Self) {
        apply_outcome(context, Outcome::Unauthenticated(None))
    }

    fn not_found_error(context: ProtoContext<T>) -> (r: Self) {
        apply_outcome(context, Outcome::NotFound(None))
    }
}

} // verus!
