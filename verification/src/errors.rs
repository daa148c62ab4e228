//! The crawler's errors, and how Telegram failures map onto them.

use vstd::prelude::*;
use vstd::std_specs::convert::FromSpecImpl;
use crate::text::chars_of;

verus! {

/// An error the Telegram server answered a request with.
#[derive(Clone, Debug)]
pub struct RpcErr {
    pub code: i32,
    pub name: String,
    pub value: Option<u32>,
}

/// Why invoking a Telegram request failed.
#[derive(Clone, Debug)]
pub enum InvocationFailure {
    /// The server answered with an error.
    Rpc(RpcErr),
    /// The connection or the transport failed.
    Other,
}

/// Why logging in to Telegram failed.
#[derive(Clone, Debug)]
pub enum AuthorizationFailure {
    /// A request made while logging in failed.
    Invocation(InvocationFailure),
    /// Reading or writing the session failed.
    Io,
    /// Generating the authorization key failed.
    Gen,
}

/// The crawler's error.
#[derive(Clone, Debug)]
pub enum GenErr {
    /// The database failed; the text describes how.
    DB(String),
    Io,
    /// The Telegram server answered with an error.
    TGRPC(RpcErr),
    /// The connection to Telegram failed.
    TGConnection,
    /// Logging in failed.
    TGAuth(AuthorizationFailure),
    /// Telegram's answer did not hold what was asked for.
    TGConverter,
    /// Encoding or decoding JSON failed; the text describes how.
    JSON(String),
    /// A download gave no bytes or the media cannot be downloaded.
    Download,
}

/// The name of the error for a username that nobody holds.
pub open spec fn username_not_occupied() -> Seq<char> {
    "USERNAME_NOT_OCCUPIED"@
}

/// Whether `e` is the server's "bad request" answer (code 400).
pub open spec fn spec_is_tg_not_found(e: GenErr) -> bool {
    match e {
        GenErr::TGRPC(rpc) => rpc.code == 400,
        _ => false,
    }
}

/// Whether `e` says that nobody holds the username asked about.
pub open spec fn spec_is_tg_username_free(e: GenErr) -> bool {
    match e {
        GenErr::TGRPC(rpc) => rpc.code == 400 && rpc.name@ == username_not_occupied(),
        _ => false,
    }
}

/// The crawler's error for a failed invocation.
pub open spec fn gen_err_from_invocation(inv: InvocationFailure) -> GenErr {
    match inv {
        InvocationFailure::Rpc(rpc) => GenErr::TGRPC(rpc),
        InvocationFailure::Other => GenErr::TGConnection,
    }
}

/// The crawler's error for a failed login.
pub open spec fn gen_err_from_authorization(e: AuthorizationFailure) -> GenErr {
    match e {
        AuthorizationFailure::Invocation(inv) => gen_err_from_invocation(inv),
        _ => GenErr::TGAuth(e),
    }
}

impl GenErr {
    /// Whether this is the server's "bad request" answer (code 400).
    pub fn is_tg_not_found(&self) -> (r: bool)
        ensures
            r == spec_is_tg_not_found(*self),
    {
        match self {
            GenErr::TGRPC(rpc) => rpc.code == 400,
            _ => false,
        }
    }

    /// Whether this says that nobody holds the username asked about.
    pub fn is_tg_username_free(&self) -> (r: bool)
        ensures
            r == spec_is_tg_username_free(*self),
    {
        match self {
            GenErr::TGRPC(rpc) => {
                if rpc.code == 400 {
                    let name = chars_of(rpc.name.as_str());
                    let expected = chars_of("USERNAME_NOT_OCCUPIED");
                    crate::text::chars_equal(&name, &expected)
                } else {
                    false
                }
            },
            _ => false,
        }
    }
}

impl From<InvocationFailure> for GenErr {
    fn from(inv: InvocationFailure) -> (r: GenErr) {
        match inv {
            InvocationFailure::Rpc(rpc) => GenErr::TGRPC(rpc),
            InvocationFailure::Other => GenErr::TGConnection,
        }
    }
}

impl FromSpecImpl<InvocationFailure> for GenErr {
    open spec fn obeys_from_spec() -> bool {
        true
    }

    open spec fn from_spec(inv: InvocationFailure) -> GenErr {
        gen_err_from_invocation(inv)
    }
}

impl From<AuthorizationFailure> for GenErr {
    fn from(e: AuthorizationFailure) -> (r: GenErr) {
        match e {
            AuthorizationFailure::Invocation(inv) => GenErr::from(inv),
            _ => GenErr::TGAuth(e),
        }
    }
}

impl FromSpecImpl<AuthorizationFailure> for GenErr {
    open spec fn obeys_from_spec() -> bool {
        true
    }

    open spec fn from_spec(e: AuthorizationFailure) -> GenErr {
        gen_err_from_authorization(e)
    }
}

/// A username that nobody holds is a "bad request" answer.
pub proof fn lemma_username_free_is_not_found(e: GenErr)
    ensures
        spec_is_tg_username_free(e) ==> spec_is_tg_not_found(e),
{
}

/// A failed request made while logging in maps to the same error as the
/// failed request on its own; every other login failure stays a login error.
pub proof fn lemma_authorization_error_mapping(e: AuthorizationFailure)
    ensures
        e matches AuthorizationFailure::Invocation(inv) ==> gen_err_from_authorization(e)
            == gen_err_from_invocation(inv),
        !(e is Invocation) ==> gen_err_from_authorization(e) == GenErr::TGAuth(e),
        !(gen_err_from_authorization(e) is TGAuth) <==> (e is Invocation),
{
}

/// The server's answers as the crawler reads them: a "bad request" is any
/// RPC error with code 400; the username is free exactly on the code 400
/// error named `USERNAME_NOT_OCCUPIED`; a failed request becomes the RPC
/// error it carries, or a connection error when it carries none.
pub proof fn lemma_rpc_error_reading(e: GenErr, inv: InvocationFailure)
    ensures
        spec_is_tg_not_found(e) <==> (e matches GenErr::TGRPC(rpc) && rpc.code == 400),
        spec_is_tg_username_free(e) <==> (e matches GenErr::TGRPC(rpc) && rpc.code == 400
            && rpc.name@ == "USERNAME_NOT_OCCUPIED"@),
        inv matches InvocationFailure::Rpc(rpc) ==> gen_err_from_invocation(inv) == GenErr::TGRPC(
            rpc,
        ),
        inv is Other ==> gen_err_from_invocation(inv) == GenErr::TGConnection,
{
}

} // verus!
