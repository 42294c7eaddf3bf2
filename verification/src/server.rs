//! How the relay reads the answers of the NESS server and where it pings it.

use vstd::prelude::*;
use crate::text::{chars_of, push_decimal, push_str, nat_decimal, string_of, to_owned_string};

verus! {

/// Why the server did not accept collected data.
#[derive(Debug, Clone, Copy, PartialEq, Eq, Structural)]
pub enum SendError {
    /// 401 or 403: the token was refused.
    AuthRejected(u16),
    /// A 5xx status.
    ServerError(u16),
    /// Any other status that is not a success.
    Unexpected(u16),
}

/// How an HTTP status answers a data upload: 2xx is accepted, 401 and 403
/// refuse the token, 5xx is a server error, anything else is unexpected.
pub open spec fn send_outcome_spec(status: u16) -> Result<(), SendError> {
    if 200 <= status <= 299 {
        Ok(())
    } else if status == 401 || status == 403 {
        Err(SendError::AuthRejected(status))
    } else if 500 <= status <= 599 {
        Err(SendError::ServerError(status))
    } else {
        Err(SendError::Unexpected(status))
    }
}

/// How an HTTP status answers a data upload.
pub fn send_outcome(status: u16) -> (r: Result<(), SendError>)
    ensures
        r == send_outcome_spec(status),
{
    if 200 <= status && status <= 299 {
        Ok(())
    } else if status == 401 || status == 403 {
        Err(SendError::AuthRejected(status))
    } else if 500 <= status && status <= 599 {
        Err(SendError::ServerError(status))
    } else {
        Err(SendError::Unexpected(status))
    }
}

/// The text of a refused upload.
pub open spec fn send_error_text(e: SendError) -> Seq<char> {
    match e {
        SendError::AuthRejected(s) => "Autenticación rechazada por el servidor (HTTP "@ + nat_decimal(s as nat) + ")"@,
        SendError::ServerError(s) => "Error del servidor: HTTP "@ + nat_decimal(s as nat),
        SendError::Unexpected(s) => "Respuesta inesperada: HTTP "@ + nat_decimal(s as nat),
    }
}

impl SendError {
    /// The text of a refused upload.
    pub fn message(&self) -> (r: String)
        ensures
            r@ == send_error_text(*self),
    {
        match self {
            SendError::AuthRejected(s) => {
                let mut m = to_owned_string("Autenticación rechazada por el servidor (HTTP ");
                push_decimal(&mut m, *s as u64);
                push_str(&mut m, ")");
                m
            },
            SendError::ServerError(s) => {
                let mut m = to_owned_string("Error del servidor: HTTP ");
                push_decimal(&mut m, *s as u64);
                m
            },
            SendError::Unexpected(s) => {
                let mut m = to_owned_string("Respuesta inesperada: HTTP ");
                push_decimal(&mut m, *s as u64);
                m
            },
        }
    }
}

/// An HTTPS endpoint counts as reachable when it answers with success or
/// with 401, 403 or 405 (it is there, it only refuses the request).
pub fn https_reachable(status: u16) -> (r: bool)
    ensures
        r == ((200 <= status <= 299) || status == 401 || status == 403 || status == 405),
{
    (200 <= status && status <= 299) || status == 401 || status == 403 || status == 405
}

/// `s` without its trailing `/` characters (`trim_end_matches('/')`).
pub open spec fn trim_end_slashes(s: Seq<char>) -> Seq<char>
    decreases s.len(),
{
    if s.len() > 0 && s.last() == '/' {
        trim_end_slashes(s.drop_last())
    } else {
        s
    }
}

/// The ping endpoint of the server.
pub fn ping_url(server_url: &str) -> (r: String)
    ensures
        r@ == trim_end_slashes(server_url@) + "/api/relay/ping/"@,
{
    let cs = chars_of(server_url);
    let mut end = cs.len();
    assert(cs@.take(end as int) =~= cs@);
    while end > 0 && cs[end - 1] == '/'
        invariant
            end <= cs@.len(),
            trim_end_slashes(cs@) == trim_end_slashes(cs@.take(end as int)),
        decreases end,
    {
        assert(cs@.take(end as int).drop_last() =~= cs@.take(end - 1));
        end -= 1;
    }
    let mut r = string_of(vstd::slice::slice_subrange(cs.as_slice(), 0, end));
    assert(r@ =~= cs@.take(end as int));
    push_str(&mut r, "/api/relay/ping/");
    r
}

} // verus!
