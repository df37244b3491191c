//! The per-request pipeline: the liveness probe, the bearer-token check, the
//! router and the backend dispatcher, as one decision over the request's
//! path and `Authorization` value.
use vstd::prelude::*;
use vstd::string::StringExecFns;
use vstd::utf8::encode_utf8;
use crate::auth::{AuthFailure, auth_of, bytes_of, check_authorization};
use crate::routing::{BackendOp, BackendVariant, Route, backend_op_of, route, route_of};

verus! {

/// The settings fixed at startup and shared, read-only, by every request.
#[derive(Clone, Debug)]
pub struct ServerConfig {
    secret: Option<String>,
    backend: BackendVariant,
}

/// What the server does with one request.
#[derive(Clone, Copy, Debug, PartialEq, Eq, Structural)]
pub enum Plan {
    /// Answer the liveness probe.
    Echo,
    /// Refuse the request.
    Unauthorized(AuthFailure),
    /// Hand the request to the backend's speech synthesis.
    SynthesizeSpeech,
    /// Hand the request to the backend's file serving.
    ServeFile,
    /// Answer that nothing is found at the path.
    NotFound,
}

/// A response that the server writes itself, without the backend.
#[derive(Clone, Debug)]
pub struct Reply {
    pub status: u16,
    pub body: String,
}

/// Where an admitted request goes, by its path alone.
pub open spec fn routed_plan_of(backend: BackendVariant, path: Seq<char>) -> Plan {
    match route_of(path) {
        Route::Echo => Plan::Echo,
        Route::Backend => match backend_op_of(backend, path) {
            BackendOp::SynthesizeSpeech => Plan::SynthesizeSpeech,
            BackendOp::ServeFile => Plan::ServeFile,
            BackendOp::NotFound => Plan::NotFound,
        },
        Route::NotFound => Plan::NotFound,
    }
}

/// The plan for a request: the liveness probe is answered whatever the headers;
/// any other request passes the token check first, then goes where its path leads.
pub open spec fn plan_of(
    backend: BackendVariant,
    secret: Option<Seq<u8>>,
    path: Seq<char>,
    header: Option<Seq<u8>>,
) -> Plan {
    if route_of(path) == Route::Echo {
        Plan::Echo
    } else {
        match auth_of(header, secret) {
            Err(f) => Plan::Unauthorized(f),
            Ok(_) => routed_plan_of(backend, path),
        }
    }
}

pub open spec fn echo_body() -> Seq<char> {
    "echo test"@
}

/// The status of the response the server writes itself; none where the backend answers.
pub open spec fn reply_status_of(p: Plan) -> Option<u16> {
    match p {
        Plan::Echo => Some(200),
        Plan::Unauthorized(_) => Some(401),
        Plan::NotFound => Some(404),
        _ => None,
    }
}

/// The body of that response: the probe's fixed text, the refusal's message, or
/// the path that was not found.
pub open spec fn reply_body_of(p: Plan, path: Seq<char>) -> Seq<char> {
    match p {
        Plan::Echo => echo_body(),
        Plan::Unauthorized(AuthFailure::UnreadableHeader) =>
            "Failed to get authorization header: the value is not valid UTF-8"@,
        Plan::Unauthorized(AuthFailure::InvalidKey) => "Invalid API key."@,
        _ => path,
    }
}

impl ServerConfig {
    /// The secret that bearer tokens are held to, as bytes; none when
    /// authentication is off.
    pub closed spec fn secret_bytes(&self) -> Option<Seq<u8>> {
        match self.secret {
            Some(s) => Some(encode_utf8(s@)),
            None => None,
        }
    }

    pub closed spec fn backend_spec(&self) -> BackendVariant {
        self.backend
    }

    /// Fixes the secret (none turns authentication off) and the backend for
    /// the life of the server.
    pub fn new(secret: Option<String>, backend: BackendVariant) -> (r: ServerConfig)
        ensures
            r.backend_spec() == backend,
            r.secret_bytes() == match secret {
                Some(s) => Some(encode_utf8(s@)),
                None => None::<Seq<u8>>,
            },
    {
        ServerConfig { secret, backend }
    }

    pub fn backend(&self) -> (r: BackendVariant)
        ensures
            r == self.backend_spec(),
    {
        self.backend
    }

    /// Whether requests are held to a secret.
    pub fn requires_token(&self) -> (r: bool)
        ensures
            r == self.secret_bytes().is_some(),
    {
        self.secret.is_some()
    }

    /// Decides what to do with a request to `path` whose `Authorization`
    /// value, if it has one, is `authorization`.
    pub fn plan(&self, path: &str, authorization: Option<&[u8]>) -> (r: Plan)
        ensures
            r == plan_of(self.backend_spec(), self.secret_bytes(), path@, bytes_of(authorization)),
    {
        let to = route(path);
        if to == Route::Echo {
            return Plan::Echo;
        }
        let secret: Option<&[u8]> = match &self.secret {
            Some(s) => Some(s.as_str().as_bytes()),
            None => None,
        };
        match check_authorization(authorization, secret) {
            Err(f) => Plan::Unauthorized(f),
            Ok(_) => match to {
                Route::Backend => match self.backend.dispatch(path) {
                    BackendOp::SynthesizeSpeech => Plan::SynthesizeSpeech,
                    BackendOp::ServeFile => Plan::ServeFile,
                    BackendOp::NotFound => Plan::NotFound,
                },
                _ => Plan::NotFound,
            },
        }
    }
}

impl Plan {
    /// The response the server writes itself for this plan on a request to
    /// `path`; none where the backend answers.
    pub fn reply(&self, path: &str) -> (r: Option<Reply>)
        ensures
            r.is_some() == reply_status_of(*self).is_some(),
            r.is_some() ==> Some(r->Some_0.status) == reply_status_of(*self)
                && r->Some_0.body@ == reply_body_of(*self, path@),
    {
        match self {
            Plan::Echo => Some(Reply { status: 200, body: "echo test".to_owned() }),
            Plan::Unauthorized(f) => Some(Reply { status: 401, body: f.message().to_owned() }),
            Plan::NotFound => Some(Reply { status: 404, body: path.to_owned() }),
            _ => None,
        }
    }
}

} // verus!
