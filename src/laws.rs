//! Properties of the request pipeline as a whole.
use vstd::prelude::*;
use crate::auth::{
    AuthFailure, auth_of, bearer_token_of, is_blank, lemma_scan_at,
};
use crate::routing::{Route, root_segment_of, route_of, backend_op_of, BackendOp};
use crate::server::{Plan, ServerConfig, plan_of, routed_plan_of, reply_status_of, reply_body_of, echo_body};
use crate::text::lemma_find_char_at;
use vstd::utf8::{
    is_leading_byte_width_1, pop_first_scalar, valid_first_scalar, valid_utf8, valid_utf8_concat,
};

verus! {

/// The bytes of `Authorization: Bearer <token>`'s value.
pub open spec fn bearer_header(token: Seq<u8>) -> Seq<u8> {
    seq![66u8, 101u8, 97u8, 114u8, 101u8, 114u8, 32u8] + token
}

/// Bytes below 128 are each a whole scalar of UTF-8.
proof fn lemma_ascii_valid_utf8(b: Seq<u8>)
    requires
        forall|i: int| 0 <= i < b.len() ==> b[i] < 128,
    ensures
        valid_utf8(b),
    decreases b.len(),
{
    if b.len() > 0 {
        assert(is_leading_byte_width_1(b[0]));
        assert(valid_first_scalar(b));
        assert(pop_first_scalar(b) =~= b.subrange(1, b.len() as int));
        lemma_ascii_valid_utf8(b.subrange(1, b.len() as int));
    }
}

/// A request without an `Authorization` header is never stopped by the token check:
/// whether or not a secret is set, it goes where its path leads.
pub proof fn lemma_absent_header_reaches_router(config: ServerConfig, path: Seq<char>)
    ensures
        auth_of(None, config.secret_bytes()) == Ok::<(), AuthFailure>(()),
        plan_of(config.backend_spec(), config.secret_bytes(), path, None)
            == routed_plan_of(config.backend_spec(), path),
{
}

/// With a secret set, a request carrying `Authorization: Bearer X` (with `X`
/// well-formed UTF-8 holding no space or tab) is let through exactly when `X` is the
/// secret, and is refused as unauthorized otherwise.
pub proof fn lemma_bearer_token_must_match(config: ServerConfig, token: Seq<u8>, path: Seq<char>)
    requires
        config.secret_bytes().is_some(),
        valid_utf8(token),
        forall|i: int| 0 <= i < token.len() ==> !is_blank(token[i]),
        route_of(path) != Route::Echo,
    ensures
        auth_of(Some(bearer_header(token)), config.secret_bytes()) == Ok::<(), AuthFailure>(())
            <==> token == config.secret_bytes()->Some_0,
        token == config.secret_bytes()->Some_0 ==> plan_of(
            config.backend_spec(),
            config.secret_bytes(),
            path,
            Some(bearer_header(token)),
        ) == routed_plan_of(config.backend_spec(), path),
        token != config.secret_bytes()->Some_0 ==> plan_of(
            config.backend_spec(),
            config.secret_bytes(),
            path,
            Some(bearer_header(token)),
        ) == Plan::Unauthorized(AuthFailure::InvalidKey) && reply_status_of(
            Plan::Unauthorized(AuthFailure::InvalidKey),
        ) == Some(401u16),
{
    let h = bearer_header(token);
    let scheme = seq![66u8, 101u8, 97u8, 114u8, 101u8, 114u8, 32u8];
    lemma_ascii_valid_utf8(scheme);
    valid_utf8_concat(scheme, token);
    assert(h == scheme + token);
    lemma_scan_at(h, 0, 0, false);
    lemma_scan_at(h, 0, 6, true);
    assert forall|j: int| 7 <= j < h.len() implies !is_blank(h[j]) by {
        assert(h[j] == token[j - 7]);
    }
    lemma_scan_at(h, 6, 7, false);
    lemma_scan_at(h, 7, h.len() as int, true);
    assert(bearer_token_of(h) =~= token);
}

/// `/echo` is answered with status 200 and a non-empty body, whatever the
/// headers, the secret and the backend.
pub proof fn lemma_echo_always_answers(config: ServerConfig, header: Option<Seq<u8>>)
    ensures
        plan_of(config.backend_spec(), config.secret_bytes(), "/echo"@, header) == Plan::Echo,
        reply_status_of(Plan::Echo) == Some(200u16),
        reply_body_of(Plan::Echo, "/echo"@).len() > 0,
{
    reveal_strlit("/echo");
    reveal_strlit("echo test");
    let p = "/echo"@;
    lemma_find_char_at(p, '/', 1, 5);
    assert(root_segment_of(p) =~= p);
    assert(echo_body().len() == 9);
}

/// Asking `/echo` twice gives two equal answers of status 200: the answer
/// depends on nothing that a request could change.
pub proof fn lemma_echo_repeatable(config: ServerConfig, first: Option<Seq<u8>>, second: Option<Seq<u8>>)
    ensures
        plan_of(config.backend_spec(), config.secret_bytes(), "/echo"@, first) == plan_of(
            config.backend_spec(),
            config.secret_bytes(),
            "/echo"@,
            second,
        ),
        reply_status_of(plan_of(config.backend_spec(), config.secret_bytes(), "/echo"@, first))
            == Some(200u16),
{
    lemma_echo_always_answers(config, first);
    lemma_echo_always_answers(config, second);
}

/// An admitted request to `/v1/unknown` is not found, whatever the backend,
/// and the answer's body is the path itself.
pub proof fn lemma_unknown_v1_path_not_found(config: ServerConfig, header: Option<Seq<u8>>)
    requires
        auth_of(header, config.secret_bytes()) is Ok,
    ensures
        plan_of(config.backend_spec(), config.secret_bytes(), "/v1/unknown"@, header)
            == Plan::NotFound,
        reply_status_of(Plan::NotFound) == Some(404u16),
        reply_body_of(Plan::NotFound, "/v1/unknown"@) == "/v1/unknown"@,
{
    reveal_strlit("/v1/unknown");
    reveal_strlit("/v1");
    reveal_strlit("/echo");
    reveal_strlit("/v1/audio/speech");
    reveal_strlit("/v1/files");
    reveal_strlit("/v1/files/");
    let p = "/v1/unknown"@;
    lemma_find_char_at(p, '/', 1, 3);
    assert(root_segment_of(p) =~= "/v1"@);
    assert(root_segment_of(p) != "/echo"@);
    assert(p != "/v1/audio/speech"@);
    assert(p != "/v1/files"@);
    assert(p[4] != "/v1/files/"@[4]);
    assert(!"/v1/files/"@.is_prefix_of(p));
    assert(backend_op_of(config.backend_spec(), p) == BackendOp::NotFound);
}

} // verus!
