//! Bearer-token authorization.
use vstd::prelude::*;
use vstd::utf8::valid_utf8;
use crate::text::same_bytes;

verus! {

/// The whitespace that a header value can hold: a space or a tab.
pub open spec fn is_blank(b: u8) -> bool {
    b == 32 || b == 9
}

/// The first index at or after `i` whose byte is whitespace (`blank`) or is not
/// (`!blank`); `v.len()` if there is none.
pub open spec fn scan_of(v: Seq<u8>, i: int, blank: bool) -> int
    decreases v.len() - i,
{
    if i >= v.len() {
        v.len() as int
    } else if i >= 0 && is_blank(v[i]) == blank {
        i
    } else {
        scan_of(v, i + 1, blank)
    }
}

pub proof fn lemma_scan_bounds(v: Seq<u8>, i: int, blank: bool)
    requires
        0 <= i <= v.len(),
    ensures
        i <= scan_of(v, i, blank) <= v.len(),
    decreases v.len() - i,
{
    if i < v.len() && is_blank(v[i]) != blank {
        lemma_scan_bounds(v, i + 1, blank);
    }
}

/// The scan stops at `k` when the bytes from `i` up to `k` do not stop it and
/// `k` does (or is the end).
pub proof fn lemma_scan_at(v: Seq<u8>, i: int, k: int, blank: bool)
    requires
        0 <= i <= k <= v.len(),
        k < v.len() ==> is_blank(v[k]) == blank,
        forall|j: int| i <= j < k ==> is_blank(v[j]) != blank,
    ensures
        scan_of(v, i, blank) == k,
    decreases k - i,
{
    if i < k {
        lemma_scan_at(v, i + 1, k, blank);
    }
}

/// The token of an `Authorization` value: its second whitespace-separated
/// field, leading whitespace skipped; empty when it has fewer than two fields.
pub open spec fn bearer_token_of(v: Seq<u8>) -> Seq<u8> {
    let scheme_start = scan_of(v, 0, false);
    let scheme_end = scan_of(v, scheme_start, true);
    let token_start = scan_of(v, scheme_end, false);
    v.subrange(token_start, scan_of(v, token_start, true))
}

/// Why a request was turned away.
#[derive(Clone, Copy, Debug, PartialEq, Eq, Structural)]
pub enum AuthFailure {
    /// The header value is not valid UTF-8.
    UnreadableHeader,
    /// The token does not match the configured secret.
    InvalidKey,
}

pub open spec fn auth_of(header: Option<Seq<u8>>, secret: Option<Seq<u8>>) -> Result<(), AuthFailure> {
    match header {
        None => Ok(()),
        Some(h) => {
            if h.len() == 0 {
                Ok(())
            } else if !valid_utf8(h) {
                Err(AuthFailure::UnreadableHeader)
            } else {
                match secret {
                    None => Ok(()),
                    Some(s) => if bearer_token_of(h) == s {
                        Ok(())
                    } else {
                        Err(AuthFailure::InvalidKey)
                    },
                }
            }
        },
    }
}

/// The contents of an optional byte slice.
pub open spec fn bytes_of(v: Option<&[u8]>) -> Option<Seq<u8>> {
    match v {
        Some(b) => Some(b@),
        None => None,
    }
}

/// Relies on `std::str::from_utf8`: it succeeds exactly when the bytes are
/// well-formed UTF-8.
#[verifier::external_body]
fn is_utf8(v: &[u8]) -> (r: bool)
    ensures
        r == valid_utf8(v@),
{
    std::str::from_utf8(v).is_ok()
}

/// The first index at or after `i` whose byte is whitespace (`blank`) or is not.
fn scan(v: &[u8], i: usize, blank: bool) -> (r: usize)
    requires
        i <= v@.len(),
    ensures
        r as int == scan_of(v@, i as int, blank),
{
    let mut k = i;
    proof {
        lemma_scan_bounds(v@, i as int, blank);
    }
    while k < v.len() && ((v[k] == 32 || v[k] == 9) != blank)
        invariant
            i <= k <= v@.len(),
            scan_of(v@, i as int, blank) == scan_of(v@, k as int, blank),
        decreases v@.len() - k,
    {
        k = k + 1;
    }
    k
}

/// The token of an `Authorization` value: its second whitespace-separated
/// field. The scheme in front of it is not looked at.
pub fn bearer_token(v: &[u8]) -> (r: &[u8])
    ensures
        r@ == bearer_token_of(v@),
{
    proof {
        lemma_scan_bounds(v@, 0, false);
    }
    let scheme_start = scan(v, 0, false);
    proof {
        lemma_scan_bounds(v@, scheme_start as int, true);
    }
    let scheme_end = scan(v, scheme_start, true);
    proof {
        lemma_scan_bounds(v@, scheme_end as int, false);
    }
    let start = scan(v, scheme_end, false);
    proof {
        lemma_scan_bounds(v@, start as int, true);
    }
    let end = scan(v, start, true);
    let (_, rest) = v.split_at(start);
    let (token, _) = rest.split_at(end - start);
    assert(token@ =~= v@.subrange(start as int, end as int));
    token
}

/// Decides whether a request may pass, from its `Authorization` value (if any)
/// and the configured secret (if any).
///
/// An absent or empty header always passes, as does any UTF-8 header when no
/// secret is set. A header that is not valid UTF-8 is refused; otherwise the
/// token must equal the secret.
pub fn check_authorization(header: Option<&[u8]>, secret: Option<&[u8]>) -> (r: Result<(), AuthFailure>)
    ensures
        r == auth_of(bytes_of(header), bytes_of(secret)),
{
    match header {
        None => Ok(()),
        Some(h) => {
            if h.len() == 0 {
                Ok(())
            } else if !is_utf8(h) {
                Err(AuthFailure::UnreadableHeader)
            } else {
                match secret {
                    None => Ok(()),
                    Some(s) => {
                        if same_bytes(bearer_token(h), s) {
                            Ok(())
                        } else {
                            Err(AuthFailure::InvalidKey)
                        }
                    },
                }
            }
        },
    }
}

impl AuthFailure {
    /// The human-readable text sent back with the refusal.
    pub fn message(&self) -> (r: &'static str)
        ensures
            *self == AuthFailure::UnreadableHeader ==> r@
                == "Failed to get authorization header: the value is not valid UTF-8"@,
            *self == AuthFailure::InvalidKey ==> r@ == "Invalid API key."@,
    {
        match self {
            AuthFailure::UnreadableHeader => "Failed to get authorization header: the value is not valid UTF-8",
            AuthFailure::InvalidKey => "Invalid API key.",
        }
    }
}

} // verus!
