//! Routing on the first path segment, and the backend dispatcher below `/v1`.
use vstd::prelude::*;
use crate::text::{find_char_from, lemma_find_char_from_bounds, same_chars, has_prefix};

verus! {

/// The leading part of `p` up to, and not including, its second `/`
/// (the whole of `p` if there is none).
pub open spec fn root_segment_of(p: Seq<char>) -> Seq<char> {
    p.subrange(0, find_char_from(p, '/', 1))
}

/// Where the router sends a request, judged on its first path segment.
#[derive(Clone, Copy, Debug, PartialEq, Eq, Structural)]
pub enum Route {
    /// The liveness probe, answered without the backend.
    Echo,
    /// Anything under `/v1`, handed whole to the backend dispatcher.
    Backend,
    /// Any other first segment.
    NotFound,
}

pub open spec fn route_of(p: Seq<char>) -> Route {
    let root = root_segment_of(p);
    if root == "/echo"@ {
        Route::Echo
    } else if root == "/v1"@ {
        Route::Backend
    } else {
        Route::NotFound
    }
}

/// The first path segment of `path`: the text before its second `/`.
pub fn root_segment(path: &str) -> (r: &str)
    ensures
        r@ == root_segment_of(path@),
{
    let n = path.unicode_len();
    proof {
        lemma_find_char_from_bounds(path@, '/', 1);
    }
    if n == 0 {
        return path.substring_char(0, 0);
    }
    let mut k: usize = 1;
    while k < n && path.get_char(k) != '/'
        invariant
            n == path@.len(),
            1 <= k <= n,
            find_char_from(path@, '/', 1) == find_char_from(path@, '/', k as int),
        decreases n - k,
    {
        k = k + 1;
    }
    path.substring_char(0, k)
}

/// Routes a request path on its first segment.
pub fn route(path: &str) -> (r: Route)
    ensures
        r == route_of(path@),
{
    let root = root_segment(path);
    if same_chars(root, "/echo") {
        Route::Echo
    } else if same_chars(root, "/v1") {
        Route::Backend
    } else {
        Route::NotFound
    }
}

/// Which synthesis backend this server was configured with.
#[derive(Clone, Copy, Debug, PartialEq, Eq, Structural)]
pub enum BackendVariant {
    /// Speech synthesis and serving of the generated files.
    Piper,
    /// Speech synthesis only.
    GptSovits,
    /// No backend: every `/v1` request is not found.
    Disabled,
}

/// A configuration that asked for both backends at once.
#[derive(Clone, Copy, Debug, PartialEq, Eq, Structural)]
pub enum ConfigError {
    ConflictingBackends,
}

/// The operation of the backend that a `/v1` request reaches.
#[derive(Clone, Copy, Debug, PartialEq, Eq, Structural)]
pub enum BackendOp {
    SynthesizeSpeech,
    ServeFile,
    NotFound,
}

pub open spec fn serves_files(v: BackendVariant) -> bool {
    v == BackendVariant::Piper
}

pub open spec fn synthesizes(v: BackendVariant) -> bool {
    v != BackendVariant::Disabled
}

pub open spec fn is_file_path(p: Seq<char>) -> bool {
    p == "/v1/files"@ || "/v1/files/"@.is_prefix_of(p)
}

pub open spec fn backend_op_of(v: BackendVariant, p: Seq<char>) -> BackendOp {
    if synthesizes(v) && p == "/v1/audio/speech"@ {
        BackendOp::SynthesizeSpeech
    } else if serves_files(v) && is_file_path(p) {
        BackendOp::ServeFile
    } else {
        BackendOp::NotFound
    }
}

/// The file id that a file-serving path names: what follows `/v1/files/`;
/// none for the collection path `/v1/files` or any other path.
pub fn file_id(path: &str) -> (r: Option<&str>)
    ensures
        "/v1/files/"@.is_prefix_of(path@) ==> r is Some && r->Some_0@ == path@.subrange(
            "/v1/files/"@.len() as int,
            path@.len() as int,
        ),
        !"/v1/files/"@.is_prefix_of(path@) ==> r is None,
{
    let prefix = "/v1/files/";
    if has_prefix(path, prefix) {
        let n = path.unicode_len();
        Some(path.substring_char(prefix.unicode_len(), n))
    } else {
        None
    }
}

impl BackendVariant {
    /// Chooses the backend from the two switches; both at once is refused.
    pub fn select(piper: bool, gpt_sovits: bool) -> (r: Result<BackendVariant, ConfigError>)
        ensures
            piper && gpt_sovits <==> r == Err::<BackendVariant, ConfigError>(
                ConfigError::ConflictingBackends,
            ),
            piper && !gpt_sovits ==> r == Ok::<BackendVariant, ConfigError>(BackendVariant::Piper),
            !piper && gpt_sovits ==> r == Ok::<BackendVariant, ConfigError>(
                BackendVariant::GptSovits,
            ),
            !piper && !gpt_sovits ==> r == Ok::<BackendVariant, ConfigError>(
                BackendVariant::Disabled,
            ),
    {
        if piper && gpt_sovits {
            Err(ConfigError::ConflictingBackends)
        } else if piper {
            Ok(BackendVariant::Piper)
        } else if gpt_sovits {
            Ok(BackendVariant::GptSovits)
        } else {
            Ok(BackendVariant::Disabled)
        }
    }

    /// Whether this backend can serve generated files.
    pub fn has_file_serving(&self) -> (r: bool)
        ensures
            r == serves_files(*self),
    {
        matches!(self, BackendVariant::Piper)
    }

    /// Whether this backend can synthesize speech.
    pub fn has_synthesis(&self) -> (r: bool)
        ensures
            r == synthesizes(*self),
    {
        !matches!(self, BackendVariant::Disabled)
    }

    /// Picks the operation for a request whose path lies under `/v1`,
    /// judged on the full path.
    pub fn dispatch(&self, path: &str) -> (r: BackendOp)
        ensures
            r == backend_op_of(*self, path@),
    {
        if self.has_synthesis() && same_chars(path, "/v1/audio/speech") {
            BackendOp::SynthesizeSpeech
        } else if self.has_file_serving() && (same_chars(path, "/v1/files") || has_prefix(
            path,
            "/v1/files/",
        )) {
            BackendOp::ServeFile
        } else {
            BackendOp::NotFound
        }
    }
}

} // verus!
