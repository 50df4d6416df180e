//! The model lister: from the upstream's tags list to the model names.
use vstd::prelude::*;
use crate::error::ProxyError;
use crate::sse::texts;
use crate::forward::{is_success_status, is_upstream_error, success_status, upstream_error};

verus! {

/// One model descriptor of a tags list.
#[derive(Clone, Debug)]
pub struct OllamaModel {
    pub name: String,
    pub modified_at: Option<String>,
    pub size: Option<u64>,
}

/// A tags list as the upstream sends it.
#[derive(Clone, Debug)]
pub struct OllamaTagsResponse {
    pub models: Vec<OllamaModel>,
}

/// The names of the listed models, in upstream order.
pub open spec fn names_of(t: OllamaTagsResponse) -> Seq<Seq<char>> {
    t.models@.map_values(|m: OllamaModel| m.name@)
}

/// Collects the model names of a tags list, keeping their order.
pub fn model_names(tags: OllamaTagsResponse) -> (r: Vec<String>)
    ensures
        texts(r@) == names_of(tags),
{
    let mut out: Vec<String> = Vec::new();
    let n = tags.models.len();
    let mut i: usize = 0;
    while i < n
        invariant
            n == tags.models@.len(),
            0 <= i <= n,
            texts(out@) =~= names_of(tags).take(i as int),
        decreases n - i,
    {
        let name = tags.models[i].name.clone();
        let ghost prev = out@;
        out.push(name);
        assert(out@ == prev.push(name));
        assert(names_of(tags)[i as int] == name@);
        assert(texts(out@) =~= texts(prev).push(name@));
        assert(texts(out@) =~= names_of(tags).take(i + 1));
        i = i + 1;
    }
    assert(names_of(tags).take(n as int) =~= names_of(tags));
    out
}

/// The outcome of a model-list call from what the upstream sent back: the
/// status, the error body where it is no success, and the decoded list (or
/// the decoder's message) where it is.
pub fn models_outcome(
    status: u16,
    error_body: Option<String>,
    decoded: Result<OllamaTagsResponse, String>,
) -> (r: Result<Vec<String>, ProxyError>)
    ensures
        !success_status(status) ==> r is Err && is_upstream_error(r->Err_0, status, error_body),
        success_status(status) ==> match decoded {
            Ok(t) => r is Ok && texts(r->Ok_0@) == names_of(t),
            Err(m) => r is Err && r->Err_0 is Decode && r->Err_0->Decode_0@ == m@,
        },
{
    if !is_success_status(status) {
        return Err(upstream_error(status, error_body));
    }
    match decoded {
        Ok(t) => Ok(model_names(t)),
        Err(m) => Err(ProxyError::Decode(m)),
    }
}

} // verus!
