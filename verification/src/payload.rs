//! Reading the branch out of a delivery payload.
//!
//! A payload is a JSON document whose `ref` field holds either a bare branch
//! name or a slash-delimited path ending in the branch name. The JSON read
//! is an outside call; everything after it is verified.

use vstd::prelude::*;

use crate::errors::WebhookError;

verus! {

/// The string under the `ref` key of the payload, when the payload is a JSON
/// document carrying one.
pub uninterp spec fn ref_field_of(body: Seq<char>) -> Option<Seq<char>>;

/// Relies on serde_json: `from_str::<Value>` parses the body, `Value::get`
/// reads the member under the `ref` key, and `Value::as_str` yields it when
/// it is a string. The outcome is a function of the body text alone.
#[verifier::external_body]
fn ref_field(body: &str) -> (r: Option<String>)
    ensures
        r is Some <==> ref_field_of(body@) is Some,
        r matches Some(s) ==> ref_field_of(body@) matches Some(v) && s@ == v,
{
    let parsed: serde_json::Value = match serde_json::from_str(body) {
        Ok(v) => v,
        Err(_) => return None,
    };
    match parsed.get("ref").and_then(serde_json::Value::as_str) {
        Some(s) => Some(s.to_owned()),
        None => None,
    }
}

/// The short branch name of a ref: everything after the last `/`, or the
/// whole ref when it holds no `/`.
pub open spec fn spec_ref_branch(r: Seq<char>) -> Seq<char>
    decreases r.len(),
{
    if r.len() == 0 {
        r
    } else if r.last() == '/' {
        Seq::empty()
    } else {
        spec_ref_branch(r.drop_last()).push(r.last())
    }
}

/// A ref without any `/` is its own branch name.
proof fn lemma_ref_branch_no_slash(r: Seq<char>)
    requires
        forall|k: int| 0 <= k < r.len() ==> r[k] != '/',
    ensures
        spec_ref_branch(r) == r,
    decreases r.len(),
{
    if r.len() > 0 {
        lemma_ref_branch_no_slash(r.drop_last());
        assert(spec_ref_branch(r) =~= r);
    }
}

/// When the last `/` of a ref stands at `j`, the branch name is what follows
/// it.
proof fn lemma_ref_branch_last_slash(r: Seq<char>, j: int)
    requires
        0 <= j < r.len(),
        r[j] == '/',
        forall|k: int| j < k < r.len() ==> r[k] != '/',
    ensures
        spec_ref_branch(r) == r.subrange(j + 1, r.len() as int),
    decreases r.len(),
{
    if j == r.len() - 1 {
        assert(spec_ref_branch(r) =~= r.subrange(j + 1, r.len() as int));
    } else {
        lemma_ref_branch_last_slash(r.drop_last(), j);
        assert(spec_ref_branch(r) =~= r.subrange(j + 1, r.len() as int));
    }
}

/// The executable twin of [`spec_ref_branch`]: normalizes a fully qualified
/// ref down to its short branch name.
pub fn ref_branch(r: &str) -> (b: String)
    ensures
        b@ == spec_ref_branch(r@),
{
    let n = r.unicode_len();
    let mut i: usize = 0;
    let mut last_slash: Option<usize> = None;
    while i < n
        invariant
            n == r@.len(),
            i <= n,
            last_slash matches Some(j) ==> j < i && r@[j as int] == '/' && (forall|k: int|
                j < k < i ==> r@[k] != '/'),
            last_slash is None ==> forall|k: int| 0 <= k < i ==> r@[k] != '/',
        decreases n - i,
    {
        if r.get_char(i) == '/' {
            last_slash = Some(i);
        }
        i += 1;
    }
    match last_slash {
        Some(j) => {
            proof {
                lemma_ref_branch_last_slash(r@, j as int);
            }
            let tail = r.substring_char(j + 1, n);
            tail.to_owned()
        },
        None => {
            proof {
                lemma_ref_branch_no_slash(r@);
            }
            r.to_owned()
        },
    }
}

/// What branch extraction yields for a given payload.
pub open spec fn spec_extract_branch(body: Seq<char>) -> Result<Seq<char>, WebhookError> {
    match ref_field_of(body) {
        Option::None => Result::Err(WebhookError::MalformedPayload),
        Option::Some(v) => Result::Ok(spec_ref_branch(v)),
    }
}

/// Reads the `ref` field of the payload and normalizes it to the short
/// branch name. Pure: no resource state is consulted and no lock is held.
pub fn extract_branch(body: &str) -> (r: Result<String, WebhookError>)
    ensures
        r is Ok <==> spec_extract_branch(body@) is Ok,
        r matches Ok(b) ==> spec_extract_branch(body@) matches Ok(v) && b@ == v,
        r matches Err(e) ==> e == WebhookError::MalformedPayload,
{
    match ref_field(body) {
        Some(ref_value) => Ok(ref_branch(ref_value.as_str())),
        None => Err(WebhookError::MalformedPayload),
    }
}

} // verus!
