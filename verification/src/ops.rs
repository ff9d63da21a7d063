//! Decoding of whole response bodies: the envelope around the `list` array,
//! the all-or-nothing mapping of its elements into entries, and the error
//! taxonomy that tells transport failures, malformed payloads and
//! structurally unexpected responses apart.

use vstd::prelude::*;
use crate::json::{Jv, json_doc_of, json_model, jv_as_array, jv_get, obj_arr, parse_json};
use crate::model::{DefView, Definition, spec_decode};

verus! {

/// Declares `reqwest::Error`, the transport error the HTTP client reports.
#[verifier::external_type_specification]
#[verifier::external_body]
pub struct ExReqwestError(reqwest::Error);

/// Errors for the library.
///
/// The three kinds are mutually exclusive: the request itself failed, the
/// response body was not JSON at all, or it was valid JSON without the
/// expected structure.
#[derive(Debug)]
pub enum UrbanError {
    /// Produced when the HTTP client fails; propagated unchanged.
    ReqwestError(reqwest::Error),
    /// Produced when the response body could not be parsed as JSON.
    SerdeError(serde_json::Error),
    /// Produced when the JSON received is valid but does not have the
    /// expected structure of a response envelope full of entries.
    UnknownJsonError,
}

/// The `list` array inside the response envelope, if the response is a JSON
/// object carrying a `list` field that is an array.
pub open spec fn envelope_list(j: Jv) -> Option<Seq<Jv>> {
    if j is Obj {
        obj_arr(j->fields, "list"@)
    } else {
        None
    }
}

/// What decoding every element of the `list` array yields: the entries in
/// order, or nothing at all if any single element fails to decode.
pub open spec fn decode_all(a: Seq<Jv>) -> Option<Seq<DefView>>
    decreases a.len(),
{
    if a.len() == 0 {
        Some(Seq::empty())
    } else {
        if decode_all(a.drop_last()) is Some && spec_decode(a.last()) is Some {
            Some(decode_all(a.drop_last())->Some_0.push(spec_decode(a.last())->Some_0))
        } else {
            None
        }
    }
}

/// Law: decoding the list is strict and all-or-nothing. It succeeds exactly
/// when every element decodes, and then yields each element's entry in the
/// original order.
pub proof fn lemma_decode_all(a: Seq<Jv>)
    ensures
        decode_all(a) is Some <==> (forall|i: int|
            0 <= i < a.len() ==> spec_decode(#[trigger] a[i]) is Some),
        decode_all(a) is Some ==> {
            let ds = decode_all(a)->Some_0;
            &&& ds.len() == a.len()
            &&& forall|i: int| 0 <= i < a.len() ==> #[trigger] ds[i] == spec_decode(a[i])->Some_0
        },
    decreases a.len(),
{
    if a.len() > 0 {
        let d = a.drop_last();
        lemma_decode_all(d);
        assert(a.last() == a[a.len() - 1]);
        if decode_all(a) is Some {
            assert forall|i: int| 0 <= i < a.len() implies spec_decode(#[trigger] a[i]) is Some by {
                if i < a.len() - 1 {
                    assert(a[i] == d[i]);
                    assert(spec_decode(d[i]) is Some);
                }
            }
            let ds = decode_all(a)->Some_0;
            let dsd = decode_all(d)->Some_0;
            assert forall|i: int|
                0 <= i < a.len() implies #[trigger] ds[i] == spec_decode(a[i])->Some_0 by {
                if i < a.len() - 1 {
                    assert(ds[i] == dsd[i]);
                    assert(a[i] == d[i]);
                }
            }
        } else {
            if decode_all(d) is None {
                let i = choose|i: int| 0 <= i < d.len() && !(spec_decode(#[trigger] d[i]) is Some);
                assert(a[i] == d[i]);
                assert(!(spec_decode(a[i]) is Some));
            } else {
                assert(!(spec_decode(a[a.len() - 1]) is Some));
            }
        }
    }
}

/// Decode a raw response body for a lookup that yields a list of entries.
///
/// A body that is not JSON yields the malformed-payload error; valid JSON
/// without a `list` array, or with any list element that fails to decode,
/// yields the unexpected-structure error; otherwise every element decodes
/// and the entries come back in order. An empty list is a success.
pub fn parse_list_response(body: &str) -> (r: Result<Vec<Definition>, UrbanError>)
    ensures
        match json_doc_of(body@) {
            None => r matches Err(UrbanError::SerdeError(_)),
            Some(j) => match envelope_list(j) {
                None => r matches Err(UrbanError::UnknownJsonError),
                Some(a) => match decode_all(a) {
                    None => r matches Err(UrbanError::UnknownJsonError),
                    Some(ds) => {
                        &&& r is Ok
                        &&& r->Ok_0@.len() == ds.len()
                        &&& forall|i: int| 0 <= i < ds.len() ==> #[trigger] r->Ok_0@[i]@ == ds[i]
                    },
                },
            },
        },
{
    let doc = match parse_json(body) {
        Ok(d) => d,
        Err(e) => {
            return Err(UrbanError::SerdeError(e));
        },
    };
    let list_val = match jv_get(&doc, "list") {
        Some(l) => l,
        None => {
            return Err(UrbanError::UnknownJsonError);
        },
    };
    let arr = match jv_as_array(list_val) {
        Some(a) => a,
        None => {
            return Err(UrbanError::UnknownJsonError);
        },
    };
    let ghost elems = envelope_list(json_model(doc))->Some_0;
    let mut out: Vec<Definition> = Vec::new();
    let mut i: usize = 0;
    while i < arr.len()
        invariant
            i <= arr.len(),
            json_doc_of(body@) is Some,
            envelope_list(json_doc_of(body@)->Some_0) == Some(elems),
            arr@.len() == elems.len(),
            forall|k: int| 0 <= k < elems.len() ==> #[trigger] json_model(arr@[k]) == elems[k],
            out@.len() == i,
            forall|k: int| 0 <= k < i ==> spec_decode(#[trigger] elems[k]) is Some,
            forall|k: int| 0 <= k < i ==> #[trigger] out@[k]@ == spec_decode(elems[k])->Some_0,
        decreases arr.len() - i,
    {
        match Definition::new(&arr[i]) {
            Some(d) => {
                out.push(d);
            },
            None => {
                proof {
                    assert(json_model(arr@[i as int]) == elems[i as int]);
                    assert(!(spec_decode(elems[i as int]) is Some));
                    lemma_decode_all(elems);
                    assert(decode_all(elems) is None);
                }
                return Err(UrbanError::UnknownJsonError);
            },
        }
        i = i + 1;
    }
    proof {
        lemma_decode_all(elems);
    }
    Ok(out)
}

/// Decode a raw response body for a lookup by identifier.
///
/// Only the first list element counts: an empty list is the successful
/// "no result" outcome, and a first element that fails to decode yields the
/// unexpected-structure error. The errors fall exactly as for a list lookup.
pub fn parse_defid_response(body: &str) -> (r: Result<Option<Definition>, UrbanError>)
    ensures
        match json_doc_of(body@) {
            None => r matches Err(UrbanError::SerdeError(_)),
            Some(j) => match envelope_list(j) {
                None => r matches Err(UrbanError::UnknownJsonError),
                Some(a) => {
                    if a.len() == 0 {
                        r is Ok && r->Ok_0 is None
                    } else {
                        match spec_decode(a[0]) {
                            None => r matches Err(UrbanError::UnknownJsonError),
                            Some(d) => r is Ok && r->Ok_0 is Some && r->Ok_0->Some_0@ == d,
                        }
                    }
                },
            },
        },
{
    let doc = match parse_json(body) {
        Ok(d) => d,
        Err(e) => {
            return Err(UrbanError::SerdeError(e));
        },
    };
    let list_val = match jv_get(&doc, "list") {
        Some(l) => l,
        None => {
            return Err(UrbanError::UnknownJsonError);
        },
    };
    let arr = match jv_as_array(list_val) {
        Some(a) => a,
        None => {
            return Err(UrbanError::UnknownJsonError);
        },
    };
    if arr.len() == 0 {
        return Ok(None);
    }
    match Definition::new(&arr[0]) {
        Some(d) => Ok(Some(d)),
        None => Err(UrbanError::UnknownJsonError),
    }
}

} // verus!
