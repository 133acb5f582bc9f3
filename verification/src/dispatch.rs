//! Dispatch planning: turning a stored case into the one outbound request
//! it describes, or refusing it. The transport itself stays outside; the
//! captured outcome comes back through `CaseStore::record_response`.

use vstd::prelude::*;

use crate::errors::ApiError;
use crate::model::{filter_db_all_record, CaseModel, CaseModelAllResponse, CaseV};
use crate::store::{has_id, index_of, lookup, resp_all_matches, with_response, CaseStore};
use crate::text::{to_upper_ascii, upper_of};

verus! {

/// The request a case asks for. A read carries no body at all; a write
/// carries exactly the stored payload.
pub enum PlannedRequest {
    Get { url: String },
    Post { url: String, body: String },
}

/// The verb a case dispatches under: its stored method uppercased, or
/// `GET` where none (or an empty one) is stored.
pub open spec fn norm_method(c: CaseV) -> Seq<char> {
    match c.method {
        Some(m) => if m.len() == 0 {
            "GET"@
        } else {
            upper_of(m)
        },
        None => "GET"@,
    }
}

/// The target a case is dispatched at: its host and uri, joined verbatim.
pub open spec fn target_url(c: CaseV) -> Seq<char> {
    c.host + c.uri
}

/// The payload a bodied dispatch sends: the stored request body, or the
/// empty string where none is stored.
pub open spec fn payload(c: CaseV) -> Seq<char> {
    match c.request_body {
        Some(b) => b,
        None => Seq::<char>::empty(),
    }
}

/// Plans the outbound request a case describes. `GET` plans carry no body;
/// `POST` plans carry exactly the stored payload; every other verb is
/// refused, named in the failure, and nothing is planned.
pub fn plan_dispatch(case: &CaseModel) -> (r: Result<PlannedRequest, ApiError>)
    ensures
        r is Ok <==> (norm_method(case@) == "GET"@ || norm_method(case@) == "POST"@),
        norm_method(case@) == "GET"@ ==> (r matches Ok(p) && p matches PlannedRequest::Get {
            url,
        } && url@ == target_url(case@)),
        norm_method(case@) == "POST"@ ==> (r matches Ok(p) && p matches PlannedRequest::Post {
            url,
            body,
        } && url@ == target_url(case@) && body@ == payload(case@)),
        r matches Err(e) ==> (e matches ApiError::MethodNotSupported(m) && m@ == norm_method(
            case@,
        )),
{
    proof {
        reveal_strlit("GET");
        reveal_strlit("POST");
        assert("GET"@.len() == 3 && "POST"@.len() == 4);
        assert("GET"@ != "POST"@);
    }
    let method: String = match &case.method {
        Some(s) => {
            if s.as_str().unicode_len() == 0 {
                "GET".to_owned()
            } else {
                to_upper_ascii(s.as_str())
            }
        },
        None => "GET".to_owned(),
    };
    let url: String = case.host.clone().concat(case.uri.as_str());
    if method == "GET".to_owned() {
        Ok(PlannedRequest::Get { url })
    } else if method == "POST".to_owned() {
        Ok(PlannedRequest::Post {
            url,
            body: match &case.request_body {
                Some(b) => b.clone(),
                None => String::new(),
            },
        })
    } else {
        Err(ApiError::MethodNotSupported(method))
    }
}

/// Plans the dispatch of the stored case an identifier names: `NotFound`
/// where nothing is stored, otherwise whatever the record plans to. Reads
/// only; the store cannot change here.
pub fn plan_for(store: &CaseStore, id: &str) -> (r: Result<PlannedRequest, ApiError>)
    requires
        store.wf(),
    ensures
        !has_id(store@, id@) <==> (r matches Err(e) && e matches ApiError::NotFound),
        has_id(store@, id@) ==> {
            let c = lookup(store@, id@)->0;
            &&& (r is Ok <==> (norm_method(c) == "GET"@ || norm_method(c) == "POST"@))
            &&& (norm_method(c) == "GET"@ ==> (r matches Ok(p) && p matches PlannedRequest::Get {
                url,
            } && url@ == target_url(c)))
            &&& (norm_method(c) == "POST"@ ==> (r matches Ok(p) && p
                matches PlannedRequest::Post { url, body } && url@ == target_url(c) && body@
                == payload(c)))
            &&& (r matches Err(e) ==> (e matches ApiError::MethodNotSupported(m) && m@
                == norm_method(c)))
        },
{
    let case = match store.get(id) {
        Ok(c) => c,
        Err(_) => {
            return Err(ApiError::NotFound);
        },
    };
    plan_dispatch(&case)
}

/// What the transport came back with: a response — any status line counts,
/// refusals included — or no response at all.
pub enum TransportResult {
    /// The target answered; the status line and the body text, the latter
    /// empty where reading it failed.
    Delivered { code: String, body: String },
    /// The target was never reached; the transport's own description.
    Failed { cause: String },
}

/// Concludes a dispatch from what the transport reported: a delivered
/// response is recorded on the case, a transport failure is passed on as
/// `DispatchFailed` and moves no record.
pub fn conclude_dispatch(store: &mut CaseStore, id: &str, outcome: TransportResult, now: u64) -> (r:
    Result<CaseModelAllResponse, ApiError>)
    requires
        old(store).wf(),
    ensures
        final(store).wf(),
        outcome matches TransportResult::Failed { cause } ==> (final(store)@ == old(store)@ && (r
            matches Err(e) && (e matches ApiError::DispatchFailed(c) && c@ == cause@))),
        outcome matches TransportResult::Delivered { code, body } ==> {
            &&& (r is Ok <==> has_id(old(store)@, id@))
            &&& (r matches Ok(p) ==> {
                let c = with_response(old(store)@[index_of(old(store)@, id@)], code@, body@, now);
                &&& final(store)@ == old(store)@.update(index_of(old(store)@, id@), c)
                &&& resp_all_matches(p, c)
            })
            &&& (r matches Err(e) ==> (e matches ApiError::NotFound && final(store)@ == old(
                store,
            )@))
        },
{
    match outcome {
        TransportResult::Delivered { code, body } => {
            record_outcome(store, id, code.as_str(), body.as_str(), now)
        },
        TransportResult::Failed { cause } => Err(ApiError::DispatchFailed(cause)),
    }
}

/// Persists a captured outcome onto the stored case and reports the whole
/// record back, response included — the tail of a dispatch. `NotFound`,
/// and no record moved, where the case has vanished meanwhile.
pub fn record_outcome(store: &mut CaseStore, id: &str, code: &str, body: &str, now: u64) -> (r:
    Result<CaseModelAllResponse, ApiError>)
    requires
        old(store).wf(),
    ensures
        final(store).wf(),
        r is Ok <==> has_id(old(store)@, id@),
        r matches Ok(p) ==> {
            let c = with_response(old(store)@[index_of(old(store)@, id@)], code@, body@, now);
            &&& final(store)@ == old(store)@.update(index_of(old(store)@, id@), c)
            &&& resp_all_matches(p, c)
        },
        r matches Err(e) ==> (e matches ApiError::NotFound && final(store)@ == old(store)@),
{
    match store.record_response(id, code, body, now) {
        Ok(written) => Ok(filter_db_all_record(&written)),
        Err(_) => Err(ApiError::NotFound),
    }
}

} // verus!
