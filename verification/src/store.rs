//! The case repository: records held in ascending identifier order, with
//! the create, read, merge-update, delete, list and record-response
//! operations the API exposes.

use vstd::prelude::*;

use crate::errors::ApiError;
use crate::ext::fresh_id;
use crate::model::{case_complete, opt_view, CaseModel, CaseModelAllResponse, CaseModelResponse,
    CaseV};
use crate::model::filter_db_record;
use crate::schema::{eff_limit, eff_offset, eff_page, page_params, CreateCaseSchema,
    FilterOptions, UpdateCaseSchema};
use crate::text::{lemma_lex_connected, lemma_lex_irreflexive, lemma_lex_transitive, lex_lt,
    str_lt};

verus! {

/// Identifiers strictly ascend: the order a list reads records in.
pub open spec fn ids_sorted(s: Seq<CaseV>) -> bool {
    forall|i: int, j: int| 0 <= i < j < s.len() ==> lex_lt(#[trigger] s[i].id, #[trigger] s[j].id)
}

/// Every record has the always-present request fields filled in.
pub open spec fn all_complete(s: Seq<CaseV>) -> bool {
    forall|i: int| 0 <= i < s.len() ==> case_complete(#[trigger] s[i])
}

/// Whether some record carries the identifier.
pub open spec fn has_id(s: Seq<CaseV>, id: Seq<char>) -> bool {
    exists|i: int| 0 <= i < s.len() && (#[trigger] s[i].id) == id
}

/// The position of the record carrying the identifier.
pub open spec fn index_of(s: Seq<CaseV>, id: Seq<char>) -> int {
    choose|i: int| 0 <= i < s.len() && (#[trigger] s[i].id) == id
}

/// The record carrying the identifier, if any.
pub open spec fn lookup(s: Seq<CaseV>, id: Seq<char>) -> Option<CaseV> {
    if has_id(s, id) {
        Some(s[index_of(s, id)])
    } else {
        None
    }
}

/// Whether some record carries the title.
pub open spec fn has_title(s: Seq<CaseV>, title: Seq<char>) -> bool {
    exists|i: int| 0 <= i < s.len() && (#[trigger] s[i].title) == title
}

/// In a store with ascending identifiers, an identifier names at most one
/// record.
pub proof fn lemma_sorted_ids_unique(s: Seq<CaseV>)
    requires
        ids_sorted(s),
    ensures
        forall|i: int, j: int|
            0 <= i < s.len() && 0 <= j < s.len() && (#[trigger] s[i].id) == (#[trigger] s[j].id)
                ==> i == j,
{
    assert forall|i: int, j: int|
        0 <= i < s.len() && 0 <= j < s.len() && (#[trigger] s[i].id) == (#[trigger] s[j].id)
            implies i == j by {
        if i < j {
            lemma_lex_irreflexive(s[i].id);
        }
        if j < i {
            lemma_lex_irreflexive(s[i].id);
        }
    }
}

/// The record a creation request stores: the caller's fields under a fresh
/// identifier and the given owner, unused and with no response yet.
pub open spec fn case_from(
    id: Seq<char>,
    owner: Seq<char>,
    body: CreateCaseSchema,
    now: u64,
) -> CaseV {
    CaseV {
        id: id,
        user_id: owner,
        title: body.title@,
        host: body.host@,
        uri: body.uri@,
        method: Some(body.method@),
        request_body: Some(body.request_body@),
        expected_result: Some(body.expected_result@),
        category: Some(
            match opt_view(body.category) {
                Some(c) => c,
                None => Seq::<char>::empty(),
            },
        ),
        response_code: None,
        response_body: None,
        used: false,
        created_at: now,
        updated_at: now,
    }
}

/// The record an update request leaves behind: each supplied field replaces
/// the stored one, each absent field keeps it; the identifier and creation
/// time never move, the update time always does.
pub open spec fn merge_update(c: CaseV, u: UpdateCaseSchema, now: u64) -> CaseV {
    CaseV {
        id: c.id,
        user_id: match u.user_id {
            Some(s) => s@,
            None => c.user_id,
        },
        title: match u.title {
            Some(s) => s@,
            None => c.title,
        },
        host: match u.host {
            Some(s) => s@,
            None => c.host,
        },
        uri: match u.uri {
            Some(s) => s@,
            None => c.uri,
        },
        method: match u.method {
            Some(s) => Some(s@),
            None => c.method,
        },
        request_body: match u.request_body {
            Some(s) => Some(s@),
            None => c.request_body,
        },
        expected_result: match u.expected_result {
            Some(s) => Some(s@),
            None => c.expected_result,
        },
        category: match u.category {
            Some(s) => Some(s@),
            None => c.category,
        },
        response_code: match u.response_code {
            Some(s) => Some(s@),
            None => c.response_code,
        },
        response_body: match u.response_body {
            Some(s) => Some(s@),
            None => c.response_body,
        },
        used: match u.used {
            Some(b) => b,
            None => c.used,
        },
        created_at: c.created_at,
        updated_at: now,
    }
}

/// The record a dispatch leaves behind: the captured status line and body
/// overwrite the stored response, everything else stays.
pub open spec fn with_response(c: CaseV, code: Seq<char>, body: Seq<char>, now: u64) -> CaseV {
    CaseV {
        response_code: Some(code),
        response_body: Some(body),
        updated_at: now,
        ..c
    }
}

/// The records of one owner, in store order.
pub open spec fn owned_by(s: Seq<CaseV>, owner: Seq<char>) -> Seq<CaseV>
    decreases s.len(),
{
    if s.len() == 0 {
        Seq::<CaseV>::empty()
    } else {
        let rest = owned_by(s.drop_last(), owner);
        if s.last().user_id == owner {
            rest.push(s.last())
        } else {
            rest
        }
    }
}

/// How many records a window of `lim` starting `off` in shows of `total`.
pub open spec fn win_len(total: int, off: int, lim: int) -> int {
    if total <= off {
        0
    } else if total <= off + lim {
        total - off
    } else {
        lim
    }
}

/// Whether a listed row reports exactly this record.
pub open spec fn resp_matches(p: CaseModelResponse, c: CaseV) -> bool {
    &&& p.id@ == c.id
    &&& p.user_id@ == c.user_id
    &&& p.title@ == c.title
    &&& p.host@ == c.host
    &&& p.uri@ == c.uri
    &&& Some(p.method@) == c.method
    &&& Some(p.request_body@) == c.request_body
    &&& Some(p.expected_result@) == c.expected_result
    &&& Some(p.category@) == c.category
    &&& p.used == c.used
    &&& p.createdAt == c.created_at
    &&& p.updatedAt == c.updated_at
}

/// Whether a dispatch report shows exactly this record.
pub open spec fn resp_all_matches(p: CaseModelAllResponse, c: CaseV) -> bool {
    &&& p.id@ == c.id
    &&& p.user_id@ == c.user_id
    &&& p.title@ == c.title
    &&& p.host@ == c.host
    &&& p.uri@ == c.uri
    &&& Some(p.method@) == c.method
    &&& Some(p.request_body@) == c.request_body
    &&& Some(p.expected_result@) == c.expected_result
    &&& Some(p.category@) == c.category
    &&& Some(p.response_code@) == c.response_code
    &&& Some(p.response_body@) == c.response_body
    &&& p.used == c.used
    &&& p.createdAt == c.created_at
    &&& p.updatedAt == c.updated_at
}

/// The repository of saved cases.
pub struct CaseStore {
    cases: Vec<CaseModel>,
}

impl View for CaseStore {
    type V = Seq<CaseV>;

    closed spec fn view(&self) -> Seq<CaseV> {
        self.cases@.map_values(|c: CaseModel| c@)
    }
}

impl CaseStore {
    /// The store's invariant: identifiers ascend and every record has its
    /// request fields.
    pub open spec fn wf(&self) -> bool {
        ids_sorted(self@) && all_complete(self@)
    }

    /// An empty store.
    pub fn new() -> (r: CaseStore)
        ensures
            r@ =~= Seq::<CaseV>::empty(),
            r.wf(),
    {
        CaseStore { cases: Vec::new() }
    }

    /// How many records the store holds.
    pub fn count(&self) -> (r: usize)
        ensures
            r == self@.len(),
    {
        self.cases.len()
    }

    /// The position of the record with this identifier, if it exists.
    fn find(&self, id: &str) -> (r: Option<usize>)
        ensures
            match r {
                Some(k) => k < self@.len() && self@[k as int].id == id@,
                None => !has_id(self@, id@),
            },
    {
        let key: String = id.to_owned();
        let n = self.cases.len();
        let mut k: usize = 0;
        while k < n
            invariant
                n == self@.len(),
                k <= n,
                n == self.cases@.len(),
                forall|i: int| 0 <= i < k ==> (#[trigger] self@[i].id) != id@,
                key@ == id@,
            decreases n - k,
        {
            if self.cases[k].id == key {
                return Some(k);
            }
            k = k + 1;
        }
        None
    }

    /// Fetches the record with this identifier, or reports that none
    /// exists. Not scoped to any owner.
    pub fn get(&self, id: &str) -> (r: Result<CaseModel, ApiError>)
        requires
            self.wf(),
        ensures
            r is Ok <==> has_id(self@, id@),
            r matches Ok(c) ==> lookup(self@, id@) == Some(c@),
            r matches Err(e) ==> e matches ApiError::NotFound,
    {
        match self.find(id) {
            Some(k) => {
                let c = self.cases[k].duplicate();
                proof {
                    lemma_sorted_ids_unique(self@);
                    assert(has_id(self@, id@));
                    assert(index_of(self@, id@) == k as int);
                }
                Ok(c)
            },
            None => Err(ApiError::NotFound),
        }
    }

    /// Removes the record with this identifier; reports `NotFound`, and
    /// changes nothing, if none exists.
    pub fn delete(&mut self, id: &str) -> (r: Result<(), ApiError>)
        requires
            old(self).wf(),
        ensures
            final(self).wf(),
            r is Ok <==> has_id(old(self)@, id@),
            r is Ok ==> final(self)@ == old(self)@.remove(index_of(old(self)@, id@)),
            r matches Err(e) ==> e matches ApiError::NotFound && final(self)@ == old(self)@,
    {
        match self.find(id) {
            Some(k) => {
                proof {
                    lemma_sorted_ids_unique(self@);
                    assert(has_id(self@, id@));
                    assert(index_of(self@, id@) == k as int);
                }
                self.cases.remove(k);
                proof {
                    assert(self@ =~= old(self)@.remove(k as int));
                }
                Ok(())
            },
            None => Err(ApiError::NotFound),
        }
    }

    /// Whether some record already carries this title.
    fn contains_title(&self, title: &String) -> (r: bool)
        ensures
            r == has_title(self@, title@),
    {
        let n = self.cases.len();
        let mut k: usize = 0;
        while k < n
            invariant
                n == self@.len(),
                n == self.cases@.len(),
                k <= n,
                forall|i: int| 0 <= i < k ==> (#[trigger] self@[i].title) != title@,
            decreases n - k,
        {
            if self.cases[k].title == *title {
                proof {
                    assert(self@[k as int].title == title@);
                }
                return true;
            }
            k = k + 1;
        }
        false
    }

    /// Places a record at the position its identifier orders it to.
    fn insert_sorted(&mut self, c: CaseModel)
        requires
            old(self).wf(),
            case_complete(c@),
            !has_id(old(self)@, c@.id),
        ensures
            final(self).wf(),
            exists|k: int|
                0 <= k <= old(self)@.len() && final(self)@ == old(self)@.insert(k, c@),
    {
        let ghost pre = self@;
        let n = self.cases.len();
        let mut k: usize = 0;
        while k < n && str_lt(self.cases[k].id.as_str(), c.id.as_str())
            invariant
                self == old(self),
                n == self@.len(),
                n == self.cases@.len(),
                k <= n,
                forall|i: int| 0 <= i < k ==> lex_lt(#[trigger] self@[i].id, c@.id),
            decreases n - k,
        {
            k = k + 1;
        }
        proof {
            if (k as int) < pre.len() {
                if !lex_lt(c@.id, pre[k as int].id) {
                    lemma_lex_connected(pre[k as int].id, c@.id);
                    assert(has_id(pre, c@.id));
                }
                assert(lex_lt(c@.id, pre[k as int].id));
            }
        }
        self.cases.insert(k, c);
        proof {
            assert(self@ =~= pre.insert(k as int, c@));
            let cur = self@;
            assert forall|i: int, j: int| 0 <= i < j < cur.len() implies lex_lt(
                cur[i].id,
                cur[j].id,
            ) by {
                if j < k as int {
                    assert(cur[i] == pre[i] && cur[j] == pre[j]);
                } else if i < k as int && j == k as int {
                    assert(cur[i] == pre[i] && cur[j] == c@);
                } else if i < k as int && j > k as int {
                    assert(cur[i] == pre[i] && cur[j] == pre[j - 1]);
                } else if i == k as int {
                    assert(cur[i] == c@ && cur[j] == pre[j - 1]);
                    assert(lex_lt(c@.id, pre[k as int].id));
                    if j - 1 > k as int {
                        lemma_lex_transitive(c@.id, pre[k as int].id, pre[j - 1].id);
                    }
                } else {
                    assert(cur[i] == pre[i - 1] && cur[j] == pre[j - 1]);
                }
            }
            assert forall|i: int| 0 <= i < cur.len() implies case_complete(#[trigger] cur[i]) by {
                if i < k as int {
                    assert(cur[i] == pre[i]);
                } else if i > k as int {
                    assert(cur[i] == pre[i - 1]);
                }
            }
        }
    }

    /// Inserts a new record under the given identifier. Reports `Conflict`,
    /// and stores nothing, exactly when the title or the identifier is
    /// already taken.
    pub fn create_with_id(
        &mut self,
        id: String,
        owner: &str,
        body: &CreateCaseSchema,
        now: u64,
    ) -> (r: Result<CaseModel, ApiError>)
        requires
            old(self).wf(),
        ensures
            final(self).wf(),
            r is Ok <==> !has_title(old(self)@, body.title@) && !has_id(old(self)@, id@),
            r matches Err(e) ==> e matches ApiError::Conflict && final(self)@ == old(self)@,
            r matches Ok(c) ==> {
                &&& c@ == case_from(id@, owner@, *body, now)
                &&& exists|k: int|
                    0 <= k <= old(self)@.len() && final(self)@ == old(self)@.insert(k, c@)
            },
    {
        if self.contains_title(&body.title) {
            return Err(ApiError::Conflict);
        }
        if let Some(_) = self.find(id.as_str()) {
            return Err(ApiError::Conflict);
        }
        let record = CaseModel {
            id: id,
            user_id: owner.to_owned(),
            title: body.title.clone(),
            host: body.host.clone(),
            uri: body.uri.clone(),
            method: Some(body.method.clone()),
            request_body: Some(body.request_body.clone()),
            expected_result: Some(body.expected_result.clone()),
            category: Some(
                match &body.category {
                    Some(s) => s.clone(),
                    None => String::new(),
                },
            ),
            response_code: None,
            response_body: None,
            used: false,
            created_at: now,
            updated_at: now,
        };
        let out = record.duplicate();
        self.insert_sorted(record);
        Ok(out)
    }

    /// Inserts a new record under a freshly drawn identifier, owned by the
    /// caller, unused and with no response. Reports `Conflict`, and stores
    /// nothing, when the title is taken — or in the vanishingly rare event
    /// that the fresh identifier is.
    pub fn create(&mut self, owner: &str, body: &CreateCaseSchema, now: u64) -> (r: Result<
        CaseModel,
        ApiError,
    >)
        requires
            old(self).wf(),
        ensures
            final(self).wf(),
            has_title(old(self)@, body.title@) ==> r is Err,
            r matches Err(e) ==> e matches ApiError::Conflict && final(self)@ == old(self)@,
            r matches Ok(c) ==> {
                &&& c@ == case_from(c@.id, owner@, *body, now)
                &&& c@.id.len() == 36
                &&& !has_id(old(self)@, c@.id)
                &&& !has_title(old(self)@, body.title@)
                &&& exists|k: int|
                    0 <= k <= old(self)@.len() && final(self)@ == old(self)@.insert(k, c@)
            },
    {
        let id = fresh_id();
        self.create_with_id(id, owner, body, now)
    }

    /// Merges the supplied fields over the stored record and writes the
    /// result back; reports `NotFound`, and changes nothing, if no record
    /// carries the identifier.
    pub fn update(&mut self, id: &str, body: &UpdateCaseSchema, now: u64) -> (r: Result<
        CaseModel,
        ApiError,
    >)
        requires
            old(self).wf(),
        ensures
            final(self).wf(),
            r is Ok <==> has_id(old(self)@, id@),
            r matches Ok(c) ==> {
                &&& c@ == merge_update(old(self)@[index_of(old(self)@, id@)], *body, now)
                &&& final(self)@ == old(self)@.update(index_of(old(self)@, id@), c@)
            },
            r matches Err(e) ==> e matches ApiError::NotFound && final(self)@ == old(self)@,
    {
        let k = match self.find(id) {
            Some(k) => k,
            None => {
                return Err(ApiError::NotFound);
            },
        };
        proof {
            lemma_sorted_ids_unique(self@);
            assert(has_id(self@, id@));
            assert(index_of(self@, id@) == k as int);
        }
        let cur = self.cases[k].duplicate();
        let merged = CaseModel {
            id: cur.id,
            user_id: match &body.user_id {
                Some(s) => s.clone(),
                None => cur.user_id,
            },
            title: match &body.title {
                Some(s) => s.clone(),
                None => cur.title,
            },
            host: match &body.host {
                Some(s) => s.clone(),
                None => cur.host,
            },
            uri: match &body.uri {
                Some(s) => s.clone(),
                None => cur.uri,
            },
            method: match &body.method {
                Some(s) => Some(s.clone()),
                None => cur.method,
            },
            request_body: match &body.request_body {
                Some(s) => Some(s.clone()),
                None => cur.request_body,
            },
            expected_result: match &body.expected_result {
                Some(s) => Some(s.clone()),
                None => cur.expected_result,
            },
            category: match &body.category {
                Some(s) => Some(s.clone()),
                None => cur.category,
            },
            response_code: match &body.response_code {
                Some(s) => Some(s.clone()),
                None => cur.response_code,
            },
            response_body: match &body.response_body {
                Some(s) => Some(s.clone()),
                None => cur.response_body,
            },
            used: match body.used {
                Some(b) => b,
                None => cur.used,
            },
            created_at: cur.created_at,
            updated_at: now,
        };
        let out = merged.duplicate();
        self.write_at(k, merged);
        Ok(out)
    }

    /// Overwrites the stored response fields with a freshly captured status
    /// line and body; reports `NotFound`, and changes nothing, if no record
    /// carries the identifier.
    pub fn record_response(&mut self, id: &str, code: &str, body: &str, now: u64) -> (r: Result<
        CaseModel,
        ApiError,
    >)
        requires
            old(self).wf(),
        ensures
            final(self).wf(),
            r is Ok <==> has_id(old(self)@, id@),
            r matches Ok(c) ==> {
                &&& c@ == with_response(old(self)@[index_of(old(self)@, id@)], code@, body@, now)
                &&& final(self)@ == old(self)@.update(index_of(old(self)@, id@), c@)
            },
            r matches Err(e) ==> e matches ApiError::NotFound && final(self)@ == old(self)@,
    {
        let k = match self.find(id) {
            Some(k) => k,
            None => {
                return Err(ApiError::NotFound);
            },
        };
        proof {
            lemma_sorted_ids_unique(self@);
            assert(has_id(self@, id@));
            assert(index_of(self@, id@) == k as int);
        }
        let cur = self.cases[k].duplicate();
        let written = CaseModel {
            response_code: Some(code.to_owned()),
            response_body: Some(body.to_owned()),
            updated_at: now,
            ..cur
        };
        let out = written.duplicate();
        self.write_at(k, written);
        Ok(out)
    }

    /// Replaces the record at a position with one carrying the same
    /// identifier; order and completeness survive.
    fn write_at(&mut self, k: usize, c: CaseModel)
        requires
            old(self).wf(),
            k < old(self)@.len(),
            c@.id == old(self)@[k as int].id,
            case_complete(c@),
        ensures
            final(self).wf(),
            final(self)@ == old(self)@.update(k as int, c@),
    {
        let ghost pre = self@;
        self.cases.remove(k);
        self.cases.insert(k, c);
        proof {
            assert(self@ =~= pre.update(k as int, c@));
            let cur = self@;
            assert forall|i: int, j: int| 0 <= i < j < cur.len() implies lex_lt(
                cur[i].id,
                cur[j].id,
            ) by {
                assert(cur[i].id == pre[i].id && cur[j].id == pre[j].id);
            }
            assert forall|i: int| 0 <= i < cur.len() implies case_complete(#[trigger] cur[i]) by {
                if i != k as int {
                    assert(cur[i] == pre[i]);
                }
            }
        }
    }

    /// The window of the caller's own records that the paging options name,
    /// in ascending identifier order, shaped for listing.
    pub fn list(&self, owner_id: &str, opts: &FilterOptions) -> (r: Vec<CaseModelResponse>)
        requires
            self.wf(),
            eff_page(*opts) >= 1,
            eff_offset(*opts) <= usize::MAX,
        ensures
            r@.len() == win_len(
                owned_by(self@, owner_id@).len() as int,
                eff_offset(*opts),
                eff_limit(*opts),
            ),
            forall|j: int|
                0 <= j < r@.len() ==> resp_matches(
                    #[trigger] r@[j],
                    owned_by(self@, owner_id@)[eff_offset(*opts) + j],
                ),
    {
        let (limit, offset) = page_params(opts);
        let owner: String = owner_id.to_owned();
        let mut out: Vec<CaseModelResponse> = Vec::new();
        let mut seen: usize = 0;
        let n = self.cases.len();
        let mut i: usize = 0;
        while i < n
            invariant
                self.wf(),
                n == self@.len(),
                n == self.cases@.len(),
                i <= n,
                owner@ == owner_id@,
                limit == eff_limit(*opts),
                offset == eff_offset(*opts),
                seen == owned_by(self@.take(i as int), owner@).len(),
                seen <= i,
                out@.len() == win_len(seen as int, offset as int, limit as int),
                forall|j: int|
                    0 <= j < out@.len() ==> resp_matches(
                        #[trigger] out@[j],
                        owned_by(self@.take(i as int), owner@)[offset + j],
                    ),
            decreases n - i,
        {
            let ghost pre_owned = owned_by(self@.take(i as int), owner@);
            proof {
                assert(self@.take(i + 1).drop_last() =~= self@.take(i as int));
                assert(self@.take(i + 1).last() == self@[i as int]);
            }
            let c = &self.cases[i];
            if c.user_id == owner {
                proof {
                    assert(owned_by(self@.take(i + 1), owner@) =~= pre_owned.push(self@[i as int]));
                }
                if seen >= offset && seen - offset < limit {
                    out.push(filter_db_record(c));
                }
                seen = seen + 1;
            } else {
                proof {
                    assert(owned_by(self@.take(i + 1), owner@) =~= pre_owned);
                }
            }
            i = i + 1;
        }
        proof {
            assert(self@.take(n as int) =~= self@);
        }
        out
    }
}

} // verus!
