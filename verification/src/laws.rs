//! The laws the store's transitions obey, stated once over the ghost
//! sequences the operations' contracts speak of, so that callers need not
//! re-derive them.

use vstd::prelude::*;

use crate::model::CaseV;
use crate::text::lex_lt;
use crate::schema::UpdateCaseSchema;
use crate::store::{has_id, ids_sorted, index_of, lemma_sorted_ids_unique, lookup, merge_update,
    owned_by, with_response};

verus! {

/// A record stored under a fresh identifier is exactly what a lookup of
/// that identifier finds afterwards.
pub proof fn lemma_insert_then_lookup(s: Seq<CaseV>, k: int, c: CaseV)
    requires
        0 <= k <= s.len(),
        !has_id(s, c.id),
    ensures
        lookup(s.insert(k, c), c.id) == Some(c),
{
    s.insert_ensures(k, c);
    let s2 = s.insert(k, c);
    assert(s2[k] == c);
    assert(has_id(s2, c.id));
    let j = index_of(s2, c.id);
    if j < k {
        assert(s2[j] == s[j]);
        assert(false);
    }
    if j > k {
        assert(s2[j] == s[j - 1]);
        assert(false);
    }
}

/// A recorded response is exactly what a read of the same identifier
/// returns afterwards: the captured status line and body, nothing else
/// moved.
pub proof fn lemma_record_then_lookup(
    s: Seq<CaseV>,
    id: Seq<char>,
    code: Seq<char>,
    body: Seq<char>,
    now: u64,
)
    requires
        ids_sorted(s),
        has_id(s, id),
    ensures
        lookup(
            s.update(index_of(s, id), with_response(s[index_of(s, id)], code, body, now)),
            id,
        ) == Some(with_response(s[index_of(s, id)], code, body, now)),
{
    lemma_sorted_ids_unique(s);
    let i = index_of(s, id);
    assert(s[i].id == id);
    let u = with_response(s[i], code, body, now);
    let s2 = s.update(i, u);
    assert(s2[i] == u);
    assert(s2[i].id == id);
    assert(has_id(s2, id));
    assert(ids_sorted(s2)) by {
        assert(forall|x: int| 0 <= x < s2.len() ==> (#[trigger] s2[x]).id == s[x].id);
    }
    lemma_sorted_ids_unique(s2);
    assert(index_of(s2, id) == i);
}

/// Recording a response twice keeps only the later capture: the fields are
/// overwritten, never appended to.
pub proof fn lemma_record_overwrites(
    c: CaseV,
    code1: Seq<char>,
    body1: Seq<char>,
    now1: u64,
    code2: Seq<char>,
    body2: Seq<char>,
    now2: u64,
)
    ensures
        (with_response(with_response(c, code1, body1, now1), code2, body2, now2) == with_response(
            c,
            code2,
            body2,
            now2,
        )),
{
}

/// An update that supplies nothing changes nothing but the update time.
pub proof fn lemma_empty_update_is_noop(c: CaseV, u: UpdateCaseSchema, now: u64)
    requires
        u.user_id is None,
        u.title is None,
        u.host is None,
        u.uri is None,
        u.method is None,
        u.request_body is None,
        u.expected_result is None,
        u.category is None,
        u.response_code is None,
        u.response_body is None,
        u.used is None,
    ensures
        merge_update(c, u, now) == (CaseV { updated_at: now, ..c }),
{
}

/// Every row of one owner's records is a record of the store.
pub proof fn lemma_owned_by_membership(s: Seq<CaseV>, owner: Seq<char>, j: int)
    requires
        0 <= j < owned_by(s, owner).len(),
    ensures
        exists|i: int| 0 <= i < s.len() && (#[trigger] s[i]) == owned_by(s, owner)[j],
    decreases s.len(),
{
    let own = owned_by(s, owner);
    let rest = owned_by(s.drop_last(), owner);
    if s.last().user_id == owner && j == rest.len() {
        assert(s[s.len() - 1] == own[j]);
    } else {
        lemma_owned_by_membership(s.drop_last(), owner, j);
        let i = choose|i: int|
            0 <= i < s.drop_last().len() && (#[trigger] s.drop_last()[i]) == rest[j];
        assert(s[i] == own[j]);
    }
}

/// A list walks the store in order, so one owner's records keep their
/// ascending identifiers: a page is sorted, and consecutive pages abut.
pub proof fn lemma_owned_by_sorted(s: Seq<CaseV>, owner: Seq<char>)
    requires
        ids_sorted(s),
    ensures
        ids_sorted(owned_by(s, owner)),
    decreases s.len(),
{
    if s.len() > 0 {
        let prefix = s.drop_last();
        assert(ids_sorted(prefix)) by {
            assert(forall|i: int| 0 <= i < prefix.len() ==> (#[trigger] prefix[i]) == s[i]);
        }
        lemma_owned_by_sorted(prefix, owner);
        let own = owned_by(s, owner);
        let rest = owned_by(prefix, owner);
        if s.last().user_id == owner {
            assert(own =~= rest.push(s.last()));
            assert forall|i: int, j: int| 0 <= i < j < own.len() implies lex_lt(
                own[i].id,
                own[j].id,
            ) by {
                if j < rest.len() {
                    assert(own[i] == rest[i] && own[j] == rest[j]);
                } else {
                    lemma_owned_by_membership(prefix, owner, i);
                    let x = choose|x: int|
                        0 <= x < prefix.len() && (#[trigger] prefix[x]) == rest[i];
                    assert(s[x] == own[i]);
                    assert(lex_lt(s[x].id, s[s.len() - 1].id));
                }
            }
        }
    }
}

/// Once a record is deleted its identifier resolves to nothing, so deleting
/// it a second time must report `NotFound`.
pub proof fn lemma_delete_then_absent(s: Seq<CaseV>, id: Seq<char>)
    requires
        ids_sorted(s),
        has_id(s, id),
    ensures
        !has_id(s.remove(index_of(s, id)), id),
{
    lemma_sorted_ids_unique(s);
    let i = index_of(s, id);
    assert(s[i].id == id);
    s.remove_ensures(i);
    let s2 = s.remove(i);
    if has_id(s2, id) {
        let j = choose|j: int| 0 <= j < s2.len() && (#[trigger] s2[j].id) == id;
        if j < i {
            assert(s2[j] == s[j]);
        } else {
            assert(s2[j] == s[j + 1]);
        }
        assert(false);
    }
}

} // verus!
