//! The registry's matching and deletion laws, stated over the same spec
//! functions that the executable operations are proved against.
use vstd::prelude::*;
use crate::handler::Reply;
use crate::render::reply_bytes_spec;
use crate::render::response_bytes_spec;
use crate::store::id_index;
use crate::store::lemma_id_index_first;
use crate::store::lemma_id_index_props;
use crate::store::lemma_match_of_at;
use crate::store::lemma_match_of_none;
use crate::store::lemma_match_of_props;
use crate::store::match_of;
use crate::store::remove_id;
use crate::store::req_matches;
use crate::store::Mock;

verus! {

/// After registering a mock, a request with its method and path is won by
/// exactly that mock: the answer is its stored response.
pub proof fn lemma_registered_mock_wins(s: Seq<Mock>, m: Mock)
    ensures
        match_of(s.push(m), m.method@, m.path@) == Some(s.len() as int),
        s.push(m)[s.len() as int] == m,
{
    assert(s.push(m).last() == m);
}

/// Most recent wins: registering two mocks for the same method and path and
/// then requesting that key returns the later mock's response.
pub proof fn lemma_latest_registration_wins(s: Seq<Mock>, first: Mock, second: Mock)
    requires
        first.method@ == second.method@,
        first.path@ == second.path@,
    ensures
        match_of(s.push(first).push(second), first.method@, first.path@) == Some(
            s.len() + 1 as int,
        ),
        s.push(first).push(second)[s.len() + 1 as int] == second,
{
    lemma_registered_mock_wins(s.push(first), second);
}

/// With an empty registry no request matches anything: after a clear-all,
/// every previously matchable request is unmatched.
pub proof fn lemma_empty_matches_nothing(method: Seq<char>, path: Seq<char>)
    ensures
        match_of(Seq::<Mock>::empty(), method, path) is None,
{
}

/// Deleting by id touches nothing else: a request whose winning mock does
/// not carry the deleted id is still won by that same mock afterwards.
pub proof fn lemma_delete_preserves_other_matches(
    s: Seq<Mock>,
    x: Seq<char>,
    method: Seq<char>,
    path: Seq<char>,
    i: int,
)
    requires
        match_of(s, method, path) == Some(i),
        s[i].id@ != x,
    ensures
        exists|j: int|
            match_of(remove_id(s, x), method, path) == Some(j) && #[trigger] remove_id(s, x)[j]
                == s[i],
{
    lemma_match_of_props(s, method, path);
    lemma_id_index_props(s, x);
    match id_index(s, x) {
        None => {
            assert(remove_id(s, x) == s);
            assert(remove_id(s, x)[i] == s[i]);
        },
        Some(k) => {
            let s2 = s.remove(k);
            s.remove_ensures(k);
            assert(s[k].id@ == x);
            if k > i {
                assert(s2[i] == s[i]);
                assert forall|j: int| i < j < s2.len() implies !req_matches(
                    s2[j],
                    method,
                    path,
                ) by {
                    if j < k {
                        assert(s2[j] == s[j]);
                    } else {
                        assert(s2[j] == s[j + 1]);
                    }
                }
                lemma_match_of_at(s2, method, path, i);
                assert(remove_id(s, x)[i] == s[i]);
            } else {
                assert(s2[i - 1] == s[i]);
                assert forall|j: int| i - 1 < j < s2.len() implies !req_matches(
                    s2[j],
                    method,
                    path,
                ) by {
                    assert(s2[j] == s[j + 1]);
                }
                lemma_match_of_at(s2, method, path, i - 1);
                assert(remove_id(s, x)[i - 1] == s[i]);
            }
        },
    }
}

/// Deleting by id removes exactly one match: after deleting the id whose
/// mock was the only one matching a request, that request is unmatched.
pub proof fn lemma_delete_removes_only_match(
    s: Seq<Mock>,
    x: Seq<char>,
    method: Seq<char>,
    path: Seq<char>,
    i: int,
)
    requires
        0 <= i < s.len(),
        s[i].id@ == x,
        forall|j: int| 0 <= j < i ==> s[j].id@ != x,
        forall|j: int| 0 <= j < s.len() && j != i ==> !req_matches(s[j], method, path),
    ensures
        match_of(remove_id(s, x), method, path) is None,
{
    lemma_id_index_first(s, x, i);
    let s2 = s.remove(i);
    s.remove_ensures(i);
    assert forall|j: int| 0 <= j < s2.len() implies !req_matches(s2[j], method, path) by {
        if j < i {
            assert(s2[j] == s[j]);
        } else {
            assert(s2[j] == s[j + 1]);
        }
    }
    lemma_match_of_none(s2, method, path);
}

/// Round-trip fidelity: after registering a mock, the wire answer to its
/// method and path carries the stored status, header list and body
/// verbatim.
pub proof fn lemma_round_trip_bytes(s: Seq<Mock>, m: Mock)
    requires
        s.len() < usize::MAX,
    ensures
        match_of(s.push(m), m.method@, m.path@) == Some(s.len() as int),
        reply_bytes_spec(s.push(m), Reply::Matched(s.len() as usize)) == response_bytes_spec(
            m.response.status,
            m.response.headers@,
            m.response.body@,
        ),
{
    lemma_registered_mock_wins(s, m);
}

} // verus!
