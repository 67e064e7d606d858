//! The mock registry: an ordered sequence of mocks, insertion order kept.
//! Matching scans from the most recently inserted mock to the oldest, so a
//! later registration for the same method and path wins. Removal is by id
//! (first occurrence, a missing id is a no-op) or wholesale.
use vstd::prelude::*;
use crate::text::str_eq;

verus! {

/// The canned response a mock answers with: status code, ordered header
/// list (duplicates allowed, order kept), body.
pub struct MockResponse {
    /// Status code of the response.
    pub status: u16,
    /// Ordered header list, set verbatim on the response.
    pub headers: Vec<(String, String)>,
    /// Response body, written as-is.
    pub body: String,
}

/// A stored request -> response definition: an opaque id (uniqueness is not
/// enforced by the store), an exact matching key (method, path), and the
/// canned response.
pub struct Mock {
    /// Opaque identifier used for removal.
    pub id: String,
    /// Method of requests this mock answers.
    pub method: String,
    /// Exact path of requests this mock answers; no normalization.
    pub path: String,
    /// The canned response.
    pub response: MockResponse,
}

/// The mock answers requests with exactly this method and path.
pub open spec fn req_matches(m: Mock, method: Seq<char>, path: Seq<char>) -> bool {
    m.method@ == method && m.path@ == path
}

/// The index of the winning mock for (method, path): the highest index
/// whose key matches, i.e. the most recently inserted matching mock.
pub open spec fn match_of(s: Seq<Mock>, method: Seq<char>, path: Seq<char>) -> Option<int>
    decreases s.len(),
{
    if s.len() == 0 {
        None
    } else if req_matches(s.last(), method, path) {
        Some(s.len() - 1)
    } else {
        match_of(s.drop_last(), method, path)
    }
}

/// The index of the first mock whose id is `id`, if any.
pub open spec fn id_index(s: Seq<Mock>, id: Seq<char>) -> Option<int>
    decreases s.len(),
{
    if s.len() == 0 {
        None
    } else if s[0].id@ == id {
        Some(0int)
    } else {
        match id_index(s.skip(1), id) {
            None => None,
            Some(i) => Some(i + 1),
        }
    }
}

/// The registry after removing the first mock with id `id`; unchanged when
/// no mock has that id.
pub open spec fn remove_id(s: Seq<Mock>, id: Seq<char>) -> Seq<Mock> {
    match id_index(s, id) {
        None => s,
        Some(i) => s.remove(i),
    }
}

/// `match_of` returns exactly the last matching index.
pub proof fn lemma_match_of_at(s: Seq<Mock>, method: Seq<char>, path: Seq<char>, i: int)
    requires
        0 <= i < s.len(),
        req_matches(s[i], method, path),
        forall|j: int| i < j < s.len() ==> !req_matches(s[j], method, path),
    ensures
        match_of(s, method, path) == Some(i),
    decreases s.len(),
{
    if i < s.len() - 1 {
        lemma_match_of_at(s.drop_last(), method, path, i);
    }
}

/// Without a matching mock, `match_of` finds nothing.
pub proof fn lemma_match_of_none(s: Seq<Mock>, method: Seq<char>, path: Seq<char>)
    requires
        forall|j: int| 0 <= j < s.len() ==> !req_matches(s[j], method, path),
    ensures
        match_of(s, method, path) is None,
    decreases s.len(),
{
    if s.len() > 0 {
        lemma_match_of_none(s.drop_last(), method, path);
    }
}

/// What `match_of` returns is a matching index, and the last one.
pub proof fn lemma_match_of_props(s: Seq<Mock>, method: Seq<char>, path: Seq<char>)
    ensures
        match match_of(s, method, path) {
            Some(i) => 0 <= i < s.len() && req_matches(s[i], method, path) && (forall|j: int|
                i < j < s.len() ==> !req_matches(s[j], method, path)),
            None => forall|j: int| 0 <= j < s.len() ==> !req_matches(s[j], method, path),
        },
    decreases s.len(),
{
    if s.len() > 0 {
        lemma_match_of_props(s.drop_last(), method, path);
        assert(forall|j: int| 0 <= j < s.len() - 1 ==> s.drop_last()[j] == s[j]);
    }
}

/// `id_index` returns exactly the first index with the given id.
pub proof fn lemma_id_index_first(s: Seq<Mock>, id: Seq<char>, i: int)
    requires
        0 <= i < s.len(),
        s[i].id@ == id,
        forall|j: int| 0 <= j < i ==> s[j].id@ != id,
    ensures
        id_index(s, id) == Some(i),
    decreases s.len(),
{
    if i > 0 {
        lemma_id_index_first(s.skip(1), id, i - 1);
    }
}

/// Without a mock of the given id, `id_index` finds nothing.
pub proof fn lemma_id_index_none(s: Seq<Mock>, id: Seq<char>)
    requires
        forall|j: int| 0 <= j < s.len() ==> s[j].id@ != id,
    ensures
        id_index(s, id) is None,
    decreases s.len(),
{
    if s.len() > 0 {
        lemma_id_index_none(s.skip(1), id);
    }
}

/// What `id_index` returns is an index with the given id, and the first.
pub proof fn lemma_id_index_props(s: Seq<Mock>, id: Seq<char>)
    ensures
        match id_index(s, id) {
            Some(k) => 0 <= k < s.len() && s[k].id@ == id && (forall|j: int|
                0 <= j < k ==> s[j].id@ != id),
            None => forall|j: int| 0 <= j < s.len() ==> s[j].id@ != id,
        },
    decreases s.len(),
{
    if s.len() > 0 && s[0].id@ != id {
        lemma_id_index_props(s.skip(1), id);
        match id_index(s.skip(1), id) {
            Some(k2) => {
                assert(s[k2 + 1] == s.skip(1)[k2]);
                assert forall|j: int| 0 <= j < k2 + 1 implies s[j].id@ != id by {
                    if j > 0 {
                        assert(s.skip(1)[j - 1] == s[j]);
                    }
                }
            },
            None => {
                assert forall|j: int| 0 <= j < s.len() implies s[j].id@ != id by {
                    if j > 0 {
                        assert(s.skip(1)[j - 1] == s[j]);
                    }
                }
            },
        }
    }
}

/// The single source of truth for registered mocks. Each operation is one
/// atomic step over the whole registry; callers serialize access to it.
pub struct MockStore {
    mocks: Vec<Mock>,
}

impl View for MockStore {
    type V = Seq<Mock>;

    closed spec fn view(&self) -> Seq<Mock> {
        self.mocks@
    }
}

impl MockStore {
    /// An empty registry.
    pub fn new() -> (r: MockStore)
        ensures
            r@ == Seq::<Mock>::empty(),
    {
        MockStore { mocks: Vec::new() }
    }

    /// How many mocks are registered.
    pub fn len(&self) -> (r: usize)
        ensures
            r == self@.len(),
    {
        self.mocks.len()
    }

    /// The mock at a given position.
    pub fn get(&self, i: usize) -> (r: &Mock)
        requires
            i < self@.len(),
        ensures
            *r == self@[i as int],
    {
        &self.mocks[i]
    }

    /// Append a mock at the end; it becomes the most recent registration.
    pub fn insert(&mut self, mock: Mock)
        ensures
            final(self)@ == old(self)@.push(mock),
    {
        self.mocks.push(mock);
    }

    /// Remove the first mock whose id is `id`; without one, a successful
    /// no-op.
    #[verifier::loop_isolation(false)]
    pub fn remove_by_id(&mut self, id: &str)
        ensures
            final(self)@ == remove_id(old(self)@, id@),
    {
        let ghost s = self@;
        let n = self.mocks.len();
        let mut i: usize = 0;
        while i < n
            invariant
                n == self.mocks.len(),
                i <= n,
                s == self@,
                forall|j: int| 0 <= j < i ==> self@[j].id@ != id@,
            decreases n - i,
        {
            if str_eq(self.mocks[i].id.as_str(), id) {
                proof {
                    lemma_id_index_first(s, id@, i as int);
                }
                self.mocks.remove(i);
                return;
            }
            i += 1;
        }
        proof {
            lemma_id_index_none(s, id@);
        }
    }

    /// Remove every mock.
    pub fn clear(&mut self)
        ensures
            final(self)@ == Seq::<Mock>::empty(),
    {
        self.mocks.clear();
    }

    /// The position of the winning mock for (method, path): the most
    /// recently inserted one whose key matches exactly.
    #[verifier::loop_isolation(false)]
    pub fn match_index(&self, method: &str, path: &str) -> (r: Option<usize>)
        ensures
            match r {
                Some(i) => match_of(self@, method@, path@) == Some(i as int),
                None => match_of(self@, method@, path@) is None,
            },
    {
        let mut i: usize = self.mocks.len();
        while i > 0
            invariant
                i <= self@.len(),
                forall|j: int| i <= j < self@.len() ==> !req_matches(self@[j], method@, path@),
            decreases i,
        {
            i = i - 1;
            let m = &self.mocks[i];
            if str_eq(m.method.as_str(), method) && str_eq(m.path.as_str(), path) {
                proof {
                    lemma_match_of_at(self@, method@, path@, i as int);
                }
                return Some(i);
            }
        }
        proof {
            lemma_match_of_none(self@, method@, path@);
        }
        None
    }
}

} // verus!
