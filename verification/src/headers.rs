//! The header mapping of a request: name -> value, last write wins, names
//! kept with the case in which they arrived. Lookup is by exact name or, for
//! the control plane, by name up to ASCII case.
use vstd::prelude::*;
use crate::text::lower;
use crate::text::str_eq;
use crate::text::eq_ignore_ascii_case;

verus! {

/// The index of the first entry whose name is exactly `name`, if any.
pub open spec fn key_index(s: Seq<(Seq<char>, Seq<char>)>, name: Seq<char>) -> Option<int>
    decreases s.len(),
{
    if s.len() == 0 {
        None
    } else if s[0].0 == name {
        Some(0int)
    } else {
        match key_index(s.skip(1), name) {
            None => None,
            Some(i) => Some(i + 1),
        }
    }
}

/// The value stored under exactly `name`, if any.
pub open spec fn lookup(s: Seq<(Seq<char>, Seq<char>)>, name: Seq<char>) -> Option<Seq<char>> {
    match key_index(s, name) {
        None => None,
        Some(i) => Some(s[i].1),
    }
}

/// The index of the first entry whose name equals `name` up to ASCII case.
pub open spec fn ci_key_index(s: Seq<(Seq<char>, Seq<char>)>, name: Seq<char>) -> Option<int>
    decreases s.len(),
{
    if s.len() == 0 {
        None
    } else if lower(s[0].0) == lower(name) {
        Some(0int)
    } else {
        match ci_key_index(s.skip(1), name) {
            None => None,
            Some(i) => Some(i + 1),
        }
    }
}

/// The value stored under `name` up to ASCII case, if any.
pub open spec fn lookup_ci(s: Seq<(Seq<char>, Seq<char>)>, name: Seq<char>) -> Option<Seq<char>> {
    match ci_key_index(s, name) {
        None => None,
        Some(i) => Some(s[i].1),
    }
}

/// `key_index` returns exactly the first matching index.
pub proof fn lemma_key_index_first(s: Seq<(Seq<char>, Seq<char>)>, name: Seq<char>, i: int)
    requires
        0 <= i < s.len(),
        s[i].0 == name,
        forall|j: int| 0 <= j < i ==> s[j].0 != name,
    ensures
        key_index(s, name) == Some(i),
    decreases s.len(),
{
    if i > 0 {
        lemma_key_index_first(s.skip(1), name, i - 1);
    }
}

/// Without a matching entry, `key_index` finds nothing.
pub proof fn lemma_key_index_none(s: Seq<(Seq<char>, Seq<char>)>, name: Seq<char>)
    requires
        forall|j: int| 0 <= j < s.len() ==> s[j].0 != name,
    ensures
        key_index(s, name) is None,
    decreases s.len(),
{
    if s.len() > 0 {
        lemma_key_index_none(s.skip(1), name);
    }
}

/// `ci_key_index` returns exactly the first index matching up to case.
pub proof fn lemma_ci_key_index_first(s: Seq<(Seq<char>, Seq<char>)>, name: Seq<char>, i: int)
    requires
        0 <= i < s.len(),
        lower(s[i].0) == lower(name),
        forall|j: int| 0 <= j < i ==> lower(s[j].0) != lower(name),
    ensures
        ci_key_index(s, name) == Some(i),
    decreases s.len(),
{
    if i > 0 {
        lemma_ci_key_index_first(s.skip(1), name, i - 1);
    }
}

/// Without an entry matching up to case, `ci_key_index` finds nothing.
pub proof fn lemma_ci_key_index_none(s: Seq<(Seq<char>, Seq<char>)>, name: Seq<char>)
    requires
        forall|j: int| 0 <= j < s.len() ==> lower(s[j].0) != lower(name),
    ensures
        ci_key_index(s, name) is None,
    decreases s.len(),
{
    if s.len() > 0 {
        lemma_ci_key_index_none(s.skip(1), name);
    }
}

/// The header mapping: an ordered list of (name, value) entries in which a
/// name occurs at most once; inserting an existing name overwrites its value
/// in place.
pub struct Headers {
    entries: Vec<(String, String)>,
}

impl View for Headers {
    type V = Seq<(Seq<char>, Seq<char>)>;

    closed spec fn view(&self) -> Seq<(Seq<char>, Seq<char>)> {
        Seq::new(self.entries@.len(), |i: int| (self.entries@[i].0@, self.entries@[i].1@))
    }
}

impl Headers {
    /// An empty mapping.
    pub fn new() -> (r: Headers)
        ensures
            r@ == Seq::<(Seq<char>, Seq<char>)>::empty(),
    {
        let r = Headers { entries: Vec::new() };
        proof {
            assert(r@ =~= Seq::<(Seq<char>, Seq<char>)>::empty());
        }
        r
    }

    /// How many names are stored.
    pub fn len(&self) -> (r: usize)
        ensures
            r == self@.len(),
    {
        self.entries.len()
    }

    /// Store `value` under `name`: overwrite in place if `name` is already
    /// present, append otherwise. Either way, `name` then maps to `value`.
    #[verifier::loop_isolation(false)]
    pub fn insert(&mut self, name: String, value: String)
        ensures
            match key_index(old(self)@, name@) {
                Some(i) => final(self)@ == old(self)@.update(i, (name@, value@)),
                None => final(self)@ == old(self)@.push((name@, value@)),
            },
            lookup(final(self)@, name@) == Some(value@),
    {
        let ghost s = self@;
        let n = self.entries.len();
        let mut i: usize = 0;
        while i < n
            invariant
                n == self.entries.len(),
                i <= n,
                s == self@,
                forall|j: int| 0 <= j < i ==> self@[j].0 != name@,
            decreases n - i,
        {
            if str_eq(self.entries[i].0.as_str(), name.as_str()) {
                proof {
                    lemma_key_index_first(s, name@, i as int);
                }
                let name2 = name.clone();
                let value2 = value.clone();
                self.entries.set(i, (name2, value2));
                proof {
                    assert(self@ =~= s.update(i as int, (name@, value@)));
                    assert forall|j: int| 0 <= j < i implies self@[j].0 != name@ by {
                        assert(self@[j] == s[j]);
                    }
                    lemma_key_index_first(self@, name@, i as int);
                }
                return;
            }
            i += 1;
        }
        proof {
            lemma_key_index_none(s, name@);
        }
        self.entries.push((name, value));
        proof {
            let ghost k: int = s.len() as int;
            assert(self@ =~= s.push((self.entries@[k].0@, self.entries@[k].1@)));
            lemma_key_index_first(self@, self@[k].0, k);
        }
    }

    /// The value stored under exactly `name`, if any.
    pub fn get(&self, name: &str) -> (r: Option<String>)
        ensures
            match r {
                Some(v) => lookup(self@, name@) == Some(v@),
                None => lookup(self@, name@) is None,
            },
    {
        let n = self.entries.len();
        let mut i: usize = 0;
        while i < n
            invariant
                n == self.entries.len(),
                i <= n,
                forall|j: int| 0 <= j < i ==> self@[j].0 != name@,
            decreases n - i,
        {
            if str_eq(self.entries[i].0.as_str(), name) {
                proof {
                    lemma_key_index_first(self@, name@, i as int);
                }
                return Some(self.entries[i].1.clone());
            }
            i += 1;
        }
        proof {
            lemma_key_index_none(self@, name@);
        }
        None
    }

    /// The value stored under `name` up to ASCII case, if any.
    pub fn get_ignore_case(&self, name: &str) -> (r: Option<String>)
        ensures
            match r {
                Some(v) => lookup_ci(self@, name@) == Some(v@),
                None => lookup_ci(self@, name@) is None,
            },
    {
        let n = self.entries.len();
        let mut i: usize = 0;
        while i < n
            invariant
                n == self.entries.len(),
                i <= n,
                forall|j: int| 0 <= j < i ==> lower(self@[j].0) != lower(name@),
            decreases n - i,
        {
            if eq_ignore_ascii_case(self.entries[i].0.as_str(), name) {
                proof {
                    lemma_ci_key_index_first(self@, name@, i as int);
                }
                return Some(self.entries[i].1.clone());
            }
            i += 1;
        }
        proof {
            lemma_ci_key_index_none(self@, name@);
        }
        None
    }
}

} // verus!
