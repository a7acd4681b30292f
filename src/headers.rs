//! A header mapping: header names to values, each name present at most once.
use vstd::prelude::*;
use vstd::string::*;

verus! {

/// The mapping that a sequence of `(name, value)` entries denotes, later
/// entries taking precedence over earlier ones with the same name.
pub open spec fn map_of(s: Seq<(String, String)>) -> Map<Seq<char>, Seq<char>>
    decreases s.len(),
{
    if s.len() == 0 {
        Map::empty()
    } else {
        map_of(s.drop_last()).insert(s.last().0@, s.last().1@)
    }
}

/// No two entries carry the same name.
pub open spec fn names_unique(s: Seq<(String, String)>) -> bool {
    forall|i: int, j: int| 0 <= i < j < s.len() ==> #[trigger] s[i].0@ != #[trigger] s[j].0@
}

proof fn lemma_map_of_at(s: Seq<(String, String)>, i: int)
    requires
        0 <= i < s.len(),
        forall|j: int| i < j < s.len() ==> #[trigger] s[j].0@ != s[i].0@,
    ensures
        map_of(s).contains_key(s[i].0@),
        map_of(s)[s[i].0@] == s[i].1@,
    decreases s.len(),
{
    if i < s.len() - 1 {
        let t = s.drop_last();
        assert(s.last() == s[s.len() - 1]);
        lemma_map_of_at(t, i);
    }
}

proof fn lemma_map_of_absent(s: Seq<(String, String)>, k: Seq<char>)
    requires
        forall|j: int| 0 <= j < s.len() ==> #[trigger] s[j].0@ != k,
    ensures
        !map_of(s).contains_key(k),
    decreases s.len(),
{
    if s.len() > 0 {
        let t = s.drop_last();
        assert(s.last() == s[s.len() - 1]);
        assert forall|j: int| 0 <= j < t.len() implies #[trigger] t[j].0@ != k by {
            assert(t[j] == s[j]);
        }
        lemma_map_of_absent(t, k);
    }
}

/// Header names mapped to values. Setting a name that is already present
/// replaces its value.
pub struct Headers {
    entries: Vec<(String, String)>,
}

impl Headers {
    pub closed spec fn view(&self) -> Map<Seq<char>, Seq<char>> {
        map_of(self.entries@)
    }

    /// Each name is held once.
    pub closed spec fn wf(&self) -> bool {
        names_unique(self.entries@)
    }

    /// Number of stored entries.
    pub closed spec fn size(&self) -> nat {
        self.entries@.len()
    }

    /// The name of the entry at `i`, in storage order.
    pub closed spec fn name_at(&self, i: int) -> Seq<char> {
        self.entries@[i].0@
    }

    pub fn new() -> (r: Headers)
        ensures
            r.wf(),
            r@ == Map::<Seq<char>, Seq<char>>::empty(),
            r.size() == 0,
    {
        Headers { entries: Vec::new() }
    }

    pub fn len(&self) -> (r: usize)
        ensures
            r == self.size(),
    {
        self.entries.len()
    }

    /// The entry at `i` in storage order; every stored entry belongs to the mapping.
    pub fn entry(&self, i: usize) -> (r: (&String, &String))
        requires
            self.wf(),
            i < self.size(),
        ensures
            r.0@ == self.name_at(i as int),
            self@.contains_key(r.0@),
            self@[r.0@] == r.1@,
    {
        proof {
            lemma_map_of_at(self.entries@, i as int);
        }
        let e = &self.entries[i];
        (&e.0, &e.1)
    }

    fn position(&self, name: &String) -> (r: Option<usize>)
        ensures
            match r {
                Some(i) => i < self.entries@.len() && self.entries@[i as int].0@ == name@,
                None => forall|j: int| 0 <= j < self.entries@.len() ==> #[trigger] self.entries@[j].0@ != name@,
            },
    {
        let mut i: usize = 0;
        while i < self.entries.len()
            invariant
                i <= self.entries@.len(),
                forall|j: int| 0 <= j < i ==> #[trigger] self.entries@[j].0@ != name@,
            decreases self.entries@.len() - i,
        {
            if self.entries[i].0 == *name {
                return Some(i);
            }
            i = i + 1;
        }
        None
    }

    /// The value stored under `name`, if any.
    pub fn get(&self, name: &str) -> (r: Option<&String>)
        requires
            self.wf(),
        ensures
            match r {
                Some(v) => self@.contains_key(name@) && self@[name@] == v@,
                None => !self@.contains_key(name@),
            },
    {
        let key = String::from_str(name);
        match self.position(&key) {
            Some(i) => {
                proof {
                    lemma_map_of_at(self.entries@, i as int);
                }
                Some(&self.entries[i].1)
            },
            None => {
                proof {
                    lemma_map_of_absent(self.entries@, name@);
                }
                None
            },
        }
    }

    /// A copy of the mapping without `name`.
    pub fn without(&self, name: &String) -> (r: Headers)
        requires
            self.wf(),
        ensures
            r.wf(),
            r@ == self@.remove(name@),
            forall|j: int| 0 <= j < r.size() ==> #[trigger] r.name_at(j) != name@,
    {
        let s = Ghost(self.entries@);
        let mut out: Vec<(String, String)> = Vec::new();
        let mut idx: Ghost<Seq<int>> = Ghost(Seq::empty());
        let mut i: usize = 0;
        while i < self.entries.len()
            invariant
                s@ == self.entries@,
                names_unique(s@),
                i <= s@.len(),
                idx@.len() == out@.len(),
                forall|j: int| 0 <= j < idx@.len() ==> 0 <= #[trigger] idx@[j] < i,
                forall|j: int| 0 <= j < idx@.len() ==> out@[j] == s@[#[trigger] idx@[j]],
                forall|a: int, b: int| 0 <= a < b < idx@.len() ==> #[trigger] idx@[a] < #[trigger] idx@[b],
                forall|j: int| 0 <= j < out@.len() ==> #[trigger] out@[j].0@ != name@,
                map_of(out@) == map_of(s@.take(i as int)).remove(name@),
            decreases s@.len() - i,
        {
            let e = &self.entries[i];
            assert(s@.take(i + 1).drop_last() == s@.take(i as int));
            if e.0 == *name {
                assert(map_of(out@) =~= map_of(s@.take(i + 1)).remove(name@));
            } else {
                let ghost before = out@;
                out.push((e.0.clone(), e.1.clone()));
                idx = Ghost(idx@.push(i as int));
                assert(out@.drop_last() == before);
                assert(map_of(out@) =~= map_of(s@.take(i + 1)).remove(name@));
            }
            i = i + 1;
        }
        assert(s@.take(s@.len() as int) =~= s@);
        let r = Headers { entries: out };
        assert forall|a: int, b: int| 0 <= a < b < r.entries@.len() implies #[trigger] r.entries@[a].0@
            != #[trigger] r.entries@[b].0@ by {
            assert(idx@[a] < idx@[b]);
        }
        r
    }

    /// An identical mapping held separately.
    pub fn copy(&self) -> (r: Headers)
        requires
            self.wf(),
        ensures
            r.wf(),
            r@ == self@,
            r.size() == self.size(),
    {
        let mut out: Vec<(String, String)> = Vec::new();
        let mut i: usize = 0;
        while i < self.entries.len()
            invariant
                i <= self.entries@.len(),
                out@ == self.entries@.take(i as int),
            decreases self.entries@.len() - i,
        {
            let e = &self.entries[i];
            out.push((e.0.clone(), e.1.clone()));
            assert(out@ =~= self.entries@.take(i + 1));
            i = i + 1;
        }
        assert(self.entries@.take(self.entries@.len() as int) =~= self.entries@);
        Headers { entries: out }
    }

    /// Sets `name` to `value`, replacing any earlier value.
    pub fn insert(&mut self, name: String, value: String)
        requires
            old(self).wf(),
        ensures
            final(self).wf(),
            final(self)@ == old(self)@.insert(name@, value@),
    {
        let mut rest = self.without(&name);
        let ghost before = rest.entries@;
        let ghost r0 = rest;
        rest.entries.push((name, value));
        assert(rest.entries@.drop_last() == before);
        assert(rest@ =~= old(self)@.insert(name@, value@));
        assert forall|a: int, b: int| 0 <= a < b < rest.entries@.len() implies #[trigger] rest.entries@[a].0@
            != #[trigger] rest.entries@[b].0@ by {
            if b == rest.entries@.len() - 1 {
                assert(rest.entries@[a] == before[a]);
                assert(r0.name_at(a) != name@);
            } else {
                assert(rest.entries@[a] == before[a] && rest.entries@[b] == before[b]);
            }
        }
        *self = rest;
    }
}

} // verus!
