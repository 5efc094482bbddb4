use crate::time::Span;
use vstd::hash_map::StringHashMap;
use vstd::prelude::*;

verus! {

/// The worker ids under which this worker registered, by name, each with
/// the time budget of the jobs contracted under it.
pub struct WorkerIdManager {
    pub set: StringHashMap<(String, Span)>,
}

impl WorkerIdManager {
    /// A manager that knows the default registration only.
    pub fn new(default_worker_id: String, default_job_deadline: Span) -> (r: Self)
        ensures
            r.set@ == Map::<Seq<char>, (String, Span)>::empty().insert(
                "default"@,
                (default_worker_id, default_job_deadline),
            ),
    {
        let mut set = StringHashMap::new();
        set.insert(String::from_str("default"), (default_worker_id, default_job_deadline));
        WorkerIdManager { set }
    }

    /// Records the worker id registered under `key`, replacing any earlier one.
    pub fn insert(&mut self, key: String, worker_id: String, job_deadline: Span)
        ensures
            final(self).set@ == old(self).set@.insert(key@, (worker_id, job_deadline)),
    {
        self.set.insert(key, (worker_id, job_deadline));
    }

    /// The worker id and budget registered under `key`, where there is one.
    pub fn get(&self, key: &str) -> (r: Option<(String, Span)>)
        ensures
            r == (if self.set@.contains_key(key@) {
                Some(self.set@[key@])
            } else {
                None
            }),
    {
        match self.set.get(key) {
            Some(v) => Some((v.0.clone(), v.1)),
            None => None,
        }
    }

    /// The default registration.
    pub fn get_default(&self) -> (r: (String, Span))
        requires
            self.set@.contains_key("default"@),
        ensures
            r == self.set@["default"@],
    {
        match self.get("default") {
            Some(v) => v,
            None => {
                proof {
                    assert(false);
                }
                (String::new(), Span::zero())
            },
        }
    }
}

/// What was last recorded under a name is what is found under it, and
/// recording under one name leaves every other name as it was.
pub proof fn lemma_get_returns_last_insert(
    m: Map<Seq<char>, (String, Span)>,
    key: Seq<char>,
    other: Seq<char>,
    v: (String, Span),
)
    requires
        other != key,
    ensures
        m.insert(key, v).contains_key(key) && m.insert(key, v)[key] == v,
        m.insert(key, v).contains_key(other) == m.contains_key(other),
        m.contains_key(other) ==> m.insert(key, v)[other] == m[other],
{
}

} // verus!
