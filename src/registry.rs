use vstd::prelude::*;
use vstd::string::StringExecFns;
use crate::action::ActionKind;
use crate::task::{ObjTask, WaitStep};

verus! {

/// The abstract state of the registry: at most one handle per key, and the
/// identity that the next spawn will receive.
pub struct RegistryModel {
    pub tasks: Map<Seq<char>, ObjTask>,
    pub next_id: nat,
}

/// Every registered handle names a spawn made before `next_id`.
pub open spec fn model_wf(m: RegistryModel) -> bool {
    forall|k: Seq<char>| #[trigger] m.tasks.contains_key(k) ==> m.tasks[k].id < m.next_id
}

/// Registration: a fresh handle for `key` replaces whatever was there.
pub open spec fn add_model(m: RegistryModel, key: Seq<char>, kind: ActionKind) -> RegistryModel {
    RegistryModel {
        tasks: m.tasks.insert(key, ObjTask { kind, id: m.next_id as u64, finished: false }),
        next_id: m.next_id + 1,
    }
}

/// Removal: no handle for `key` remains.
pub open spec fn remove_model(m: RegistryModel, key: Seq<char>) -> RegistryModel {
    RegistryModel { tasks: m.tasks.remove(key), next_id: m.next_id }
}

/// Completion of spawn `id` under `key`. A success takes the handle out of
/// the registry; a failure leaves it there, marked finished. A completion of
/// a spawn that is no longer the registered one changes nothing.
pub open spec fn complete_model(m: RegistryModel, key: Seq<char>, id: u64, succeeded: bool) -> RegistryModel {
    if m.tasks.contains_key(key) && m.tasks[key].id == id {
        if succeeded {
            remove_model(m, key)
        } else {
            RegistryModel {
                tasks: m.tasks.insert(key, ObjTask { finished: true, ..m.tasks[key] }),
                next_id: m.next_id,
            }
        }
    } else {
        m
    }
}

/// One look of a waiter at `key`: nothing to await, or a finished handle that
/// is then reclaimed, ends the wait; a running handle means sleep.
pub open spec fn wait_model(m: RegistryModel, key: Seq<char>) -> (RegistryModel, WaitStep) {
    if !m.tasks.contains_key(key) {
        (m, WaitStep::Done)
    } else if m.tasks[key].finished {
        (remove_model(m, key), WaitStep::Done)
    } else {
        (m, crate::task::wait_step_spec(false))
    }
}

struct Entry {
    key: String,
    task: ObjTask,
}

/// The handle registered under `key`, if any: the latest entry with that key.
spec fn find(s: Seq<Entry>, key: Seq<char>) -> Option<ObjTask>
    decreases s.len(),
{
    if s.len() == 0 {
        None
    } else if s.last().key@ == key {
        Some(s.last().task)
    } else {
        find(s.drop_last(), key)
    }
}

spec fn entries_map(s: Seq<Entry>) -> Map<Seq<char>, ObjTask> {
    Map::new(|k: Seq<char>| find(s, k) is Some, |k: Seq<char>| find(s, k)->Some_0)
}

proof fn lemma_find_push(s: Seq<Entry>, e: Entry, key: Seq<char>)
    ensures
        find(s.push(e), key) == if e.key@ == key { Some(e.task) } else { find(s, key) },
{
    assert(s.push(e).drop_last() =~= s);
}

spec fn unique_keys(s: Seq<Entry>) -> bool {
    forall|i: int, j: int| 0 <= i < j < s.len() ==> s[i].key@ != s[j].key@
}

proof fn lemma_find_absent(s: Seq<Entry>, key: Seq<char>)
    requires
        forall|j: int| 0 <= j < s.len() ==> s[j].key@ != key,
    ensures
        find(s, key) is None,
    decreases s.len(),
{
    if s.len() > 0 {
        lemma_find_absent(s.drop_last(), key);
    }
}

proof fn lemma_find_at(s: Seq<Entry>, j: int)
    requires
        unique_keys(s),
        0 <= j < s.len(),
    ensures
        find(s, s[j].key@) == Some(s[j].task),
    decreases s.len(),
{
    if j < s.len() - 1 {
        lemma_find_at(s.drop_last(), j);
    }
}

/// Under unique keys, the map of the entries is read off position by position.
proof fn lemma_entries_map(s: Seq<Entry>, key: Seq<char>)
    requires
        unique_keys(s),
    ensures
        entries_map(s).contains_key(key) <==> exists|j: int| 0 <= j < s.len() && s[j].key@ == key,
        forall|j: int| 0 <= j < s.len() && s[j].key@ == key ==> entries_map(s)[key] == s[j].task,
{
    if exists|j: int| 0 <= j < s.len() && s[j].key@ == key {
        let j = choose|j: int| 0 <= j < s.len() && s[j].key@ == key;
        lemma_find_at(s, j);
        assert forall|i: int| 0 <= i < s.len() && s[i].key@ == key implies entries_map(s)[key] == s[i].task by {
            lemma_find_at(s, i);
        }
    } else {
        lemma_find_absent(s, key);
    }
}

/// The registry of live tasks, one handle per resource key.
pub struct TaskManager {
    tasks: Vec<Entry>,
    next_id: u64,
}

impl TaskManager {
    pub closed spec fn view(&self) -> RegistryModel {
        RegistryModel { tasks: entries_map(self.tasks@), next_id: self.next_id as nat }
    }

    /// Keys are unique among the entries, and every handle names an earlier spawn.
    pub closed spec fn wf(&self) -> bool {
        unique_keys(self.tasks@) && model_wf(self@)
    }

    /// An empty registry.
    pub fn new() -> (r: TaskManager)
        ensures
            r.wf(),
            r@.tasks == Map::<Seq<char>, ObjTask>::empty(),
            r@.next_id == 0,
    {
        let r = TaskManager { tasks: Vec::new(), next_id: 0 };
        assert(r@.tasks =~= Map::<Seq<char>, ObjTask>::empty());
        r
    }

    /// Whether one more task can be given a fresh identity.
    pub fn can_add(&self) -> (r: bool)
        ensures
            r == (self@.next_id < u64::MAX),
    {
        self.next_id < u64::MAX
    }

    fn position(&self, key: &String) -> (r: Option<usize>)
        ensures
            match r {
                Some(i) => i < self.tasks@.len() && self.tasks@[i as int].key@ == key@,
                None => forall|j: int| 0 <= j < self.tasks@.len() ==> self.tasks@[j].key@ != key@,
            },
    {
        let mut i: usize = 0;
        while i < self.tasks.len()
            invariant
                i <= self.tasks@.len(),
                forall|j: int| 0 <= j < i ==> self.tasks@[j].key@ != key@,
            decreases self.tasks@.len() - i,
        {
            if self.tasks[i].key == *key {
                return Some(i);
            }
            i = i + 1;
        }
        None
    }

    fn take_at(&mut self, i: usize) -> (e: Entry)
        requires
            old(self).wf(),
            i < old(self).tasks@.len(),
        ensures
            final(self).wf(),
            e == old(self).tasks@[i as int],
            old(self)@.tasks.contains_key(e.key@),
            old(self)@.tasks[e.key@] == e.task,
            final(self)@ == remove_model(old(self)@, e.key@),
    {
        let ghost s = self.tasks@;
        let e = self.tasks.remove(i);
        let ghost t = self.tasks@;
        proof {
            lemma_entries_map(s, e.key@);
            assert(unique_keys(t)) by {
                assert forall|a: int, b: int| 0 <= a < b < t.len() implies t[a].key@ != t[b].key@ by {
                    let a0 = if a < i { a } else { a + 1 };
                    let b0 = if b < i { b } else { b + 1 };
                    assert(t[a] == s[a0] && t[b] == s[b0]);
                }
            }
            assert forall|q: Seq<char>| true implies #[trigger] entries_map(t).contains_key(q) == entries_map(s).remove(e.key@).contains_key(q)
                && (entries_map(t).contains_key(q) ==> entries_map(t)[q] == entries_map(s)[q]) by {
                lemma_entries_map(s, q);
                lemma_entries_map(t, q);
                if exists|j: int| 0 <= j < t.len() && t[j].key@ == q {
                    let j = choose|j: int| 0 <= j < t.len() && t[j].key@ == q;
                    let j0 = if j < i { j } else { j + 1 };
                    assert(t[j] == s[j0]);
                }
                if q != e.key@ && exists|j: int| 0 <= j < s.len() && s[j].key@ == q {
                    let j = choose|j: int| 0 <= j < s.len() && s[j].key@ == q;
                    assert(j != i);
                    let j1 = if j < i { j } else { j - 1 };
                    assert(t[j1] == s[j]);
                }
            }
            assert(entries_map(t) =~= entries_map(s).remove(e.key@));
        }
        e
    }

    fn put(&mut self, key: String, task: ObjTask)
        requires
            old(self).wf(),
            !old(self)@.tasks.contains_key(key@),
            task.id < old(self)@.next_id,
        ensures
            final(self).wf(),
            final(self)@ == (RegistryModel { tasks: old(self)@.tasks.insert(key@, task), ..old(self)@ }),
    {
        let ghost s = self.tasks@;
        let ghost k = key@;
        let ghost e = Entry { key, task };
        proof {
            lemma_entries_map(s, k);
        }
        self.tasks.push(Entry { key, task });
        proof {
            let t = self.tasks@;
            assert(t == s.push(e));
            assert forall|q: Seq<char>| true implies find(t, q) == if q == k { Some(task) } else { find(s, q) } by {
                lemma_find_push(s, e, q);
            }
            assert(entries_map(t) =~= entries_map(s).insert(k, task));
        }
    }

    /// The handle registered under `key`, as a copy.
    pub fn get_task(&self, key: &str) -> (r: Option<ObjTask>)
        requires
            self.wf(),
        ensures
            r == (if self@.tasks.contains_key(key@) { Some(self@.tasks[key@]) } else { None }),
    {
        let k = String::from_str(key);
        proof {
            lemma_entries_map(self.tasks@, key@);
        }
        match self.position(&k) {
            Some(i) => Some(self.tasks[i].task.duplicate()),
            None => None,
        }
    }

    /// Takes the handle for `key` out of the registry and hands it back, so
    /// that its operation can be aborted. Nothing happens for an absent key.
    pub fn remove_task(&mut self, key: &str) -> (r: Option<ObjTask>)
        requires
            old(self).wf(),
        ensures
            final(self).wf(),
            final(self)@ == remove_model(old(self)@, key@),
            r == (if old(self)@.tasks.contains_key(key@) { Some(old(self)@.tasks[key@]) } else { None }),
    {
        let k = String::from_str(key);
        proof {
            lemma_entries_map(self.tasks@, key@);
        }
        match self.position(&k) {
            Some(i) => {
                let e = self.take_at(i);
                Some(e.task)
            },
            None => {
                assert(self@.tasks =~= self@.tasks.remove(key@));
                None
            },
        }
    }

    /// Registers a freshly spawned operation under `key` and returns its
    /// handle. A handle already registered under `key` is replaced, not
    /// aborted: its operation runs on, and its completion no longer touches
    /// the registry.
    pub fn add_task(&mut self, key: &str, kind: ActionKind) -> (r: ObjTask)
        requires
            old(self).wf(),
            old(self)@.next_id < u64::MAX,
        ensures
            final(self).wf(),
            final(self)@ == add_model(old(self)@, key@, kind),
            r == (ObjTask { kind, id: old(self)@.next_id as u64, finished: false }),
    {
        let _ = self.remove_task(key);
        let id = self.next_id;
        let task = ObjTask::new(kind, id);
        let r = task.duplicate();
        self.next_id = id + 1;
        self.put(String::from_str(key), task);
        proof {
            assert(self@.tasks =~= old(self)@.tasks.insert(key@, r));
        }
        r
    }

    /// Records that spawn `id` under `key` has completed. When it is the
    /// registered handle, a success takes it out of the registry and a failure
    /// leaves it there, marked finished. Returns whether the registry changed.
    pub fn complete_task(&mut self, key: &str, id: u64, succeeded: bool) -> (r: bool)
        requires
            old(self).wf(),
        ensures
            final(self).wf(),
            final(self)@ == complete_model(old(self)@, key@, id, succeeded),
            r == (old(self)@.tasks.contains_key(key@) && old(self)@.tasks[key@].id == id),
    {
        let k = String::from_str(key);
        proof {
            lemma_entries_map(self.tasks@, key@);
        }
        match self.position(&k) {
            Some(i) => {
                if self.tasks[i].task.id != id {
                    return false;
                }
                let e = self.take_at(i);
                if !succeeded {
                    let task = ObjTask { finished: true, ..e.task };
                    self.put(e.key, task);
                    proof {
                        assert(self@.tasks =~= old(self)@.tasks.insert(key@, task));
                    }
                }
                true
            },
            None => false,
        }
    }

    /// One look of a waiter at `key`. A finished handle is reclaimed and the
    /// wait ends; a running one means sleeping one poll interval; an absent
    /// key ends the wait at once.
    pub fn wait_task(&mut self, key: &str) -> (r: WaitStep)
        requires
            old(self).wf(),
        ensures
            final(self).wf(),
            (final(self)@, r) == wait_model(old(self)@, key@),
    {
        match self.get_task(key) {
            None => WaitStep::Done,
            Some(t) => {
                let step = t.wait();
                if t.is_finished() {
                    let _ = self.remove_task(key);
                }
                step
            },
        }
    }
}

} // verus!
