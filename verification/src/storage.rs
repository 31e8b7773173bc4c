//! The executor's task store: WebAssembly modules kept by task name.
use vstd::prelude::*;
use crate::proto::Task;

verus! {

/// What the store holds, as a map from task name to module bytes.
pub type TaskMap = Map<Seq<char>, Seq<u8>>;

/// The store after a task was created: the name now maps to its module,
/// replacing whatever module it had.
pub open spec fn stored_after_create(m: TaskMap, name: Seq<char>, wasm: Seq<u8>) -> TaskMap {
    m.insert(name, wasm)
}

/// What a lookup by name finds: the module, or nothing.
pub open spec fn lookup(m: TaskMap, name: Seq<char>) -> Option<Seq<u8>> {
    if m.contains_key(name) {
        Some(m[name])
    } else {
        None
    }
}

/// The tasks of a list, seen as a map from name to module.
pub open spec fn task_list_map(tasks: Seq<Task>) -> TaskMap
    decreases tasks.len(),
{
    if tasks.len() == 0 {
        Map::empty()
    } else {
        task_list_map(tasks.drop_last()).insert(tasks.last().name@, tasks.last().wasm@)
    }
}

/// No two tasks of the list have the same name.
pub open spec fn names_distinct(tasks: Seq<Task>) -> bool {
    forall|i: int, j: int|
        0 <= i < tasks.len() && 0 <= j < tasks.len() && i != j ==> tasks[i].name@ != tasks[j].name@
}

/// The list holds exactly the tasks of the map, each once.
pub open spec fn lists_exactly(tasks: Seq<Task>, m: TaskMap) -> bool {
    &&& names_distinct(tasks)
    &&& tasks.len() == m.len()
    &&& forall|i: int| 0 <= i < tasks.len() ==> #[trigger] m.contains_key(tasks[i].name@)
        && m[tasks[i].name@] == tasks[i].wasm@
    &&& forall|name: Seq<char>| #[trigger] m.contains_key(name) ==> exists|i: int|
        0 <= i < tasks.len() && tasks[i].name@ == name
}

/// Law: a task read back by name after it was created gives the module it
/// was created with.
pub proof fn law_get_after_create(m: TaskMap, name: Seq<char>, wasm: Seq<u8>)
    ensures
        lookup(stored_after_create(m, name, wasm), name) == Some(wasm),
{
}

/// The store after a series of creates, applied in order, each a name and a
/// module.
pub open spec fn stored_after_creates(m: TaskMap, creates: Seq<(Seq<char>, Seq<u8>)>) -> TaskMap
    decreases creates.len(),
{
    if creates.len() == 0 {
        m
    } else {
        stored_after_create(stored_after_creates(m, creates.drop_last()), creates.last().0, creates.last().1)
    }
}

/// Law: a task read back by name gives the module of the last create under
/// that name, whatever other names were created after it.
pub proof fn law_get_after_later_creates(m: TaskMap, name: Seq<char>, wasm: Seq<u8>, later: Seq<(Seq<char>, Seq<u8>)>)
    requires
        forall|i: int| 0 <= i < later.len() ==> (#[trigger] later[i]).0 != name,
    ensures
        lookup(stored_after_creates(stored_after_create(m, name, wasm), later), name) == Some(wasm),
    decreases later.len(),
{
    if later.len() > 0 {
        let init = later.drop_last();
        assert forall|i: int| 0 <= i < init.len() implies (#[trigger] init[i]).0 != name by {
            assert(init[i] == later[i]);
        }
        law_get_after_later_creates(m, name, wasm, init);
        assert(later[later.len() - 1].0 != name);
    }
}

/// Law: creating a task leaves every other name as it was.
pub proof fn law_create_keeps_others(m: TaskMap, name: Seq<char>, wasm: Seq<u8>, other: Seq<char>)
    requires
        other != name,
    ensures
        lookup(stored_after_create(m, name, wasm), other) == lookup(m, other),
{
}

/// Law: creating a task twice under one name keeps the later module only.
pub proof fn law_create_overwrites(m: TaskMap, name: Seq<char>, first: Seq<u8>, second: Seq<u8>)
    ensures
        stored_after_create(stored_after_create(m, name, first), name, second) == stored_after_create(m, name, second),
{
    assert(stored_after_create(stored_after_create(m, name, first), name, second) =~= stored_after_create(m, name, second));
}

/// Law: a listing of the store after a task was created holds that task,
/// with its module, exactly once.
pub proof fn law_listed_after_create(m: TaskMap, name: Seq<char>, wasm: Seq<u8>, tasks: Seq<Task>)
    requires
        lists_exactly(tasks, stored_after_create(m, name, wasm)),
    ensures
        exists|i: int| 0 <= i < tasks.len() && tasks[i].name@ == name && tasks[i].wasm@ == wasm,
        forall|i: int, j: int| 0 <= i < tasks.len() && 0 <= j < tasks.len() && tasks[i].name@ == name
            && tasks[j].name@ == name ==> i == j,
{
    let s = stored_after_create(m, name, wasm);
    assert(s.contains_key(name));
    let i = choose|i: int| 0 <= i < tasks.len() && tasks[i].name@ == name;
    assert(s.contains_key(tasks[i].name@));
}

/// Why a lookup in the store failed.
#[derive(Debug, PartialEq, Eq)]
pub enum StorageError {
    /// No task has the name that was asked for.
    TaskNotFound,
}

impl StorageError {
    /// The message that the error is reported with.
    pub fn message(&self) -> (r: String)
        ensures
            r@ == storage_error_text(),
    {
        String::from_str("Task not found")
    }
}

/// The message of a failed lookup.
pub open spec fn storage_error_text() -> Seq<char> {
    "Task not found"@
}

/// Tasks kept by name; creating a task under a name that is taken replaces
/// the module stored under it.
pub struct Storage {
    tasks: Vec<Task>,
}

impl View for Storage {
    type V = TaskMap;

    closed spec fn view(&self) -> TaskMap {
        task_list_map(self.tasks@)
    }
}

proof fn lemma_map_keys_of_list(tasks: Seq<Task>)
    ensures
        task_list_map(tasks).dom().finite(),
        forall|name: Seq<char>| #[trigger] task_list_map(tasks).contains_key(name) <==> exists|i: int|
            0 <= i < tasks.len() && tasks[i].name@ == name,
    decreases tasks.len(),
{
    if tasks.len() > 0 {
        let init = tasks.drop_last();
        lemma_map_keys_of_list(init);
        assert forall|name: Seq<char>| #[trigger] task_list_map(tasks).contains_key(name) <==> exists|i: int|
            0 <= i < tasks.len() && tasks[i].name@ == name by {
            if task_list_map(tasks).contains_key(name) {
                if name == tasks.last().name@ {
                    assert(tasks[tasks.len() - 1].name@ == name);
                } else {
                    let i = choose|i: int| 0 <= i < init.len() && init[i].name@ == name;
                    assert(tasks[i].name@ == name);
                }
            }
            if exists|i: int| 0 <= i < tasks.len() && tasks[i].name@ == name {
                let i = choose|i: int| 0 <= i < tasks.len() && tasks[i].name@ == name;
                if i < tasks.len() - 1 {
                    assert(init[i].name@ == name);
                }
            }
        }
    }
}

proof fn lemma_list_values(tasks: Seq<Task>)
    requires
        names_distinct(tasks),
    ensures
        forall|i: int| 0 <= i < tasks.len() ==> #[trigger] task_list_map(tasks).contains_key(tasks[i].name@)
            && task_list_map(tasks)[tasks[i].name@] == tasks[i].wasm@,
        task_list_map(tasks).len() == tasks.len(),
    decreases tasks.len(),
{
    lemma_map_keys_of_list(tasks);
    if tasks.len() > 0 {
        let init = tasks.drop_last();
        assert(names_distinct(init)) by {
            assert forall|i: int, j: int|
                0 <= i < init.len() && 0 <= j < init.len() && i != j implies init[i].name@ != init[j].name@ by {
                assert(init[i] == tasks[i] && init[j] == tasks[j]);
            }
        }
        lemma_list_values(init);
        lemma_map_keys_of_list(init);
        let last = tasks.last();
        assert(!task_list_map(init).contains_key(last.name@)) by {
            if task_list_map(init).contains_key(last.name@) {
                let i = choose|i: int| 0 <= i < init.len() && init[i].name@ == last.name@;
                assert(tasks[i].name@ == tasks[tasks.len() - 1].name@);
            }
        }
        assert forall|i: int| 0 <= i < tasks.len() implies #[trigger] task_list_map(tasks).contains_key(tasks[i].name@)
            && task_list_map(tasks)[tasks[i].name@] == tasks[i].wasm@ by {
            if i < tasks.len() - 1 {
                assert(init[i] == tasks[i]);
                assert(tasks[i].name@ != last.name@);
                assert(task_list_map(init).contains_key(init[i].name@));
            }
        }
    }
}

impl Storage {
    #[verifier::type_invariant]
    spec fn distinct_names(self) -> bool {
        names_distinct(self.tasks@)
    }

    /// An empty store.
    pub fn new() -> (r: Storage)
        ensures
            r@ == TaskMap::empty(),
    {
        let r = Storage { tasks: Vec::new() };
        assert(r@ =~= TaskMap::empty());
        r
    }

    fn position(&self, name: &String) -> (r: Option<usize>)
        ensures
            match r {
                Some(i) => i < self.tasks@.len() && self.tasks@[i as int].name@ == name@,
                None => forall|i: int| 0 <= i < self.tasks@.len() ==> self.tasks@[i].name@ != name@,
            },
    {
        let mut i: usize = 0;
        while i < self.tasks.len()
            invariant
                i <= self.tasks@.len(),
                forall|j: int| 0 <= j < i ==> self.tasks@[j].name@ != name@,
            decreases self.tasks@.len() - i,
        {
            if self.tasks[i].name == *name {
                return Some(i);
            }
            i = i + 1;
        }
        None
    }

    /// Stores the task's module under its name, replacing any module that
    /// was stored under that name.
    pub fn create_task(&mut self, task: &Task)
        ensures
            final(self)@ == stored_after_create(old(self)@, task.name@, task.wasm@),
    {
        proof {
            use_type_invariant(&*self);
            lemma_map_keys_of_list(self.tasks@);
            lemma_list_values(self.tasks@);
        }
        let entry = task.duplicate();
        let ghost old_tasks = self.tasks@;
        match self.position(&task.name) {
            Some(i) => {
                let mut tasks: Vec<Task> = Vec::new();
                std::mem::swap(&mut tasks, &mut self.tasks);
                tasks.set(i, entry);
                proof {
                    let new_tasks = tasks@;
                    assert(names_distinct(new_tasks)) by {
                        assert forall|a: int, b: int|
                            0 <= a < new_tasks.len() && 0 <= b < new_tasks.len() && a != b
                            implies new_tasks[a].name@ != new_tasks[b].name@ by {
                            if a != i && b != i {
                                assert(new_tasks[a] == old_tasks[a] && new_tasks[b] == old_tasks[b]);
                            } else if a == i {
                                assert(new_tasks[b] == old_tasks[b]);
                                assert(old_tasks[i as int].name@ == new_tasks[a].name@);
                            } else {
                                assert(new_tasks[a] == old_tasks[a]);
                                assert(old_tasks[i as int].name@ == new_tasks[b].name@);
                            }
                        }
                    }
                    lemma_list_values(new_tasks);
                    lemma_map_keys_of_list(new_tasks);
                    let want = stored_after_create(task_list_map(old_tasks), task.name@, task.wasm@);
                    assert forall|k: Seq<char>| #[trigger] task_list_map(new_tasks).contains_key(k) <==> want.contains_key(k) by {
                        if want.contains_key(k) && k != task.name@ {
                            let j = choose|j: int| 0 <= j < old_tasks.len() && old_tasks[j].name@ == k;
                            assert(new_tasks[j] == old_tasks[j]);
                            assert(task_list_map(new_tasks).contains_key(new_tasks[j].name@));
                        }
                        if k == task.name@ {
                            assert(task_list_map(new_tasks).contains_key(new_tasks[i as int].name@));
                        }
                        if task_list_map(new_tasks).contains_key(k) {
                            let j = choose|j: int| 0 <= j < new_tasks.len() && new_tasks[j].name@ == k;
                            if j != i {
                                assert(new_tasks[j] == old_tasks[j]);
                            }
                        }
                    }
                    assert forall|k: Seq<char>| #[trigger] want.contains_key(k) implies task_list_map(new_tasks)[k] == want[k] by {
                        if k == task.name@ {
                            assert(new_tasks[i as int].name@ == k);
                            assert(task_list_map(new_tasks).contains_key(new_tasks[i as int].name@));
                        } else {
                            let j = choose|j: int| 0 <= j < old_tasks.len() && old_tasks[j].name@ == k;
                            assert(new_tasks[j] == old_tasks[j]);
                            assert(task_list_map(new_tasks).contains_key(new_tasks[j].name@));
                            assert(task_list_map(old_tasks).contains_key(old_tasks[j].name@));
                        }
                    }
                    assert(task_list_map(new_tasks) =~= want);
                }
                self.tasks = tasks;
            },
            None => {
                let mut tasks: Vec<Task> = Vec::new();
                std::mem::swap(&mut tasks, &mut self.tasks);
                tasks.push(entry);
                proof {
                    let new_tasks = tasks@;
                    assert(new_tasks.drop_last() =~= old_tasks);
                    assert(names_distinct(new_tasks)) by {
                        assert forall|a: int, b: int|
                            0 <= a < new_tasks.len() && 0 <= b < new_tasks.len() && a != b
                            implies new_tasks[a].name@ != new_tasks[b].name@ by {
                            if a < old_tasks.len() && b < old_tasks.len() {
                                assert(new_tasks[a] == old_tasks[a] && new_tasks[b] == old_tasks[b]);
                            } else if a < old_tasks.len() {
                                assert(new_tasks[a] == old_tasks[a]);
                            } else {
                                assert(new_tasks[b] == old_tasks[b]);
                            }
                        }
                    }
                }
                self.tasks = tasks;
            },
        }
    }

    /// Every stored task, each once, as a name and a module.
    pub fn list_tasks(&self) -> (r: Vec<Task>)
        ensures
            lists_exactly(r@, self@),
    {
        proof {
            use_type_invariant(self);
            lemma_list_values(self.tasks@);
            lemma_map_keys_of_list(self.tasks@);
        }
        let mut r: Vec<Task> = Vec::new();
        let mut i: usize = 0;
        while i < self.tasks.len()
            invariant
                i <= self.tasks@.len(),
                r@.len() == i,
                forall|j: int| #![trigger r@[j]] 0 <= j < i ==> r@[j].name@ == self.tasks@[j].name@
                    && r@[j].wasm@ == self.tasks@[j].wasm@,
            decreases self.tasks@.len() - i,
        {
            r.push(self.tasks[i].duplicate());
            i = i + 1;
        }
        proof {
            let m = task_list_map(self.tasks@);
            assert forall|name: Seq<char>| #[trigger] m.contains_key(name) implies exists|i: int|
                0 <= i < r@.len() && r@[i].name@ == name by {
                let j = choose|j: int| 0 <= j < self.tasks@.len() && self.tasks@[j].name@ == name;
                assert(r@[j].name@ == name);
            }
            assert forall|a: int| 0 <= a < r@.len() implies #[trigger] m.contains_key(r@[a].name@)
                && m[r@[a].name@] == r@[a].wasm@ by {
                assert(self.tasks@[a].name@ == r@[a].name@);
            }
            assert forall|a: int, b: int| 0 <= a < r@.len() && 0 <= b < r@.len() && a != b
                implies r@[a].name@ != r@[b].name@ by {
                assert(self.tasks@[a].name@ == r@[a].name@);
                assert(self.tasks@[b].name@ == r@[b].name@);
            }
        }
        r
    }

    /// The task stored under `name`, or `TaskNotFound` where none is.
    pub fn get_task(&self, name: &str) -> (r: Result<Task, StorageError>)
        ensures
            match r {
                Ok(t) => lookup(self@, name@) == Some(t.wasm@) && t.name@ == name@,
                Err(e) => lookup(self@, name@) is None && e == StorageError::TaskNotFound,
            },
    {
        proof {
            use_type_invariant(self);
            lemma_list_values(self.tasks@);
            lemma_map_keys_of_list(self.tasks@);
        }
        let key = String::from_str(name);
        match self.position(&key) {
            Some(i) => Ok(self.tasks[i].duplicate()),
            None => {
                proof {
                    if task_list_map(self.tasks@).contains_key(name@) {
                        let j = choose|j: int| 0 <= j < self.tasks@.len() && self.tasks@[j].name@ == name@;
                    }
                }
                Err(StorageError::TaskNotFound)
            },
        }
    }
}

} // verus!
