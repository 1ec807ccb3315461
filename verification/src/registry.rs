//! The registry of named hosted environments.
//!
//! The registry owns many running environments, each under a unique name.
//! Entries are only ever inserted after an environment has reached the
//! running stage — a failed creation leaves no partial entry — and are
//! destroyed only by explicit removal. Names the registry generates itself
//! come from a monotonically increasing counter that skips names already
//! present, so a generated name never collides with a live entry.

use vstd::prelude::*;
use crate::adapter::AdapterContext;
use crate::adapter::CallbackReply;
use crate::adapter::CoreCallback;
use crate::adapter::spec_inert_reply;
use crate::errors::RegistryError;
use crate::frame::ProcessedFrameBuffer;
use crate::frame::ProcessedFrameView;
use crate::frame::spec_normalized;
use crate::lifecycle::EnvironmentState;
use crate::lifecycle::StateKind;
use crate::lifecycle::StateView;
use crate::lifecycle::spec_run_callbacks;
use crate::lifecycle::spec_step_callback;
use crate::lifecycle::spec_views;
use crate::naming::environment_name;
use crate::naming::lemma_environment_name_injective;
use crate::naming::spec_environment_name;

verus! {

/// The suffix the registry generates a name from: the first value at or
/// after `start` whose generated name is not among `names`. `fuel` bounds
/// the search; one more than the number of names always suffices
/// ([`lemma_free_suffix_exists`]).
pub open spec fn spec_first_free(names: Seq<Seq<char>>, start: nat, fuel: nat) -> Option<nat>
    decreases fuel,
{
    if fuel == 0 {
        None
    } else if !names.contains(spec_environment_name(start)) {
        Some(start)
    } else {
        spec_first_free(names, start + 1, (fuel - 1) as nat)
    }
}

proof fn lemma_first_free_none(names: Seq<Seq<char>>, start: nat, fuel: nat, k: nat)
    requires
        spec_first_free(names, start, fuel) is None,
        k < fuel,
    ensures
        names.contains(spec_environment_name(start + k)),
    decreases fuel,
{
    if k > 0 {
        lemma_first_free_none(names, start + 1, (fuel - 1) as nat, (k - 1) as nat);
    }
}

/// Pigeonhole: with one more candidate suffix than there are names, at
/// least one generated name is free — generated names are injective, so
/// `names.len() + 1` distinct candidates cannot all be among the names.
pub proof fn lemma_free_suffix_exists(names: Seq<Seq<char>>, start: nat)
    ensures
        spec_first_free(names, start, names.len() + 1) is Some,
{
    broadcast use vstd::seq_lib::seq_to_set_is_finite;

    let fuel = names.len() + 1;
    if spec_first_free(names, start, fuel) is None {
        let candidates = Seq::new(fuel, |k: int| spec_environment_name((start + k) as nat));
        assert forall|i: int, j: int|
            0 <= i < candidates.len() && 0 <= j < candidates.len() && i != j implies candidates[i]
            != candidates[j] by {
            if candidates[i] == candidates[j] {
                lemma_environment_name_injective((start + i) as nat, (start + j) as nat);
            }
        }
        assert(candidates.no_duplicates());
        assert forall|i: int| 0 <= i < candidates.len() implies names.to_set().contains(
            candidates[i],
        ) by {
            lemma_first_free_none(names, start, fuel, i as nat);
            assert(names.contains(spec_environment_name(start + i as nat)));
        }
        assert(candidates.to_set().subset_of(names.to_set()));
        candidates.unique_seq_to_set();
        names.lemma_cardinality_of_set();
        vstd::set_lib::lemma_len_subset(candidates.to_set(), names.to_set());
        assert(false);
    }
}

/// The named normalized frames of the first `n` entries, in entry order:
/// each running entry that holds a captured frame contributes its name and
/// the frame normalized under the entry's declared format; entries with no
/// frame yet are omitted, not errored.
pub open spec fn spec_frame_list(names: Seq<Seq<char>>, states: Seq<StateView>, n: nat) -> Seq<
    (Seq<char>, ProcessedFrameView),
>
    decreases n,
{
    if n == 0 {
        Seq::empty()
    } else {
        let rest = spec_frame_list(names, states, (n - 1) as nat);
        match states[n - 1] {
            StateView::Running(_, f, _, Some(frame)) => rest + seq![
                (
                    names[n - 1],
                    ProcessedFrameView {
                        bytes: spec_normalized(
                            f,
                            frame.bytes,
                            frame.width as nat,
                            frame.height as nat,
                        ),
                        width: frame.width,
                        height: frame.height,
                        pitch: (frame.width * 4) as usize,
                    },
                ),
            ],
            _ => rest,
        }
    }
}

/// Registry of named hosted environments, all built from one core binary
/// and one ROM. Creation drives an environment to running before anything
/// is registered; stepping and frame retrieval address entries by name;
/// removal is the only way an entry disappears.
#[derive(Debug)]
pub struct RetroEnvironmentManager {
    /// Path of the core binary every entry was created from.
    pub core_path: String,
    /// Path of the ROM every entry was created from.
    pub rom_path: String,
    environments: Vec<(String, EnvironmentState)>,
    next_name_index: u64,
}

impl RetroEnvironmentManager {
    /// Path of the core binary, as contract-level characters.
    pub closed spec fn spec_core_path(&self) -> Seq<char> {
        self.core_path@
    }

    /// Path of the ROM, as contract-level characters.
    pub closed spec fn spec_rom_path(&self) -> Seq<char> {
        self.rom_path@
    }

    /// Names of the entries, in insertion order.
    pub closed spec fn names(&self) -> Seq<Seq<char>> {
        self.environments@.map_values(|e: (String, EnvironmentState)| e.0@)
    }

    /// States of the entries, in insertion order.
    pub closed spec fn states(&self) -> Seq<StateView> {
        self.environments@.map_values(|e: (String, EnvironmentState)| e.1@)
    }

    /// Value of the name-generation counter. It only ever grows, also
    /// across removals: a generated name is never reused for as long as
    /// the counter has moved past it.
    pub closed spec fn counter(&self) -> nat {
        self.next_name_index as nat
    }

    /// Whether an entry with this name exists.
    pub open spec fn contains_name(&self, n: Seq<char>) -> bool {
        self.names().contains(n)
    }

    /// Number of live entries.
    pub open spec fn env_count(&self) -> nat {
        self.names().len()
    }

    /// Registry invariant: names are unique, and every entry is a
    /// well-formed environment in the running stage — creation never
    /// inserts anything else, and stepping cannot leave the stage.
    pub open spec fn wf(&self) -> bool {
        &&& self.names().no_duplicates()
        &&& self.states().len() == self.names().len()
        &&& forall|i: int|
            0 <= i < self.states().len() ==> (#[trigger] self.states()[i]).wf() && self.states()[i]
                is Running
    }

    /// Fresh registry with no entries and the generation counter at zero.
    pub fn new(core_path: String, rom_path: String) -> (r: RetroEnvironmentManager)
        ensures
            r.wf(),
            r.spec_core_path() == core_path@,
            r.spec_rom_path() == rom_path@,
            r.env_count() == 0,
            r.counter() == 0,
    {
        RetroEnvironmentManager {
            core_path,
            rom_path,
            environments: Vec::new(),
            next_name_index: 0,
        }
    }

    /// Index of the entry named `id`, if any.
    fn find_index(&self, id: &String) -> (r: Option<usize>)
        ensures
            match r {
                Some(i) => i < self.env_count() && self.names()[i as int] == id@,
                None => !self.contains_name(id@),
            },
    {
        let n = self.environments.len();
        let mut i: usize = 0;
        while i < n
            invariant
                i <= n,
                n == self.environments@.len(),
                forall|j: int| 0 <= j < i ==> self.names()[j] != id@,
            decreases n - i,
        {
            if self.environments[i].0.eq(id) {
                return Some(i);
            }
            i = i + 1;
        }
        None
    }

    /// Whether an entry with this name exists.
    pub fn has_name(&self, id: &String) -> (b: bool)
        ensures
            b == self.contains_name(id@),
    {
        match self.find_index(id) {
            Some(i) => {
                proof {
                    assert(self.names().contains(self.names()[i as int]));
                }
                true
            },
            None => false,
        }
    }

    /// Whether another creation fits the machine: name generation walks at
    /// most one candidate per live entry past the counter, and the counter
    /// must be able to move past the chosen value.
    pub fn can_create(&self) -> (b: bool)
        ensures
            b == (self.counter() + self.env_count() + 1 <= u64::MAX),
    {
        let c = self.next_name_index as u128;
        let n = self.environments.len() as u128;
        c + n + 1 <= u64::MAX as u128
    }

    /// Generate the next free name: the first counter value whose name no
    /// entry holds. Returns the name and the suffix it was built from.
    fn generate_name(&self) -> (r: (String, u64))
        requires
            self.counter() + self.env_count() + 1 <= u64::MAX,
        ensures
            spec_first_free(self.names(), self.counter(), self.env_count() + 1) == Some(
                r.1 as nat,
            ),
            r.0@ == spec_environment_name(r.1 as nat),
            !self.contains_name(r.0@),
            self.counter() <= r.1 as nat <= self.counter() + self.env_count(),
    {
        proof {
            lemma_free_suffix_exists(self.names(), self.counter());
        }
        let bound: u64 = self.environments.len() as u64;
        let mut k: u64 = 0;
        while k <= bound
            invariant
                k <= bound + 1,
                bound == self.env_count(),
                self.counter() + bound + 1 <= u64::MAX,
                spec_first_free(self.names(), self.counter(), (bound + 1) as nat)
                    == spec_first_free(
                    self.names(),
                    self.counter() + k as nat,
                    (bound + 1 - k) as nat,
                ),
            decreases bound + 1 - k,
        {
            let suffix: u64 = self.next_name_index + k;
            let candidate = environment_name(suffix);
            if !self.has_name(&candidate) {
                proof {
                    assert(spec_first_free(
                        self.names(),
                        self.counter() + k as nat,
                        (bound + 1 - k) as nat,
                    ) == Some(suffix as nat));
                }
                return (candidate, suffix);
            }
            k = k + 1;
        }
        // Never reached: the pigeonhole lemma above guarantees a free
        // suffix within the scanned range.
        proof {
            assert(spec_first_free(self.names(), self.counter(), (bound + 1) as nat) is None);
            assert(false);
        }
        (String::new(), 0)
    }

    /// Register an environment that has reached the running stage under a
    /// caller-chosen name, or under a generated one when no name is given.
    ///
    /// The embedding builds `environment` first — load the core, initialise
    /// it, load the ROM — and only a running environment is accepted, so a
    /// failed creation leaves no partial entry. An explicit name that
    /// collides with a live entry is rejected and handed back, and the
    /// existing entry is untouched. A generated name is `environment_{n}`
    /// for the first free counter value `n` at or past the counter, which
    /// then moves past `n`: generated names of one registry never repeat.
    pub fn create_environment(&mut self, name: Option<String>, environment: EnvironmentState) -> (r:
        Result<String, RegistryError>)
        requires
            old(self).wf(),
            environment@.wf(),
            old(self).counter() + old(self).env_count() + 1 <= u64::MAX,
        ensures
            final(self).wf(),
            final(self).spec_core_path() == old(self).spec_core_path(),
            final(self).spec_rom_path() == old(self).spec_rom_path(),
            !(environment@ is Running) ==> (r matches Err(RegistryError::NotRunning { actual })
                && actual == environment@.kind() && *final(self) == *old(self)),
            environment@ is Running ==> match name {
                Some(n) => if old(self).contains_name(n@) {
                    r matches Err(RegistryError::DuplicateName(m)) && m@ == n@ && *final(self)
                        == *old(self)
                } else {
                    r matches Ok(id) && id@ == n@ && final(self).names() == old(
                        self,
                    ).names().push(n@) && final(self).states() == old(self).states().push(
                        environment@,
                    ) && final(self).counter() == old(self).counter()
                },
                None => r matches Ok(id) && {
                    &&& (spec_first_free(
                        old(self).names(),
                        old(self).counter(),
                        old(self).env_count() + 1,
                    ) matches Some(suffix) && id@ == spec_environment_name(suffix)
                        && final(self).counter() == suffix + 1)
                    &&& !old(self).contains_name(id@)
                    &&& final(self).names() == old(self).names().push(id@)
                    &&& final(self).states() == old(self).states().push(environment@)
                    &&& final(self).counter() > old(self).counter()
                },
            },
    {
        let kind = environment.kind();
        if kind != StateKind::Running {
            return Err(RegistryError::NotRunning { actual: kind });
        }
        match name {
            Some(n) => {
                if self.has_name(&n) {
                    return Err(RegistryError::DuplicateName(n));
                }
                let id = n.clone();
                let ghost before = self.environments@;
                self.environments.push((n, environment));
                proof {
                    assert(self.names() =~= old(self).names().push(id@));
                    assert(self.states() =~= old(self).states().push(environment@));
                    lemma_no_duplicates_push(old(self).names(), id@);
                }
                Ok(id)
            },
            None => {
                let (candidate, suffix) = self.generate_name();
                let id = candidate.clone();
                self.next_name_index = suffix + 1;
                self.environments.push((candidate, environment));
                proof {
                    assert(self.names() =~= old(self).names().push(id@));
                    assert(self.states() =~= old(self).states().push(environment@));
                    lemma_no_duplicates_push(old(self).names(), id@);
                }
                Ok(id)
            },
        }
    }

    /// Step one entry: fold the callbacks the core made during one run call
    /// over the entry named `id`. Every other entry is untouched; a removed
    /// or never-created id reports unknown.
    pub fn step(&mut self, id: &String, callbacks: Vec<CoreCallback>) -> (r: Result<
        (),
        RegistryError,
    >)
        requires
            old(self).wf(),
        ensures
            final(self).wf(),
            final(self).spec_core_path() == old(self).spec_core_path(),
            final(self).spec_rom_path() == old(self).spec_rom_path(),
            final(self).names() == old(self).names(),
            final(self).counter() == old(self).counter(),
            !old(self).contains_name(id@) ==> (r matches Err(RegistryError::UnknownId)
                && final(self).states() == old(self).states()),
            old(self).contains_name(id@) ==> r is Ok && forall|i: int|
                0 <= i < old(self).states().len() ==> final(self).states()[i] == (if old(
                    self,
                ).names()[i] == id@ {
                    spec_run_callbacks(old(self).states()[i], spec_views(callbacks@))
                } else {
                    old(self).states()[i]
                }),
    {
        let idx = match self.find_index(id) {
            Some(i) => i,
            None => {
                return Err(RegistryError::UnknownId);
            },
        };
        proof {
            assert(self.names().contains(self.names()[idx as int]));
            assert(self.states()[idx as int].wf() && self.states()[idx as int] is Running);
            assert(self.states()[idx as int] == self.environments@[idx as int].1@);
        }
        let ghost before = self.environments@;
        let mut entry = self.environments.remove(idx);
        let res = entry.1.run(callbacks);
        proof {
            assert(res is Ok);
        }
        let ghost newstate = entry.1@;
        self.environments.insert(idx, entry);
        proof {
            assert(self.environments@ =~= before.remove(idx as int).insert(idx as int, (
                before[idx as int].0,
                self.environments@[idx as int].1,
            )));
            assert(self.names() =~= old(self).names());
            assert(self.states() =~= old(self).states().update(idx as int, newstate));
            lemma_unique_index(old(self).names(), idx as int, id@);
            assert forall|j: int| 0 <= j < self.states().len() implies (#[trigger] self.states()[j]).wf()
                && self.states()[j] is Running by {
                if j != idx as int {
                    assert(self.states()[j] == old(self).states()[j]);
                    assert(old(self).states()[j].wf() && old(self).states()[j] is Running);
                }
            }
        }
        Ok(())
    }

    /// Step every entry once: `outcomes` holds, in entry order, the
    /// callbacks the core of each entry made during its run call.
    pub fn run_environments(&mut self, outcomes: Vec<Vec<CoreCallback>>)
        requires
            old(self).wf(),
            outcomes@.len() == old(self).env_count(),
        ensures
            final(self).wf(),
            final(self).spec_core_path() == old(self).spec_core_path(),
            final(self).spec_rom_path() == old(self).spec_rom_path(),
            final(self).names() == old(self).names(),
            final(self).counter() == old(self).counter(),
            final(self).states().len() == old(self).states().len(),
            forall|i: int|
                0 <= i < old(self).states().len() ==> final(self).states()[i]
                    == spec_run_callbacks(
                    old(self).states()[i],
                    spec_views(outcomes@[i]@),
                ),
    {
        let n = self.environments.len();
        let mut outs = outcomes;
        let mut i: usize = 0;
        while i < n
            invariant
                i <= n,
                n == self.environments@.len(),
                self.environments@.len() == old(self).environments@.len(),
                outs@ =~= outcomes@.subrange(i as int, n as int),
                self.wf(),
                self.spec_core_path() == old(self).spec_core_path(),
                self.spec_rom_path() == old(self).spec_rom_path(),
                self.names() == old(self).names(),
                self.counter() == old(self).counter(),
                outcomes@.len() == old(self).env_count(),
                forall|j: int|
                    0 <= j < i ==> self.states()[j] == spec_run_callbacks(
                        old(self).states()[j],
                        spec_views(outcomes@[j]@),
                    ),
                forall|j: int| i <= j < n ==> self.states()[j] == old(self).states()[j],
            decreases n - i,
        {
            let ghost before = self.environments@;
            let cbs = outs.remove(0);
            proof {
                assert(cbs@ == outcomes@[i as int]@);
                assert(self.states()[i as int].wf() && self.states()[i as int] is Running);
                assert(self.states()[i as int] == self.environments@[i as int].1@);
            }
            let ghost prestates = self.states();
            proof {
                assert(forall|j: int|
                    0 <= j < prestates.len() ==> (#[trigger] prestates[j]).wf() && prestates[j]
                        is Running);
            }
            let mut entry = self.environments.remove(i);
            let res = entry.1.run(cbs);
            proof {
                assert(res is Ok);
            }
            let ghost newstate = entry.1@;
            self.environments.insert(i, entry);
            proof {
                assert(self.environments@ =~= before.remove(i as int).insert(i as int, (
                    before[i as int].0,
                    self.environments@[i as int].1,
                )));
                assert(self.names() =~= old(self).names());
                assert(self.states() =~= prestates.update(i as int, newstate));
                assert forall|j: int| 0 <= j < self.states().len() implies (#[trigger] self.states()[j]).wf()
                    && self.states()[j] is Running by {
                    if j != i as int {
                        assert(self.states()[j] == prestates[j]);
                    }
                }
            }
            i = i + 1;
        }
    }

    /// Normalized frame of the entry named `id`: the last captured frame
    /// under the entry's declared format. None when no entry has that name
    /// or the entry has not captured a frame yet.
    pub fn get_frame_information(&self, id: &String) -> (r: Option<ProcessedFrameBuffer>)
        requires
            self.wf(),
        ensures
            !self.contains_name(id@) ==> r is None,
            forall|i: int|
                0 <= i < self.names().len() && self.names()[i] == id@ ==> match self.states()[i] {
                    StateView::Running(_, f, _, Some(frame)) => r matches Some(p) && p@
                        == (ProcessedFrameView {
                        bytes: spec_normalized(
                            f,
                            frame.bytes,
                            frame.width as nat,
                            frame.height as nat,
                        ),
                        width: frame.width,
                        height: frame.height,
                        pitch: (frame.width * 4) as usize,
                    }),
                    _ => r is None,
                },
    {
        match self.get_frame(id) {
            Ok(p) => Some(p),
            Err(_) => None,
        }
    }

    /// Normalized frame of the entry named `id`, distinguishing an unknown
    /// id from an entry whose frame is not ready yet.
    pub fn get_frame(&self, id: &String) -> (r: Result<ProcessedFrameBuffer, RegistryError>)
        requires
            self.wf(),
        ensures
            !self.contains_name(id@) ==> r matches Err(RegistryError::UnknownId),
            forall|i: int|
                0 <= i < self.names().len() && self.names()[i] == id@ ==> match self.states()[i] {
                    StateView::Running(_, f, _, Some(frame)) => r matches Ok(p) && p@
                        == (ProcessedFrameView {
                        bytes: spec_normalized(
                            f,
                            frame.bytes,
                            frame.width as nat,
                            frame.height as nat,
                        ),
                        width: frame.width,
                        height: frame.height,
                        pitch: (frame.width * 4) as usize,
                    }),
                    _ => r matches Err(RegistryError::NotReady),
                },
    {
        let idx = match self.find_index(id) {
            Some(i) => i,
            None => {
                return Err(RegistryError::UnknownId);
            },
        };
        proof {
            assert(self.names().contains(self.names()[idx as int]));
            lemma_unique_index(self.names(), idx as int, id@);
            assert(self.states()[idx as int].wf());
            assert(self.states()[idx as int] == self.environments@[idx as int].1@);
        }
        match &self.environments[idx].1 {
            EnvironmentState::Running(_, f, _, Some(fb)) => Ok(ProcessedFrameBuffer::from(*f, fb)),
            _ => Err(RegistryError::NotReady),
        }
    }

    /// Named normalized frames of every entry that has captured one, in
    /// entry order; entries with no frame yet are omitted, not errored.
    pub fn get_frame_information_list(&self) -> (r: Vec<(String, ProcessedFrameBuffer)>)
        requires
            self.wf(),
        ensures
            r@.map_values(|p: (String, ProcessedFrameBuffer)| (p.0@, p.1@)) == spec_frame_list(
                self.names(),
                self.states(),
                self.env_count(),
            ),
    {
        let n = self.environments.len();
        let mut out: Vec<(String, ProcessedFrameBuffer)> = Vec::new();
        let mut i: usize = 0;
        while i < n
            invariant
                i <= n,
                n == self.environments@.len(),
                self.wf(),
                out@.map_values(|p: (String, ProcessedFrameBuffer)| (p.0@, p.1@))
                    == spec_frame_list(self.names(), self.states(), i as nat),
            decreases n - i,
        {
            let ghost prefix = out@.map_values(|p: (String, ProcessedFrameBuffer)| (p.0@, p.1@));
            proof {
                assert(self.states()[i as int].wf());
                assert(self.states()[i as int] == self.environments@[i as int].1@);
                assert(self.names()[i as int] == self.environments@[i as int].0@);
            }
            match &self.environments[i].1 {
                EnvironmentState::Running(_, f, _, Some(fb)) => {
                    let processed = ProcessedFrameBuffer::from(*f, fb);
                    let name = self.environments[i].0.clone();
                    out.push((name, processed));
                },
                _ => {},
            }
            i = i + 1;
            proof {
                assert(out@.map_values(|p: (String, ProcessedFrameBuffer)| (p.0@, p.1@))
                    =~= spec_frame_list(self.names(), self.states(), i as nat));
            }
        }
        out
    }

    /// Remove the entry named `id` and hand its environment back. The
    /// embedding must wind it down in order — unload the ROM, deinitialise
    /// the core, and release the library last: releasing the library while
    /// the ROM is loaded would run foreign code after free. The counter is
    /// untouched, so the name of a removed entry is never regenerated.
    pub fn remove(&mut self, id: &String) -> (r: Result<EnvironmentState, RegistryError>)
        requires
            old(self).wf(),
        ensures
            final(self).wf(),
            final(self).spec_core_path() == old(self).spec_core_path(),
            final(self).spec_rom_path() == old(self).spec_rom_path(),
            final(self).counter() == old(self).counter(),
            !old(self).contains_name(id@) ==> (r matches Err(RegistryError::UnknownId)
                && final(self).names() == old(self).names() && final(self).states() == old(
                    self,
                ).states()),
            old(self).contains_name(id@) ==> (r matches Ok(env) && forall|i: int|
                0 <= i < old(self).names().len() && old(self).names()[i] == id@ ==> env@ == old(
                    self,
                ).states()[i] && final(self).names() == old(self).names().remove(i)
                && final(self).states() == old(self).states().remove(i)),
            !final(self).contains_name(id@),
    {
        let idx = match self.find_index(id) {
            Some(i) => i,
            None => {
                return Err(RegistryError::UnknownId);
            },
        };
        proof {
            assert(self.names().contains(self.names()[idx as int]));
            lemma_unique_index(self.names(), idx as int, id@);
        }
        let entry = self.environments.remove(idx);
        proof {
            assert(self.names() =~= old(self).names().remove(idx as int));
            assert(self.states() =~= old(self).states().remove(idx as int));
            assert forall|j: int| 0 <= j < self.names().len() implies self.names()[j] != id@ by {
                if j < idx {
                    assert(self.names()[j] == old(self).names()[j]);
                } else {
                    assert(self.names()[j] == old(self).names()[j + 1]);
                }
            }
            if self.contains_name(id@) {
                let w = choose|j: int|
                    0 <= j < self.names().len() && self.names()[j] == id@;
                assert(false);
            }
        }
        Ok(entry.1)
    }

    /// Route one context-free callback: deliver it to the entry the adapter
    /// context marks as active, and answer inertly — without touching any
    /// entry — when no call is in flight or the marked instance no longer
    /// exists. A misbehaving core is answered, never escalated.
    pub fn route_callback(&mut self, ctx: &AdapterContext, cb: CoreCallback) -> (r: CallbackReply)
        requires
            old(self).wf(),
        ensures
            final(self).wf(),
            final(self).spec_core_path() == old(self).spec_core_path(),
            final(self).spec_rom_path() == old(self).spec_rom_path(),
            final(self).names() == old(self).names(),
            final(self).counter() == old(self).counter(),
            match ctx.spec_active() {
                Some(idv) => if old(self).contains_name(idv) {
                    forall|i: int|
                        0 <= i < old(self).states().len() ==> (if old(self).names()[i] == idv {
                            final(self).states()[i] == spec_step_callback(
                                old(self).states()[i],
                                cb@,
                            ).0 && r == spec_step_callback(old(self).states()[i], cb@).1
                        } else {
                            final(self).states()[i] == old(self).states()[i]
                        })
                } else {
                    r == spec_inert_reply(cb@) && final(self).states() == old(self).states()
                },
                None => r == spec_inert_reply(cb@) && final(self).states() == old(self).states(),
            },
    {
        let id = match ctx.active_instance() {
            Some(id) => id,
            None => {
                return crate::adapter::inert_reply(&cb);
            },
        };
        let idx = match self.find_index(id) {
            Some(i) => i,
            None => {
                return crate::adapter::inert_reply(&cb);
            },
        };
        proof {
            assert(self.names().contains(self.names()[idx as int]));
            lemma_unique_index(self.names(), idx as int, id@);
            assert(self.states()[idx as int].wf() && self.states()[idx as int] is Running);
            assert(self.states()[idx as int] == self.environments@[idx as int].1@);
        }
        let ghost before = self.environments@;
        let mut entry = self.environments.remove(idx);
        let reply = entry.1.handle_callback(cb);
        let ghost newstate = entry.1@;
        self.environments.insert(idx, entry);
        proof {
            assert(self.environments@ =~= before.remove(idx as int).insert(idx as int, (
                before[idx as int].0,
                self.environments@[idx as int].1,
            )));
            assert(self.names() =~= old(self).names());
            assert(self.states() =~= old(self).states().update(idx as int, newstate));
            assert forall|j: int| 0 <= j < self.states().len() implies (#[trigger] self.states()[j]).wf()
                && self.states()[j] is Running by {
                if j != idx as int {
                    assert(self.states()[j] == old(self).states()[j]);
                    assert(old(self).states()[j].wf() && old(self).states()[j] is Running);
                }
            }
        }
        reply
    }
}

/// Appending a name not yet present keeps the names free of duplicates.
proof fn lemma_no_duplicates_push(names: Seq<Seq<char>>, n: Seq<char>)
    requires
        names.no_duplicates(),
        !names.contains(n),
    ensures
        names.push(n).no_duplicates(),
{
    let pushed = names.push(n);
    assert forall|i: int, j: int|
        0 <= i < pushed.len() && 0 <= j < pushed.len() && i != j implies pushed[i] != pushed[j] by {
        if i < names.len() && j < names.len() {
        } else if i < names.len() {
            assert(names.contains(names[i]));
        } else if j < names.len() {
            assert(names.contains(names[j]));
        }
    }
}

/// In a duplicate-free name sequence, the index found for a name is the
/// only one holding it.
proof fn lemma_unique_index(names: Seq<Seq<char>>, i: int, n: Seq<char>)
    requires
        names.no_duplicates(),
        0 <= i < names.len(),
        names[i] == n,
    ensures
        forall|j: int| 0 <= j < names.len() && names[j] == n ==> j == i,
{
}

} // verus!
