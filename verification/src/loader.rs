//! The library loader's retained-module state: an append-only arena of
//! opened modules indexed by a monotonically increasing load generation.
//! Opening the module file itself crosses the process boundary and lives
//! outside this crate; the caller performs it and records the outcome here.
//! A module, once recorded, is never removed before process end, so any
//! processing object extracted from it keeps valid code for its whole life.

use vstd::prelude::*;

use crate::object::ProcessingObject;

verus! {

/// One retained module: its load generation and the path it was opened from.
pub struct ModuleRecord {
    pub generation: u64,
    pub path: String,
}

/// Append-only list of opened modules, most recent last. Symbol resolution
/// is most-recent-wins: extraction always addresses the last entry.
pub struct LibLoader {
    modules: Vec<ModuleRecord>,
    next_generation: u64,
}

impl LibLoader {
    /// The retained modules, in open order.
    pub closed spec fn modules_view(&self) -> Seq<ModuleRecord> {
        self.modules@
    }

    /// The generation the next successful open will receive.
    pub closed spec fn next_generation_view(&self) -> u64 {
        self.next_generation
    }

    /// Generations grow along the list and stay below the next one to be
    /// handed out, so every retained module has a distinct generation.
    pub open spec fn wf(&self) -> bool {
        &&& forall|i: int, j: int|
            0 <= i < j < self.modules_view().len() ==> self.modules_view()[i].generation
                < self.modules_view()[j].generation
        &&& forall|i: int|
            0 <= i < self.modules_view().len() ==> #[trigger] self.modules_view()[i].generation
                < self.next_generation_view()
    }

    /// A loader that has opened nothing yet.
    pub fn new() -> (r: LibLoader)
        ensures
            r.wf(),
            r.modules_view() == Seq::<ModuleRecord>::empty(),
            r.next_generation_view() == 0,
    {
        LibLoader { modules: Vec::new(), next_generation: 0 }
    }

    /// The generation the next successful open will receive.
    pub fn next_generation(&self) -> (r: u64)
        ensures
            r == self.next_generation_view(),
    {
        self.next_generation
    }

    /// How many modules are retained.
    pub fn module_count(&self) -> (r: usize)
        ensures
            r == self.modules_view().len(),
    {
        self.modules.len()
    }

    /// Record one successful open of the module at `path`: the module is
    /// appended to the retained list under a fresh generation, and nothing
    /// already retained moves or leaves.
    pub fn record_open(&mut self, path: String) -> (generation: u64)
        requires
            old(self).wf(),
            old(self).next_generation_view() < u64::MAX,
        ensures
            final(self).wf(),
            generation == old(self).next_generation_view(),
            final(self).next_generation_view() == old(self).next_generation_view() + 1,
            final(self).modules_view() == old(self).modules_view().push(
                ModuleRecord { generation, path },
            ),
    {
        let generation = self.next_generation;
        self.modules.push(ModuleRecord { generation, path });
        self.next_generation = self.next_generation + 1;
        proof {
            let pre = old(self).modules_view();
            let post = self.modules@;
            assert forall|i: int, j: int|
                0 <= i < j < post.len() implies post[i].generation < post[j].generation by {
                assert(post[i] == pre[i]);
                if j < pre.len() {
                    assert(post[j] == pre[j]);
                }
            }
            assert forall|i: int|
                0 <= i < post.len() implies #[trigger] post[i].generation
                    < self.next_generation by {
                if i < pre.len() {
                    assert(post[i] == pre[i]);
                }
            }
        }
        generation
    }

    /// The generation of the most recently opened module, if any: the module
    /// that symbol resolution addresses.
    pub fn current_generation(&self) -> (r: Option<u64>)
        ensures
            self.modules_view().len() == 0 ==> r is None,
            self.modules_view().len() > 0 ==> r == Some(
                self.modules_view().last().generation,
            ),
    {
        if self.modules.len() == 0 {
            None
        } else {
            Some(self.modules[self.modules.len() - 1].generation)
        }
    }

    /// Extraction of a processing object from the most recently opened
    /// module. The factory symbol is resolved and invoked outside this
    /// crate; `factory_resolved` says whether that resolution succeeded.
    /// An object is returned exactly when a module has ever been opened and
    /// the factory symbol resolved, and it is backed by the last module.
    pub fn extract_processing_object(&self, factory_resolved: bool) -> (r: Option<
        ProcessingObject,
    >)
        ensures
            r is Some <==> (self.modules_view().len() > 0 && factory_resolved),
            r is Some ==> r->Some_0.module_gen == self.modules_view().last().generation,
    {
        if self.modules.len() == 0 {
            None
        } else if !factory_resolved {
            None
        } else {
            Some(ProcessingObject::new(self.modules[self.modules.len() - 1].generation))
        }
    }
}

/// The retained list after a run of open attempts, each either a successful
/// open of some module record or a failure that changes nothing.
pub open spec fn retained_after(
    modules: Seq<ModuleRecord>,
    attempts: Seq<Option<ModuleRecord>>,
) -> Seq<ModuleRecord>
    decreases attempts.len(),
{
    if attempts.len() == 0 {
        modules
    } else {
        match attempts[0] {
            Some(rec) => retained_after(modules.push(rec), attempts.drop_first()),
            None => retained_after(modules, attempts.drop_first()),
        }
    }
}

/// How many of the attempts succeeded.
pub open spec fn successful_opens(attempts: Seq<Option<ModuleRecord>>) -> nat
    decreases attempts.len(),
{
    if attempts.len() == 0 {
        0
    } else {
        (if attempts[0] is Some {
            1nat
        } else {
            0nat
        }) + successful_opens(attempts.drop_first())
    }
}

/// Law: after `N` successful opens, exactly `N` more modules are retained,
/// and every module retained before still stands at its place — none is
/// ever removed before process end.
pub proof fn lemma_retained_modules(
    modules: Seq<ModuleRecord>,
    attempts: Seq<Option<ModuleRecord>>,
)
    ensures
        retained_after(modules, attempts).len() == modules.len() + successful_opens(attempts),
        forall|i: int|
            0 <= i < modules.len() ==> retained_after(modules, attempts)[i] == modules[i],
    decreases attempts.len(),
{
    if attempts.len() > 0 {
        match attempts[0] {
            Some(rec) => {
                lemma_retained_modules(modules.push(rec), attempts.drop_first());
                assert(forall|i: int|
                    0 <= i < modules.len() ==> modules.push(rec)[i] == modules[i]);
            },
            None => {
                lemma_retained_modules(modules, attempts.drop_first());
            },
        }
    }
}

} // verus!
