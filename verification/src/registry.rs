//! The task registry: an ordered sequence of named tasks, each with its own
//! timer, plus at most one selected index. The registry's invariant is that
//! the selected task's timer (if any) is the only running one; with no
//! selection every timer is stopped. Selection changes funnel every timer
//! transition through `select`, which stops the previously selected timer
//! and starts the newly selected one at a single captured instant.

use vstd::prelude::*;

use crate::timer::TaskTimer;
use crate::timer::cap_u64;

verus! {

/// The one failure the registry can report: an index that does not refer to
/// an entry of the current registry.
#[derive(Clone, Copy, PartialEq, Eq, Structural, Debug)]
pub enum RegistryError {
    IndexOutOfRange,
}

/// Ordered named tasks with at most one selected — hence at most one
/// running — timer. `names` and `timers` are parallel: entry `i` is the task
/// `(names[i], timers[i])`.
pub struct Registry {
    pub names: Vec<String>,
    pub timers: Vec<TaskTimer>,
    pub selected: Option<usize>,
}

/// The selection after deleting `index`: cleared when it pointed at the
/// deleted entry, shifted down when it pointed past it, else unchanged.
pub open spec fn spec_selected_after_delete(sel: Option<usize>, index: usize) -> Option<usize> {
    match sel {
        Some(s) => if s == index {
            None
        } else if s > index {
            Some((s - 1) as usize)
        } else {
            Some(s)
        },
        None => None,
    }
}

/// The timer of entry `j` after `select(new_index)` at instant `now`: first
/// stopped if `j` was the selected entry, then started if `j` is the newly
/// chosen one.
pub open spec fn timer_after_select(
    pre: Registry,
    j: int,
    new_index: Option<usize>,
    now: i64,
) -> TaskTimer {
    let t0 = pre.timers@[j];
    let t1 = if pre.selected == Some(j as usize) {
        t0.stop_spec(now as int)
    } else {
        t0
    };
    if new_index == Some(j as usize) {
        t1.start_spec(now)
    } else {
        t1
    }
}

impl Registry {
    /// Well-formedness: names and timers line up, the selection (if any) is
    /// in range and its timer is the only running one.
    pub open spec fn wf(self) -> bool {
        &&& self.names@.len() == self.timers@.len()
        &&& match self.selected {
            Some(i) => {
                &&& i < self.timers@.len()
                &&& self.timers@[i as int] is Running
                &&& forall|j: int|
                    0 <= j < self.timers@.len() && j != i ==> (#[trigger] self.timers@[j])
                        is Stopped
            },
            None => forall|j: int|
                0 <= j < self.timers@.len() ==> (#[trigger] self.timers@[j]) is Stopped,
        }
    }

    /// An empty registry with no selection.
    pub fn new() -> (r: Registry)
        ensures
            r.wf(),
            r.names@.len() == 0,
            r.timers@.len() == 0,
            r.selected is None,
    {
        Registry { names: Vec::new(), timers: Vec::new(), selected: None }
    }

    /// Number of tasks.
    pub fn len(&self) -> (n: usize)
        ensures
            n == self.timers@.len(),
    {
        self.timers.len()
    }

    /// The currently selected index, if any.
    pub fn selected_index(&self) -> (r: Option<usize>)
        ensures
            r == self.selected,
    {
        self.selected
    }

    /// The timer of entry `index`.
    pub fn timer_at(&self, index: usize) -> (t: TaskTimer)
        requires
            index < self.timers@.len(),
        ensures
            t == self.timers@[index as int],
    {
        self.timers[index]
    }

    /// The name of entry `index`.
    pub fn name_at(&self, index: usize) -> (n: String)
        requires
            index < self.names@.len(),
        ensures
            n == self.names@[index as int],
    {
        self.names[index].clone()
    }

    /// The name of the selected task, if one is selected.
    pub fn selected_name(&self) -> (r: Option<String>)
        requires
            self.wf(),
        ensures
            match self.selected {
                Some(i) => r matches Some(nm) && nm == self.names@[i as int],
                None => r is None,
            },
    {
        match self.selected {
            Some(i) => Some(self.names[i].clone()),
            None => None,
        }
    }

    /// Append a task named `name` with a fresh stopped timer; the selection
    /// is untouched. Always succeeds.
    pub fn add_task(&mut self, name: String)
        requires
            old(self).wf(),
        ensures
            final(self).wf(),
            final(self).names@ == old(self).names@.push(name),
            final(self).timers@ == old(self).timers@.push((TaskTimer::Stopped { total_ms: 0u64 })),
            final(self).selected == old(self).selected,
    {
        self.names.push(name);
        self.timers.push(TaskTimer::Stopped { total_ms: 0 });
    }

    /// Remove entry `index`. Succeeds exactly when `index` is in range; on
    /// success later entries shift down one place, a selection pointing at
    /// the removed entry is cleared, and one pointing past it is decremented
    /// so that it still denotes the same task. On failure nothing changes.
    pub fn delete_task(&mut self, index: usize) -> (r: Result<(), RegistryError>)
        requires
            old(self).wf(),
        ensures
            final(self).wf(),
            r is Ok <==> index < old(self).timers@.len(),
            r is Err ==> *final(self) == *old(self) && r == Err::<(), RegistryError>(
                RegistryError::IndexOutOfRange,
            ),
            r is Ok ==> {
                &&& final(self).names@ == old(self).names@.remove(index as int)
                &&& final(self).timers@ == old(self).timers@.remove(index as int)
                &&& final(self).selected == spec_selected_after_delete(old(self).selected, index)
            },
            match old(self).selected {
                Some(s) => (r is Ok && index < s) ==> {
                    &&& final(self).selected == Some((s - 1) as usize)
                    &&& final(self).names@[s - 1] == old(self).names@[s as int]
                    &&& final(self).timers@[s - 1] == old(self).timers@[s as int]
                },
                None => true,
            },
    {
        if index >= self.timers.len() {
            return Err(RegistryError::IndexOutOfRange);
        }
        self.names.remove(index);
        self.timers.remove(index);
        match self.selected {
            Some(s) => {
                if s == index {
                    self.selected = None;
                } else if s > index {
                    self.selected = Some(s - 1);
                }
            },
            None => {},
        }
        Ok(())
    }

    /// The selection transition: stop the previously selected timer (if any)
    /// at `now`, then start the newly chosen one (if any) at the same `now`,
    /// and record the new selection. Succeeds exactly when `new_index` is
    /// absent or in range; on failure nothing changes.
    pub fn select(&mut self, new_index: Option<usize>, now: i64) -> (r: Result<
        (),
        RegistryError,
    >)
        requires
            old(self).wf(),
        ensures
            final(self).wf(),
            r is Ok <==> (match new_index {
                Some(i) => i < old(self).timers@.len(),
                None => true,
            }),
            r is Err ==> *final(self) == *old(self) && r == Err::<(), RegistryError>(
                RegistryError::IndexOutOfRange,
            ),
            r is Ok ==> {
                &&& final(self).selected == new_index
                &&& final(self).names@ == old(self).names@
                &&& final(self).timers@.len() == old(self).timers@.len()
                &&& forall|j: int|
                    0 <= j < old(self).timers@.len() ==> #[trigger] final(self).timers@[j]
                        == timer_after_select(*old(self), j, new_index, now)
            },
    {
        if let Some(i) = new_index {
            if i >= self.timers.len() {
                return Err(RegistryError::IndexOutOfRange);
            }
        }
        if let Some(c) = self.selected {
            let stopped = self.timers[c].stop(now);
            self.timers[c] = stopped;
        }
        if let Some(i) = new_index {
            let started = self.timers[i].start(now);
            self.timers[i] = started;
        }
        self.selected = new_index;
        Ok(())
    }

    /// Sample the wall clock once and apply `select` at that instant, so the
    /// stop and the start of one transition read the same "now". On success
    /// the sampled instant is returned.
    pub fn select_now(&mut self, new_index: Option<usize>) -> (r: Result<i64, RegistryError>)
        requires
            old(self).wf(),
        ensures
            final(self).wf(),
            r is Ok <==> (match new_index {
                Some(i) => i < old(self).timers@.len(),
                None => true,
            }),
            r is Err ==> *final(self) == *old(self) && r == Err::<i64, RegistryError>(
                RegistryError::IndexOutOfRange,
            ),
            r matches Ok(now) ==> {
                &&& final(self).selected == new_index
                &&& final(self).names@ == old(self).names@
                &&& final(self).timers@.len() == old(self).timers@.len()
                &&& forall|j: int|
                    0 <= j < old(self).timers@.len() ==> #[trigger] final(self).timers@[j]
                        == timer_after_select(*old(self), j, new_index, now)
            },
    {
        let now = crate::clock::now_millis();
        match self.select(new_index, now) {
            Ok(()) => Ok(now),
            Err(e) => Err(e),
        }
    }

    /// The display model for one render cycle: for each task in order, its
    /// name and its `HH:MM:SS` elapsed display as of `now`.
    pub fn rows(&self, now: i64) -> (r: Vec<(String, String)>)
        requires
            self.names@.len() == self.timers@.len(),
        ensures
            r@.len() == self.timers@.len(),
            forall|j: int|
                0 <= j < r@.len() ==> (#[trigger] r@[j]).0 == self.names@[j] && r@[j].1@
                    == crate::display::spec_hms(
                    (cap_u64(self.timers@[j].elapsed_spec(now as int)) / 1000) as nat,
                ),
    {
        let mut out: Vec<(String, String)> = Vec::new();
        let mut k: usize = 0;
        while k < self.timers.len()
            invariant
                self.names@.len() == self.timers@.len(),
                k <= self.timers@.len(),
                out@.len() == k as int,
                forall|j: int|
                    0 <= j < k as int ==> (#[trigger] out@[j]).0 == self.names@[j] && out@[j].1@
                        == crate::display::spec_hms(
                        (cap_u64(self.timers@[j].elapsed_spec(now as int)) / 1000) as nat,
                    ),
            decreases self.timers@.len() - k,
        {
            let name = self.names[k].clone();
            let disp = self.timers[k].at(now);
            out.push((name, disp));
            k += 1;
        }
        out
    }
}

/// Across a well-formed registry, at most one timer is running: any two
/// running entries are the same entry.
pub proof fn lemma_at_most_one_running(r: Registry, i: int, j: int)
    requires
        r.wf(),
        0 <= i < r.timers@.len(),
        0 <= j < r.timers@.len(),
        r.timers@[i] is Running,
        r.timers@[j] is Running,
    ensures
        i == j,
{
}

/// Re-selecting the already-selected task changes nothing in its elapsed
/// accounting: under a sane clock (no regression, no saturation) the
/// stop-then-restart at one instant `now` leaves the elapsed time read at
/// any later instant exactly what it would have been.
pub proof fn lemma_reselect_preserves_elapsed(r: Registry, i: usize, now: i64, later: int)
    requires
        r.wf(),
        r.selected == Some(i),
        r.timers@[i as int] matches TaskTimer::Running { start_ms, acc_ms } && start_ms <= now
            && acc_ms + (now - start_ms) <= u64::MAX,
        now <= later,
    ensures
        timer_after_select(r, i as int, Some(i), now).elapsed_spec(later) == r.timers@[
            i as int
        ].elapsed_spec(later),
{
}

} // verus!
