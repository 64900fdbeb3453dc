//! The progress of the most recent generation and the request to cancel it,
//! as one value that its owner shares with polling callers.

use vstd::prelude::*;
use vstd::string::StringExecFns;

verus! {

/// A point-in-time record of a generation.
#[derive(Debug, Clone)]
pub struct GenerationProgress {
    /// The step that was reached.
    pub current_step: u32,
    /// The number of steps of the run.
    pub total_steps: u32,
    /// What the run is doing, in words.
    pub status: String,
    /// Whether the run ended with an image.
    pub is_complete: bool,
    /// Whether the run ended because it was cancelled.
    pub is_cancelled: bool,
}

/// A progress record as the contracts see it.
pub struct ProgressView {
    pub current_step: u32,
    pub total_steps: u32,
    pub status: Seq<char>,
    pub is_complete: bool,
    pub is_cancelled: bool,
}

impl ProgressView {
    /// The step reached never passes the number of steps, and a run is never
    /// both complete and cancelled.
    pub open spec fn wf(self) -> bool {
        &&& self.current_step <= self.total_steps
        &&& !(self.is_complete && self.is_cancelled)
    }

    /// A run that is complete or cancelled takes no further update.
    pub open spec fn is_terminal(self) -> bool {
        self.is_complete || self.is_cancelled
    }

    /// What is read while no generation has ever run.
    pub open spec fn sentinel() -> ProgressView {
        ProgressView {
            current_step: 0,
            total_steps: 0,
            status: "No generation in progress"@,
            is_complete: false,
            is_cancelled: false,
        }
    }

    /// The record that a run starts with.
    pub open spec fn initial(total_steps: u32) -> ProgressView {
        ProgressView {
            current_step: 0,
            total_steps,
            status: "Initializing..."@,
            is_complete: false,
            is_cancelled: false,
        }
    }
}

impl View for GenerationProgress {
    type V = ProgressView;

    open spec fn view(&self) -> ProgressView {
        ProgressView {
            current_step: self.current_step,
            total_steps: self.total_steps,
            status: self.status@,
            is_complete: self.is_complete,
            is_cancelled: self.is_cancelled,
        }
    }
}

/// The store as the contracts see it: the record of the most recent run, if
/// there was one, and whether its cancellation was asked for.
pub struct StoreView {
    pub progress: Option<ProgressView>,
    pub cancel_requested: bool,
}

impl StoreView {
    /// The record, where there is one, is well formed.
    pub open spec fn wf(self) -> bool {
        self.progress matches Some(p) ==> p.wf()
    }

    /// The store before any generation.
    pub open spec fn empty() -> StoreView {
        StoreView { progress: None, cancel_requested: false }
    }

    /// Whether a run is recorded that is neither complete nor cancelled.
    pub open spec fn in_flight(self) -> bool {
        self.progress matches Some(p) && !p.is_terminal()
    }

    /// What a reader sees.
    pub open spec fn read(self) -> ProgressView {
        match self.progress {
            Some(p) => p,
            None => ProgressView::sentinel(),
        }
    }

    /// The store after a new run has been announced.
    pub open spec fn reset(self, total_steps: u32) -> StoreView {
        StoreView { progress: Some(ProgressView::initial(total_steps)), cancel_requested: false }
    }

    /// Whether an update to `step` is taken: a run is in flight, and the step
    /// lies above the one reached and within the run.
    pub open spec fn accepts(self, step: u32) -> bool {
        self.progress matches Some(p) && !p.is_terminal() && p.current_step < step
            <= p.total_steps
    }

    /// The store after an update was offered.
    pub open spec fn update(self, step: u32, status: Seq<char>) -> StoreView {
        if self.accepts(step) {
            let p = self.progress->0;
            StoreView {
                progress: Some(ProgressView { current_step: step, status, ..p }),
                ..self
            }
        } else {
            self
        }
    }

    /// The store after the run was declared complete.
    pub open spec fn mark_complete(self, status: Seq<char>) -> StoreView {
        if self.in_flight() {
            let p = self.progress->0;
            StoreView {
                progress: Some(ProgressView { is_complete: true, status, ..p }),
                ..self
            }
        } else {
            self
        }
    }

    /// The store after the run was declared cancelled.
    pub open spec fn mark_cancelled(self) -> StoreView {
        if self.in_flight() {
            let p = self.progress->0;
            StoreView {
                progress: Some(ProgressView { is_cancelled: true, status: "Cancelled"@, ..p }),
                ..self
            }
        } else {
            self
        }
    }

    /// The store after cancellation was asked for.
    pub open spec fn request_cancel(self) -> StoreView {
        if self.in_flight() {
            let p = self.progress->0;
            StoreView {
                progress: Some(ProgressView { status: "Cancelling..."@, ..p }),
                cancel_requested: true,
            }
        } else {
            StoreView { cancel_requested: true, ..self }
        }
    }
}

/// The progress of the most recent generation and the cancellation flag.
/// The owner puts it behind a lock; every operation reads or writes the
/// whole record in one call, so a reader never sees half of an update.
pub struct ProgressStore {
    progress: Option<GenerationProgress>,
    cancel_requested: bool,
}

impl View for ProgressStore {
    type V = StoreView;

    closed spec fn view(&self) -> StoreView {
        StoreView {
            progress: match self.progress {
                Some(p) => Some(p@),
                None => None,
            },
            cancel_requested: self.cancel_requested,
        }
    }
}

impl ProgressStore {
    #[verifier::type_invariant]
    spec fn well_formed(self) -> bool {
        self@.wf()
    }

    /// A store in which no generation has run.
    pub fn new() -> (store: Self)
        ensures
            store@ == StoreView::empty(),
    {
        ProgressStore { progress: None, cancel_requested: false }
    }

    /// Announces a new run of `total_steps` steps: the record is overwritten
    /// and the request to cancel is withdrawn.
    pub fn reset(&mut self, total_steps: u32)
        ensures
            final(self)@ == old(self)@.reset(total_steps),
    {
        self.progress = Some(
            GenerationProgress {
                current_step: 0,
                total_steps,
                status: String::from_str("Initializing..."),
                is_complete: false,
                is_cancelled: false,
            },
        );
        self.cancel_requested = false;
    }

    /// Offers a step and a status. The update is taken, and `true` returned,
    /// when a run is in flight and the step lies above the one reached and
    /// within the run; otherwise nothing changes.
    pub fn update(&mut self, step: u32, status: String) -> (taken: bool)
        ensures
            taken == old(self)@.accepts(step),
            final(self)@ == old(self)@.update(step, status@),
    {
        let (current, total, live): (u32, u32, bool) = match &self.progress {
            Some(p) => (p.current_step, p.total_steps, !p.is_complete && !p.is_cancelled),
            None => (0, 0, false),
        };
        if live && current < step && step <= total {
            self.progress = Some(
                GenerationProgress {
                    current_step: step,
                    total_steps: total,
                    status,
                    is_complete: false,
                    is_cancelled: false,
                },
            );
            true
        } else {
            false
        }
    }

    /// Declares the run in flight complete, with a last status. Without a
    /// run in flight nothing changes.
    pub fn mark_complete(&mut self, status: String)
        ensures
            final(self)@ == old(self)@.mark_complete(status@),
    {
        let (current, total, live): (u32, u32, bool) = match &self.progress {
            Some(p) => (p.current_step, p.total_steps, !p.is_complete && !p.is_cancelled),
            None => (0, 0, false),
        };
        if live {
            proof {
                use_type_invariant(&*self);
            }
            self.progress = Some(
                GenerationProgress {
                    current_step: current,
                    total_steps: total,
                    status,
                    is_complete: true,
                    is_cancelled: false,
                },
            );
        }
    }

    /// Declares the run in flight cancelled. Without a run in flight nothing
    /// changes.
    pub fn mark_cancelled(&mut self)
        ensures
            final(self)@ == old(self)@.mark_cancelled(),
    {
        let (current, total, live): (u32, u32, bool) = match &self.progress {
            Some(p) => (p.current_step, p.total_steps, !p.is_complete && !p.is_cancelled),
            None => (0, 0, false),
        };
        if live {
            proof {
                use_type_invariant(&*self);
            }
            self.progress = Some(
                GenerationProgress {
                    current_step: current,
                    total_steps: total,
                    status: String::from_str("Cancelled"),
                    is_complete: false,
                    is_cancelled: true,
                },
            );
        }
    }

    /// Asks for the run to be cancelled. The flag is raised; a run in flight
    /// shows that in its status and is otherwise unchanged.
    pub fn request_cancel(&mut self)
        ensures
            final(self)@ == old(self)@.request_cancel(),
    {
        let (current, total, live): (u32, u32, bool) = match &self.progress {
            Some(p) => (p.current_step, p.total_steps, !p.is_complete && !p.is_cancelled),
            None => (0, 0, false),
        };
        proof {
            use_type_invariant(&*self);
        }
        if live {
            self.progress = Some(
                GenerationProgress {
                    current_step: current,
                    total_steps: total,
                    status: String::from_str("Cancelling..."),
                    is_complete: false,
                    is_cancelled: false,
                },
            );
        }
        self.cancel_requested = true;
    }

    /// Whether cancellation was asked for since the run was announced.
    pub fn cancel_requested(&self) -> (asked: bool)
        ensures
            asked == self@.cancel_requested,
    {
        self.cancel_requested
    }

    /// Returns the record of the most recent run, or the sentinel record
    /// when no generation has ever run. The store is left as it is, so two
    /// reads with nothing between them return the same record.
    pub fn read(&self) -> (snapshot: GenerationProgress)
        ensures
            snapshot@ == self@.read(),
            snapshot@.wf(),
    {
        proof {
            use_type_invariant(self);
        }
        match &self.progress {
            Some(p) => GenerationProgress {
                current_step: p.current_step,
                total_steps: p.total_steps,
                status: p.status.clone(),
                is_complete: p.is_complete,
                is_cancelled: p.is_cancelled,
            },
            None => GenerationProgress {
                current_step: 0,
                total_steps: 0,
                status: String::from_str("No generation in progress"),
                is_complete: false,
                is_cancelled: false,
            },
        }
    }
}

/// What is read depends on the record alone: reading leaves the store as
/// it is, so reads with nothing but reads between them give the same
/// record, and raising the flag while no run is in flight does not change
/// what is read.
pub proof fn lemma_reads_repeat(store: StoreView, other: StoreView)
    requires
        store.progress == other.progress,
    ensures
        store.read() == other.read(),
        !store.in_flight() ==> store.request_cancel().read() == store.read(),
{
}

/// Every operation keeps a well-formed store well formed: the step reached
/// stays within the run, and no record is both complete and cancelled.
pub proof fn lemma_operations_keep_wf(store: StoreView, step: u32, total: u32, status: Seq<char>)
    requires
        store.wf(),
    ensures
        StoreView::empty().wf(),
        store.reset(total).wf(),
        store.update(step, status).wf(),
        store.mark_complete(status).wf(),
        store.mark_cancelled().wf(),
        store.request_cancel().wf(),
        store.read().wf(),
{
}

/// A record that is complete or cancelled is left alone by every operation
/// but the announcement of a new run.
pub proof fn lemma_terminal_is_final(store: StoreView, step: u32, status: Seq<char>)
    requires
        store.progress matches Some(p) && p.is_terminal(),
    ensures
        store.update(step, status).read() == store.read(),
        store.mark_complete(status).read() == store.read(),
        store.mark_cancelled().read() == store.read(),
        store.request_cancel().read() == store.read(),
{
}

/// The step that readers see never goes back within a run, and an update
/// that is taken moves it forward.
pub proof fn lemma_steps_increase(store: StoreView, step: u32, status: Seq<char>)
    ensures
        store.update(step, status).read().current_step >= store.read().current_step,
        store.accepts(step) ==> store.update(step, status).read().current_step
            > store.read().current_step,
        store.mark_complete(status).read().current_step == store.read().current_step,
        store.mark_cancelled().read().current_step == store.read().current_step,
        store.request_cancel().read().current_step == store.read().current_step,
{
}

/// A new run starts from step 0 with both flags down and no cancellation
/// asked for, whatever the store held.
pub proof fn lemma_reset_clears(store: StoreView, total: u32)
    ensures
        store.reset(total).read() == ProgressView::initial(total),
        !store.reset(total).read().is_complete,
        !store.reset(total).read().is_cancelled,
        !store.reset(total).cancel_requested,
{
}

} // verus!
