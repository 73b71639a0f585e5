//! The fetching pass: what has to be downloaded for a manifest, and where
//! each download is kept.

use crate::layout::{raw_dir, raw_dir_of, raw_path, raw_path_of};
use crate::manifest::{
    parse, parse_manifest, EntryView, ErrorView, ManifestEntry, ManifestError, Source, SourceView,
};
use crate::run::{misfit, misfit_of, Action, ActionView, Event, EventView, Failure};
use vstd::prelude::*;

verus! {

/// One download: the directory to create, the URL to get, and the file that
/// receives the body of the response.
#[derive(Debug, Clone, PartialEq, Eq)]
pub struct FetchTask {
    /// Directory of the raw file, to be created with its parents.
    pub dir: String,
    /// The URL to get.
    pub url: String,
    /// Path of the raw file, overwritten if it exists.
    pub path: String,
}

/// Mathematical value of a [`FetchTask`].
pub struct FetchTaskView {
    pub dir: Seq<char>,
    pub url: Seq<char>,
    pub path: Seq<char>,
}

impl View for FetchTask {
    type V = FetchTaskView;

    open spec fn view(&self) -> FetchTaskView {
        FetchTaskView { dir: self.dir@, url: self.url@, path: self.path@ }
    }
}

impl DeepView for FetchTask {
    type V = FetchTaskView;

    open spec fn deep_view(&self) -> FetchTaskView {
        self@
    }
}

/// The download that a remote entry asks for.
pub open spec fn fetch_task_of(base: Seq<char>, entry: EntryView) -> FetchTaskView {
    FetchTaskView {
        dir: raw_dir_of(base, entry.group),
        url: entry.source.text(),
        path: raw_path_of(base, entry.group, entry.name),
    }
}

/// The remote entries among `entries`, in order.
pub open spec fn remote_entries(entries: Seq<EntryView>) -> Seq<EntryView> {
    entries.filter(|e: EntryView| e.source is Remote)
}

/// The downloads for `entries`: one per remote entry, in the order of the
/// entries; local entries ask for none.
pub open spec fn fetch_plan_of(base: Seq<char>, entries: Seq<EntryView>) -> Seq<FetchTaskView> {
    remote_entries(entries).map_values(|e: EntryView| fetch_task_of(base, e))
}

/// Appending an entry appends its download, if it is remote.
pub proof fn lemma_fetch_plan_push(base: Seq<char>, entries: Seq<EntryView>, entry: EntryView)
    ensures
        fetch_plan_of(base, entries.push(entry)) == if entry.source is Remote {
            fetch_plan_of(base, entries).push(fetch_task_of(base, entry))
        } else {
            fetch_plan_of(base, entries)
        },
{
    reveal(Seq::filter);
    assert(entries.push(entry).drop_last() =~= entries);
    if entry.source is Remote {
        assert(remote_entries(entries.push(entry)) == remote_entries(entries).push(entry));
        assert(fetch_plan_of(base, entries.push(entry)) =~= fetch_plan_of(base, entries).push(
            fetch_task_of(base, entry),
        ));
    }
}

/// The downloads for `entries` under the base directory `base`.
pub fn fetch_plan(base: &str, entries: &Vec<ManifestEntry>) -> (plan: Vec<FetchTask>)
    ensures
        plan.deep_view() == fetch_plan_of(base@, entries.deep_view()),
{
    let mut plan: Vec<FetchTask> = Vec::new();
    let mut i: usize = 0;
    assert(plan.deep_view() =~= fetch_plan_of(base@, entries.deep_view().take(0))) by {
        reveal(Seq::filter);
    }
    while i < entries.len()
        invariant
            i <= entries.len(),
            plan.deep_view() == fetch_plan_of(base@, entries.deep_view().take(i as int)),
        decreases entries.len() - i,
    {
        let entry = &entries[i];
        proof {
            lemma_fetch_plan_push(base@, entries.deep_view().take(i as int), entry@);
            assert(entries.deep_view().take(i as int).push(entry@) =~= entries.deep_view().take(
                i + 1,
            ));
        }
        match &entry.source {
            Source::Remote(url) => {
                let task = FetchTask {
                    dir: raw_dir(base, entry.group.as_str()),
                    url: url.clone(),
                    path: raw_path(base, entry.group.as_str(), entry.name.as_str()),
                };
                let ghost before = plan.deep_view();
                plan.push(task);
                assert(plan.deep_view() =~= before.push(task@));
            },
            Source::Local(_) => {},
        }
        i += 1;
    }
    assert(entries.deep_view().take(entries.len() as int) =~= entries.deep_view());
    plan
}

/// Mathematical value of what [`init`] returns.
pub open spec fn init_of(text: Seq<char>, base: Seq<char>) -> Result<Seq<FetchTaskView>, ErrorView> {
    match parse(text) {
        Ok(entries) => Ok(fetch_plan_of(base, entries)),
        Err(e) => Err(e),
    }
}

/// The fetching pass over the manifest `text`: the downloads to make, in
/// the order of the manifest, or the first malformed line. Nothing is to be
/// downloaded for a manifest with a malformed line.
pub fn init(text: &str, base: &str) -> (r: Result<Vec<FetchTask>, ManifestError>)
    ensures
        match r {
            Ok(plan) => init_of(text@, base@) == Ok::<Seq<FetchTaskView>, ErrorView>(
                plan.deep_view(),
            ),
            Err(e) => init_of(text@, base@) == Err::<Seq<FetchTaskView>, ErrorView>(e@),
        },
{
    match parse_manifest(text) {
        Ok(entries) => Ok(fetch_plan(base, &entries)),
        Err(e) => Err(e),
    }
}

/// What a fetching pass is waiting for.
#[derive(Debug, Clone, Copy, PartialEq, Eq, Structural)]
pub enum FetchPhase {
    /// The directory of the current download is being created.
    Dir,
    /// The URL of the current download is being got.
    Get,
    /// The raw file of the current download is being written.
    Put,
    /// Every download has been made.
    Finished,
    /// The pass was given up.
    Aborted(Failure),
}

/// Mathematical value of a [`FetchRun`].
pub struct FetchRunView {
    /// The downloads to make.
    pub plan: Seq<FetchTaskView>,
    /// Index of the current download.
    pub at: int,
    /// What the pass is waiting for.
    pub phase: FetchPhase,
}

/// The state in which the download `at` begins, and the first action for
/// it; behind the last download, the end of the pass.
pub open spec fn fetch_begin(plan: Seq<FetchTaskView>, at: int) -> (FetchRunView, ActionView) {
    if 0 <= at < plan.len() {
        (
            FetchRunView { plan, at, phase: FetchPhase::Dir },
            ActionView::CreateDir { path: plan[at].dir },
        )
    } else {
        (FetchRunView { plan, at, phase: FetchPhase::Finished }, ActionView::Finish)
    }
}

/// The state in which a pass is given up, and the action that says so.
pub open spec fn fetch_abort(state: FetchRunView, reason: Failure) -> (FetchRunView, ActionView) {
    (FetchRunView { phase: FetchPhase::Aborted(reason), ..state }, ActionView::Abort { reason })
}

/// The state and the action that follow the outcome `event` in `state`.
///
/// The downloads are made one at a time, in order: the directory is
/// created, then the URL is got, then what was got is written to the raw
/// file. The first outcome that is a failure, or that does not fit, ends
/// the pass: nothing is asked for after it.
pub open spec fn fetch_step(state: FetchRunView, event: EventView) -> (FetchRunView, ActionView) {
    let task = state.plan[state.at];
    match state.phase {
        FetchPhase::Dir => match event {
            EventView::Done => (
                FetchRunView { phase: FetchPhase::Get, ..state },
                ActionView::Fetch { url: task.url },
            ),
            _ => fetch_abort(state, misfit(event)),
        },
        FetchPhase::Get => match event {
            EventView::Data { bytes } => (
                FetchRunView { phase: FetchPhase::Put, ..state },
                ActionView::WriteFile { path: task.path, bytes },
            ),
            _ => fetch_abort(state, misfit(event)),
        },
        FetchPhase::Put => match event {
            EventView::Done => fetch_begin(state.plan, state.at + 1),
            _ => fetch_abort(state, misfit(event)),
        },
        FetchPhase::Finished => (state, ActionView::Finish),
        FetchPhase::Aborted(reason) => (state, ActionView::Abort { reason }),
    }
}

/// What was got for a remote entry is written, as it is, to the raw file of
/// that entry: `<base>/files/<group>/<name>`.
pub proof fn lemma_body_goes_to_raw_file(
    base: Seq<char>,
    entries: Seq<EntryView>,
    state: FetchRunView,
    bytes: Seq<u8>,
)
    requires
        state.plan == fetch_plan_of(base, entries),
        state.phase == FetchPhase::Get,
        0 <= state.at < state.plan.len(),
    ensures
        ({
            let entry = remote_entries(entries)[state.at];
            fetch_step(state, EventView::Data { bytes }).1 == (ActionView::WriteFile {
                path: raw_path_of(base, entry.group, entry.name),
                bytes,
            })
        }),
{
}

/// A failure ends the pass at once, and a pass that has ended stays as it
/// is, whatever it is told: it asks for nothing more.
pub proof fn lemma_fetch_fails_fast(state: FetchRunView, event: EventView)
    ensures
        event == EventView::Failed && !(state.phase is Finished) && !(state.phase is Aborted)
            ==> fetch_step(state, event) == fetch_abort(state, Failure::Io),
        state.phase is Finished ==> fetch_step(state, event) == (state, ActionView::Finish),
        state.phase matches FetchPhase::Aborted(reason) ==> fetch_step(state, event) == (
            state,
            ActionView::Abort { reason },
        ),
{
}

/// A fetching pass under way.
pub struct FetchRun {
    plan: Vec<FetchTask>,
    at: usize,
    phase: FetchPhase,
}

impl View for FetchRun {
    type V = FetchRunView;

    closed spec fn view(&self) -> FetchRunView {
        FetchRunView { plan: self.plan.deep_view(), at: self.at as int, phase: self.phase }
    }
}

impl FetchRun {
    #[verifier::type_invariant]
    spec fn well_formed(self) -> bool {
        match self.phase {
            FetchPhase::Dir | FetchPhase::Get | FetchPhase::Put => self.at < self.plan.len(),
            _ => self.at <= self.plan.len(),
        }
    }

    /// Begins a pass that makes the downloads of `plan`; returns it with
    /// its first action.
    pub fn new(plan: Vec<FetchTask>) -> (r: (FetchRun, Action))
        ensures
            (r.0@, r.1@) == fetch_begin(plan.deep_view(), 0),
    {
        if plan.len() > 0 {
            let path = plan[0].dir.clone();
            (FetchRun { plan, at: 0, phase: FetchPhase::Dir }, Action::CreateDir { path })
        } else {
            (FetchRun { plan, at: 0, phase: FetchPhase::Finished }, Action::Finish)
        }
    }

    /// Takes the outcome of the last action and returns the next action.
    pub fn step(&mut self, event: Event) -> (action: Action)
        ensures
            (final(self)@, action@) == fetch_step(old(self)@, event@),
    {
        proof {
            use_type_invariant(&*self);
        }
        match self.phase {
            FetchPhase::Dir => match event {
                Event::Done => {
                    self.phase = FetchPhase::Get;
                    Action::Fetch { url: self.plan[self.at].url.clone() }
                },
                _ => self.abort(misfit_of(&event)),
            },
            FetchPhase::Get => match event {
                Event::Data { bytes } => {
                    self.phase = FetchPhase::Put;
                    Action::WriteFile { path: self.plan[self.at].path.clone(), bytes }
                },
                _ => self.abort(misfit_of(&event)),
            },
            FetchPhase::Put => match event {
                Event::Done => {
                    let next: usize = self.at + 1;
                    if next < self.plan.len() {
                        self.phase = FetchPhase::Dir;
                        self.at = next;
                        Action::CreateDir { path: self.plan[next].dir.clone() }
                    } else {
                        self.phase = FetchPhase::Finished;
                        self.at = next;
                        Action::Finish
                    }
                },
                _ => self.abort(misfit_of(&event)),
            },
            FetchPhase::Finished => Action::Finish,
            FetchPhase::Aborted(reason) => Action::Abort { reason },
        }
    }

    fn abort(&mut self, reason: Failure) -> (action: Action)
        ensures
            (final(self)@, action@) == fetch_abort(old(self)@, reason),
    {
        proof {
            use_type_invariant(&*self);
        }
        self.phase = FetchPhase::Aborted(reason);
        Action::Abort { reason }
    }
}

} // verus!
