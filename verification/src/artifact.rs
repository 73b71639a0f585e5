//! The compressing pass: for every entry of a manifest, the file to
//! compress, the artifact to write, and whether the file is then removed.

use crate::gzip::{compress, gunzip_stream, gzip_stream};
use crate::layout::{
    artifact_path, artifact_path_of, dist_dir, dist_dir_of, is_transient, removes_source,
    source_path, source_path_of, LayoutError,
};
use crate::manifest::{parse, parse_manifest, EntryView, ErrorView, ManifestEntry, ManifestError};
use crate::run::{misfit, misfit_of, Action, ActionView, Event, EventView, Failure};
use vstd::prelude::*;

verus! {

/// The work for one entry: the directory to create, the file to read and
/// compress, and whether that file is removed once its artifact is written.
#[derive(Debug, Clone, PartialEq, Eq)]
pub struct BuildTask {
    /// Directory of the artifact, to be created with its parents.
    pub dist_dir: String,
    /// Path of the file to compress.
    pub source: String,
    /// Whether the file at `source` is removed after its artifact is
    /// written.
    pub remove_source: bool,
}

/// Mathematical value of a [`BuildTask`].
pub struct BuildTaskView {
    pub dist_dir: Seq<char>,
    pub source: Seq<char>,
    pub remove_source: bool,
}

impl View for BuildTask {
    type V = BuildTaskView;

    open spec fn view(&self) -> BuildTaskView {
        BuildTaskView {
            dist_dir: self.dist_dir@,
            source: self.source@,
            remove_source: self.remove_source,
        }
    }
}

impl DeepView for BuildTask {
    type V = BuildTaskView;

    open spec fn deep_view(&self) -> BuildTaskView {
        self@
    }
}

/// The work that an entry asks for. Its source file is removed afterwards
/// if and only if the path of that file holds the text `dist`.
pub open spec fn build_task_of(base: Seq<char>, entry: EntryView) -> BuildTaskView {
    BuildTaskView {
        dist_dir: dist_dir_of(base, entry.group),
        source: source_path_of(base, entry),
        remove_source: is_transient(source_path_of(base, entry)),
    }
}

/// The work for `entries`: one task per entry, remote or local, in the
/// order of the entries.
pub open spec fn build_plan_of(base: Seq<char>, entries: Seq<EntryView>) -> Seq<BuildTaskView> {
    entries.map_values(|e: EntryView| build_task_of(base, e))
}

/// The work for one entry under the base directory `base`.
pub fn build_task(base: &str, entry: &ManifestEntry) -> (task: BuildTask)
    ensures
        task@ == build_task_of(base@, entry@),
{
    let source = source_path(base, entry);
    let remove_source = removes_source(source.as_str());
    BuildTask { dist_dir: dist_dir(base, entry.group.as_str()), source, remove_source }
}

/// The work for `entries` under the base directory `base`.
pub fn build_plan(base: &str, entries: &Vec<ManifestEntry>) -> (plan: Vec<BuildTask>)
    ensures
        plan.deep_view() == build_plan_of(base@, entries.deep_view()),
{
    let mut plan: Vec<BuildTask> = Vec::new();
    let mut i: usize = 0;
    while i < entries.len()
        invariant
            i <= entries.len(),
            plan.len() == i,
            forall|k: int| 0 <= k < i ==> (#[trigger] plan[k])@ == build_task_of(base@, entries[k]@),
        decreases entries.len() - i,
    {
        let task = build_task(base, &entries[i]);
        plan.push(task);
        i += 1;
    }
    assert(plan.deep_view() =~= build_plan_of(base@, entries.deep_view()));
    plan
}

/// Mathematical value of what [`build`] returns.
pub open spec fn build_of(text: Seq<char>, base: Seq<char>) -> Result<Seq<BuildTaskView>, ErrorView> {
    match parse(text) {
        Ok(entries) => Ok(build_plan_of(base, entries)),
        Err(e) => Err(e),
    }
}

/// The compressing pass over the manifest `text`: the work to do, in the
/// order of the manifest, or the first malformed line. Nothing is to be
/// compressed for a manifest with a malformed line.
pub fn build(text: &str, base: &str) -> (r: Result<Vec<BuildTask>, ManifestError>)
    ensures
        match r {
            Ok(plan) => build_of(text@, base@) == Ok::<Seq<BuildTaskView>, ErrorView>(
                plan.deep_view(),
            ),
            Err(e) => build_of(text@, base@) == Err::<Seq<BuildTaskView>, ErrorView>(e@),
        },
{
    match parse_manifest(text) {
        Ok(entries) => Ok(build_plan(base, &entries)),
        Err(e) => Err(e),
    }
}

/// A compressed artifact and the path at which it is written, overwriting
/// what is there.
#[derive(Debug, Clone, PartialEq, Eq)]
pub struct Artifact {
    /// Path of the artifact.
    pub path: String,
    /// The gzip stream.
    pub bytes: Vec<u8>,
}

/// Mathematical value of an [`Artifact`].
pub struct ArtifactView {
    pub path: Seq<char>,
    pub bytes: Seq<u8>,
}

impl View for Artifact {
    type V = ArtifactView;

    open spec fn view(&self) -> ArtifactView {
        ArtifactView { path: self.path@, bytes: self.bytes@ }
    }
}

/// Why no artifact was made of a source file.
#[derive(Debug, Clone, Copy, PartialEq, Eq, Structural)]
pub enum BuildError {
    /// Compressing the content failed.
    Compression,
    /// The path of the source file names no file.
    MissingFileName,
    /// The name of the source file has no extension.
    MissingExtension,
}

/// The artifact made of the file at `source`, given the outcome `encoded`
/// of compressing its content: a failed compression comes first, then a
/// path that names no file, then a file name without an extension.
pub open spec fn artifact_of(
    source: Seq<char>,
    dist_dir: Seq<char>,
    encoded: Option<Seq<u8>>,
) -> Result<ArtifactView, BuildError> {
    match encoded {
        None => Err(BuildError::Compression),
        Some(bytes) => match artifact_path_of(source, dist_dir) {
            Err(LayoutError::MissingFileName) => Err(BuildError::MissingFileName),
            Err(LayoutError::MissingExtension) => Err(BuildError::MissingExtension),
            Ok(path) => Ok(ArtifactView { path, bytes }),
        },
    }
}

/// Mathematical value of an outcome of making an artifact.
pub open spec fn made(r: Result<Artifact, BuildError>) -> Result<ArtifactView, BuildError> {
    match r {
        Ok(artifact) => Ok(artifact@),
        Err(e) => Err(e),
    }
}

/// Places the compressed content `encoded` of the file at `source` in
/// `dist_dir`; `None` stands for a compression that failed.
pub fn place(source: &str, dist_dir: &str, encoded: Option<Vec<u8>>) -> (r: Result<
    Artifact,
    BuildError,
>)
    ensures
        made(r) == artifact_of(
            source@,
            dist_dir@,
            match encoded {
                Some(bytes) => Some(bytes@),
                None => None,
            },
        ),
{
    match encoded {
        None => Err(BuildError::Compression),
        Some(bytes) => match artifact_path(source, dist_dir) {
            Err(LayoutError::MissingFileName) => Err(BuildError::MissingFileName),
            Err(LayoutError::MissingExtension) => Err(BuildError::MissingExtension),
            Ok(path) => Ok(Artifact { path, bytes }),
        },
    }
}

/// Compresses the content of the file at `source` into the artifact that
/// belongs in `dist_dir`.
///
/// The artifact lies at `<dist_dir>/<stem>.<extension>.gz`, and
/// decompressing its bytes gives `content` back.
pub fn gzip(source: &str, dist_dir: &str, content: &[u8]) -> (r: Result<Artifact, BuildError>)
    ensures
        made(r) == artifact_of(source@, dist_dir@, gzip_stream(content@)),
        r matches Ok(artifact) ==> gunzip_stream(artifact.bytes@) == Some(content@),
{
    let encoded = match compress(content) {
        Ok(bytes) => Some(bytes),
        Err(_) => None,
    };
    place(source, dist_dir, encoded)
}

impl BuildTask {
    /// The artifact that the work yields for the bytes `content` read at `source`.
    pub fn artifact(&self, content: &[u8]) -> (r: Result<Artifact, BuildError>)
        ensures
            made(r) == artifact_of(self.source@, self.dist_dir@, gzip_stream(content@)),
            r matches Ok(artifact) ==> gunzip_stream(artifact.bytes@) == Some(content@),
    {
        gzip(self.source.as_str(), self.dist_dir.as_str(), content)
    }
}

/// What a compressing pass is waiting for.
#[derive(Debug, Clone, Copy, PartialEq, Eq, Structural)]
pub enum BuildPhase {
    /// The directory of the current artifact is being created.
    Dir,
    /// The current source file is being read.
    Read,
    /// The current artifact is being written.
    Write,
    /// The current source file is being removed.
    Remove,
    /// Every entry has been dealt with.
    Finished,
    /// The pass was given up.
    Aborted(Failure),
}

/// Mathematical value of a [`BuildRun`].
pub struct BuildRunView {
    /// The work to do.
    pub plan: Seq<BuildTaskView>,
    /// Index of the current piece of work.
    pub at: int,
    /// What the pass is waiting for.
    pub phase: BuildPhase,
}

/// The state in which the work `at` begins, and the first action for it;
/// behind the last piece of work, the end of the pass.
pub open spec fn build_begin(plan: Seq<BuildTaskView>, at: int) -> (BuildRunView, ActionView) {
    if 0 <= at < plan.len() {
        (
            BuildRunView { plan, at, phase: BuildPhase::Dir },
            ActionView::CreateDir { path: plan[at].dist_dir },
        )
    } else {
        (BuildRunView { plan, at, phase: BuildPhase::Finished }, ActionView::Finish)
    }
}

/// The state in which a pass is given up, and the action that says so.
pub open spec fn build_abort(state: BuildRunView, reason: Failure) -> (BuildRunView, ActionView) {
    (BuildRunView { phase: BuildPhase::Aborted(reason), ..state }, ActionView::Abort { reason })
}

/// The state and the action that follow once the content of the current
/// source file has been compressed, with the outcome `encoded`.
pub open spec fn build_place(state: BuildRunView, encoded: Option<Seq<u8>>) -> (
    BuildRunView,
    ActionView,
) {
    let task = state.plan[state.at];
    match artifact_of(task.source, task.dist_dir, encoded) {
        Ok(artifact) => (
            BuildRunView { phase: BuildPhase::Write, ..state },
            ActionView::WriteFile { path: artifact.path, bytes: artifact.bytes },
        ),
        Err(e) => build_abort(state, Failure::Build(e)),
    }
}

/// The state and the action that follow the outcome `event` in `state`.
///
/// The entries are dealt with one at a time, in order: the directory of
/// the artifact is created, then the source file is read, then the
/// artifact is written, and only then, and only where the work says so,
/// the source file is removed. The first outcome that is a failure, or that
/// does not fit, and the first file of which no artifact can be made, end
/// the pass: nothing is asked for after it.
pub open spec fn build_step(state: BuildRunView, event: EventView) -> (BuildRunView, ActionView) {
    let task = state.plan[state.at];
    match state.phase {
        BuildPhase::Dir => match event {
            EventView::Done => (
                BuildRunView { phase: BuildPhase::Read, ..state },
                ActionView::ReadFile { path: task.source },
            ),
            _ => build_abort(state, misfit(event)),
        },
        BuildPhase::Read => match event {
            EventView::Data { bytes } => build_place(state, gzip_stream(bytes)),
            _ => build_abort(state, misfit(event)),
        },
        BuildPhase::Write => match event {
            EventView::Done => if task.remove_source {
                (
                    BuildRunView { phase: BuildPhase::Remove, ..state },
                    ActionView::RemoveFile { path: task.source },
                )
            } else {
                build_begin(state.plan, state.at + 1)
            },
            _ => build_abort(state, misfit(event)),
        },
        BuildPhase::Remove => match event {
            EventView::Done => build_begin(state.plan, state.at + 1),
            _ => build_abort(state, misfit(event)),
        },
        BuildPhase::Finished => (state, ActionView::Finish),
        BuildPhase::Aborted(reason) => (state, ActionView::Abort { reason }),
    }
}

/// A source file is removed only as the next thing after its artifact has
/// been written, and only where its path holds the text `dist`.
pub proof fn lemma_removal_follows_write(
    base: Seq<char>,
    entries: Seq<EntryView>,
    state: BuildRunView,
    event: EventView,
)
    requires
        state.plan == build_plan_of(base, entries),
        build_step(state, event).1 is RemoveFile,
    ensures
        state.phase == BuildPhase::Write,
        event == EventView::Done,
        0 <= state.at < entries.len() ==> {
            let source = source_path_of(base, entries[state.at]);
            &&& build_step(state, event).1 == (ActionView::RemoveFile { path: source })
            &&& is_transient(source)
        },
{
}

/// A failure ends the pass at once, and a pass that has ended stays as it
/// is, whatever it is told: it asks for nothing more.
pub proof fn lemma_build_fails_fast(state: BuildRunView, event: EventView)
    ensures
        event == EventView::Failed && !(state.phase is Finished) && !(state.phase is Aborted)
            ==> build_step(state, event) == build_abort(state, Failure::Io),
        state.phase is Finished ==> build_step(state, event) == (state, ActionView::Finish),
        state.phase matches BuildPhase::Aborted(reason) ==> build_step(state, event) == (
            state,
            ActionView::Abort { reason },
        ),
{
}

/// A compressing pass under way.
pub struct BuildRun {
    plan: Vec<BuildTask>,
    at: usize,
    phase: BuildPhase,
}

impl View for BuildRun {
    type V = BuildRunView;

    closed spec fn view(&self) -> BuildRunView {
        BuildRunView { plan: self.plan.deep_view(), at: self.at as int, phase: self.phase }
    }
}

impl BuildRun {
    #[verifier::type_invariant]
    spec fn well_formed(self) -> bool {
        match self.phase {
            BuildPhase::Dir | BuildPhase::Read | BuildPhase::Write | BuildPhase::Remove => self.at
                < self.plan.len(),
            _ => self.at <= self.plan.len(),
        }
    }

    /// Begins a pass that does the work of `plan`; returns it with its
    /// first action.
    pub fn new(plan: Vec<BuildTask>) -> (r: (BuildRun, Action))
        ensures
            (r.0@, r.1@) == build_begin(plan.deep_view(), 0),
    {
        if plan.len() > 0 {
            let path = plan[0].dist_dir.clone();
            (BuildRun { plan, at: 0, phase: BuildPhase::Dir }, Action::CreateDir { path })
        } else {
            (BuildRun { plan, at: 0, phase: BuildPhase::Finished }, Action::Finish)
        }
    }

    /// Takes the outcome of the last action and returns the next action.
    ///
    /// What is to be written for a file that was read decompresses to what
    /// was read.
    pub fn step(&mut self, event: Event) -> (action: Action)
        ensures
            (final(self)@, action@) == build_step(old(self)@, event@),
            old(self)@.phase == BuildPhase::Read ==> match (event, action) {
                (Event::Data { bytes: content }, Action::WriteFile { bytes, .. }) => gunzip_stream(
                    bytes@,
                ) == Some(content@),
                _ => true,
            },
    {
        proof {
            use_type_invariant(&*self);
        }
        match self.phase {
            BuildPhase::Dir => match event {
                Event::Done => {
                    self.phase = BuildPhase::Read;
                    Action::ReadFile { path: self.plan[self.at].source.clone() }
                },
                _ => self.abort(misfit_of(&event)),
            },
            BuildPhase::Read => match event {
                Event::Data { bytes } => {
                    let encoded = match compress(bytes.as_slice()) {
                        Ok(stream) => Some(stream),
                        Err(_) => None,
                    };
                    self.placed(encoded)
                },
                _ => self.abort(misfit_of(&event)),
            },
            BuildPhase::Write => match event {
                Event::Done => {
                    if self.plan[self.at].remove_source {
                        self.phase = BuildPhase::Remove;
                        Action::RemoveFile { path: self.plan[self.at].source.clone() }
                    } else {
                        self.advance()
                    }
                },
                _ => self.abort(misfit_of(&event)),
            },
            BuildPhase::Remove => match event {
                Event::Done => self.advance(),
                _ => self.abort(misfit_of(&event)),
            },
            BuildPhase::Finished => Action::Finish,
            BuildPhase::Aborted(reason) => Action::Abort { reason },
        }
    }

    fn placed(&mut self, encoded: Option<Vec<u8>>) -> (action: Action)
        requires
            old(self)@.phase == BuildPhase::Read,
        ensures
            (final(self)@, action@) == build_place(
                old(self)@,
                match encoded {
                    Some(bytes) => Some(bytes@),
                    None => None,
                },
            ),
    {
        proof {
            use_type_invariant(&*self);
        }
        let task = &self.plan[self.at];
        match place(task.source.as_str(), task.dist_dir.as_str(), encoded) {
            Ok(artifact) => {
                self.phase = BuildPhase::Write;
                Action::WriteFile { path: artifact.path, bytes: artifact.bytes }
            },
            Err(e) => self.abort(Failure::Build(e)),
        }
    }

    fn advance(&mut self) -> (action: Action)
        requires
            old(self)@.phase == BuildPhase::Write || old(self)@.phase == BuildPhase::Remove,
        ensures
            (final(self)@, action@) == build_begin(old(self)@.plan, old(self)@.at + 1),
    {
        proof {
            use_type_invariant(&*self);
        }
        let next: usize = self.at + 1;
        if next < self.plan.len() {
            self.phase = BuildPhase::Dir;
            self.at = next;
            Action::CreateDir { path: self.plan[next].dist_dir.clone() }
        } else {
            self.phase = BuildPhase::Finished;
            self.at = next;
            Action::Finish
        }
    }

    fn abort(&mut self, reason: Failure) -> (action: Action)
        ensures
            (final(self)@, action@) == build_abort(old(self)@, reason),
    {
        proof {
            use_type_invariant(&*self);
        }
        self.phase = BuildPhase::Aborted(reason);
        Action::Abort { reason }
    }
}

} // verus!
