use vstd::prelude::*;
use vstd::string::*;
use crate::errors::{ErrorKind, UpdateError};
use crate::strutil::str_eq;
use crate::updater::{download_url, latest_url_of, spec_decide, spec_download_url, spec_latest_url, Version};
use crate::version_state::{load_tag, spec_default_tag, spec_load, default_tag};

verus! {

/// The phases of one update run:
/// `Idle -> Loading -> Resolving -> { Handoff | Fetching -> Extracting ->
/// CleaningUp -> Persisting -> Handoff }`; any failure before persisting
/// jumps to `Handoff` so the previously installed version still launches.
#[derive(Clone, Copy, Debug, PartialEq, Eq, Structural)]
pub enum Phase {
    Idle,
    Loading,
    Resolving,
    Fetching,
    Extracting,
    CleaningUp,
    Persisting,
    Handoff,
}

/// How the run ended, once it reaches handoff.
#[derive(Debug, Clone)]
pub enum Outcome {
    Pending,
    UpToDate,
    Updated,
    Failed(UpdateError),
}

/// The mathematical shape of an outcome: failures by their kind.
pub enum OutcomeModel {
    Pending,
    UpToDate,
    Updated,
    Failed(ErrorKind),
}

impl View for Outcome {
    type V = OutcomeModel;

    open spec fn view(&self) -> OutcomeModel {
        match self {
            Outcome::Pending => OutcomeModel::Pending,
            Outcome::UpToDate => OutcomeModel::UpToDate,
            Outcome::Updated => OutcomeModel::Updated,
            Outcome::Failed(e) => OutcomeModel::Failed(e.kind),
        }
    }
}

/// One update run: the state the orchestrator threads through its steps.
pub struct Run {
    pub phase: Phase,
    pub current_tag: String,
    pub latest_tag: String,
    pub base_url: String,
    pub outcome: Outcome,
}

/// The mathematical shape of a run.
pub struct RunModel {
    pub phase: Phase,
    pub current_tag: Seq<char>,
    pub latest_tag: Seq<char>,
    pub base_url: Seq<char>,
    pub outcome: OutcomeModel,
}

impl View for Run {
    type V = RunModel;

    open spec fn view(&self) -> RunModel {
        RunModel {
            phase: self.phase,
            current_tag: self.current_tag@,
            latest_tag: self.latest_tag@,
            base_url: self.base_url@,
            outcome: self.outcome@,
        }
    }
}

/// What the environment reports back after performing the requested action.
pub enum Event {
    /// The run begins.
    Start,
    /// The marker file was read (`None` = absent) or could not be read.
    StateLoaded(Result<Option<String>, UpdateError>),
    /// The latest tag was resolved from the release host, or that failed.
    LatestResolved(Result<String, UpdateError>),
    /// The release archive was downloaded, or that failed.
    ArchiveFetched(Result<(), UpdateError>),
    /// The archive was extracted (with the count of entries written), or
    /// that failed.
    ArchiveExtracted(Result<usize, UpdateError>),
    /// The transient archive file was deleted (best-effort).
    ArchiveDeleted(bool),
    /// The new tag was persisted, or that failed.
    TagPersisted(Result<(), UpdateError>),
}

/// The mathematical shape of an event.
pub enum EventModel {
    Start,
    StateLoaded(Result<Option<Seq<char>>, ErrorKind>),
    LatestResolved(Result<Seq<char>, ErrorKind>),
    ArchiveFetched(Result<(), ErrorKind>),
    ArchiveExtracted(Result<int, ErrorKind>),
    ArchiveDeleted(bool),
    TagPersisted(Result<(), ErrorKind>),
}

impl View for Event {
    type V = EventModel;

    open spec fn view(&self) -> EventModel {
        match self {
            Event::Start => EventModel::Start,
            Event::StateLoaded(r) => EventModel::StateLoaded(
                match r {
                    Ok(c) => Ok(c.deep_view()),
                    Err(e) => Err(e.kind),
                },
            ),
            Event::LatestResolved(r) => EventModel::LatestResolved(
                match r {
                    Ok(t) => Ok(t@),
                    Err(e) => Err(e.kind),
                },
            ),
            Event::ArchiveFetched(r) => EventModel::ArchiveFetched(
                match r {
                    Ok(_) => Ok(()),
                    Err(e) => Err(e.kind),
                },
            ),
            Event::ArchiveExtracted(r) => EventModel::ArchiveExtracted(
                match r {
                    Ok(n) => Ok(*n as int),
                    Err(e) => Err(e.kind),
                },
            ),
            Event::ArchiveDeleted(ok) => EventModel::ArchiveDeleted(*ok),
            Event::TagPersisted(r) => EventModel::TagPersisted(
                match r {
                    Ok(_) => Ok(()),
                    Err(e) => Err(e.kind),
                },
            ),
        }
    }
}

/// What the environment must do next.
#[derive(Debug, Clone, PartialEq, Eq)]
pub enum Action {
    /// Read the marker file.
    LoadState,
    /// Query this URL for the latest release.
    ResolveLatest(String),
    /// Download this URL to the transient archive file.
    FetchArchive(String),
    /// Extract the downloaded archive into the installation root.
    ExtractArchive,
    /// Delete the transient archive file (best-effort).
    DeleteArchive,
    /// Persist this tag as the new marker, atomically.
    PersistTag(String),
    /// Hand off: launch the installed executable.
    Launch,
}

/// The mathematical shape of an action. `Nothing` stands for the steps that
/// no well-formed run takes.
pub enum ActionView {
    LoadState,
    ResolveLatest(Seq<char>),
    FetchArchive(Seq<char>),
    ExtractArchive,
    DeleteArchive,
    PersistTag(Seq<char>),
    Launch,
    Nothing,
}

impl View for Action {
    type V = ActionView;

    open spec fn view(&self) -> ActionView {
        match self {
            Action::LoadState => ActionView::LoadState,
            Action::ResolveLatest(u) => ActionView::ResolveLatest(u@),
            Action::FetchArchive(u) => ActionView::FetchArchive(u@),
            Action::ExtractArchive => ActionView::ExtractArchive,
            Action::DeleteArchive => ActionView::DeleteArchive,
            Action::PersistTag(t) => ActionView::PersistTag(t@),
            Action::Launch => ActionView::Launch,
        }
    }
}

/// Which event each phase expects; `Handoff` is terminal and expects none.
pub open spec fn spec_event_fits(phase: Phase, ev: EventModel) -> bool {
    match (phase, ev) {
        (Phase::Idle, EventModel::Start) => true,
        (Phase::Loading, EventModel::StateLoaded(_)) => true,
        (Phase::Resolving, EventModel::LatestResolved(_)) => true,
        (Phase::Fetching, EventModel::ArchiveFetched(_)) => true,
        (Phase::Extracting, EventModel::ArchiveExtracted(_)) => true,
        (Phase::CleaningUp, EventModel::ArchiveDeleted(_)) => true,
        (Phase::Persisting, EventModel::TagPersisted(_)) => true,
        _ => false,
    }
}

/// A failed step: the run aborts to handoff, so a failed update still
/// launches the previously installed version; the tag is not advanced.
pub open spec fn spec_fail(s: RunModel, kind: ErrorKind) -> (RunModel, ActionView) {
    (
        RunModel {
            phase: Phase::Handoff,
            outcome: OutcomeModel::Failed(kind),
            ..s
        },
        ActionView::Launch,
    )
}

/// The transition relation of one update run.
pub open spec fn spec_advance(s: RunModel, ev: EventModel) -> (RunModel, ActionView) {
    match (s.phase, ev) {
        (Phase::Idle, EventModel::Start) => (
            RunModel { phase: Phase::Loading, ..s },
            ActionView::LoadState,
        ),
        (Phase::Loading, EventModel::StateLoaded(res)) => match res {
            Err(kind) => spec_fail(s, kind),
            Ok(contents) => match spec_load(contents) {
                Option::None => spec_fail(s, ErrorKind::Io),
                Option::Some(t) => (
                    RunModel { phase: Phase::Resolving, current_tag: t, ..s },
                    ActionView::ResolveLatest(spec_latest_url(s.base_url)),
                ),
            },
        },
        (Phase::Resolving, EventModel::LatestResolved(res)) => match res {
            Err(kind) => spec_fail(s, kind),
            Ok(t) => if t.len() == 0 {
                spec_fail(s, ErrorKind::Parse)
            } else if t == s.current_tag {
                (
                    RunModel {
                        phase: Phase::Handoff,
                        latest_tag: t,
                        outcome: OutcomeModel::UpToDate,
                        ..s
                    },
                    ActionView::Launch,
                )
            } else {
                (
                    RunModel { phase: Phase::Fetching, latest_tag: t, ..s },
                    ActionView::FetchArchive(spec_download_url(s.base_url, t)),
                )
            },
        },
        (Phase::Fetching, EventModel::ArchiveFetched(res)) => match res {
            Err(kind) => spec_fail(s, kind),
            Ok(_) => (RunModel { phase: Phase::Extracting, ..s }, ActionView::ExtractArchive),
        },
        (Phase::Extracting, EventModel::ArchiveExtracted(res)) => match res {
            Err(kind) => spec_fail(s, kind),
            Ok(_) => (RunModel { phase: Phase::CleaningUp, ..s }, ActionView::DeleteArchive),
        },
        (Phase::CleaningUp, EventModel::ArchiveDeleted(_)) => (
            RunModel { phase: Phase::Persisting, ..s },
            ActionView::PersistTag(s.latest_tag),
        ),
        (Phase::Persisting, EventModel::TagPersisted(res)) => match res {
            Err(kind) => spec_fail(s, kind),
            Ok(_) => (
                RunModel {
                    phase: Phase::Handoff,
                    current_tag: s.latest_tag,
                    outcome: OutcomeModel::Updated,
                    ..s
                },
                ActionView::Launch,
            ),
        },
        _ => (s, ActionView::Nothing),
    }
}

impl Run {
    /// Well-formed run state: tags and the base URL are never empty.
    pub open spec fn wf(&self) -> bool {
        self.current_tag@.len() > 0 && self.latest_tag@.len() > 0 && self.base_url@.len() > 0
    }

    /// A fresh, idle run against this release host.
    pub fn new(base_url: String) -> (r: Run)
        requires
            base_url@.len() > 0,
        ensures
            r.wf(),
            r@.phase == Phase::Idle,
            r@.base_url == base_url@,
            r@.current_tag == spec_default_tag(),
            r@.latest_tag == spec_default_tag(),
            r@.outcome == OutcomeModel::Pending,
    {
        proof {
            reveal_strlit("v0.0.0");
        }
        Run {
            phase: Phase::Idle,
            current_tag: default_tag(),
            latest_tag: default_tag(),
            base_url,
            outcome: Outcome::Pending,
        }
    }

    /// A failed step aborts to handoff with the cause recorded.
    fn fail(self, e: UpdateError) -> (r: (Run, Action))
        ensures
            r.0@ == spec_fail(self@, e.kind).0,
            r.1@ == spec_fail(self@, e.kind).1,
            r.0.current_tag == self.current_tag,
            r.0.latest_tag == self.latest_tag,
            r.0.base_url == self.base_url,
    {
        (
            Run { phase: Phase::Handoff, outcome: Outcome::Failed(e), ..self },
            Action::Launch,
        )
    }

    /// One step of the update run: consume the event the environment
    /// reported and say what to do next. The decision logic of the whole
    /// workflow lives here; the environment only performs the actions.
    pub fn advance(self, ev: Event) -> (r: (Run, Action))
        requires
            self.wf(),
            spec_event_fits(self.phase, ev@),
        ensures
            r.0@ == spec_advance(self@, ev@).0,
            r.1@ == spec_advance(self@, ev@).1,
            r.0.wf(),
    {
        proof {
            reveal_strlit("v0.0.0");
        }
        match ev {
            Event::Start => (Run { phase: Phase::Loading, ..self }, Action::LoadState),
            Event::StateLoaded(res) => match res {
                Err(e) => self.fail(e),
                Ok(contents) => match load_tag(contents) {
                    Err(e) => self.fail(e),
                    Ok(t) => {
                        let url = latest_url_of(self.base_url.as_str());
                        (
                            Run { phase: Phase::Resolving, current_tag: t, ..self },
                            Action::ResolveLatest(url),
                        )
                    },
                },
            },
            Event::LatestResolved(res) => match res {
                Err(e) => self.fail(e),
                Ok(t) => {
                    if t.as_str().unicode_len() == 0 {
                        self.fail(
                            UpdateError::new(
                                ErrorKind::Parse,
                                "the resolved latest tag is empty".to_owned(),
                            ),
                        )
                    } else if str_eq(t.as_str(), self.current_tag.as_str()) {
                        (
                            Run {
                                phase: Phase::Handoff,
                                latest_tag: t,
                                outcome: Outcome::UpToDate,
                                ..self
                            },
                            Action::Launch,
                        )
                    } else {
                        let url = download_url(self.base_url.as_str(), t.as_str());
                        (
                            Run { phase: Phase::Fetching, latest_tag: t, ..self },
                            Action::FetchArchive(url),
                        )
                    }
                },
            },
            Event::ArchiveFetched(res) => match res {
                Err(e) => self.fail(e),
                Ok(_) => (Run { phase: Phase::Extracting, ..self }, Action::ExtractArchive),
            },
            Event::ArchiveExtracted(res) => match res {
                Err(e) => self.fail(e),
                Ok(_) => (Run { phase: Phase::CleaningUp, ..self }, Action::DeleteArchive),
            },
            Event::ArchiveDeleted(_) => {
                let tag = self.latest_tag.clone();
                (Run { phase: Phase::Persisting, ..self }, Action::PersistTag(tag))
            },
            Event::TagPersisted(res) => match res {
                Err(e) => self.fail(e),
                Ok(_) => {
                    let tag = self.latest_tag.clone();
                    (
                        Run {
                            phase: Phase::Handoff,
                            current_tag: tag,
                            outcome: Outcome::Updated,
                            ..self
                        },
                        Action::Launch,
                    )
                },
            },
        }
    }
}

/// For equal tags the decision step yields up to date, the run hands off at
/// once with no side effects, and — handoff being terminal — no fetch,
/// extract or persist action is ever triggered afterwards.
pub proof fn lemma_up_to_date_run(s: RunModel, t: Seq<char>)
    requires
        s.phase == Phase::Resolving,
        t.len() > 0,
        t == s.current_tag,
    ensures
        spec_decide(s.current_tag, t) == Version::UpToDate(),
        spec_advance(s, EventModel::LatestResolved(Ok(t))).0.phase == Phase::Handoff,
        spec_advance(s, EventModel::LatestResolved(Ok(t))).0.outcome == OutcomeModel::UpToDate,
        spec_advance(s, EventModel::LatestResolved(Ok(t))).0.current_tag == s.current_tag,
        spec_advance(s, EventModel::LatestResolved(Ok(t))).1 == ActionView::Launch,
        forall|ev: EventModel| !spec_event_fits(Phase::Handoff, ev),
{
}

/// The end state of a download branch in which fetch, extraction, cleanup
/// and persist all succeed.
pub open spec fn spec_download_branch_end(
    s: RunModel,
    t2: Seq<char>,
    written: int,
    cleaned: bool,
) -> RunModel {
    let s1 = spec_advance(s, EventModel::LatestResolved(Ok(t2))).0;
    let s2 = spec_advance(s1, EventModel::ArchiveFetched(Ok(()))).0;
    let s3 = spec_advance(s2, EventModel::ArchiveExtracted(Ok(written))).0;
    let s4 = spec_advance(s3, EventModel::ArchiveDeleted(cleaned)).0;
    spec_advance(s4, EventModel::TagPersisted(Ok(()))).0
}

/// For differing tags the decision step takes the download branch — fetching
/// exactly the new tag's URL — and upon its successful completion the
/// persisted tag and the installed tag both equal the newly resolved tag.
pub proof fn lemma_download_branch_run(s: RunModel, t2: Seq<char>, written: int, cleaned: bool)
    requires
        s.phase == Phase::Resolving,
        t2.len() > 0,
        t2 != s.current_tag,
    ensures
        spec_decide(s.current_tag, t2) == Version::Downloaded(),
        spec_advance(s, EventModel::LatestResolved(Ok(t2))).1 == ActionView::FetchArchive(
            spec_download_url(s.base_url, t2),
        ),
        spec_advance(
            spec_advance(
                spec_advance(s, EventModel::LatestResolved(Ok(t2))).0,
                EventModel::ArchiveFetched(Ok(())),
            ).0,
            EventModel::ArchiveExtracted(Ok(written)),
        ).0.phase == Phase::CleaningUp,
        spec_advance(
            spec_advance(
                spec_advance(
                    spec_advance(s, EventModel::LatestResolved(Ok(t2))).0,
                    EventModel::ArchiveFetched(Ok(())),
                ).0,
                EventModel::ArchiveExtracted(Ok(written)),
            ).0,
            EventModel::ArchiveDeleted(cleaned),
        ).1 == ActionView::PersistTag(t2),
        spec_download_branch_end(s, t2, written, cleaned).current_tag == t2,
        spec_download_branch_end(s, t2, written, cleaned).outcome == OutcomeModel::Updated,
        spec_download_branch_end(s, t2, written, cleaned).phase == Phase::Handoff,
{
}

/// The persisted tag always reflects installed content: a step changes the
/// current tag only when loading it at run start, or after the persist step
/// that ends a fully successful download and extraction, where it becomes
/// the freshly resolved tag.
pub proof fn lemma_current_tag_stable(s: RunModel, ev: EventModel)
    ensures
        spec_advance(s, ev).0.current_tag != s.current_tag ==> s.phase == Phase::Loading || (
        s.phase == Phase::Persisting && ev == EventModel::TagPersisted(
            Result::<(), ErrorKind>::Ok(()),
        ) && spec_advance(s, ev).0.current_tag == s.latest_tag),
{
    match (s.phase, ev) {
        (Phase::Loading, EventModel::StateLoaded(_)) => {},
        (Phase::Persisting, EventModel::TagPersisted(res)) => {
            match res {
                Ok(u) => {
                    assert(ev == EventModel::TagPersisted(Result::<(), ErrorKind>::Ok(())));
                },
                Err(_) => {},
            }
        },
        _ => {},
    }
}

} // verus!
