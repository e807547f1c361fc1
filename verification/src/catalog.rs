//! Live plugin-catalog refresh.
//!
//! The catalog drives the whole check, apply, activate, retain pipeline from
//! one [`tick`], called from the audio worker's loop. Generations are
//! serialized: at most one plugin set is loaded per process, activated
//! all-or-nothing at the mount/stop boundary, and a refused set falls back to
//! reloading the previous one from disk. The persisted activation record and
//! the [`active_generation`] accessor replace any event channel.
//!
//! The host owns the updater, the disk and the plugins: it does what a
//! [`Step`] asks for and hands back what came of it, until the catalog is
//! idle again.
//!
//! [`tick`]: PluginCatalog::tick
//! [`active_generation`]: PluginCatalog::active_generation

use vstd::prelude::*;
use vstd::string::*;

use crate::config::{CatalogConfig, Error, UpdaterConfig};
use crate::generation::{boot_order, called, find, sort_for_boot, Generation};
use crate::payload::{Installed, PayloadStore};
use crate::player::{playback_count, LoadReport, PlayerBackend, SwapReport};
use crate::record::{
    events, now_ms, taken_up, text_if, ActivationLog, Event, EventKind, RecordFile, RecordView,
};
use crate::text::{decimal, join, joined, texts, to_decimal};
use crate::tree::{places, TreePath, TreePathView};

verus! {

/// A generation that was refused.
#[derive(Debug)]
pub struct Refused {
    /// The generation.
    pub id: String,
    /// Why its set was refused, as long as the record does not say so: which
    /// event a refusal comes to depends on whether another set can be
    /// reloaded over it. A generation that did not extract is on record.
    pub detail: Option<String>,
}

/// A [`Refused`] with its text as characters.
#[verifier::ext_equal]
pub struct RefusedView {
    pub id: Seq<char>,
    pub detail: Option<Seq<char>>,
}

impl View for Refused {
    type V = RefusedView;

    open spec fn view(&self) -> RefusedView {
        RefusedView { id: self.id@, detail: text_if(self.detail) }
    }
}

/// A generation on its way into the player.
#[derive(Debug)]
pub struct Attempt {
    /// The generation.
    pub generation: Generation,
    /// The generation that was refused, when this one is put back in its
    /// stead.
    pub instead_of: Option<Refused>,
}

/// A refused generation, and the one to put back.
#[derive(Debug)]
pub struct Recall {
    /// The generation that was refused.
    pub refused: Refused,
    /// The generation whose set was live before.
    pub previous: String,
}

/// What stays, and what can go, once a generation went live.
#[derive(Debug)]
pub struct CleanUp {
    /// The generations that stay.
    pub live: Vec<String>,
    /// The archives that the download cache can let go of.
    pub digests: Vec<String>,
}

/// What the host is to do next for the catalog.
#[derive(Debug)]
pub enum Step {
    /// Nothing; the catalog is at rest.
    Idle,
    /// Make the generation's payload loadable, and report to
    /// [`PluginCatalog::extracted`].
    Extract(Attempt),
    /// Drop the session and the plugins, load these libraries, and report to
    /// [`PluginCatalog::swapped`].
    Load(Attempt, Vec<TreePath>),
    /// Store the record, list the installed generations, and report to
    /// [`PluginCatalog::recalled`].
    Recall(Recall),
    /// Store the record, then drop the session and the plugins.
    Unload,
    /// Store the record.
    Persist,
    /// Store the record, then remove every generation and every payload tree
    /// that is not live, and evict the archives.
    CleanUp(CleanUp),
}

/// A [`Step`] with its text as characters.
#[verifier::ext_equal]
pub enum StepView {
    Idle,
    Extract { generation: Generation, instead_of: Option<RefusedView> },
    Load {
        generation: Generation,
        instead_of: Option<RefusedView>,
        libraries: Seq<TreePathView>,
    },
    Recall { refused: RefusedView, previous: Seq<char> },
    Unload,
    Persist,
    CleanUp { live: Seq<Seq<char>>, digests: Seq<Seq<char>> },
}

impl Attempt {
    /// The generation that was refused, when this one is put back in its
    /// stead.
    pub open spec fn stead(self) -> Option<RefusedView> {
        match self.instead_of {
            Some(refused) => Some(refused@),
            None => None,
        }
    }
}

impl View for Step {
    type V = StepView;

    open spec fn view(&self) -> StepView {
        match self {
            Step::Idle => StepView::Idle,
            Step::Extract(attempt) => StepView::Extract {
                generation: attempt.generation,
                instead_of: attempt.stead(),
            },
            Step::Load(attempt, libraries) => StepView::Load {
                generation: attempt.generation,
                instead_of: attempt.stead(),
                libraries: places(libraries@),
            },
            Step::Recall(recall) => StepView::Recall {
                refused: recall.refused@,
                previous: recall.previous@,
            },
            Step::Unload => StepView::Unload,
            Step::Persist => StepView::Persist,
            Step::CleanUp(clean_up) => StepView::CleanUp {
                live: texts(clean_up.live@),
                digests: texts(clean_up.digests@),
            },
        }
    }
}

/// Whether a swap that loaded `loaded` plugins with `errors` rejected paths
/// took every plugin the generation names.
pub open spec fn whole(loaded: nat, errors: nat, expected: nat) -> bool {
    errors == 0 && loaded == expected
}

/// Whether a swap took every plugin the generation names.
pub fn accepted(report: &SwapReport, expected: usize) -> (r: bool)
    ensures
        r == whole(report.loaded as nat, report.errors@.len(), expected as nat),
{
    report.errors.len() == 0 && report.loaded == expected
}

/// What a swap came to, in words.
pub open spec fn described(loaded: nat, errors: Seq<Seq<char>>, expected: nat) -> Seq<char> {
    let count = decimal(loaded) + " of "@ + decimal(expected) + " plugins loaded"@;
    if errors.len() == 0 {
        count
    } else {
        count + ": "@ + joined(errors, "; "@)
    }
}

/// What a swap came to, in words.
pub fn describe(report: &SwapReport, expected: usize) -> (r: String)
    ensures
        r@ == described(report.loaded as nat, texts(report.errors@), expected as nat),
{
    let mut r = to_decimal(report.loaded as u64);
    r.append(" of ");
    r.append(to_decimal(expected as u64).as_str());
    r.append(" plugins loaded");
    if report.errors.len() > 0 {
        r.append(": ");
        r.append(join(&report.errors, "; ").as_str());
    }
    r
}

/// The digests of `artifacts`.
pub open spec fn digests_of(artifacts: Seq<Installed>) -> Seq<Seq<char>> {
    artifacts.map_values(|artifact: Installed| artifact.sha256@)
}

/// What stays once `id` went live: it, and the generation the record pins
/// behind it.
pub open spec fn kept(id: Seq<char>, record: RecordView) -> Seq<Seq<char>> {
    match record.previous {
        Some(previous) => seq![id, previous],
        None => seq![id],
    }
}

/// A catalog at one moment.
#[verifier::ext_equal]
pub struct CatalogView {
    /// The activation record.
    pub record: RecordView,
    /// A completed generation waiting for the mount/stop boundary.
    pub pending: Option<Generation>,
    /// Boot candidates still untried, newest last.
    pub boot_queue: Seq<Generation>,
    /// The generation whose plugin set the player holds.
    pub loaded: Option<Seq<char>>,
    /// Whether the disk was looked at for boot candidates.
    pub booted: bool,
}

/// `queue` without its last entry, and that entry.
pub open spec fn popped(queue: Seq<Generation>) -> (Seq<Generation>, Option<Generation>) {
    if queue.len() == 0 {
        (queue, None)
    } else {
        (queue.drop_last(), Some(queue.last()))
    }
}

impl CatalogView {
    /// The catalog with the next boot candidate pending.
    pub open spec fn next_candidate(self) -> CatalogView {
        CatalogView {
            boot_queue: popped(self.boot_queue).0,
            pending: popped(self.boot_queue).1,
            ..self
        }
    }

    /// The catalog once it looked at what was `found` on disk. Only the first
    /// look counts.
    pub open spec fn boot_once(self, found: Seq<Generation>) -> CatalogView {
        if self.booted {
            self
        } else {
            CatalogView {
                booted: true,
                boot_queue: boot_order(found, self.record.active),
                ..self
            }.next_candidate()
        }
    }

    /// The catalog with a newly completed generation, which supersedes one
    /// that still waits.
    pub open spec fn offered(self, completed: Option<Generation>) -> CatalogView {
        match completed {
            Some(_) => CatalogView { pending: completed, ..self },
            None => self,
        }
    }

    /// What activating the pending generation starts with.
    pub open spec fn activate(self) -> (CatalogView, StepView) {
        match self.pending {
            None => (self, StepView::Idle),
            Some(generation) => if self.loaded == Some(generation.id@) {
                (CatalogView { pending: None, boot_queue: Seq::empty(), ..self }, StepView::Idle)
            } else {
                (
                    CatalogView { pending: None, ..self },
                    StepView::Extract { generation, instead_of: None },
                )
            },
        }
    }

    /// One pump of the worker's loop, with a session mounted or not.
    pub open spec fn tick(
        self,
        found: Seq<Generation>,
        completed: Option<Generation>,
        live: bool,
    ) -> (CatalogView, StepView) {
        let now = self.boot_once(found).offered(completed);
        if live {
            (now, StepView::Idle)
        } else {
            now.activate()
        }
    }

    /// The catalog once nothing could be reloaded over `refused`, which goes
    /// on record at `at` unless it is there.
    pub open spec fn uncovered(self, refused: RefusedView, at: i64) -> CatalogView {
        match refused.detail {
            Some(detail) => CatalogView {
                record: self.record.probe_failed(refused.id, detail, at),
                ..self
            },
            None => self,
        }
    }

    /// What putting a working set back after `refused` starts with, at `at`.
    pub open spec fn recover(self, refused: RefusedView, at: i64) -> (CatalogView, StepView) {
        match self.loaded {
            None => (self.uncovered(refused, at).next_candidate(), StepView::Unload),
            Some(previous) => (self, StepView::Recall { refused, previous }),
        }
    }

    /// The catalog once `previous` would not come back over `refused` at
    /// `at`.
    pub open spec fn give_up(
        self,
        refused: RefusedView,
        previous: Seq<char>,
        at: i64,
    ) -> (CatalogView, StepView) {
        (
            CatalogView {
                record: self.uncovered(refused, at).record.probe_failed(
                    previous,
                    "the previous generation would not reload"@,
                    at,
                ),
                loaded: None,
                ..self
            },
            StepView::Unload,
        )
    }

    /// What follows an extraction that ended at `at`.
    pub open spec fn extracted(
        self,
        generation: Generation,
        instead_of: Option<RefusedView>,
        result: Result<Seq<TreePathView>, Seq<char>>,
        at: i64,
    ) -> (CatalogView, StepView) {
        match result {
            Ok(libraries) => (self, StepView::Load { generation, instead_of, libraries }),
            Err(detail) => match instead_of {
                None => CatalogView {
                    record: self.record.extract_failed(generation.id@, detail, at),
                    ..self
                }.recover(RefusedView { id: generation.id@, detail: None }, at),
                Some(refused) => self.give_up(refused, generation.id@, at),
            },
        }
    }

    /// The catalog once `generation` went live at `at`.
    pub open spec fn went_live(self, generation: Generation, at: i64) -> (CatalogView, StepView) {
        let record = self.record.activated(generation.id@, at);
        (
            CatalogView {
                record,
                loaded: Some(generation.id@),
                boot_queue: Seq::empty(),
                ..self
            },
            StepView::CleanUp {
                live: kept(generation.id@, record),
                digests: digests_of(generation.artifacts@),
            },
        )
    }

    /// What follows a swap that loaded `loaded` plugins and rejected paths
    /// with `errors`, at `at`.
    pub open spec fn swapped(
        self,
        generation: Generation,
        instead_of: Option<RefusedView>,
        loaded: nat,
        errors: Seq<Seq<char>>,
        at: i64,
    ) -> (CatalogView, StepView) {
        let expected = generation.artifacts@.len();
        if whole(loaded, errors.len(), expected) {
            match instead_of {
                None => self.went_live(generation, at),
                Some(refused) => (
                    CatalogView {
                        record: self.record.fell_back(
                            refused.id,
                            generation.id@,
                            "the previous set was reloaded"@,
                            at,
                        ),
                        ..self
                    },
                    StepView::Persist,
                ),
            }
        } else {
            match instead_of {
                None => self.recover(
                    RefusedView {
                        id: generation.id@,
                        detail: Some(described(loaded, errors, expected)),
                    },
                    at,
                ),
                Some(refused) => self.give_up(refused, generation.id@, at),
            }
        }
    }

    /// What follows a look for `previous` among what is installed, at `at`.
    pub open spec fn recalled(
        self,
        refused: RefusedView,
        previous: Seq<char>,
        found: Seq<Generation>,
        at: i64,
    ) -> (CatalogView, StepView) {
        match called(found, previous) {
            Some(generation) => (
                self,
                StepView::Extract { generation, instead_of: Some(refused) },
            ),
            None => self.give_up(refused, previous, at),
        }
    }
}

/// Keeps one [`PlayerBackend`]'s decoder set current against a channel.
///
/// Owned by the same thread as the player it feeds, the audio worker, which
/// calls [`PluginCatalog::tick`] every loop iteration and routes mounts
/// through [`PluginCatalog::mount`], so a pending generation activates at the
/// boundary the design fixes: nothing loads while a song is mounted, and an
/// active song finishes on the generation it started with.
#[derive(Debug)]
pub struct PluginCatalog {
    payloads: PayloadStore,
    log: ActivationLog,
    /// At most one: a newer completion supersedes an unactivated older one.
    pending: Option<Generation>,
    /// Only consulted while nothing has activated yet.
    boot_queue: Vec<Generation>,
    loaded: Option<String>,
    booted: bool,
}

impl View for PluginCatalog {
    type V = CatalogView;

    closed spec fn view(&self) -> CatalogView {
        CatalogView {
            record: self.log@,
            pending: self.pending,
            boot_queue: self.boot_queue@,
            loaded: match self.loaded {
                Some(id) => Some(id@),
                None => None,
            },
            booted: self.booted,
        }
    }
}

impl PluginCatalog {
    /// Where the payload trees sit.
    pub closed spec fn payload_place(&self) -> TreePathView {
        self.payloads.place()
    }

    /// What the platform's libraries end in.
    pub closed spec fn dll_suffix(&self) -> Seq<char> {
        self.payloads.suffix()
    }

    /// Where the activation record is stored.
    pub closed spec fn record_place(&self) -> TreePathView {
        self.log.place()
    }

    /// Whether `other` keeps its files where this catalog does.
    pub open spec fn same_places(&self, other: &PluginCatalog) -> bool {
        &&& self.payload_place() == other.payload_place()
        &&& self.dll_suffix() == other.dll_suffix()
        &&& self.record_place() == other.record_place()
    }

    /// A catalog over `config`, fetching nothing yet, and what its updater is
    /// to be constructed with.
    ///
    /// `stored` is the record found in its place, when one could be read.
    ///
    /// The player starts empty; the first [`PluginCatalog::tick`] or
    /// [`PluginCatalog::mount`] re-probes the recorded active generation from
    /// disk, falling back to the newest one that loads clean.
    pub fn new<W>(
        config: CatalogConfig<W>,
        dll_suffix: &str,
        stored: Option<RecordFile>,
    ) -> (r: (Self, UpdaterConfig<W>))
        ensures
            r.0.payload_place() == config.root@.join("payloads"@),
            r.0.record_place() == config.root@.join("activation.json"@),
            r.0.dll_suffix() == dll_suffix@,
            r.0@ == (CatalogView {
                record: taken_up(
                    match stored {
                        Some(record) => Some(record@),
                        None => None,
                    },
                ),
                pending: None,
                boot_queue: Seq::empty(),
                loaded: None,
                booted: false,
            }),
            r.1 == config.for_updater(),
    {
        let payloads = PayloadStore::new(config.payload_place(), dll_suffix);
        let log = ActivationLog::load(config.record_place(), stored);
        let catalog = PluginCatalog {
            payloads,
            log,
            pending: None,
            boot_queue: Vec::new(),
            loaded: None,
            booted: false,
        };
        (catalog, config.updater())
    }

    /// The catalog with the updater that was constructed for it, or why there
    /// is none.
    pub fn with_updater<U>(self, updater: Result<U, String>) -> (r: Result<(Self, U), Error>)
        ensures
            r == (match updater {
                Ok(updater) => Ok::<(Self, U), Error>((self, updater)),
                Err(cause) => Err(Error::Updater(cause)),
            }),
    {
        match updater {
            Ok(updater) => Ok((self, updater)),
            Err(cause) => Err(Error::Updater(cause)),
        }
    }

    /// One pump from the audio worker's loop, after one of the updater.
    ///
    /// `found` is what is installed, looked at by the first pump or mount
    /// alone, and `completed` what the updater completed since the last pump.
    /// Checking and downloading run on the updater's own threads; only
    /// activation itself happens here, and only when no session is mounted.
    pub fn tick(
        &mut self,
        found: Vec<Generation>,
        completed: Option<Generation>,
        backend: &PlayerBackend,
    ) -> (r: Step)
        ensures
            final(self).same_places(old(self)),
            (final(self)@, r@) == old(self)@.tick(found@, completed, backend@.session is Some),
    {
        self.boot_once(found);
        if completed.is_some() {
            self.pending = completed;
        }
        if self.pending.is_some() && !backend.is_live() {
            self.activate()
        } else {
            Step::Idle
        }
    }

    /// Activate a pending generation before a mount.
    ///
    /// This is where a mount begins: the old session and the old plugin set
    /// are fully dropped before the new generation loads, and once the
    /// catalog is idle the mount proceeds on whatever set is live.
    pub fn mount(&mut self, found: Vec<Generation>, backend: &mut PlayerBackend) -> (r: Step)
        ensures
            final(self).same_places(old(self)),
            (final(self)@, r@) == old(self)@.boot_once(found@).activate(),
            final(backend)@ == (if old(self)@.boot_once(found@).pending is Some {
                old(backend)@.closed()
            } else {
                old(backend)@
            }),
    {
        self.boot_once(found);
        if self.pending.is_some() {
            backend.close();
            self.activate()
        } else {
            Step::Idle
        }
    }

    /// Whether the disk was looked at for boot candidates.
    pub fn booted(&self) -> (r: bool)
        ensures
            r == self@.booted,
    {
        self.booted
    }

    /// The generation whose plugin set is live, for the consumer's snapshot.
    #[must_use]
    pub fn active_generation(&self) -> (r: Option<&str>)
        ensures
            (match r {
                Some(id) => Some(id@),
                None => None,
            }) == self@.loaded,
    {
        match &self.loaded {
            Some(id) => Some(id.as_str()),
            None => None,
        }
    }

    /// A completed generation waiting for the next mount/stop boundary.
    #[must_use]
    pub fn pending_generation(&self) -> (r: Option<&str>)
        ensures
            (match r {
                Some(id) => Some(id@),
                None => None,
            }) == (match self@.pending {
                Some(generation) => Some(generation.id@),
                None => None,
            }),
    {
        match &self.pending {
            Some(generation) => Some(generation.id.as_str()),
            None => None,
        }
    }

    /// The activation history, oldest first.
    #[must_use]
    pub fn history(&self) -> (r: &[Event])
        ensures
            events(r@) == self@.record.history,
    {
        self.log.history()
    }

    /// The activation record, to be stored.
    pub fn record(&self) -> (r: &ActivationLog)
        ensures
            r@ == self@.record,
            r.place() == self.record_place(),
    {
        &self.log
    }

    /// The store of the payload trees.
    pub fn payloads(&self) -> (r: &PayloadStore)
        ensures
            r.place() == self.payload_place(),
            r.suffix() == self.dll_suffix(),
    {
        &self.payloads
    }

    /// Seed the first activation from disk, once.
    fn boot_once(&mut self, found: Vec<Generation>)
        ensures
            final(self).same_places(old(self)),
            final(self)@ == old(self)@.boot_once(found@),
    {
        if self.booted {
            return;
        }
        self.booted = true;
        self.boot_queue = sort_for_boot(found, self.log.active());
        self.pending = self.boot_queue.pop();
    }

    /// Begin to load the pending generation, all-or-nothing.
    ///
    /// Called only when nothing is mounted.
    fn activate(&mut self) -> (r: Step)
        ensures
            final(self).same_places(old(self)),
            (final(self)@, r@) == old(self)@.activate(),
    {
        let generation = match self.pending.take() {
            Some(generation) => generation,
            None => return Step::Idle,
        };
        let live = match &self.loaded {
            Some(id) => *id == generation.id,
            None => false,
        };
        if live {
            self.boot_queue.clear();
            return Step::Idle;
        }
        Step::Extract(Attempt { generation, instead_of: None })
    }

    /// Put a working set back after `refused` did not activate.
    fn recover(&mut self, refused: Refused) -> (r: Step)
        ensures
            final(self).same_places(old(self)),
            final(self)@.record == old(self)@.record || final(self)@.record.stamp() >= 0,
            (final(self)@, r@) == old(self)@.recover(refused@, final(self)@.record.stamp()),
    {
        match &self.loaded {
            Some(previous) => Step::Recall(Recall { refused, previous: previous.clone() }),
            None => {
                // Still booting: nothing was resident to fall back to. The
                // refused set is still loaded, so it goes before the next
                // newest is tried: a mount must not play on a refused set.
                if let Some(detail) = refused.detail {
                    self.log.probe_failed(refused.id.as_str(), detail);
                }
                self.pending = self.boot_queue.pop();
                Step::Unload
            },
        }
    }

    /// Leave nothing loaded, as `previous` would not come back over
    /// `refused`.
    fn give_up(&mut self, refused: Refused, previous: &str) -> (r: Step)
        ensures
            final(self).same_places(old(self)),
            final(self)@.record.stamp() >= 0,
            (final(self)@, r@) == old(self)@.give_up(
                refused@,
                previous@,
                final(self)@.record.stamp(),
            ),
    {
        let at: i64 = now_ms();
        if let Some(detail) = refused.detail {
            self.log.push_at(EventKind::ProbeFailed, refused.id.as_str(), Some(detail), at);
        }
        let detail = "the previous generation would not reload".to_owned();
        self.log.push_at(EventKind::ProbeFailed, previous, Some(detail), at);
        self.loaded = None;
        Step::Unload
    }

    /// The payload is loadable, and these are its libraries, or it is not.
    pub fn extracted(
        &mut self,
        attempt: Attempt,
        result: Result<Vec<TreePath>, String>,
    ) -> (r: Step)
        ensures
            final(self).same_places(old(self)),
            result is Err ==> final(self)@.record.stamp() >= 0,
            (final(self)@, r@) == old(self)@.extracted(
                attempt.generation,
                attempt.stead(),
                match result {
                    Ok(libraries) => Ok(places(libraries@)),
                    Err(detail) => Err(detail@),
                },
                final(self)@.record.stamp(),
            ),
    {
        match result {
            Ok(libraries) => Step::Load(attempt, libraries),
            Err(detail) => {
                match attempt.instead_of {
                    Some(refused) => self.give_up(refused, attempt.generation.id.as_str()),
                    None => {
                        self.log.extract_failed(attempt.generation.id.as_str(), detail);
                        self.recover(Refused { id: attempt.generation.id, detail: None })
                    },
                }
            },
        }
    }

    /// The plugins were dropped, and loading the libraries came to `report`.
    ///
    /// A set that did not load whole is refused, and recovery reloads the
    /// previous set's files, which retention keeps on disk until a newer
    /// activation has succeeded. The refusal is recorded once it is known
    /// what became of that: as a fall-back, or as a failed probe when nothing
    /// could be reloaded.
    pub fn swapped(
        &mut self,
        attempt: Attempt,
        report: LoadReport,
        backend: &mut PlayerBackend,
    ) -> (r: Step)
        ensures
            final(self).same_places(old(self)),
            final(self)@.record == old(self)@.record || final(self)@.record.stamp() >= 0,
            final(backend)@ == old(backend)@.holding(report.plugins@),
            (final(self)@, r@) == old(self)@.swapped(
                attempt.generation,
                attempt.stead(),
                playback_count(report.plugins@),
                texts(report.errors@),
                final(self)@.record.stamp(),
            ),
    {
        let expected: usize = attempt.generation.artifacts.len();
        let report = backend.swap_plugins(report);
        if accepted(&report, expected) {
            match attempt.instead_of {
                Some(refused) => {
                    self.log.fell_back(
                        refused.id.as_str(),
                        attempt.generation.id.as_str(),
                        "the previous set was reloaded".to_owned(),
                    );
                    Step::Persist
                },
                None => {
                    self.loaded = Some(attempt.generation.id.clone());
                    self.log.activated(attempt.generation.id.as_str());
                    self.boot_queue.clear();
                    Step::CleanUp(self.clean_up(&attempt.generation))
                },
            }
        } else {
            match attempt.instead_of {
                Some(refused) => self.give_up(refused, attempt.generation.id.as_str()),
                None => {
                    let detail = Some(describe(&report, expected));
                    self.recover(Refused { id: attempt.generation.id, detail })
                },
            }
        }
    }

    /// These generations are installed, the one to put back perhaps among
    /// them.
    pub fn recalled(&mut self, recall: Recall, found: Vec<Generation>) -> (r: Step)
        ensures
            final(self).same_places(old(self)),
            called(found@, recall.previous@) is None ==> final(self)@.record.stamp() >= 0,
            (final(self)@, r@) == old(self)@.recalled(
                recall.refused@,
                recall.previous@,
                found@,
                final(self)@.record.stamp(),
            ),
    {
        match find(found, recall.previous.as_str()) {
            Some(generation) => Step::Extract(
                Attempt { generation, instead_of: Some(recall.refused) },
            ),
            None => self.give_up(recall.refused, recall.previous.as_str()),
        }
    }

    /// What the activation of `activated` retired.
    ///
    /// Live is the active generation and the fallback pin; everything else
    /// goes: older generations, their payload trees, and the archives the
    /// download cache still holds for this set.
    fn clean_up(&self, activated: &Generation) -> (r: CleanUp)
        ensures
            texts(r.live@) == kept(activated.id@, self@.record),
            texts(r.digests@) == digests_of(activated.artifacts@),
    {
        let mut live: Vec<String> = Vec::new();
        live.push(activated.id.clone());
        if let Some(previous) = self.log.previous() {
            live.push(previous.to_owned());
        }
        assert(texts(live@) == kept(activated.id@, self@.record));
        let mut digests: Vec<String> = Vec::new();
        let ghost all = digests_of(activated.artifacts@);
        for i in 0..activated.artifacts.len()
            invariant
                all == digests_of(activated.artifacts@),
                texts(digests@) == all.take(i as int),
        {
            let ghost was = digests@;
            let digest = activated.artifacts[i].sha256.clone();
            assert(digest@ == all[i as int]);
            digests.push(digest);
            assert(texts(digests@) == texts(was).push(digest@));
        }
        CleanUp { live, digests }
    }

    /// Put `generation` up for activation, as if the disk had been looked at.
    pub fn inject_pending(&mut self, generation: Generation)
        ensures
            final(self).same_places(old(self)),
            final(self)@ == (CatalogView { booted: true, pending: Some(generation), ..old(self)@ }),
    {
        self.booted = true;
        self.pending = Some(generation);
    }
}

} // verus!
