//! Script sessions: launching, error taxonomy, and the cooperative
//! (serialized) execution strategy.
//!
//! Scripts live under the reserved `scripts/` prefix of the archive. A
//! session launches one execution unit per entry; failures are collected
//! and reported once, when the caller waits or stops, and the
//! distinguished cancellation error counts as a clean stop, never as a
//! failure.
//!
//! The preemptible strategy runs each script on its own host thread; its
//! decisions (which entries launch, how waits are sliced, how outcomes
//! aggregate) all live here, while the thread and interpreter plumbing
//! stays with the host. The cooperative strategy is [`CoopManager`]: one
//! logical thread, one tick per script at a time, every recorded change
//! applied through the same sandbox rules as the preemptible strategy.

use vstd::prelude::*;

use crate::archive::{entries_view, ArchiveFileEntry, CGameArchive, SpecEntry};
use crate::sandbox::{spec_coerce, ScriptValue};
use crate::scene::ObjView;
use crate::store::{spec_after_write, spec_index_of, Field, SceneTable};
use crate::text::{str_starts_with, string_from_utf8};

verus! {

/// Why one script ended badly.
#[derive(Debug, Clone, PartialEq, Eq)]
pub enum ScriptError {
    /// The distinguished "stopped by host" condition: a clean shutdown
    /// signal, excluded from failure reports.
    Cancelled,
    /// A language-level failure inside the script.
    Runtime(String),
    /// The script's source could not be loaded.
    Source(String),
}

/// Mathematical image of a script error.
pub enum ErrView {
    Cancelled,
    Runtime(Seq<char>),
    Source(Seq<char>),
}

impl View for ScriptError {
    type V = ErrView;

    open spec fn view(&self) -> ErrView {
        match self {
            ScriptError::Cancelled => ErrView::Cancelled,
            ScriptError::Runtime(m) => ErrView::Runtime(m@),
            ScriptError::Source(m) => ErrView::Source(m@),
        }
    }
}

impl ScriptError {
    /// Whether this is the distinguished cancellation condition.
    pub fn is_cancellation(&self) -> (r: bool)
        ensures
            r == (self@ is Cancelled),
    {
        match self {
            ScriptError::Cancelled => true,
            _ => false,
        }
    }

    /// The error's message.
    pub fn message(&self) -> (r: String)
        ensures
            r@ == self@.spec_message(),
    {
        match self {
            ScriptError::Cancelled => String::from_str("script stopped by host"),
            ScriptError::Runtime(m) => m.clone(),
            ScriptError::Source(m) => m.clone(),
        }
    }
}

impl ErrView {
    /// The message text of an error.
    pub open spec fn spec_message(self) -> Seq<char> {
        match self {
            ErrView::Cancelled => "script stopped by host"@,
            ErrView::Runtime(m) => m,
            ErrView::Source(m) => m,
        }
    }
}

/// Whether an entry lies in the reserved script namespace.
pub open spec fn spec_is_script_entry(e: SpecEntry) -> bool {
    "scripts/"@.is_prefix_of(e.name)
}

/// The entries under the reserved prefix, in archive order.
pub open spec fn spec_script_entries(s: Seq<SpecEntry>) -> Seq<SpecEntry>
    decreases s.len(),
{
    if s.len() == 0 {
        Seq::empty()
    } else {
        spec_script_entries(s.drop_last()) + (if spec_is_script_entry(s.last()) {
            seq![s.last()]
        } else {
            Seq::empty()
        })
    }
}

/// Selects the archive entries whose names carry the reserved `scripts/`
/// prefix, keeping their order.
pub fn script_entries(files: &Vec<ArchiveFileEntry>) -> (r: Vec<ArchiveFileEntry>)
    ensures
        entries_view(r@) == spec_script_entries(entries_view(files@)),
{
    let ghost views = entries_view(files@);
    let mut selected: Vec<ArchiveFileEntry> = Vec::new();
    let n = files.len();
    let mut i: usize = 0;
    while i < n
        invariant
            i <= n,
            n == files@.len(),
            views == entries_view(files@),
            entries_view(selected@) == spec_script_entries(views.take(i as int)),
        decreases n - i,
    {
        let ghost before = entries_view(selected@);
        let entry = &files[i];
        if str_starts_with(entry.name.as_str(), "scripts/") {
            selected.push(entry.clone());
        }
        proof {
            assert(views.take(i + 1).drop_last() =~= views.take(i as int));
            assert(views.take(i + 1).last() == views[i as int]);
            if spec_is_script_entry(views[i as int]) {
                assert(entries_view(selected@) =~= before + seq![views[i as int]]);
            } else {
                assert(entries_view(selected@) =~= before);
                assert(before + Seq::<SpecEntry>::empty() =~= before);
            }
        }
        i = i + 1;
    }
    proof {
        assert(views.take(n as int) =~= views);
    }
    selected
}

/// Loads one script's source text from the archive: the bytes of the named
/// entry, which must be valid UTF-8.
pub fn extract_script_source(archive: &CGameArchive, name: &str) -> (r: Result<String, ScriptError>)
    requires
        archive.wf(),
    ensures
        ({
            let found = crate::archive::spec_find_entry(archive.spec_files(), name@);
            &&& r is Ok <==> (found is Some && vstd::utf8::valid_utf8(
                archive.spec_data().subrange(
                    archive.spec_files()[found->0].offset,
                    archive.spec_files()[found->0].offset + archive.spec_files()[found->0].size,
                ),
            ))
            &&& r is Ok ==> r->Ok_0@ == vstd::utf8::decode_utf8(
                archive.spec_data().subrange(
                    archive.spec_files()[found->0].offset,
                    archive.spec_files()[found->0].offset + archive.spec_files()[found->0].size,
                ),
            )
            &&& r is Err ==> r->Err_0@ is Source
        }),
{
    let bytes = match archive.extract_file(name) {
        Ok(bytes) => bytes,
        Err(e) => {
            return Err(ScriptError::Source(String::from_str(e.message())));
        },
    };
    match string_from_utf8(bytes) {
        Some(source) => Ok(source),
        None => Err(ScriptError::Source(String::from_str("script source is not valid UTF-8"))),
    }
}

/// The messages of the real failures among a batch of outcomes: every
/// error that is not the distinguished cancellation, in order.
pub open spec fn spec_failure_messages(s: Seq<Option<ErrView>>) -> Seq<Seq<char>>
    decreases s.len(),
{
    if s.len() == 0 {
        Seq::empty()
    } else {
        spec_failure_messages(s.drop_last()) + (match s.last() {
            Option::Some(e) => if e is Cancelled {
                Seq::empty()
            } else {
                seq![e.spec_message()]
            },
            Option::None => Seq::empty(),
        })
    }
}

/// Message sequences joined with `; ` between them.
pub open spec fn spec_join_messages(msgs: Seq<Seq<char>>) -> Seq<char>
    decreases msgs.len(),
{
    if msgs.len() == 0 {
        Seq::empty()
    } else if msgs.len() == 1 {
        msgs[0]
    } else {
        spec_join_messages(msgs.drop_last()) + "; "@ + msgs.last()
    }
}

/// The error views of a batch of per-script outcomes.
pub open spec fn outcomes_view(s: Seq<Result<(), ScriptError>>) -> Seq<Option<ErrView>> {
    s.map_values(
        |o: Result<(), ScriptError>|
            match o {
                Result::Ok(()) => Option::None,
                Result::Err(e) => Option::Some(e@),
            },
    )
}

/// Folds a batch of per-script outcomes into one result, as the session
/// reports it when the caller waits or stops: clean runs and cancellations
/// disappear, and every other failure's message lands in one aggregate
/// string, joined with `; `.
pub fn aggregate_outcomes(outcomes: &Vec<Result<(), ScriptError>>) -> (r: Result<(), String>)
    ensures
        r is Ok <==> spec_failure_messages(outcomes_view(outcomes@)).len() == 0,
        r is Err ==> r->Err_0@ == spec_join_messages(spec_failure_messages(outcomes_view(outcomes@))),
{
    let ghost views = outcomes_view(outcomes@);
    let mut joined: Option<String> = None;
    let n = outcomes.len();
    let mut i: usize = 0;
    while i < n
        invariant
            i <= n,
            n == outcomes@.len(),
            views == outcomes_view(outcomes@),
            match joined {
                Option::None => spec_failure_messages(views.take(i as int)).len() == 0,
                Option::Some(s) => spec_failure_messages(views.take(i as int)).len() > 0 && s@
                    == spec_join_messages(spec_failure_messages(views.take(i as int))),
            },
        decreases n - i,
    {
        let ghost msgs_before = spec_failure_messages(views.take(i as int));
        proof {
            assert(views.take(i + 1).drop_last() =~= views.take(i as int));
            assert(views.take(i + 1).last() == views[i as int]);
        }
        match &outcomes[i] {
            Ok(()) => {
                proof {
                    assert(spec_failure_messages(views.take(i + 1)) =~= msgs_before);
                }
            },
            Err(e) => {
                if e.is_cancellation() {
                    proof {
                        assert(spec_failure_messages(views.take(i + 1)) =~= msgs_before);
                    }
                } else {
                    let message = e.message();
                    let ghost msgs_after = spec_failure_messages(views.take(i + 1));
                    proof {
                        assert(msgs_after =~= msgs_before + seq![e@.spec_message()]);
                        assert(msgs_after.drop_last() =~= msgs_before);
                        assert(msgs_after.last() == e@.spec_message());
                    }
                    joined = match joined {
                        None => Some(message),
                        Some(mut s) => {
                            s.append("; ");
                            s.append(message.as_str());
                            Some(s)
                        },
                    };
                }
            },
        }
        i = i + 1;
    }
    proof {
        assert(views.take(n as int) =~= views);
    }
    match joined {
        None => Ok(()),
        Some(s) => Err(s),
    }
}

/// One field change a cooperative tick reports: which object, which field,
/// and the validated value.
#[derive(Debug)]
pub struct ChangeRequest {
    pub object: String,
    pub field: Field,
    pub value: ScriptValue,
}

/// Mathematical image of a change request.
pub struct ChangeView {
    pub object: Seq<char>,
    pub field: Field,
    pub value: ScriptValue,
}

impl View for ChangeRequest {
    type V = ChangeView;

    open spec fn view(&self) -> ChangeView {
        ChangeView { object: self.object@, field: self.field, value: self.value }
    }
}

/// The table after a tick's recorded changes are applied in order, and
/// whether they all landed: a malformed value is dropped silently, and the
/// first unknown object name stops the batch with a failure, leaving the
/// earlier changes in place.
pub open spec fn spec_run_changes(objs: Seq<ObjView>, changes: Seq<ChangeView>) -> (Seq<ObjView>, bool)
    decreases changes.len(),
{
    if changes.len() == 0 {
        (objs, true)
    } else {
        let c = changes[0];
        match spec_coerce(c.field, c.value) {
            Option::None => spec_run_changes(objs, changes.drop_first()),
            Option::Some((vector, scalar)) => {
                if spec_index_of(objs, c.object) is None {
                    (objs, false)
                } else {
                    spec_run_changes(
                        spec_after_write(objs, c.object, c.field, vector, scalar),
                        changes.drop_first(),
                    )
                }
            },
        }
    }
}

/// Applies a tick's recorded changes to the scene table, stopping at the
/// first unknown object.
pub fn run_changes(table: &mut SceneTable, changes: &Vec<ChangeRequest>) -> (r: Result<
    (),
    ScriptError,
>)
    ensures
        final(table)@ == spec_run_changes(old(table)@, changes@.map_values(|c: ChangeRequest| c@)).0,
        r is Ok <==> spec_run_changes(old(table)@, changes@.map_values(|c: ChangeRequest| c@)).1,
        r is Err ==> r->Err_0@ is Runtime,
{
    let ghost all = changes@.map_values(|c: ChangeRequest| c@);
    proof {
        assert(all.skip(0) =~= all);
    }
    let n = changes.len();
    let mut i: usize = 0;
    while i < n
        invariant
            i <= n,
            n == changes@.len(),
            all == changes@.map_values(|c: ChangeRequest| c@),
            spec_run_changes(old(table)@, all) == spec_run_changes(table@, all.skip(i as int)),
        decreases n - i,
    {
        let change = &changes[i];
        proof {
            assert(all.skip(i as int)[0] == all[i as int]);
            assert(all.skip(i as int).drop_first() =~= all.skip(i + 1));
        }
        if let Some((vector, scalar)) = crate::sandbox::coerce_value(change.field, change.value) {
            if !table.set_field(change.object.as_str(), change.field, vector, scalar) {
                let mut message = String::from_str("unknown object ");
                message.append(change.object.as_str());
                return Err(ScriptError::Runtime(message));
            }
        }
        i = i + 1;
    }
    proof {
        assert(all.skip(n as int) =~= Seq::<ChangeView>::empty());
    }
    Ok(())
}

/// Where one cooperative script stands.
#[derive(Debug, Clone, Copy, PartialEq, Eq, Structural)]
pub enum CoopStatus {
    /// Has a live continuation; gets further ticks.
    Active,
    /// Ran to natural completion.
    Finished,
    /// Ended with a runtime or source failure.
    Failed,
    /// Its continuation was abandoned by a stop request.
    Aborted,
}

/// One script of a cooperative session.
#[derive(Debug)]
pub struct CoopScript {
    pub name: String,
    pub source: String,
    pub status: CoopStatus,
}

/// Mathematical image of one cooperative script.
#[verifier::ext_equal]
pub struct CoopScriptView {
    pub name: Seq<char>,
    pub source: Seq<char>,
    pub status: CoopStatus,
}

impl View for CoopScript {
    type V = CoopScriptView;

    open spec fn view(&self) -> CoopScriptView {
        CoopScriptView { name: self.name@, source: self.source@, status: self.status }
    }
}

/// The single-threaded, serialized script manager.
///
/// Each script is stepped one tick at a time by an external evaluator; the
/// host hands the evaluator a self-contained payload, gets back recorded
/// changes, a wait request and a finished flag, and applies the changes
/// here. A script that never yields can only be cancelled by abandoning
/// its continuation, which is what [`CoopManager::stop`] does.
#[derive(Debug)]
pub struct CoopManager {
    scripts: Vec<CoopScript>,
    running: bool,
}

/// Mathematical image of a cooperative session.
#[verifier::ext_equal]
pub struct CoopView {
    pub scripts: Seq<CoopScriptView>,
    pub running: bool,
}

impl View for CoopManager {
    type V = CoopView;

    closed spec fn view(&self) -> CoopView {
        CoopView {
            scripts: self.scripts@.map_values(|s: CoopScript| s@),
            running: self.running,
        }
    }
}

impl CoopManager {
    /// A session with no scripts and the running flag clear.
    pub fn new() -> (r: CoopManager)
        ensures
            r@.scripts.len() == 0,
            !r@.running,
    {
        let manager = CoopManager { scripts: Vec::new(), running: false };
        proof {
            assert(manager@.scripts =~= Seq::<CoopScriptView>::empty());
        }
        manager
    }

    /// Whether the session still runs scripts.
    pub fn is_running(&self) -> (r: bool)
        ensures
            r == self@.running,
    {
        self.running
    }

    /// How many scripts the session holds.
    pub fn script_count(&self) -> (r: usize)
        ensures
            r == self@.scripts.len(),
    {
        self.scripts.len()
    }

    /// Launches a batch of named script sources: every script starts
    /// active, and the session runs exactly when the batch is non-empty.
    /// Launching nothing leaves a session on which waiting and stopping
    /// are no-ops. Returns the number launched.
    pub fn start(&mut self, sources: Vec<(String, String)>) -> (count: usize)
        ensures
            count == sources@.len(),
            final(self)@.running == (count > 0),
            final(self)@.scripts.len() == count,
            forall|i: int|
                0 <= i < count ==> {
                    &&& (#[trigger] final(self)@.scripts[i]).name == sources@[i].0@
                    &&& final(self)@.scripts[i].source == sources@[i].1@
                    &&& final(self)@.scripts[i].status == CoopStatus::Active
                },
    {
        let mut scripts: Vec<CoopScript> = Vec::new();
        let n = sources.len();
        let mut i: usize = 0;
        while i < n
            invariant
                i <= n,
                n == sources@.len(),
                scripts@.len() == i,
                forall|j: int|
                    0 <= j < i ==> {
                        &&& (#[trigger] scripts@[j])@.name == sources@[j].0@
                        &&& scripts@[j]@.source == sources@[j].1@
                        &&& scripts@[j]@.status == CoopStatus::Active
                    },
            decreases n - i,
        {
            let pair = &sources[i];
            scripts.push(
                CoopScript {
                    name: pair.0.clone(),
                    source: pair.1.clone(),
                    status: CoopStatus::Active,
                },
            );
            i = i + 1;
        }
        self.scripts = scripts;
        self.running = n > 0;
        n
    }

    /// Requests cancellation: clears the running flag and abandons every
    /// active continuation. Scripts already finished or failed keep their
    /// status; on a session that runs nothing this changes nothing but the
    /// flag, which was already clear.
    pub fn stop(&mut self)
        ensures
            !final(self)@.running,
            final(self)@.scripts.len() == old(self)@.scripts.len(),
            forall|i: int|
                0 <= i < old(self)@.scripts.len() ==> {
                    &&& (#[trigger] final(self)@.scripts[i]).name == old(self)@.scripts[i].name
                    &&& final(self)@.scripts[i].source == old(self)@.scripts[i].source
                    &&& final(self)@.scripts[i].status == (if old(self)@.scripts[i].status
                        == CoopStatus::Active {
                        CoopStatus::Aborted
                    } else {
                        old(self)@.scripts[i].status
                    })
                },
    {
        self.running = false;
        let n = self.scripts.len();
        let mut i: usize = 0;
        while i < n
            invariant
                i <= n,
                n == self.scripts@.len(),
                !self.running,
                forall|j: int|
                    i <= j < n ==> (#[trigger] self.scripts@[j])@ == old(self)@.scripts[j],
                forall|j: int|
                    0 <= j < i ==> {
                        &&& (#[trigger] self.scripts@[j])@.name == old(self)@.scripts[j].name
                        &&& self.scripts@[j]@.source == old(self)@.scripts[j].source
                        &&& self.scripts@[j]@.status == (if old(self)@.scripts[j].status
                            == CoopStatus::Active {
                            CoopStatus::Aborted
                        } else {
                            old(self)@.scripts[j].status
                        })
                    },
            decreases n - i,
        {
            let is_active = match self.scripts[i].status {
                CoopStatus::Active => true,
                _ => false,
            };
            if is_active {
                set_status(&mut self.scripts, i, CoopStatus::Aborted);
            }
            i = i + 1;
        }
    }
}

/// Whether any script still has a live continuation.
pub open spec fn spec_any_active(scripts: Seq<CoopScriptView>) -> bool {
    exists|i: int| 0 <= i < scripts.len() && (#[trigger] scripts[i]).status == CoopStatus::Active
}

/// How one evaluator tick was taken up.
#[derive(Debug, Clone, Copy, PartialEq, Eq, Structural)]
pub enum TickOutcome {
    /// The session had stopped or the script was already retired; nothing
    /// was applied.
    Abandoned,
    /// The changes landed and the script waits for its next tick.
    Suspended,
    /// The changes landed and the script ran to completion.
    Completed,
    /// A change named an unknown object; the script failed.
    Failed,
}

impl CoopManager {
    /// Feeds one script's tick result back into the session: applies the
    /// recorded changes to the scene table under the sandbox rules, retires
    /// the script when it finished or failed, and clears the running flag
    /// when the last active script retires. A tick arriving after a stop is
    /// abandoned without touching the table.
    pub fn tick(
        &mut self,
        table: &mut SceneTable,
        index: usize,
        changes: &Vec<ChangeRequest>,
        finished: bool,
    ) -> (r: TickOutcome)
        requires
            index < old(self)@.scripts.len(),
        ensures
            ({
                let was_live = old(self)@.running && old(self)@.scripts[index as int].status
                    == CoopStatus::Active;
                let run = spec_run_changes(old(table)@, changes@.map_values(|c: ChangeRequest| c@));
                &&& !was_live ==> (r == TickOutcome::Abandoned && final(table)@ == old(table)@
                    && final(self)@ == old(self)@)
                &&& was_live ==> {
                    &&& final(table)@ == run.0
                    &&& final(self)@.scripts.len() == old(self)@.scripts.len()
                    &&& forall|j: int|
                        0 <= j < old(self)@.scripts.len() && j != index
                            ==> #[trigger] final(self)@.scripts[j] == old(self)@.scripts[j]
                    &&& final(self)@.scripts[index as int].name == old(
                        self,
                    )@.scripts[index as int].name
                    &&& final(self)@.scripts[index as int].status == (if !run.1 {
                        CoopStatus::Failed
                    } else if finished {
                        CoopStatus::Finished
                    } else {
                        CoopStatus::Active
                    })
                    &&& r == (if !run.1 {
                        TickOutcome::Failed
                    } else if finished {
                        TickOutcome::Completed
                    } else {
                        TickOutcome::Suspended
                    })
                    &&& final(self)@.running == spec_any_active(final(self)@.scripts)
                }
            }),
    {
        if !self.running {
            return TickOutcome::Abandoned;
        }
        let is_active = match self.scripts[index].status {
            CoopStatus::Active => true,
            _ => false,
        };
        if !is_active {
            return TickOutcome::Abandoned;
        }
        let outcome = match run_changes(table, changes) {
            Err(_) => {
                set_status(&mut self.scripts, index, CoopStatus::Failed);
                TickOutcome::Failed
            },
            Ok(()) => {
                if finished {
                    set_status(&mut self.scripts, index, CoopStatus::Finished);
                    TickOutcome::Completed
                } else {
                    proof {
                        assert(spec_any_active(self@.scripts));
                    }
                    TickOutcome::Suspended
                }
            },
        };
        self.refresh_running();
        outcome
    }

    /// Recomputes the running flag: it stays set exactly while some script
    /// is still active.
    fn refresh_running(&mut self)
        ensures
            final(self)@.scripts == old(self)@.scripts,
            final(self)@.running == spec_any_active(old(self)@.scripts),
    {
        let n = self.scripts.len();
        let mut i: usize = 0;
        let mut any: bool = false;
        while i < n
            invariant
                i <= n,
                n == self.scripts@.len(),
                self == old(self),
                any == spec_any_active(self@.scripts.take(i as int)),
            decreases n - i,
        {
            let is_active = match self.scripts[i].status {
                CoopStatus::Active => true,
                _ => false,
            };
            proof {
                let prefix = self@.scripts.take(i + 1);
                assert(prefix[i as int] == self@.scripts[i as int]);
                if is_active {
                    assert(spec_any_active(prefix));
                } else if spec_any_active(prefix) {
                    let w = choose|w: int|
                        0 <= w < prefix.len() && (#[trigger] prefix[w]).status
                            == CoopStatus::Active;
                    assert(self@.scripts.take(i as int)[w] == prefix[w]);
                }
            }
            if is_active {
                any = true;
            }
            i = i + 1;
        }
        proof {
            assert(self@.scripts.take(n as int) =~= self@.scripts);
        }
        self.running = any;
    }
}


/// A session that launched nothing is inert: any state that a stop request
/// can lawfully leave behind, per [`CoopManager::stop`]'s contract, is the
/// very state the session was in.
pub proof fn lemma_stop_noop_when_idle(before: CoopView, after: CoopView)
    requires
        !before.running,
        before.scripts.len() == 0,
        !after.running,
        after.scripts.len() == before.scripts.len(),
    ensures
        after == before,
{
    assert(after.scripts =~= before.scripts);
    assert(after =~= before);
}

/// Both execution strategies give one write the same meaning: a single
/// recorded change of a cooperative tick leaves the table exactly as the
/// same write through the preemptible bindings does, and the tick fails
/// exactly where the bindings report an unknown object.
pub proof fn lemma_strategies_agree(objs: Seq<ObjView>, change: ChangeView)
    ensures
        spec_run_changes(objs, seq![change]).0 == crate::sandbox::spec_write_result(
            objs,
            change.object,
            change.field,
            change.value,
            true,
        ),
        spec_run_changes(objs, seq![change]).1 == !(spec_coerce(change.field, change.value)
            is Some && spec_index_of(objs, change.object) is None),
{
    assert(seq![change].drop_first() =~= Seq::<ChangeView>::empty());
    assert(spec_run_changes(objs, Seq::<ChangeView>::empty()) == (objs, true));
    assert(spec_run_changes(
        spec_after_write(
            objs,
            change.object,
            change.field,
            (spec_coerce(change.field, change.value)->0).0,
            (spec_coerce(change.field, change.value)->0).1,
        ),
        Seq::<ChangeView>::empty(),
    ).1);
}

/// Overwrites one script's status.
fn set_status(scripts: &mut Vec<CoopScript>, i: usize, status: CoopStatus)
    requires
        i < old(scripts)@.len(),
    ensures
        final(scripts)@.len() == old(scripts)@.len(),
        forall|j: int|
            0 <= j < old(scripts)@.len() && j != i ==> #[trigger] final(scripts)@[j] == old(
                scripts,
            )@[j],
        final(scripts)@[i as int]@.name == old(scripts)@[i as int]@.name,
        final(scripts)@[i as int]@.source == old(scripts)@[i as int]@.source,
        final(scripts)@[i as int]@.status == status,
{
    let script = &mut scripts[i];
    script.status = status;
}

} // verus!
