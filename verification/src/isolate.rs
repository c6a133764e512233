//! Creating an isolate: how it is built, and which memory is given back once it
//! stands.
//!
//! An isolate that starts from a snapshot reads the snapshot once. After that
//! the pages that back it are dead, and so is the executable's relocation
//! table, which the loader has applied long before.

use crate::pages::MemoryRange;
use vstd::prelude::*;

verus! {

/// How many frames of an uncaught exception's stack trace are captured.
pub const STACK_TRACE_FRAME_LIMIT: i32 = 10;

/// The systems that make a difference.
#[derive(Clone, Copy, Debug, PartialEq, Eq, Structural)]
pub enum HostOs {
    Linux,
    OtherUnix,
    MacOs,
    Windows,
    Other,
}

impl HostOs {
    /// Dropped pages of a read-only file mapping are read from the file again.
    /// This holds on the Unix systems other than macOS.
    pub open spec fn drops_file_pages(self) -> bool {
        self == HostOs::Linux || self == HostOs::OtherUnix
    }
}

/// A snapshot to start from, and where its bytes lie in memory.
#[derive(Debug, PartialEq, Eq)]
pub struct StartupSnapshot<B> {
    pub blob: B,
    pub memory: MemoryRange,
}

/// What is remembered of the isolates that were created.
#[derive(Clone, Copy, Debug, PartialEq, Eq, Structural)]
pub struct SetupState {
    /// The first isolate from a snapshot has been built. This is kept where that
    /// one is built exclusively.
    pub snapshot_started: bool,
    /// The pages of the relocation table have been dropped.
    pub relocations_dropped: bool,
    /// The pages of the code have been probed.
    pub text_probed: bool,
}

/// How to build an isolate.
#[derive(Debug, PartialEq, Eq)]
pub enum Construction<P, B, E> {
    /// As the creator of a snapshot.
    SnapshotCreator {
        external_refs: E,
        startup_snapshot: Option<StartupSnapshot<B>>,
        params: P,
    },
    /// As an isolate to run code in. Where `exclusive`, it is built while no
    /// other exclusive one is.
    Isolate { external_refs: E, snapshot_blob: Option<B>, params: P, exclusive: bool },
}

/// How an isolate was built, as far as it matters once it stands.
#[derive(Clone, Copy, Debug, PartialEq, Eq, Structural)]
pub enum Built {
    SnapshotCreator,
    Isolate { snapshot_range: Option<MemoryRange>, exclusive: bool },
}

/// How to build an isolate, what to report once it stands, and what to set on it
/// then: the settings first, after them the callbacks in the given order.
pub struct IsolatePlan<P, B, E> {
    pub construction: Construction<P, B, E>,
    pub built: Built,
    pub settings: IsolateSettings,
    pub callbacks: Vec<Callback>,
}

/// Memory to give back once an isolate stands.
#[derive(Clone, Copy, Debug, PartialEq, Eq, Structural)]
pub enum Release {
    /// The pages inside the snapshot that the isolate started from.
    Snapshot(MemoryRange),
    /// The pages inside the executable's relocation table.
    RelocationTable,
    /// The pages inside the executable's code, if the environment asks for it.
    TextProbe,
}

/// When pending microtasks are run.
#[derive(Clone, Copy, Debug, PartialEq, Eq, Structural)]
pub enum MicrotasksPolicy {
    /// When the embedder says so.
    Explicit,
    /// When the outermost call returns.
    Auto,
}

/// The settings that every isolate gets.
#[derive(Clone, Copy, Debug, PartialEq, Eq, Structural)]
pub struct IsolateSettings {
    pub microtasks_policy: MicrotasksPolicy,
    pub capture_stack_trace: bool,
    pub stack_trace_frame_limit: i32,
}

/// The callbacks through which an isolate reaches its embedder.
#[derive(Clone, Copy, Debug, PartialEq, Eq, Structural)]
pub enum Callback {
    /// A promise was rejected, or a rejection was handled after all.
    PromiseReject,
    /// A stack trace is asked for.
    PrepareStackTrace,
    /// A module reads its import metadata.
    InitializeImportMeta,
    /// A module is imported at run time.
    ImportModule,
    /// A phase of a module is imported at run time.
    ImportModuleWithPhase,
    /// The promise of an asynchronous WebAssembly operation is to be settled.
    WasmAsyncResolvePromise,
}

/// The settings that every isolate gets: microtasks run only when the event
/// loop says so, and uncaught exceptions carry a stack trace of limited depth.
pub open spec fn common_settings() -> IsolateSettings {
    IsolateSettings {
        microtasks_policy: MicrotasksPolicy::Explicit,
        capture_stack_trace: true,
        stack_trace_frame_limit: STACK_TRACE_FRAME_LIMIT,
    }
}

/// The callbacks that every isolate gets, in the order in which they are set.
pub open spec fn common_callbacks() -> Seq<Callback> {
    seq![
        Callback::PromiseReject,
        Callback::PrepareStackTrace,
        Callback::InitializeImportMeta,
        Callback::ImportModule,
        Callback::ImportModuleWithPhase,
        Callback::WasmAsyncResolvePromise,
    ]
}

impl<P, B, E> Construction<P, B, E> {
    /// The parameters of the isolate.
    pub open spec fn params(self) -> P {
        match self {
            Construction::SnapshotCreator { params, .. } => params,
            Construction::Isolate { params, .. } => params,
        }
    }
}

/// The memory of a snapshot.
pub open spec fn snapshot_memory<B>(snapshot: Option<StartupSnapshot<B>>) -> Option<MemoryRange> {
    match snapshot {
        Some(s) => Some(s.memory),
        None => None,
    }
}

impl SetupState {
    /// The state of a new process.
    pub open spec fn fresh() -> SetupState {
        SetupState { snapshot_started: false, relocations_dropped: false, text_probed: false }
    }

    /// The state of a new process.
    pub fn new() -> (state: SetupState)
        ensures
            state == SetupState::fresh(),
    {
        SetupState { snapshot_started: false, relocations_dropped: false, text_probed: false }
    }

    /// The isolate is to be built exclusively. On Windows, reading a snapshot has
    /// been seen to crash, so the first isolate from one is built alone.
    pub open spec fn is_exclusive(self, os: HostOs, has_snapshot: bool) -> bool {
        os == HostOs::Windows && has_snapshot && !self.snapshot_started
    }

    /// How the isolate is built.
    pub open spec fn construction<P, B, E>(
        self,
        os: HostOs,
        will_snapshot: bool,
        params: P,
        snapshot: Option<StartupSnapshot<B>>,
        external_refs: E,
    ) -> Construction<P, B, E> {
        if will_snapshot {
            Construction::SnapshotCreator { external_refs, startup_snapshot: snapshot, params }
        } else {
            Construction::Isolate {
                external_refs,
                snapshot_blob: match snapshot {
                    Some(s) => Some(s.blob),
                    None => None,
                },
                params,
                exclusive: self.is_exclusive(os, snapshot is Some),
            }
        }
    }

    /// What is reported of an isolate that started from the snapshot in
    /// `memory`.
    pub open spec fn built(self, os: HostOs, will_snapshot: bool, memory: Option<MemoryRange>) -> Built {
        if will_snapshot {
            Built::SnapshotCreator
        } else {
            Built::Isolate {
                snapshot_range: memory,
                exclusive: self.is_exclusive(os, memory is Some),
            }
        }
    }

    /// The memory to give back for an isolate that was built, in this order.
    pub open spec fn releases(self, os: HostOs, built: Built) -> Seq<Release> {
        match built {
            Built::SnapshotCreator => seq![],
            Built::Isolate { snapshot_range, .. } => {
                let snapshot = match snapshot_range {
                    Some(range) if os.drops_file_pages() => seq![Release::Snapshot(range)],
                    _ => seq![],
                };
                let relocations = if os == HostOs::Linux && !self.relocations_dropped {
                    seq![Release::RelocationTable]
                } else {
                    seq![]
                };
                let text = if os == HostOs::Linux && !self.text_probed {
                    seq![Release::TextProbe]
                } else {
                    seq![]
                };
                snapshot + relocations + text
            },
        }
    }

    /// The state after an isolate was built.
    pub open spec fn after(self, os: HostOs, built: Built) -> SetupState {
        match built {
            Built::SnapshotCreator => self,
            Built::Isolate { exclusive, .. } => SetupState {
                snapshot_started: self.snapshot_started || exclusive,
                relocations_dropped: self.relocations_dropped || os == HostOs::Linux,
                text_probed: self.text_probed || os == HostOs::Linux,
            },
        }
    }

    /// The state after isolates were created one after the other, each of them
    /// as a snapshot creator or not and from the snapshot in that memory.
    pub open spec fn after_all(
        self,
        os: HostOs,
        isolates: Seq<(bool, Option<MemoryRange>)>,
    ) -> SetupState
        decreases isolates.len(),
    {
        if isolates.len() == 0 {
            self
        } else {
            let before = self.after_all(os, isolates.drop_last());
            before.after(os, before.built(os, isolates.last().0, isolates.last().1))
        }
    }
}

/// The settings that every isolate gets.
pub fn isolate_settings() -> (settings: IsolateSettings)
    ensures
        settings == common_settings(),
{
    IsolateSettings {
        microtasks_policy: MicrotasksPolicy::Explicit,
        capture_stack_trace: true,
        stack_trace_frame_limit: STACK_TRACE_FRAME_LIMIT,
    }
}

/// The callbacks that every isolate gets, in the order in which they are set.
pub fn isolate_callbacks() -> (callbacks: Vec<Callback>)
    ensures
        callbacks@ == common_callbacks(),
{
    let mut callbacks: Vec<Callback> = Vec::new();
    callbacks.push(Callback::PromiseReject);
    callbacks.push(Callback::PrepareStackTrace);
    callbacks.push(Callback::InitializeImportMeta);
    callbacks.push(Callback::ImportModule);
    callbacks.push(Callback::ImportModuleWithPhase);
    callbacks.push(Callback::WasmAsyncResolvePromise);
    callbacks
}

/// Says how to build an isolate: as the creator of a snapshot or as one to run
/// code in, in either case from the startup snapshot, if there is one, with the
/// given parameters or else the default ones, and with the external references.
///
/// Once the isolate stands, the plan's report goes to [`isolate_created`], and
/// the isolate gets the plan's settings and callbacks. These are the same for
/// every isolate, however it is built.
pub fn create_isolate<P: Default, B, E>(
    state: &SetupState,
    os: HostOs,
    will_snapshot: bool,
    maybe_create_params: Option<P>,
    maybe_startup_snapshot: Option<StartupSnapshot<B>>,
    external_refs: E,
) -> (plan: IsolatePlan<P, B, E>)
    ensures
        maybe_create_params matches Some(params) ==> plan.construction.params() == params,
        maybe_create_params is None ==> call_ensures(P::default, (), plan.construction.params()),
        plan.construction == state.construction(
            os,
            will_snapshot,
            plan.construction.params(),
            maybe_startup_snapshot,
            external_refs,
        ),
        plan.built == state.built(os, will_snapshot, snapshot_memory(maybe_startup_snapshot)),
        plan.settings == (IsolateSettings {
            microtasks_policy: MicrotasksPolicy::Explicit,
            capture_stack_trace: true,
            stack_trace_frame_limit: STACK_TRACE_FRAME_LIMIT,
        }),
        plan.callbacks@ == common_callbacks(),
{
    let params: P = maybe_create_params.unwrap_or_default();
    if will_snapshot {
        return IsolatePlan {
            construction: Construction::SnapshotCreator {
                external_refs,
                startup_snapshot: maybe_startup_snapshot,
                params,
            },
            built: Built::SnapshotCreator,
            settings: isolate_settings(),
            callbacks: isolate_callbacks(),
        };
    }
    let has_snapshot: bool = maybe_startup_snapshot.is_some();
    let exclusive: bool = os == HostOs::Windows && has_snapshot && !state.snapshot_started;
    let (snapshot_blob, snapshot_range): (Option<B>, Option<MemoryRange>) =
        match maybe_startup_snapshot {
        Some(snapshot) => (Some(snapshot.blob), Some(snapshot.memory)),
        None => (None, None),
    };
    IsolatePlan {
        construction: Construction::Isolate { external_refs, snapshot_blob, params, exclusive },
        built: Built::Isolate { snapshot_range, exclusive },
        settings: isolate_settings(),
        callbacks: isolate_callbacks(),
    }
}

/// Takes the report of an isolate that was built, and says which memory to give
/// back: the pages of its snapshot each time, those of the relocation table and
/// of the code once per process. On systems where dropped pages do not come
/// back from the file there is nothing to give back, and neither is there for
/// the creator of a snapshot.
pub fn isolate_created(state: &mut SetupState, os: HostOs, built: &Built) -> (releases: Vec<
    Release,
>)
    ensures
        releases@ == old(state).releases(os, *built),
        *final(state) == old(state).after(os, *built),
{
    let mut releases: Vec<Release> = Vec::new();
    match *built {
        Built::SnapshotCreator => {},
        Built::Isolate { snapshot_range, exclusive } => {
            if exclusive {
                state.snapshot_started = true;
            }
            if os == HostOs::Linux || os == HostOs::OtherUnix {
                if let Some(range) = snapshot_range {
                    releases.push(Release::Snapshot(range));
                }
            }
            if os == HostOs::Linux {
                if !state.relocations_dropped {
                    state.relocations_dropped = true;
                    releases.push(Release::RelocationTable);
                }
                if !state.text_probed {
                    state.text_probed = true;
                    releases.push(Release::TextProbe);
                }
            }
        },
    }
    releases
}

/// An isolate gets every callback that there is, and each of them once.
pub proof fn law_every_callback_is_set_once(callback: Callback)
    ensures
        common_callbacks().contains(callback),
        common_callbacks().no_duplicates(),
{
    let callbacks = common_callbacks();
    let i: int = match callback {
        Callback::PromiseReject => 0,
        Callback::PrepareStackTrace => 1,
        Callback::InitializeImportMeta => 2,
        Callback::ImportModule => 3,
        Callback::ImportModuleWithPhase => 4,
        Callback::WasmAsyncResolvePromise => 5,
    };
    assert(callbacks[i] == callback);
}

/// Microtasks run when the event loop says so, and a stack trace of ten frames is
/// captured.
pub proof fn law_settings_of_every_isolate()
    ensures
        common_settings().microtasks_policy is Explicit,
        common_settings().capture_stack_trace,
        common_settings().stack_trace_frame_limit == 10,
        common_callbacks().len() == 6,
{
}

/// A snapshot creator is made if and only if one is asked for, on every system,
/// with or without a startup snapshot and whatever came before. It carries what
/// was given, the startup snapshot whole.
pub proof fn law_snapshot_creator_is_made_when_asked_for<P, B, E>(
    state: SetupState,
    os: HostOs,
    will_snapshot: bool,
    params: P,
    snapshot: Option<StartupSnapshot<B>>,
    external_refs: E,
)
    ensures
        match state.construction(os, will_snapshot, params, snapshot, external_refs) {
            Construction::SnapshotCreator {
                external_refs: refs,
                startup_snapshot,
                params: given,
            } => will_snapshot && refs == external_refs && startup_snapshot == snapshot && given
                == params,
            Construction::Isolate { external_refs: refs, snapshot_blob, params: given, exclusive } => {
                &&& !will_snapshot
                &&& refs == external_refs
                &&& given == params
                &&& snapshot_blob is Some <==> snapshot is Some
                &&& snapshot matches Some(s) ==> snapshot_blob == Some(s.blob)
                &&& exclusive <==> os is Windows && snapshot is Some && !state.snapshot_started
            },
        },
        state.construction(os, will_snapshot, params, snapshot, external_refs).params() == params,
{
}

/// The report says what was built: a snapshot creator if and only if one was
/// asked for, and otherwise the memory of the startup snapshot, if there is one,
/// and the same about exclusiveness as the construction.
pub proof fn law_report_agrees_with_the_construction<P, B, E>(
    state: SetupState,
    os: HostOs,
    will_snapshot: bool,
    params: P,
    snapshot: Option<StartupSnapshot<B>>,
    external_refs: E,
)
    ensures
        match state.built(os, will_snapshot, snapshot_memory(snapshot)) {
            Built::SnapshotCreator => will_snapshot,
            Built::Isolate { snapshot_range, exclusive } => {
                &&& !will_snapshot
                &&& snapshot_range is Some <==> snapshot is Some
                &&& snapshot matches Some(s) ==> snapshot_range == Some(s.memory)
                &&& exclusive <==> os is Windows && snapshot is Some && !state.snapshot_started
                &&& state.construction(
                    os,
                    will_snapshot,
                    params,
                    snapshot,
                    external_refs,
                ) matches Construction::Isolate { exclusive: planned, .. } && planned == exclusive
            },
        },
{
}

/// On Linux and on the other Unix systems than macOS the memory of the isolate's
/// snapshot is given back each time, whatever memory that is. On no other system
/// is it.
pub proof fn law_snapshot_memory_is_given_back(
    state: SetupState,
    os: HostOs,
    range: MemoryRange,
    exclusive: bool,
)
    ensures
        state.releases(
            os,
            (Built::Isolate { snapshot_range: Some(range), exclusive }),
        ).contains(Release::Snapshot(range)) <==> os is Linux || os is OtherUnix,
{
    let releases = state.releases(
        os,
        Built::Isolate { snapshot_range: Some(range), exclusive },
    );
    if os is Linux || os is OtherUnix {
        assert(releases[0] == Release::Snapshot(range));
    }
}

/// For an isolate to run code in, the relocation table and the code are given
/// back on Linux if and only if that was not done before, and on no other system.
/// Nothing is given back twice; the snapshot comes first and the code last.
pub proof fn law_what_is_given_back(
    state: SetupState,
    os: HostOs,
    snapshot_range: Option<MemoryRange>,
    exclusive: bool,
)
    ensures
        ({
            let releases = state.releases(os, Built::Isolate { snapshot_range, exclusive });
            &&& releases.contains(Release::RelocationTable) <==> os is Linux
                && !state.relocations_dropped
            &&& releases.contains(Release::TextProbe) <==> os is Linux && !state.text_probed
            &&& releases.no_duplicates()
            &&& forall|i: int| #![trigger releases[i]]
                0 <= i < releases.len() && releases[i] is Snapshot ==> i == 0
            &&& forall|i: int| #![trigger releases[i]]
                0 <= i < releases.len() && releases[i] is TextProbe ==> i == releases.len() - 1
            &&& forall|i: int| #![trigger releases[i]]
                0 <= i < releases.len() && releases[i] is Snapshot ==> snapshot_range == Some(
                    releases[i]->0,
                )
        }),
{
    let releases = state.releases(os, Built::Isolate { snapshot_range, exclusive });
    let first: int = if snapshot_range is Some {
        1
    } else {
        0
    };
    if os is Linux && !state.relocations_dropped {
        assert(releases[first] == Release::RelocationTable);
    }
    if os is Linux && !state.text_probed {
        assert(releases.last() == Release::TextProbe);
    }
}

/// For the creator of a snapshot nothing is given back, and nothing is recorded.
pub proof fn law_snapshot_creator_gives_nothing_back(state: SetupState, os: HostOs)
    ensures
        state.releases(os, Built::SnapshotCreator).len() == 0,
        state.after(os, Built::SnapshotCreator) == state,
{
}

/// What an isolate to run code in leaves on record: an exclusive start, and on
/// Linux that the relocation table and the code were given back.
pub proof fn law_what_is_recorded(
    state: SetupState,
    os: HostOs,
    snapshot_range: Option<MemoryRange>,
    exclusive: bool,
)
    ensures
        ({
            let next = state.after(os, Built::Isolate { snapshot_range, exclusive });
            &&& next.snapshot_started <==> state.snapshot_started || exclusive
            &&& next.relocations_dropped <==> state.relocations_dropped || os is Linux
            &&& next.text_probed <==> state.text_probed || os is Linux
        }),
{
}

/// In a new process nothing is on record.
pub proof fn law_new_process_has_no_record()
    ensures
        !SetupState::fresh().snapshot_started,
        !SetupState::fresh().relocations_dropped,
        !SetupState::fresh().text_probed,
{
}

/// A history of isolates is read one isolate after the other.
pub proof fn law_isolates_come_one_by_one(
    state: SetupState,
    os: HostOs,
    isolates: Seq<(bool, Option<MemoryRange>)>,
    will_snapshot: bool,
    memory: Option<MemoryRange>,
)
    ensures
        state.after_all(os, Seq::empty()) == state,
        ({
            let before = state.after_all(os, isolates);
            state.after_all(os, isolates.push((will_snapshot, memory))) == before.after(
                os,
                before.built(os, will_snapshot, memory),
            )
        }),
{
    assert(isolates.push((will_snapshot, memory)).drop_last() =~= isolates);
}

/// What has been done once per process stays done.
pub proof fn law_done_stays_done(
    state: SetupState,
    os: HostOs,
    isolates: Seq<(bool, Option<MemoryRange>)>,
)
    ensures
        state.relocations_dropped ==> state.after_all(os, isolates).relocations_dropped,
        state.text_probed ==> state.after_all(os, isolates).text_probed,
        state.snapshot_started ==> state.after_all(os, isolates).snapshot_started,
    decreases isolates.len(),
{
    if isolates.len() > 0 {
        law_done_stays_done(state, os, isolates.drop_last());
    }
}

/// The pages of the relocation table, and those of the code, are given back at
/// most once per process: after an isolate for which they were, they are not
/// given back again for any later one, whatever isolates come in between.
pub proof fn law_dropped_once_per_process(
    state: SetupState,
    os: HostOs,
    built: Built,
    between: Seq<(bool, Option<MemoryRange>)>,
    later: Built,
)
    ensures
        state.releases(os, built).contains(Release::RelocationTable) ==> !state.after(
            os,
            built,
        ).after_all(os, between).releases(os, later).contains(Release::RelocationTable),
        state.releases(os, built).contains(Release::TextProbe) ==> !state.after(
            os,
            built,
        ).after_all(os, between).releases(os, later).contains(Release::TextProbe),
{
    law_done_stays_done(state.after(os, built), os, between);
}

/// The first isolate to run code in gives back the relocation table on Linux.
pub proof fn law_first_isolate_drops_relocations(
    state: SetupState,
    snapshot_range: Option<MemoryRange>,
    exclusive: bool,
)
    requires
        !state.relocations_dropped,
    ensures
        state.releases(
            HostOs::Linux,
            (Built::Isolate { snapshot_range, exclusive }),
        ).contains(Release::RelocationTable),
{
    let built = Built::Isolate { snapshot_range, exclusive };
    let releases = state.releases(HostOs::Linux, built);
    let i: int = if snapshot_range is Some {
        1
    } else {
        0
    };
    assert(releases[i] == Release::RelocationTable);
}

/// Of a snapshot's memory, only that of the isolate's own snapshot is given
/// back.
pub proof fn law_only_the_own_snapshot_is_released(
    state: SetupState,
    os: HostOs,
    built: Built,
    memory: MemoryRange,
)
    requires
        state.releases(os, built).contains(Release::Snapshot(memory)),
    ensures
        built matches Built::Isolate { snapshot_range, .. } && snapshot_range == Some(memory),
{
}

/// The first isolate to run code in has the code probed on Linux.
pub proof fn law_first_isolate_probes_text(
    state: SetupState,
    snapshot_range: Option<MemoryRange>,
    exclusive: bool,
)
    requires
        !state.text_probed,
    ensures
        state.releases(
            HostOs::Linux,
            (Built::Isolate { snapshot_range, exclusive }),
        ).contains(Release::TextProbe),
{
    let built = Built::Isolate { snapshot_range, exclusive };
    let releases = state.releases(HostOs::Linux, built);
    assert(releases.last() == Release::TextProbe);
}

/// Where dropped pages do not come back from the file, nothing is given back.
pub proof fn law_nothing_is_dropped_elsewhere(state: SetupState, os: HostOs, built: Built)
    requires
        !os.drops_file_pages(),
    ensures
        state.releases(os, built) == Seq::<Release>::empty(),
{
}

/// On Windows the first isolate from a snapshot is built exclusively, whatever
/// snapshot creators and isolates without a snapshot came before it.
pub proof fn law_first_snapshot_is_built_exclusively(isolates: Seq<(bool, Option<MemoryRange>)>)
    requires
        forall|i: int| #![trigger isolates[i]]
            0 <= i < isolates.len() ==> isolates[i].0 || isolates[i].1 is None,
    ensures
        SetupState::fresh().after_all(HostOs::Windows, isolates).is_exclusive(
            HostOs::Windows,
            true,
        ),
    decreases isolates.len(),
{
    if isolates.len() > 0 {
        let earlier = isolates.drop_last();
        assert forall|i: int| #![trigger earlier[i]] 0 <= i < earlier.len() implies earlier[i].0
            || earlier[i].1 is None by {
            assert(earlier[i] == isolates[i]);
        }
        assert(isolates.last() == isolates[isolates.len() - 1]);
        law_first_snapshot_is_built_exclusively(earlier);
    }
}

/// Once an isolate from a snapshot has been built on Windows, no later one is
/// built exclusively.
pub proof fn law_only_the_first_snapshot_is_exclusive(
    state: SetupState,
    memory: MemoryRange,
    later: Seq<(bool, Option<MemoryRange>)>,
    has_snapshot: bool,
)
    ensures
        !state.after(
            HostOs::Windows,
            state.built(HostOs::Windows, false, Some(memory)),
        ).after_all(HostOs::Windows, later).is_exclusive(HostOs::Windows, has_snapshot),
{
    law_done_stays_done(
        state.after(HostOs::Windows, state.built(HostOs::Windows, false, Some(memory))),
        HostOs::Windows,
        later,
    );
}

/// On the other systems no isolate is built exclusively.
pub proof fn law_nothing_is_exclusive_elsewhere(state: SetupState, os: HostOs, has_snapshot: bool)
    requires
        os != HostOs::Windows,
    ensures
        !state.is_exclusive(os, has_snapshot),
{
}

/// What a call of [`create_isolate`] gives. The isolate is the creator of a
/// snapshot if and only if that was asked for, in the construction and in the
/// report alike. It gets the given parameters, or else the default ones, the
/// external references and the startup snapshot; the report names the memory of
/// the snapshot. Settings and callbacks are the same for every isolate.
pub proof fn law_plan_follows_the_request<P: Default, B, E>(
    state: SetupState,
    os: HostOs,
    will_snapshot: bool,
    params: Option<P>,
    snapshot: Option<StartupSnapshot<B>>,
    external_refs: E,
    plan: IsolatePlan<P, B, E>,
)
    requires
        call_ensures(
            create_isolate::<P, B, E>,
            (&state, os, will_snapshot, params, snapshot, external_refs),
            plan,
        ),
    ensures
        match plan.construction {
            Construction::SnapshotCreator {
                external_refs: refs,
                startup_snapshot,
                params: used,
            } => {
                &&& will_snapshot
                &&& plan.built is SnapshotCreator
                &&& refs == external_refs
                &&& startup_snapshot == snapshot
                &&& params matches Some(given) ==> used == given
                &&& params is None ==> call_ensures(P::default, (), used)
            },
            Construction::Isolate { external_refs: refs, snapshot_blob, params: used, exclusive } => {
                &&& !will_snapshot
                &&& refs == external_refs
                &&& params matches Some(given) ==> used == given
                &&& params is None ==> call_ensures(P::default, (), used)
                &&& exclusive <==> os is Windows && snapshot is Some && !state.snapshot_started
                &&& plan.built matches Built::Isolate { snapshot_range, exclusive: reported }
                &&& reported == exclusive
                &&& match snapshot {
                    Some(s) => snapshot_blob == Some(s.blob) && snapshot_range == Some(s.memory),
                    None => snapshot_blob is None && snapshot_range is None,
                }
            },
        },
        plan.settings.microtasks_policy is Explicit,
        plan.settings.capture_stack_trace,
        plan.settings.stack_trace_frame_limit == 10,
        plan.callbacks@ == seq![
            Callback::PromiseReject,
            Callback::PrepareStackTrace,
            Callback::InitializeImportMeta,
            Callback::ImportModule,
            Callback::ImportModuleWithPhase,
            Callback::WasmAsyncResolvePromise,
        ],
{
}

/// What a call of [`isolate_created`] gives back: the memory of the isolate's
/// snapshot, whatever memory that is, on Linux and the other Unix systems than
/// macOS, then the relocation table and then the code, both on Linux and where
/// it was not done before. There is nothing for the creator of a snapshot.
pub proof fn law_created_isolate_gives_back(
    state: &mut SetupState,
    os: HostOs,
    built: Built,
    memory: MemoryRange,
    releases: Vec<Release>,
)
    requires
        call_ensures(isolate_created, (state, os, &built), releases),
    ensures
        releases@.contains(Release::Snapshot(memory)) <==> (os is Linux || os is OtherUnix) && (
        built matches Built::Isolate { snapshot_range, .. } && snapshot_range == Some(memory)),
        releases@.contains(Release::RelocationTable) <==> os is Linux && built is Isolate && !old(
            state,
        ).relocations_dropped,
        releases@.contains(Release::TextProbe) <==> os is Linux && built is Isolate && !old(
            state,
        ).text_probed,
        releases@.no_duplicates(),
        forall|i: int, j: int| #![trigger releases@[i], releases@[j]]
            0 <= i < j < releases@.len() ==> releases@[j] !is Snapshot && releases@[i] !is TextProbe,
{
    match built {
        Built::SnapshotCreator => {
            law_snapshot_creator_gives_nothing_back(*state, os);
        },
        Built::Isolate { snapshot_range, exclusive } => {
            law_snapshot_memory_is_given_back(*state, os, memory, exclusive);
            law_what_is_given_back(*state, os, snapshot_range, exclusive);
        },
    }
}

/// What a call of [`isolate_created`] leaves on record. Nothing that is on record
/// is ever taken back.
pub proof fn law_created_isolate_is_recorded(
    state: &mut SetupState,
    os: HostOs,
    built: Built,
    releases: Vec<Release>,
)
    requires
        call_ensures(isolate_created, (state, os, &built), releases),
    ensures
        final(state).snapshot_started <==> old(state).snapshot_started || (
        built matches Built::Isolate { exclusive, .. } && exclusive),
        final(state).relocations_dropped <==> old(state).relocations_dropped || (os is Linux
            && built is Isolate),
        final(state).text_probed <==> old(state).text_probed || (os is Linux && built is Isolate),
{
}

/// A call of [`SetupState::new`] gives a state with nothing on record.
pub proof fn law_new_state_has_no_record(state: SetupState)
    requires
        call_ensures(SetupState::new, (), state),
    ensures
        !state.snapshot_started,
        !state.relocations_dropped,
        !state.text_probed,
{
}

/// Calls of [`isolate_settings`] and [`isolate_callbacks`] give what every isolate
/// gets.
pub proof fn law_settings_and_callbacks_are_fixed(
    settings: IsolateSettings,
    callbacks: Vec<Callback>,
    callback: Callback,
)
    requires
        call_ensures(isolate_settings, (), settings),
        call_ensures(isolate_callbacks, (), callbacks),
    ensures
        settings.microtasks_policy is Explicit,
        settings.capture_stack_trace,
        settings.stack_trace_frame_limit == 10,
        callbacks@.len() == 6,
        callbacks@.contains(callback),
{
    law_every_callback_is_set_once(callback);
}

} // verus!
