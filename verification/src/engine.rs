//! Starting the engine: once per process, with flags that depend on what the
//! process is for.

use vstd::prelude::*;
use vstd::string::StringExecFns;

verus! {

/// The most threads that the platform's pool gets. Taking all cores would waste
/// memory: background tasks are rare.
pub const MAX_POOL_THREADS: u32 = 4;

/// The flags that are always set.
pub open spec fn base_flags() -> Seq<char> {
    " --wasm-test-streaming --no-validate-asm --turbo_fast_api_calls --harmony-temporal --js-float16array --js-explicit-resource-management --js-source-phase-imports --js-defer-import-eval"@
}

/// The flags that make a snapshot reproducible.
pub open spec fn snapshot_flags() -> Seq<char> {
    "--predictable --random-seed=42"@
}

/// The flags that expose the collector and the natives syntax.
pub open spec fn expose_natives_flags() -> Seq<char> {
    "--expose_gc --allow_natives_syntax"@
}

/// The flags of a snapshot whose functions are all parsed up front; none where
/// they are parsed when needed.
pub open spec fn lazy_flags(eager_parse: bool) -> Seq<char> {
    if eager_parse {
        "--no-lazy --no-lazy-eval --no-lazy-streaming"@
    } else {
        ""@
    }
}

/// The engine's flags as one string, the groups separated by a space.
pub open spec fn engine_flags(
    snapshot: bool,
    expose_natives: bool,
    eager_parse: bool,
) -> Seq<char> {
    match (snapshot, expose_natives) {
        (false, false) => base_flags(),
        (true, false) => base_flags() + " "@ + snapshot_flags() + " "@ + lazy_flags(eager_parse),
        (false, true) => base_flags() + " "@ + expose_natives_flags(),
        (true, true) => base_flags() + " "@ + snapshot_flags() + " "@ + lazy_flags(eager_parse)
            + " "@ + expose_natives_flags(),
    }
}

/// The engine's flags for a process that makes a snapshot or not, that exposes
/// natives or not, and whose snapshots are parsed eagerly or not.
pub fn v8_flags(snapshot: bool, expose_natives: bool, eager_parse: bool) -> (flags: String)
    ensures
        flags@ == engine_flags(snapshot, expose_natives, eager_parse),
{
    let mut flags: String = String::from_str(
        " --wasm-test-streaming --no-validate-asm --turbo_fast_api_calls --harmony-temporal --js-float16array --js-explicit-resource-management --js-source-phase-imports --js-defer-import-eval",
    );
    if snapshot {
        flags.append(" ");
        flags.append("--predictable --random-seed=42");
        flags.append(" ");
        let lazy: &str = if eager_parse {
            "--no-lazy --no-lazy-eval --no-lazy-streaming"
        } else {
            ""
        };
        flags.append(lazy);
    }
    if expose_natives {
        flags.append(" ");
        flags.append("--expose_gc --allow_natives_syntax");
    }
    flags
}

/// The number of threads of the platform's pool, given how many threads the
/// machine runs at once, where that is known.
pub open spec fn pool_size(parallelism: Option<usize>) -> u32 {
    match parallelism {
        Some(threads) => if threads < MAX_POOL_THREADS {
            threads as u32
        } else {
            MAX_POOL_THREADS
        },
        None => MAX_POOL_THREADS,
    }
}

/// The number of threads of the platform's pool. It has as many as the machine
/// runs at once, where that is known, and never more than the cap.
pub fn thread_pool_size(parallelism: Option<usize>) -> (size: u32)
    ensures
        size == pool_size(parallelism),
{
    match parallelism {
        Some(threads) => if threads < MAX_POOL_THREADS as usize {
            threads as u32
        } else {
            MAX_POOL_THREADS
        },
        None => MAX_POOL_THREADS,
    }
}

/// What is remembered of the engine's start.
#[derive(Clone, Copy, Debug, PartialEq, Eq, Structural)]
pub struct EngineState {
    /// The engine has been started.
    pub started: bool,
    /// The mode below is the one that the process is bound to.
    pub mode_is_set: bool,
    /// The process makes snapshots.
    pub snapshot_mode: bool,
}

/// How the process and the machine bear on the engine's start.
#[derive(Clone, Copy, Debug, PartialEq, Eq, Structural)]
pub struct EngineOptions {
    /// How many threads the machine runs at once, where that is known.
    pub parallelism: Option<usize>,
    /// All functions of a snapshot are parsed up front.
    pub eager_parse: bool,
    /// The platform does without memory protection keys.
    pub unprotected: bool,
}

/// The platform that the engine runs on.
#[derive(Debug, PartialEq, Eq)]
pub enum PlatformSource<P> {
    /// The one that the caller brought.
    Provided(P),
    /// A new one, which posts tasks to the registry.
    Custom { thread_pool_size: u32, idle_task_support: bool, unprotected: bool },
}

/// What has to be done to start the engine: set the flags, then start it on the
/// platform.
#[derive(Debug)]
pub struct EngineSetup<P> {
    pub flags: String,
    pub platform: PlatformSource<P>,
}

/// A process that is bound to one of snapshotting and non-snapshotting mode was
/// asked for the other. Only one of them may be used in a single process.
#[derive(Clone, Copy, Debug, PartialEq, Eq, Structural)]
pub struct ModeConflict {
    /// The mode that the process is bound to.
    pub current: bool,
    /// The mode that was asked for.
    pub requested: bool,
}

impl EngineState {
    /// The state of a new process.
    pub open spec fn fresh() -> EngineState {
        EngineState { started: false, mode_is_set: false, snapshot_mode: false }
    }

    /// The state of a new process.
    pub fn new() -> (state: EngineState)
        ensures
            state == EngineState::fresh(),
    {
        EngineState { started: false, mode_is_set: false, snapshot_mode: false }
    }

    /// The process is bound to the other mode.
    pub open spec fn conflicts(self, snapshot: bool) -> bool {
        self.mode_is_set && self.snapshot_mode != snapshot
    }

    /// The state after a request for the given mode: a request that is not
    /// refused starts the engine and binds the process to the mode.
    pub open spec fn after(self, snapshot: bool) -> EngineState {
        if self.conflicts(snapshot) {
            self
        } else {
            EngineState { started: true, mode_is_set: true, snapshot_mode: snapshot }
        }
    }

    /// The state after requests for these modes, one after the other.
    pub open spec fn after_all(self, requests: Seq<bool>) -> EngineState
        decreases requests.len(),
    {
        if requests.len() == 0 {
            self
        } else {
            self.after_all(requests.drop_last()).after(requests.last())
        }
    }
}

/// The platform that the engine is to run on.
pub open spec fn chosen_platform<P>(
    platform: Option<P>,
    options: EngineOptions,
) -> PlatformSource<P> {
    match platform {
        Some(provided) => PlatformSource::Provided(provided),
        None => PlatformSource::Custom {
            thread_pool_size: pool_size(options.parallelism),
            idle_task_support: false,
            unprotected: options.unprotected,
        },
    }
}

/// What has to be done to start the engine.
pub fn v8_init<P>(
    v8_platform: Option<P>,
    snapshot: bool,
    expose_natives: bool,
    options: &EngineOptions,
) -> (setup: EngineSetup<P>)
    ensures
        setup.flags@ == engine_flags(snapshot, expose_natives, options.eager_parse),
        setup.platform == chosen_platform(v8_platform, *options),
{
    let flags: String = v8_flags(snapshot, expose_natives, options.eager_parse);
    let platform: PlatformSource<P> = match v8_platform {
        Some(provided) => PlatformSource::Provided(provided),
        None => PlatformSource::Custom {
            thread_pool_size: thread_pool_size(options.parallelism),
            idle_task_support: false,
            unprotected: options.unprotected,
        },
    };
    EngineSetup { flags, platform }
}

/// Asks for the engine to be started. The first request says what there is to
/// do; for a later one in the same mode there is nothing left to do.
///
/// The first request also binds the process to the mode that it asks for. From
/// then on a request for the other mode is refused and changes nothing.
pub fn init_v8<P>(
    state: &mut EngineState,
    v8_platform: Option<P>,
    snapshot: bool,
    expose_natives: bool,
    options: &EngineOptions,
) -> (result: Result<Option<EngineSetup<P>>, ModeConflict>)
    ensures
        *final(state) == old(state).after(snapshot),
        match result {
            Err(conflict) => old(state).conflicts(snapshot) && conflict == (ModeConflict {
                current: old(state).snapshot_mode,
                requested: snapshot,
            }),
            Ok(None) => !old(state).conflicts(snapshot) && old(state).started,
            Ok(Some(setup)) => {
                &&& !old(state).conflicts(snapshot)
                &&& !old(state).started
                &&& setup.flags@ == engine_flags(snapshot, expose_natives, options.eager_parse)
                &&& setup.platform == chosen_platform(v8_platform, *options)
            },
        },
{
    if state.mode_is_set && state.snapshot_mode != snapshot {
        return Err(ModeConflict { current: state.snapshot_mode, requested: snapshot });
    }
    state.mode_is_set = true;
    state.snapshot_mode = snapshot;
    if state.started {
        return Ok(None);
    }
    state.started = true;
    Ok(Some(v8_init(v8_platform, snapshot, expose_natives, options)))
}

/// The flags that are always set come first, whatever else is asked for.
pub proof fn law_base_flags_come_first(snapshot: bool, expose_natives: bool, eager_parse: bool)
    ensures
        base_flags().is_prefix_of(engine_flags(snapshot, expose_natives, eager_parse)),
{
    assert(base_flags() =~= engine_flags(snapshot, expose_natives, eager_parse).subrange(
        0,
        base_flags().len() as int,
    ));
}

/// To expose natives adds flags at the end and changes no other.
pub proof fn law_expose_natives_only_adds(snapshot: bool, eager_parse: bool)
    ensures
        engine_flags(snapshot, true, eager_parse) == engine_flags(snapshot, false, eager_parse)
            + " "@ + expose_natives_flags(),
{
}

/// Without a snapshot and without natives the flags are these and no others.
pub proof fn law_plain_flags(eager_parse: bool)
    ensures
        engine_flags(false, false, eager_parse)
            == " --wasm-test-streaming --no-validate-asm --turbo_fast_api_calls --harmony-temporal --js-float16array --js-explicit-resource-management --js-source-phase-imports --js-defer-import-eval"@,
{
}

/// A snapshot adds the flags that make it reproducible, and behind them those for
/// parsing everything up front, where that is wanted. What else was asked for
/// stays as it is.
pub proof fn law_snapshot_only_adds(eager_parse: bool)
    ensures
        engine_flags(true, false, eager_parse) == engine_flags(false, false, eager_parse) + " "@
            + "--predictable --random-seed=42"@ + " "@ + if eager_parse {
            "--no-lazy --no-lazy-eval --no-lazy-streaming"@
        } else {
            ""@
        },
{
}

/// The flags that natives add are the same ones in every case.
pub proof fn law_natives_add_these_flags(snapshot: bool, eager_parse: bool)
    ensures
        engine_flags(snapshot, true, eager_parse) == engine_flags(snapshot, false, eager_parse)
            + " "@ + "--expose_gc --allow_natives_syntax"@,
{
}

/// Whether snapshots are parsed eagerly does not matter where none is made.
pub proof fn law_eager_parse_is_for_snapshots(expose_natives: bool)
    ensures
        engine_flags(false, expose_natives, true) == engine_flags(false, expose_natives, false),
{
}

/// The pool has at least one thread and at most as many as the cap and the
/// machine allow.
pub proof fn law_pool_size_is_capped(parallelism: Option<usize>)
    requires
        parallelism matches Some(threads) ==> 0 < threads,
    ensures
        0 < pool_size(parallelism) <= MAX_POOL_THREADS,
        parallelism matches Some(threads) ==> pool_size(parallelism) <= threads,
{
}

/// The pool has four threads, or as many as the machine runs at once where that
/// is known and less.
pub proof fn law_pool_size_is_the_smaller_one(threads: usize)
    ensures
        pool_size(None) == 4,
        pool_size(Some(threads)) <= 4,
        pool_size(Some(threads)) <= threads,
        pool_size(Some(threads)) == 4 || pool_size(Some(threads)) == threads,
{
}

/// A machine that runs more threads at once never gets a smaller pool.
pub proof fn law_pool_size_grows_with_the_machine(fewer: usize, more: usize)
    requires
        fewer <= more,
    ensures
        pool_size(Some(fewer)) <= pool_size(Some(more)),
{
}

/// The engine runs on the platform that the caller brought, whatever the options
/// are.
pub proof fn law_provided_platform_is_used<P>(platform: P, options: EngineOptions)
    ensures
        chosen_platform(Some(platform), options) == PlatformSource::Provided(platform),
{
}

/// Where the caller brought none, the engine runs on a new platform. It does
/// without memory protection keys if and only if the options say so, it never
/// supports idle tasks, and its pool has four threads at most and no more than
/// the machine runs at once.
pub proof fn law_custom_platform_follows_the_options<P>(options: EngineOptions)
    ensures
        chosen_platform::<P>(None, options) matches PlatformSource::Custom {
            thread_pool_size,
            idle_task_support,
            unprotected,
        } && (unprotected <==> options.unprotected) && !idle_task_support && thread_pool_size
            <= 4 && match options.parallelism {
            Some(threads) => thread_pool_size <= threads && (thread_pool_size == 4
                || thread_pool_size == threads),
            None => thread_pool_size == 4,
        },
{
}

/// A request conflicts with the state only where the process is bound to the
/// other mode. One that does not conflict leaves the engine started and the
/// process bound to its mode; one that does leaves everything as it was.
pub proof fn law_request_starts_and_binds_or_changes_nothing(state: EngineState, snapshot: bool)
    ensures
        state.conflicts(snapshot) <==> state.mode_is_set && state.snapshot_mode == !snapshot,
        state.conflicts(snapshot) ==> state.after(snapshot) == state,
        !state.conflicts(snapshot) ==> {
            &&& state.after(snapshot).started
            &&& state.after(snapshot).mode_is_set
            &&& state.after(snapshot).snapshot_mode == snapshot
        },
{
}

/// In a new process the engine is not started, and no mode is refused.
pub proof fn law_new_process_is_open(snapshot: bool)
    ensures
        !EngineState::fresh().started,
        !EngineState::fresh().mode_is_set,
        !EngineState::fresh().snapshot_mode,
        !EngineState::fresh().conflicts(snapshot),
{
}

/// Asking again for what was just granted changes nothing.
pub proof fn law_repeated_request_changes_nothing(state: EngineState, snapshot: bool)
    ensures
        state.after(snapshot).after(snapshot) == state.after(snapshot),
{
}

/// A history of requests is read one request after the other.
pub proof fn law_requests_come_one_by_one(state: EngineState, requests: Seq<bool>, next: bool)
    ensures
        state.after_all(Seq::empty()) == state,
        state.after_all(requests.push(next)) == state.after_all(requests).after(next),
{
    assert(requests.push(next).drop_last() =~= requests);
}

/// The engine is started at most once: after a request that was not refused,
/// it stays started through any further requests, so that there is nothing left
/// to do for them.
pub proof fn law_engine_starts_once(state: EngineState, snapshot: bool, requests: Seq<bool>)
    requires
        !state.conflicts(snapshot),
    ensures
        state.after(snapshot).after_all(requests).started,
    decreases requests.len(),
{
    if requests.len() > 0 {
        law_engine_starts_once(state, snapshot, requests.drop_last());
    }
}

/// A process that is bound to a mode stays bound to it, whatever is asked for.
pub proof fn law_requests_keep_the_mode(state: EngineState, requests: Seq<bool>)
    requires
        state.mode_is_set,
    ensures
        state.after_all(requests).mode_is_set,
        state.after_all(requests).snapshot_mode == state.snapshot_mode,
    decreases requests.len(),
{
    if requests.len() > 0 {
        law_requests_keep_the_mode(state, requests.drop_last());
    }
}

/// A process that is bound to a mode refuses every request for the other, now
/// and after any requests, and a refused request changes nothing.
pub proof fn law_bound_process_refuses_the_other_mode(
    state: EngineState,
    requests: Seq<bool>,
    snapshot: bool,
)
    requires
        state.mode_is_set,
        state.snapshot_mode != snapshot,
    ensures
        state.after_all(requests).conflicts(snapshot),
        state.after_all(requests).after(snapshot) == state.after_all(requests),
{
    law_requests_keep_the_mode(state, requests);
}

/// The first request of a new process binds it: whatever is asked for later, the
/// other mode is refused and the same mode is not. Only one of the two modes is
/// ever used in a process.
pub proof fn law_first_request_binds(first: bool, later: Seq<bool>)
    ensures
        EngineState::fresh().after(first).after_all(later).conflicts(!first),
        !EngineState::fresh().after(first).after_all(later).conflicts(first),
{
    law_requests_keep_the_mode(EngineState::fresh().after(first), later);
}

/// What a call of [`v8_flags`] gives: the flags that are always set, behind them
/// those of a snapshot, where one is made, and behind these those for natives,
/// where they are exposed.
pub proof fn law_flags_are_in_groups(
    snapshot: bool,
    expose_natives: bool,
    eager_parse: bool,
    flags: String,
)
    requires
        call_ensures(v8_flags, (snapshot, expose_natives, eager_parse), flags),
    ensures
        flags@
            == " --wasm-test-streaming --no-validate-asm --turbo_fast_api_calls --harmony-temporal --js-float16array --js-explicit-resource-management --js-source-phase-imports --js-defer-import-eval"@
            + (if snapshot {
            " "@ + "--predictable --random-seed=42"@ + " "@ + (if eager_parse {
                "--no-lazy --no-lazy-eval --no-lazy-streaming"@
            } else {
                ""@
            })
        } else {
            Seq::empty()
        }) + (if expose_natives {
            " "@ + "--expose_gc --allow_natives_syntax"@
        } else {
            Seq::empty()
        }),
{
    law_plain_flags(eager_parse);
    law_snapshot_only_adds(eager_parse);
    law_natives_add_these_flags(snapshot, eager_parse);
}

/// What a call of [`thread_pool_size`] gives: four, or what the machine runs at
/// once where that is known and less.
pub proof fn law_thread_pool_size_is_the_smaller_one(parallelism: Option<usize>, size: u32)
    requires
        call_ensures(thread_pool_size, (parallelism,), size),
    ensures
        size <= 4,
        parallelism is None ==> size == 4,
        parallelism matches Some(threads) ==> size <= threads && (size == 4 || size == threads),
{
}

/// What a call of [`v8_init`] gives: the flags for what was asked for, and the
/// platform that the caller brought or else a new one as the options want it.
pub proof fn law_setup_follows_the_request<P>(
    v8_platform: Option<P>,
    snapshot: bool,
    expose_natives: bool,
    options: EngineOptions,
    flags: String,
    setup: EngineSetup<P>,
)
    requires
        call_ensures(v8_flags, (snapshot, expose_natives, options.eager_parse), flags),
        call_ensures(v8_init::<P>, (v8_platform, snapshot, expose_natives, &options), setup),
    ensures
        setup.flags@ == flags@,
        match setup.platform {
            PlatformSource::Provided(platform) => v8_platform == Some(platform),
            PlatformSource::Custom { thread_pool_size: size, idle_task_support, unprotected } => {
                &&& v8_platform is None
                &&& unprotected == options.unprotected
                &&& !idle_task_support
                &&& size <= 4
                &&& options.parallelism is None ==> size == 4
                &&& options.parallelism matches Some(threads) ==> size <= threads && (size == 4
                    || size == threads)
            },
        },
{
}

/// What a call of [`init_v8`] does. It fails only where the process is bound to
/// the other mode, names both modes and changes nothing. Otherwise the engine is
/// started and the process bound to the mode afterwards, and there is something
/// to do only where the engine was not started before: what [`v8_init`] says.
pub proof fn law_request_is_answered<P>(
    state: &mut EngineState,
    v8_platform: Option<P>,
    snapshot: bool,
    expose_natives: bool,
    options: EngineOptions,
    first: EngineSetup<P>,
    result: Result<Option<EngineSetup<P>>, ModeConflict>,
)
    requires
        call_ensures(v8_init::<P>, (v8_platform, snapshot, expose_natives, &options), first),
        call_ensures(
            init_v8::<P>,
            (state, v8_platform, snapshot, expose_natives, &options),
            result,
        ),
    ensures
        result is Err <==> old(state).mode_is_set && old(state).snapshot_mode == !snapshot,
        result matches Err(conflict) ==> {
            &&& conflict.current == !snapshot
            &&& conflict.requested == snapshot
            &&& *final(state) == *old(state)
        },
        result matches Ok(todo) ==> {
            &&& final(state).started
            &&& final(state).mode_is_set
            &&& final(state).snapshot_mode == snapshot
            &&& todo is None <==> old(state).started
            &&& todo matches Some(setup) ==> setup.flags@ == first.flags@ && setup.platform
                == first.platform
        },
{
}

/// A call of [`EngineState::new`] gives a state in which nothing was asked for.
pub proof fn law_new_state_is_that_of_a_new_process(state: EngineState)
    requires
        call_ensures(EngineState::new, (), state),
    ensures
        !state.started,
        !state.mode_is_set,
        !state.snapshot_mode,
{
}

} // verus!
