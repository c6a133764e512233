use isolate_setup::engine::init_v8;
use isolate_setup::engine::thread_pool_size;
use isolate_setup::engine::v8_flags;
use isolate_setup::engine::v8_init;
use isolate_setup::engine::EngineOptions;
use isolate_setup::engine::EngineState;
use isolate_setup::engine::ModeConflict;
use isolate_setup::engine::PlatformSource;
use isolate_setup::isolate::create_isolate;
use isolate_setup::isolate::isolate_callbacks;
use isolate_setup::isolate::isolate_created;
use isolate_setup::isolate::isolate_settings;
use isolate_setup::isolate::Built;
use isolate_setup::isolate::Callback;
use isolate_setup::isolate::Construction;
use isolate_setup::isolate::HostOs;
use isolate_setup::isolate::MicrotasksPolicy;
use isolate_setup::isolate::Release;
use isolate_setup::isolate::SetupState;
use isolate_setup::isolate::StartupSnapshot;
use isolate_setup::pages::MemoryRange;

const BASE: &str = " --wasm-test-streaming --no-validate-asm --turbo_fast_api_calls \
--harmony-temporal --js-float16array --js-explicit-resource-management \
--js-source-phase-imports --js-defer-import-eval";

fn options() -> EngineOptions {
    EngineOptions { parallelism: Some(16), eager_parse: false, unprotected: false }
}

fn snapshot() -> Option<StartupSnapshot<&'static str>> {
    Some(StartupSnapshot { blob: "blob", memory: MemoryRange { start: 0x5000, len: 0x2000 } })
}

#[test]
fn flags_without_extras() {
    assert_eq!(v8_flags(false, false, false), BASE);
    assert_eq!(v8_flags(false, false, true), BASE);
}

#[test]
fn flags_of_a_snapshot() {
    assert_eq!(
        v8_flags(true, false, false),
        format!("{} --predictable --random-seed=42 ", BASE)
    );
    assert_eq!(
        v8_flags(true, false, true),
        format!(
            "{} --predictable --random-seed=42 --no-lazy --no-lazy-eval --no-lazy-streaming",
            BASE
        )
    );
}

#[test]
fn flags_with_natives() {
    assert_eq!(
        v8_flags(false, true, true),
        format!("{} --expose_gc --allow_natives_syntax", BASE)
    );
    assert_eq!(
        v8_flags(true, true, false),
        format!("{} --predictable --random-seed=42  --expose_gc --allow_natives_syntax", BASE)
    );
}

#[test]
fn pool_is_capped() {
    assert_eq!(thread_pool_size(None), 4);
    assert_eq!(thread_pool_size(Some(1)), 1);
    assert_eq!(thread_pool_size(Some(3)), 3);
    assert_eq!(thread_pool_size(Some(4)), 4);
    assert_eq!(thread_pool_size(Some(64)), 4);
    assert_eq!(thread_pool_size(Some(usize::MAX)), 4);
    assert_eq!(thread_pool_size(Some(0x1_0000_0000)), 4);
}

#[test]
fn provided_platform_is_used() {
    let setup = v8_init(Some("mine"), false, false, &options());
    assert_eq!(setup.platform, PlatformSource::Provided("mine"));
}

#[test]
fn custom_platform_otherwise() {
    let options = EngineOptions { parallelism: Some(2), eager_parse: false, unprotected: true };
    let setup = v8_init::<()>(None, true, false, &options);
    assert_eq!(
        setup.platform,
        PlatformSource::Custom { thread_pool_size: 2, idle_task_support: false, unprotected: true }
    );
    assert_eq!(setup.flags, v8_flags(true, false, false));
}

#[test]
fn engine_starts_once() {
    let mut state = EngineState::new();
    let first = init_v8::<()>(&mut state, None, false, true, &options()).unwrap();
    assert_eq!(first.unwrap().flags, v8_flags(false, true, false));
    assert!(init_v8::<()>(&mut state, None, false, true, &options()).unwrap().is_none());
    assert!(init_v8(&mut state, Some(()), false, false, &options()).unwrap().is_none());
    assert_eq!(
        state,
        EngineState { started: true, mode_is_set: true, snapshot_mode: false }
    );
}

#[test]
fn first_request_binds_the_process() {
    for first in [false, true] {
        let mut state = EngineState::new();
        assert!(init_v8::<()>(&mut state, None, first, false, &options()).unwrap().is_some());
        let refused = init_v8::<()>(&mut state, None, !first, false, &options());
        assert_eq!(refused.unwrap_err(), ModeConflict { current: first, requested: !first });
        assert!(init_v8::<()>(&mut state, None, first, true, &options()).unwrap().is_none());
        assert!(init_v8::<()>(&mut state, None, !first, false, &options()).is_err());
    }
}

#[test]
fn bound_process_refuses_the_other_mode() {
    let mut state = EngineState { started: false, mode_is_set: true, snapshot_mode: true };
    let before = state;
    let refused = init_v8::<()>(&mut state, None, false, false, &options());
    assert_eq!(refused.unwrap_err(), ModeConflict { current: true, requested: false });
    assert_eq!(state, before);
    assert!(init_v8::<()>(&mut state, None, true, false, &options()).unwrap().is_some());
    assert!(init_v8::<()>(&mut state, None, false, false, &options()).is_err());
    assert_eq!(state, EngineState { started: true, ..before });
}

#[test]
fn snapshot_creator_gets_everything() {
    let mut state = SetupState::new();
    let plan = create_isolate(&state, HostOs::Linux, true, Some(3), snapshot(), "refs");
    assert_eq!(
        plan.construction,
        Construction::SnapshotCreator {
            external_refs: "refs",
            startup_snapshot: snapshot(),
            params: 3,
        }
    );
    assert_eq!(plan.built, Built::SnapshotCreator);
    assert_eq!(isolate_created(&mut state, HostOs::Linux, &plan.built), vec![]);
    assert_eq!(state, SetupState::new());
}

#[test]
fn isolate_starts_from_the_snapshot() {
    let state = SetupState::new();
    let plan = create_isolate(&state, HostOs::Linux, false, None::<u8>, snapshot(), "refs");
    assert_eq!(
        plan.construction,
        Construction::Isolate {
            external_refs: "refs",
            snapshot_blob: Some("blob"),
            params: 0,
            exclusive: false,
        }
    );
    assert_eq!(
        plan.built,
        Built::Isolate {
            snapshot_range: Some(MemoryRange { start: 0x5000, len: 0x2000 }),
            exclusive: false,
        }
    );
}

#[test]
fn linux_releases_once_per_process() {
    let mut state = SetupState::new();
    let memory = MemoryRange { start: 0x5000, len: 0x2000 };
    let plan = create_isolate(&state, HostOs::Linux, false, Some(3), snapshot(), "refs");
    assert_eq!(
        isolate_created(&mut state, HostOs::Linux, &plan.built),
        vec![Release::Snapshot(memory), Release::RelocationTable, Release::TextProbe]
    );
    let plan = create_isolate(&state, HostOs::Linux, false, Some(3), snapshot(), "refs");
    assert_eq!(
        isolate_created(&mut state, HostOs::Linux, &plan.built),
        vec![Release::Snapshot(memory)]
    );
    let plan = create_isolate(&state, HostOs::Linux, false, Some(3), None::<StartupSnapshot<()>>, "refs");
    assert_eq!(isolate_created(&mut state, HostOs::Linux, &plan.built), vec![]);
}

#[test]
fn isolate_without_a_snapshot_releases_the_rest() {
    let mut state = SetupState::new();
    let plan =
        create_isolate(&state, HostOs::Linux, false, Some(3), None::<StartupSnapshot<()>>, "refs");
    assert_eq!(
        isolate_created(&mut state, HostOs::Linux, &plan.built),
        vec![Release::RelocationTable, Release::TextProbe]
    );
}

#[test]
fn other_systems_release_less() {
    let memory = MemoryRange { start: 0x5000, len: 0x2000 };
    for os in [HostOs::MacOs, HostOs::Windows, HostOs::Other] {
        let mut state = SetupState::new();
        let plan = create_isolate(&state, os, false, Some(3), snapshot(), "refs");
        assert_eq!(isolate_created(&mut state, os, &plan.built), vec![]);
        assert!(!state.relocations_dropped && !state.text_probed);
    }
    let mut state = SetupState::new();
    let plan = create_isolate(&state, HostOs::OtherUnix, false, Some(3), snapshot(), "refs");
    assert_eq!(
        isolate_created(&mut state, HostOs::OtherUnix, &plan.built),
        vec![Release::Snapshot(memory)]
    );
}

fn is_exclusive(state: &SetupState, os: HostOs, with_snapshot: bool) -> bool {
    let snapshot = if with_snapshot { snapshot() } else { None };
    match create_isolate(state, os, false, Some(3), snapshot, "refs").construction {
        Construction::Isolate { exclusive, .. } => exclusive,
        Construction::SnapshotCreator { .. } => unreachable!(),
    }
}

#[test]
fn windows_builds_the_first_snapshot_exclusively() {
    let mut state = SetupState::new();
    let creator = create_isolate(&state, HostOs::Windows, true, Some(3), snapshot(), "refs");
    isolate_created(&mut state, HostOs::Windows, &creator.built);
    assert!(!is_exclusive(&state, HostOs::Windows, false));
    let plain = create_isolate(
        &state,
        HostOs::Windows,
        false,
        Some(3),
        None::<StartupSnapshot<()>>,
        "refs",
    );
    isolate_created(&mut state, HostOs::Windows, &plain.built);

    assert!(is_exclusive(&state, HostOs::Windows, true));
    let first = create_isolate(&state, HostOs::Windows, false, Some(3), snapshot(), "refs");
    // Until the first one stands, others wait for it as well.
    assert!(is_exclusive(&state, HostOs::Windows, true));
    assert_eq!(isolate_created(&mut state, HostOs::Windows, &first.built), vec![]);
    assert!(state.snapshot_started);
    assert!(!is_exclusive(&state, HostOs::Windows, true));
}

#[test]
fn other_systems_build_nothing_exclusively() {
    let state = SetupState::new();
    for os in [HostOs::Linux, HostOs::OtherUnix, HostOs::MacOs, HostOs::Other] {
        assert!(!is_exclusive(&state, os, true));
    }
}

#[test]
fn settings_of_every_isolate() {
    let settings = isolate_settings();
    assert_eq!(settings.microtasks_policy, MicrotasksPolicy::Explicit);
    assert!(settings.capture_stack_trace);
    assert_eq!(settings.stack_trace_frame_limit, 10);
}

#[test]
fn every_plan_has_the_settings_and_callbacks() {
    let expected = vec![
        Callback::PromiseReject,
        Callback::PrepareStackTrace,
        Callback::InitializeImportMeta,
        Callback::ImportModule,
        Callback::ImportModuleWithPhase,
        Callback::WasmAsyncResolvePromise,
    ];
    assert_eq!(isolate_callbacks(), expected);
    let state = SetupState::new();
    for will_snapshot in [false, true] {
        for with_snapshot in [false, true] {
            let snapshot = if with_snapshot { snapshot() } else { None };
            let plan =
                create_isolate(&state, HostOs::Linux, will_snapshot, Some(3), snapshot, "refs");
            assert_eq!(plan.settings, isolate_settings());
            assert_eq!(plan.callbacks, expected);
        }
    }
}
