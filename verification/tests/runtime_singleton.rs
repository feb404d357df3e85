use gdiroh::runtime::{ExecutorConfig, InitLevel, IrohRuntime, Shutdown, SHUTDOWN_GRACE_SECS};
use std::cell::Cell;

#[test]
fn before_start_up_there_is_no_executor() {
    let place: IrohRuntime<u32> = IrohRuntime::new();
    assert!(!place.is_active());
}

#[test]
fn the_executor_is_built_at_the_scene_level_only() {
    for level in [InitLevel::Core, InitLevel::Servers, InitLevel::Editor] {
        let built = Cell::new(0u32);
        let mut place: IrohRuntime<u32> = IrohRuntime::new();
        place.init_singleton(&level, |_| {
            built.set(built.get() + 1);
            1
        });
        assert!(!place.is_active());
        assert_eq!(built.get(), 0);
    }
    let built = Cell::new(0u32);
    let mut place: IrohRuntime<u32> = IrohRuntime::new();
    place.init_singleton(&InitLevel::Scene, |_| {
        built.set(built.get() + 1);
        1
    });
    assert!(place.is_active());
    assert_eq!(built.get(), 1);
}

#[test]
fn there_is_never_a_second_executor() {
    let built = Cell::new(0u32);
    let mut place: IrohRuntime<u32> = IrohRuntime::new();
    place.init_singleton(&InitLevel::Scene, |_| {
        built.set(built.get() + 1);
        1
    });
    place.init_singleton(&InitLevel::Scene, |_| {
        built.set(built.get() + 1);
        2
    });
    assert_eq!(built.get(), 1);
    assert_eq!(place.block_on(|executor| *executor), 1);
}

#[test]
fn teardown_hands_the_executor_out_with_five_seconds_of_grace() {
    let mut place: IrohRuntime<&str> = IrohRuntime::new();
    place.init_singleton(&InitLevel::Scene, |_| "executor");
    let teardown = place.deinit_singleton(&InitLevel::Scene);
    assert_eq!(teardown, Some(Shutdown { executor: "executor", grace_secs: 5 }));
    assert_eq!(SHUTDOWN_GRACE_SECS, 5);
    assert!(!place.is_active());
}

#[test]
fn leaving_other_levels_changes_nothing() {
    let mut place: IrohRuntime<&str> = IrohRuntime::new();
    place.init_singleton(&InitLevel::Scene, |_| "executor");
    for level in [InitLevel::Editor, InitLevel::Servers, InitLevel::Core] {
        assert_eq!(place.deinit_singleton(&level), None);
        assert!(place.is_active());
    }
    let mut idle: IrohRuntime<&str> = IrohRuntime::new();
    assert_eq!(idle.deinit_singleton(&InitLevel::Core), None);
    assert!(!idle.is_active());
}

#[test]
fn spawn_passes_the_handle_on_and_block_on_the_output() {
    let mut place: IrohRuntime<Vec<u8>> = IrohRuntime::new();
    place.init_singleton(&InitLevel::Scene, |_| vec![1, 2, 3]);
    let handle = place.spawn(|executor| executor.len());
    assert_eq!(handle, 3);
    let output = place.block_on(|executor| executor.iter().map(|b| *b as u32).sum::<u32>());
    assert_eq!(output, 6);
}

#[test]
fn the_executor_can_come_back_after_teardown() {
    let mut place: IrohRuntime<u32> = IrohRuntime::new();
    place.init_singleton(&InitLevel::Scene, |_| 1);
    assert_eq!(
        place.deinit_singleton(&InitLevel::Scene),
        Some(Shutdown { executor: 1, grace_secs: 5 })
    );
    place.init_singleton(&InitLevel::Scene, |_| 2);
    assert_eq!(place.block_on(|executor| *executor), 2);
}

#[test]
fn a_real_executor_runs_tasks_through_the_place() {
    let mut place: IrohRuntime<tokio::runtime::Runtime> = IrohRuntime::new();
    place.init_singleton(&InitLevel::Scene, |config| {
        assert!(config.multi_thread && config.io && config.timers);
        tokio::runtime::Builder::new_multi_thread().enable_all().build().unwrap()
    });
    let handle = place.spawn(|runtime| runtime.spawn(async { 20 + 1 }));
    let output = place.block_on(|runtime| runtime.block_on(async { handle.await.unwrap() * 2 }));
    assert_eq!(output, 42);
    let teardown = place.deinit_singleton(&InitLevel::Scene).unwrap();
    assert_eq!(teardown.grace_secs, 5);
    teardown.executor.shutdown_timeout(std::time::Duration::from_secs(teardown.grace_secs));
    assert!(!place.is_active());
}

#[test]
fn the_executor_is_multi_threaded_with_io_and_timers() {
    let mut place: IrohRuntime<ExecutorConfig> = IrohRuntime::new();
    place.init_singleton(&InitLevel::Scene, |config| config);
    assert_eq!(
        place.block_on(|config| *config),
        ExecutorConfig { multi_thread: true, io: true, timers: true }
    );
}
