use tracing_core::Level;
use tracing_subscriber::filter::LevelFilter;
use tracing_subscriber::filter::Targets;
use tracing_subscriber_reload_arcswap::ArcSwapHandle;
use tracing_subscriber_reload_arcswap::ArcSwapLayer;
use tracing_subscriber_reload_arcswap::Error;
use tracing_subscriber_reload_arcswap::ErrorKind;

#[test]
fn error_kinds_are_distinct() {
    let poisoned = Error::poisoned();
    let gone = Error::subscriber_gone();
    assert!(poisoned.is_poisoned());
    assert!(!poisoned.is_subscriber_gone());
    assert!(gone.is_subscriber_gone());
    assert!(!gone.is_poisoned());
    assert_eq!(poisoned.kind(), ErrorKind::Poisoned);
    assert_eq!(gone.kind(), ErrorKind::SubscriberGone);
    assert_ne!(poisoned, gone);
}

#[test]
fn error_messages() {
    assert_eq!(Error::subscriber_gone().message(), "subscriber is gone");
    assert_eq!(Error::poisoned().message(), "reload lock poisoned");
}

#[test]
fn loads_are_stable_without_store() {
    let (_layer, handle) = ArcSwapLayer::<u64, ()>::new(42);
    let first = handle.with_current(|v: &u64| *v).unwrap();
    let second = handle.with_current(|v: &u64| *v).unwrap();
    let third = handle.clone_current().unwrap();
    assert_eq!(first, 42);
    assert_eq!(first, second);
    assert_eq!(second, third);
}

#[test]
fn reload_publishes_the_new_value() {
    let (_layer, handle) = ArcSwapLayer::<u64, ()>::new(1);
    handle.reload(7u64).unwrap();
    assert_eq!(handle.with_current(|v: &u64| *v).unwrap(), 7);
    assert_eq!(handle.clone_current(), Some(7));
}

#[test]
fn modify_applies_to_the_current_value() {
    let (_layer, handle) = ArcSwapLayer::<u64, ()>::new(10);
    handle.modify(|v: &mut u64| *v += 5).unwrap();
    assert_eq!(handle.clone_current(), Some(15));
    handle.modify(|v: &mut u64| *v *= 2).unwrap();
    assert_eq!(handle.clone_current(), Some(30));
}

#[test]
fn reload_converts_into_the_wrapped_type() {
    let (_layer, handle) = ArcSwapLayer::<u64, ()>::new(0);
    handle.reload(9u32).unwrap();
    assert_eq!(handle.clone_current(), Some(9));
}

#[test]
fn operations_fail_once_the_layer_is_dropped() {
    let (layer, handle) = ArcSwapLayer::<u64, ()>::new(3);
    drop(layer);
    let reloaded = handle.reload(4u64);
    assert!(reloaded.unwrap_err().is_subscriber_gone());
    let modified = handle.modify(|v: &mut u64| *v += 1);
    assert!(modified.unwrap_err().is_subscriber_gone());
    let observed = handle.with_current(|v: &u64| *v);
    assert!(observed.unwrap_err().is_subscriber_gone());
    assert_eq!(handle.clone_current(), None);
}

#[test]
fn layer_clones_keep_the_cell_alive() {
    let (layer, handle) = ArcSwapLayer::<u64, ()>::new(3);
    let duplicate = layer.clone();
    drop(layer);
    assert_eq!(handle.clone_current(), Some(3));
    drop(duplicate);
    assert_eq!(handle.clone_current(), None);
}

#[test]
fn duplicated_handles_observe_each_others_reloads() {
    let (_layer, handle) = ArcSwapLayer::<u64, ()>::new(0);
    let duplicate_a = handle.clone();
    let duplicate_b = handle.clone();
    duplicate_a.reload(11u64).unwrap();
    assert_eq!(duplicate_b.with_current(|v: &u64| *v).unwrap(), 11);
    assert_eq!(handle.clone_current(), Some(11));
}

#[test]
fn with_inner_and_update_inner_share_the_cell() {
    let (layer, handle) = ArcSwapLayer::<u64, ()>::new(5);
    assert_eq!(layer.with_inner(|v: &u64| *v), 5);
    layer.update_inner(|v: &mut u64| *v = 8).unwrap();
    assert_eq!(layer.with_inner(|v: &u64| *v), 8);
    assert_eq!(handle.clone_current(), Some(8));
}

#[test]
fn fresh_handles_from_the_layer_observe_reloads() {
    let (layer, first) = ArcSwapLayer::<u64, ()>::new(1);
    let second = layer.handle();
    first.reload(2u64).unwrap();
    assert_eq!(second.clone_current(), Some(2));
    second.reload(3u64).unwrap();
    assert_eq!(first.clone_current(), Some(3));
}

#[test]
fn warn_threshold_suppresses_then_reload_admits() {
    let (_layer, handle) = ArcSwapLayer::<LevelFilter, ()>::new(LevelFilter::WARN);
    let passes = |handle: &ArcSwapHandle<LevelFilter, ()>, level: Level| {
        handle.with_current(|filter: &LevelFilter| level <= *filter).unwrap()
    };
    assert!(!passes(&handle, Level::INFO));
    assert!(passes(&handle, Level::WARN));
    assert!(passes(&handle, Level::ERROR));
    handle.reload(LevelFilter::INFO).unwrap();
    assert!(passes(&handle, Level::INFO));
    assert!(passes(&handle, Level::WARN));
    assert!(!passes(&handle, Level::DEBUG));
}

#[test]
fn targeted_filter_restricts_one_source_only() {
    let targets = Targets::new()
        .with_default(LevelFilter::INFO)
        .with_target("my_crate", LevelFilter::ERROR);
    let (_layer, handle) = ArcSwapLayer::<Targets, ()>::new(targets);
    let would_enable = |target: &str, level: &Level| {
        handle
            .with_current(|filter: &Targets| filter.would_enable(target, level))
            .unwrap()
    };
    assert!(would_enable("other_crate", &Level::INFO));
    assert!(!would_enable("my_crate", &Level::INFO));
    assert!(would_enable("my_crate", &Level::ERROR));
    assert!(!would_enable("other_crate", &Level::DEBUG));
}
