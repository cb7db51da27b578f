use executor_service::concurrency::{
    derive_concurrency_level, resolve_concurrency_level, ConcurrencyLevel,
};
use executor_service::pruner::ConfigError;

#[test]
fn derived_level_is_the_quotient_rounded_up() {
    assert_eq!(derive_concurrency_level(8, 1), Ok(8));
    assert_eq!(derive_concurrency_level(8, 2), Ok(4));
    assert_eq!(derive_concurrency_level(8, 3), Ok(3));
    assert_eq!(derive_concurrency_level(7, 8), Ok(1));
    assert_eq!(derive_concurrency_level(1, 1), Ok(1));
    assert_eq!(derive_concurrency_level(0, 4), Ok(0));
    assert_eq!(derive_concurrency_level(usize::MAX, 1), Ok(usize::MAX));
    assert_eq!(derive_concurrency_level(usize::MAX, 2), Ok(usize::MAX / 2 + 1));
    assert_eq!(derive_concurrency_level(usize::MAX, usize::MAX), Ok(1));
}

#[test]
fn no_level_for_zero_shards() {
    assert_eq!(derive_concurrency_level(8, 0), Err(ConfigError::ZeroShards));
    assert_eq!(derive_concurrency_level(0, 0), Err(ConfigError::ZeroShards));
}

#[test]
fn explicit_level_takes_precedence() {
    assert_eq!(resolve_concurrency_level(Some(3), 64, 4), Ok(3));
    assert_eq!(resolve_concurrency_level(Some(0), 64, 4), Ok(0));
    assert_eq!(resolve_concurrency_level(Some(3), 64, 0), Ok(3));
}

#[test]
fn level_is_derived_when_none_is_given() {
    assert_eq!(resolve_concurrency_level(None, 64, 4), Ok(16));
    assert_eq!(resolve_concurrency_level(None, 10, 4), Ok(3));
}

#[test]
fn zero_shards_is_a_configuration_error() {
    assert_eq!(resolve_concurrency_level(None, 64, 0), Err(ConfigError::ZeroShards));
}

#[test]
fn second_set_has_no_effect() {
    let mut cell = ConcurrencyLevel::new();
    assert_eq!(cell.get(), None);
    assert!(cell.set_once(4));
    assert_eq!(cell.get(), Some(4));
    assert!(!cell.set_once(9));
    assert_eq!(cell.get(), Some(4));
    assert!(!cell.set_once(4));
    assert_eq!(cell.get(), Some(4));
}
