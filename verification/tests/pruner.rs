use executor_service::pruner::{
    check_pruner, ConfigError, EpochSnapshotPrunerConfig, LedgerPrunerConfig, PrunerConfig,
    PrunerKind, PrunerOpt, StateMerklePrunerConfig,
};

#[test]
fn default_switches() {
    let opt = PrunerOpt::default();
    assert!(!opt.enable_state_pruner);
    assert!(!opt.enable_epoch_snapshot_pruner);
    assert!(!opt.enable_ledger_pruner);
    assert_eq!(opt.state_prune_window, 100000);
    assert_eq!(opt.epoch_snapshot_prune_window, 100000);
    assert_eq!(opt.ledger_prune_window, 100000);
    assert_eq!(opt.ledger_pruning_batch_size, 500);
    assert_eq!(opt.state_pruning_batch_size, 500);
    assert_eq!(opt.epoch_snapshot_pruning_batch_size, 500);
}

#[test]
fn pruner_config_puts_each_switch_in_its_place() {
    let opt = PrunerOpt {
        enable_state_pruner: true,
        enable_epoch_snapshot_pruner: false,
        enable_ledger_pruner: true,
        state_prune_window: 1,
        epoch_snapshot_prune_window: 2,
        ledger_prune_window: 3,
        ledger_pruning_batch_size: 4,
        state_pruning_batch_size: 5,
        epoch_snapshot_pruning_batch_size: 6,
    };
    assert_eq!(
        opt.pruner_config(),
        PrunerConfig {
            state_merkle_pruner_config: StateMerklePrunerConfig {
                enable: true,
                prune_window: 1,
                batch_size: 5,
            },
            epoch_snapshot_pruner_config: EpochSnapshotPrunerConfig {
                enable: false,
                prune_window: 2,
                batch_size: 6,
            },
            ledger_pruner_config: LedgerPrunerConfig {
                enable: true,
                prune_window: 3,
                batch_size: 4,
                user_pruning_window_offset: 0,
            },
        }
    );
}

#[test]
fn enabled_pruner_with_zero_window_is_rejected() {
    let mut opt = PrunerOpt::default();
    opt.enable_ledger_pruner = true;
    opt.ledger_prune_window = 0;
    assert_eq!(
        opt.pruner_config().validate(),
        Err(ConfigError::ZeroPruneWindow(PrunerKind::Ledger))
    );
}

#[test]
fn enabled_pruner_with_zero_batch_size_is_rejected() {
    let mut opt = PrunerOpt::default();
    opt.enable_epoch_snapshot_pruner = true;
    opt.epoch_snapshot_pruning_batch_size = 0;
    assert_eq!(
        opt.pruner_config().validate(),
        Err(ConfigError::ZeroBatchSize(PrunerKind::EpochSnapshot))
    );
}

#[test]
fn disabled_pruner_may_have_zero_settings() {
    let mut opt = PrunerOpt::default();
    opt.state_prune_window = 0;
    opt.state_pruning_batch_size = 0;
    assert_eq!(opt.pruner_config().validate(), Ok(()));
    opt.enable_state_pruner = true;
    assert_eq!(
        opt.pruner_config().validate(),
        Err(ConfigError::ZeroPruneWindow(PrunerKind::StateMerkle))
    );
}

#[test]
fn first_fault_is_reported() {
    let mut opt = PrunerOpt::default();
    opt.enable_state_pruner = true;
    opt.enable_ledger_pruner = true;
    opt.state_pruning_batch_size = 0;
    opt.ledger_prune_window = 0;
    assert_eq!(
        opt.pruner_config().validate(),
        Err(ConfigError::ZeroBatchSize(PrunerKind::StateMerkle))
    );
}

#[test]
fn check_pruner_looks_at_window_before_batch() {
    assert_eq!(check_pruner(PrunerKind::Ledger, true, 1, 1), Ok(()));
    assert_eq!(check_pruner(PrunerKind::Ledger, false, 0, 0), Ok(()));
    assert_eq!(
        check_pruner(PrunerKind::Ledger, true, 0, 0),
        Err(ConfigError::ZeroPruneWindow(PrunerKind::Ledger))
    );
    assert_eq!(
        check_pruner(PrunerKind::StateMerkle, true, 9, 0),
        Err(ConfigError::ZeroBatchSize(PrunerKind::StateMerkle))
    );
}
