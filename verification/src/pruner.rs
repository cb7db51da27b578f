//! Pruner settings: one passive configuration per pruner kind, and the rule
//! that an enabled pruner needs a positive window and a positive batch size.

use vstd::prelude::*;

verus! {

/// The three kinds of pruner that the storage layer runs.
#[derive(Clone, Copy, Debug, PartialEq, Eq, Structural)]
pub enum PrunerKind {
    StateMerkle,
    EpochSnapshot,
    Ledger,
}

/// Why a set of run options is refused before anything is executed.
#[derive(Clone, Copy, Debug, PartialEq, Eq, Structural)]
pub enum ConfigError {
    /// The named pruner is enabled with a window of zero versions.
    ZeroPruneWindow(PrunerKind),
    /// The named pruner is enabled with a batch size of zero.
    ZeroBatchSize(PrunerKind),
    /// The run asks for zero executor shards.
    ZeroShards,
}

#[derive(Clone, Copy, Debug, PartialEq, Eq, Structural)]
pub struct StateMerklePrunerConfig {
    pub enable: bool,
    pub prune_window: u64,
    pub batch_size: usize,
}

#[derive(Clone, Copy, Debug, PartialEq, Eq, Structural)]
pub struct EpochSnapshotPrunerConfig {
    pub enable: bool,
    pub prune_window: u64,
    pub batch_size: usize,
}

#[derive(Clone, Copy, Debug, PartialEq, Eq, Structural)]
pub struct LedgerPrunerConfig {
    pub enable: bool,
    pub prune_window: u64,
    pub batch_size: usize,
    pub user_pruning_window_offset: u64,
}

#[derive(Clone, Copy, Debug, PartialEq, Eq, Structural)]
pub struct PrunerConfig {
    pub state_merkle_pruner_config: StateMerklePrunerConfig,
    pub epoch_snapshot_pruner_config: EpochSnapshotPrunerConfig,
    pub ledger_pruner_config: LedgerPrunerConfig,
}

/// The fault of one pruner's settings, if it has one. The window is looked at
/// before the batch size; a disabled pruner has no fault.
pub open spec fn pruner_fault(
    kind: PrunerKind,
    enable: bool,
    prune_window: u64,
    batch_size: usize,
) -> Option<ConfigError> {
    if !enable {
        None
    } else if prune_window == 0 {
        Some(ConfigError::ZeroPruneWindow(kind))
    } else if batch_size == 0 {
        Some(ConfigError::ZeroBatchSize(kind))
    } else {
        None
    }
}

/// Checks one pruner's settings.
pub fn check_pruner(kind: PrunerKind, enable: bool, prune_window: u64, batch_size: usize) -> (r:
    Result<(), ConfigError>)
    ensures
        r == match pruner_fault(kind, enable, prune_window, batch_size) {
            Some(e) => Err::<(), ConfigError>(e),
            None => Ok(()),
        },
        r is Ok <==> (enable ==> prune_window > 0 && batch_size > 0),
{
    if !enable {
        Ok(())
    } else if prune_window == 0 {
        Err(ConfigError::ZeroPruneWindow(kind))
    } else if batch_size == 0 {
        Err(ConfigError::ZeroBatchSize(kind))
    } else {
        Ok(())
    }
}

impl PrunerConfig {
    /// Every enabled pruner has a positive window and a positive batch size.
    pub open spec fn valid(&self) -> bool {
        &&& self.state_merkle_pruner_config.enable ==> {
            &&& self.state_merkle_pruner_config.prune_window > 0
            &&& self.state_merkle_pruner_config.batch_size > 0
        }
        &&& self.epoch_snapshot_pruner_config.enable ==> {
            &&& self.epoch_snapshot_pruner_config.prune_window > 0
            &&& self.epoch_snapshot_pruner_config.batch_size > 0
        }
        &&& self.ledger_pruner_config.enable ==> {
            &&& self.ledger_pruner_config.prune_window > 0
            &&& self.ledger_pruner_config.batch_size > 0
        }
    }

    /// The first fault, looking at the state-merkle pruner, then the
    /// epoch-snapshot pruner, then the ledger pruner.
    pub open spec fn first_fault(&self) -> Option<ConfigError> {
        let state = pruner_fault(
            PrunerKind::StateMerkle,
            self.state_merkle_pruner_config.enable,
            self.state_merkle_pruner_config.prune_window,
            self.state_merkle_pruner_config.batch_size,
        );
        let epoch = pruner_fault(
            PrunerKind::EpochSnapshot,
            self.epoch_snapshot_pruner_config.enable,
            self.epoch_snapshot_pruner_config.prune_window,
            self.epoch_snapshot_pruner_config.batch_size,
        );
        let ledger = pruner_fault(
            PrunerKind::Ledger,
            self.ledger_pruner_config.enable,
            self.ledger_pruner_config.prune_window,
            self.ledger_pruner_config.batch_size,
        );
        if state is Some {
            state
        } else if epoch is Some {
            epoch
        } else {
            ledger
        }
    }

    /// Accepts the configuration exactly when it is valid, and otherwise
    /// reports its first fault.
    pub fn validate(&self) -> (r: Result<(), ConfigError>)
        ensures
            r is Ok <==> self.valid(),
            r == match self.first_fault() {
                Some(e) => Err::<(), ConfigError>(e),
                None => Ok(()),
            },
    {
        let state = &self.state_merkle_pruner_config;
        let epoch = &self.epoch_snapshot_pruner_config;
        let ledger = &self.ledger_pruner_config;
        match check_pruner(
            PrunerKind::StateMerkle,
            state.enable,
            state.prune_window,
            state.batch_size,
        ) {
            Err(e) => { return Err(e); },
            Ok(()) => {},
        }
        match check_pruner(
            PrunerKind::EpochSnapshot,
            epoch.enable,
            epoch.prune_window,
            epoch.batch_size,
        ) {
            Err(e) => { return Err(e); },
            Ok(()) => {},
        }
        check_pruner(PrunerKind::Ledger, ledger.enable, ledger.prune_window, ledger.batch_size)
    }
}

/// The pruner switches of a run, as given on the command line.
#[derive(Clone, Copy, Debug, PartialEq, Eq, Structural)]
pub struct PrunerOpt {
    pub enable_state_pruner: bool,
    pub enable_epoch_snapshot_pruner: bool,
    pub enable_ledger_pruner: bool,
    pub state_prune_window: u64,
    pub epoch_snapshot_prune_window: u64,
    pub ledger_prune_window: u64,
    pub ledger_pruning_batch_size: usize,
    pub state_pruning_batch_size: usize,
    pub epoch_snapshot_pruning_batch_size: usize,
}

impl PrunerOpt {
    /// The configuration that these switches stand for.
    pub open spec fn spec_pruner_config(&self) -> PrunerConfig {
        PrunerConfig {
            state_merkle_pruner_config: StateMerklePrunerConfig {
                enable: self.enable_state_pruner,
                prune_window: self.state_prune_window,
                batch_size: self.state_pruning_batch_size,
            },
            epoch_snapshot_pruner_config: EpochSnapshotPrunerConfig {
                enable: self.enable_epoch_snapshot_pruner,
                prune_window: self.epoch_snapshot_prune_window,
                batch_size: self.epoch_snapshot_pruning_batch_size,
            },
            ledger_pruner_config: LedgerPrunerConfig {
                enable: self.enable_ledger_pruner,
                prune_window: self.ledger_prune_window,
                batch_size: self.ledger_pruning_batch_size,
                user_pruning_window_offset: 0,
            },
        }
    }

    /// Builds the per-kind configurations. The ledger pruner's user window
    /// offset is always zero.
    pub fn pruner_config(&self) -> (config: PrunerConfig)
        ensures
            config == self.spec_pruner_config(),
    {
        PrunerConfig {
            state_merkle_pruner_config: StateMerklePrunerConfig {
                enable: self.enable_state_pruner,
                prune_window: self.state_prune_window,
                batch_size: self.state_pruning_batch_size,
            },
            epoch_snapshot_pruner_config: EpochSnapshotPrunerConfig {
                enable: self.enable_epoch_snapshot_pruner,
                prune_window: self.epoch_snapshot_prune_window,
                batch_size: self.epoch_snapshot_pruning_batch_size,
            },
            ledger_pruner_config: LedgerPrunerConfig {
                enable: self.enable_ledger_pruner,
                prune_window: self.ledger_prune_window,
                batch_size: self.ledger_pruning_batch_size,
                user_pruning_window_offset: 0,
            },
        }
    }
}

impl Default for PrunerOpt {
    /// Every pruner off, windows of 100000 versions, batches of 500.
    fn default() -> (opt: PrunerOpt)
        ensures
            opt == (PrunerOpt {
                enable_state_pruner: false,
                enable_epoch_snapshot_pruner: false,
                enable_ledger_pruner: false,
                state_prune_window: 100000,
                epoch_snapshot_prune_window: 100000,
                ledger_prune_window: 100000,
                ledger_pruning_batch_size: 500,
                state_pruning_batch_size: 500,
                epoch_snapshot_pruning_batch_size: 500,
            }),
    {
        PrunerOpt {
            enable_state_pruner: false,
            enable_epoch_snapshot_pruner: false,
            enable_ledger_pruner: false,
            state_prune_window: 100000,
            epoch_snapshot_prune_window: 100000,
            ledger_prune_window: 100000,
            ledger_pruning_batch_size: 500,
            state_pruning_batch_size: 500,
            epoch_snapshot_pruning_batch_size: 500,
        }
    }
}

} // verus!
