//! The options of one run, and the job that they ask for.

use vstd::prelude::*;
use crate::concurrency::{available_parallelism, resolve_concurrency_level, resolved_level};
use crate::pipeline::{PipelineConfig, PipelineOpt};
use crate::pruner::{ConfigError, PrunerConfig, PrunerOpt};

verus! {

/// What a run is asked to do, with the settings that belong to the task alone.
#[derive(Clone, Debug, PartialEq, Eq)]
pub enum Command {
    CreateDb { data_dir: String, num_accounts: usize, init_account_balance: u64 },
    RunExecutor {
        /// Number of transfer blocks to run.
        blocks: usize,
        main_signer_accounts: usize,
        additional_dst_pool_accounts: usize,
        /// The workload by name; a raw coin transfer where none is given.
        transaction_type: Option<String>,
        module_working_set_size: usize,
        data_dir: String,
        checkpoint_dir: String,
    },
    AddAccounts {
        data_dir: String,
        checkpoint_dir: String,
        num_new_accounts: usize,
        init_account_balance: u64,
    },
}

/// Which block executor a run uses.
#[derive(Clone, Copy, Debug, PartialEq, Eq, Structural)]
pub enum ExecutorKind {
    Vm,
    Native,
}

/// All the options of one run.
#[derive(Clone, Debug, PartialEq, Eq)]
pub struct Opt {
    pub block_size: usize,
    pub transactions_per_sender: usize,
    pub concurrency_level: Option<usize>,
    pub num_executor_shards: usize,
    pub pruner_opt: PrunerOpt,
    pub split_ledger_db: bool,
    pub use_sharded_state_merkle_db: bool,
    pub pipeline_opt: PipelineOpt,
    pub cmd: Command,
    /// Verify the sequence number of every account after execution finishes.
    pub verify_sequence_numbers: bool,
    pub use_native_executor: bool,
    pub cpu_profiling: bool,
    pub memory_profiling: bool,
}

/// One call into the benchmark, with every argument that it takes.
#[derive(Clone, Debug, PartialEq, Eq)]
pub enum Job {
    CreateDb {
        num_accounts: usize,
        init_account_balance: u64,
        block_size: usize,
        data_dir: String,
        pruner_config: PrunerConfig,
        verify_sequence_numbers: bool,
        split_ledger_db: bool,
        use_sharded_state_merkle_db: bool,
        pipeline_config: PipelineConfig,
    },
    RunBenchmark {
        block_size: usize,
        blocks: usize,
        transaction_type: Option<String>,
        module_working_set_size: usize,
        transactions_per_sender: usize,
        main_signer_accounts: usize,
        additional_dst_pool_accounts: usize,
        data_dir: String,
        checkpoint_dir: String,
        verify_sequence_numbers: bool,
        pruner_config: PrunerConfig,
        split_ledger_db: bool,
        use_sharded_state_merkle_db: bool,
        pipeline_config: PipelineConfig,
    },
    AddAccounts {
        num_new_accounts: usize,
        init_account_balance: u64,
        block_size: usize,
        data_dir: String,
        checkpoint_dir: String,
        pruner_config: PrunerConfig,
        verify_sequence_numbers: bool,
        split_ledger_db: bool,
        use_sharded_state_merkle_db: bool,
        pipeline_config: PipelineConfig,
    },
}

impl Opt {
    /// The configuration fault that stops the run before it starts: zero
    /// shards first, then the first fault of the pruner settings.
    pub open spec fn fault(&self) -> Option<ConfigError> {
        if self.num_executor_shards == 0 {
            Some(ConfigError::ZeroShards)
        } else {
            self.pruner_opt.spec_pruner_config().first_fault()
        }
    }

    /// The job that the command stands for, with the shared settings filled
    /// in.
    pub open spec fn spec_job(self) -> Job {
        match self.cmd {
            Command::CreateDb { data_dir, num_accounts, init_account_balance } => Job::CreateDb {
                num_accounts,
                init_account_balance,
                block_size: self.block_size,
                data_dir,
                pruner_config: self.pruner_opt.spec_pruner_config(),
                verify_sequence_numbers: self.verify_sequence_numbers,
                split_ledger_db: self.split_ledger_db,
                use_sharded_state_merkle_db: self.use_sharded_state_merkle_db,
                pipeline_config: self.pipeline_opt.spec_pipeline_config(),
            },
            Command::RunExecutor {
                blocks,
                main_signer_accounts,
                additional_dst_pool_accounts,
                transaction_type,
                module_working_set_size,
                data_dir,
                checkpoint_dir,
            } => Job::RunBenchmark {
                block_size: self.block_size,
                blocks,
                transaction_type,
                module_working_set_size,
                transactions_per_sender: self.transactions_per_sender,
                main_signer_accounts,
                additional_dst_pool_accounts,
                data_dir,
                checkpoint_dir,
                verify_sequence_numbers: self.verify_sequence_numbers,
                pruner_config: self.pruner_opt.spec_pruner_config(),
                split_ledger_db: self.split_ledger_db,
                use_sharded_state_merkle_db: self.use_sharded_state_merkle_db,
                pipeline_config: self.pipeline_opt.spec_pipeline_config(),
            },
            Command::AddAccounts {
                data_dir,
                checkpoint_dir,
                num_new_accounts,
                init_account_balance,
            } => Job::AddAccounts {
                num_new_accounts,
                init_account_balance,
                block_size: self.block_size,
                data_dir,
                checkpoint_dir,
                pruner_config: self.pruner_opt.spec_pruner_config(),
                verify_sequence_numbers: self.verify_sequence_numbers,
                split_ledger_db: self.split_ledger_db,
                use_sharded_state_merkle_db: self.use_sharded_state_merkle_db,
                pipeline_config: self.pipeline_opt.spec_pipeline_config(),
            },
        }
    }

    /// Turns the options into the job to perform, or names the configuration
    /// fault that forbids the run.
    pub fn into_job(self) -> (r: Result<Job, ConfigError>)
        ensures
            r == match self.fault() {
                Some(e) => Err::<Job, ConfigError>(e),
                None => Ok(self.spec_job()),
            },
    {
        if self.num_executor_shards == 0 {
            return Err(ConfigError::ZeroShards);
        }
        let pruner_config = self.pruner_opt.pruner_config();
        match pruner_config.validate() {
            Err(e) => { return Err(e); },
            Ok(()) => {},
        }
        let pipeline_config = self.pipeline_opt.pipeline_config();
        let job = match self.cmd {
            Command::CreateDb { data_dir, num_accounts, init_account_balance } => Job::CreateDb {
                num_accounts,
                init_account_balance,
                block_size: self.block_size,
                data_dir,
                pruner_config,
                verify_sequence_numbers: self.verify_sequence_numbers,
                split_ledger_db: self.split_ledger_db,
                use_sharded_state_merkle_db: self.use_sharded_state_merkle_db,
                pipeline_config,
            },
            Command::RunExecutor {
                blocks,
                main_signer_accounts,
                additional_dst_pool_accounts,
                transaction_type,
                module_working_set_size,
                data_dir,
                checkpoint_dir,
            } => Job::RunBenchmark {
                block_size: self.block_size,
                blocks,
                transaction_type,
                module_working_set_size,
                transactions_per_sender: self.transactions_per_sender,
                main_signer_accounts,
                additional_dst_pool_accounts,
                data_dir,
                checkpoint_dir,
                verify_sequence_numbers: self.verify_sequence_numbers,
                pruner_config,
                split_ledger_db: self.split_ledger_db,
                use_sharded_state_merkle_db: self.use_sharded_state_merkle_db,
                pipeline_config,
            },
            Command::AddAccounts {
                data_dir,
                checkpoint_dir,
                num_new_accounts,
                init_account_balance,
            } => Job::AddAccounts {
                num_new_accounts,
                init_account_balance,
                block_size: self.block_size,
                data_dir,
                checkpoint_dir,
                pruner_config,
                verify_sequence_numbers: self.verify_sequence_numbers,
                split_ledger_db: self.split_ledger_db,
                use_sharded_state_merkle_db: self.use_sharded_state_merkle_db,
                pipeline_config,
            },
        };
        Ok(job)
    }

    /// The executor that the run uses.
    pub fn executor(&self) -> (kind: ExecutorKind)
        ensures
            kind == if self.use_native_executor {
                ExecutorKind::Native
            } else {
                ExecutorKind::Vm
            },
    {
        if self.use_native_executor {
            ExecutorKind::Native
        } else {
            ExecutorKind::Vm
        }
    }

    /// The concurrency level of the run: the explicit one where the options
    /// give it, else the one derived from the number of CPUs that this host
    /// reports, whatever that number is.
    pub fn concurrency_level(&self) -> (r: Result<usize, ConfigError>)
        ensures
            exists|cpus: usize|
                r == #[trigger] resolved_level(
                    self.concurrency_level,
                    cpus,
                    self.num_executor_shards,
                ),
            self.concurrency_level matches Some(level) ==> r == Ok::<usize, ConfigError>(level),
            r is Err <==> self.concurrency_level is None && self.num_executor_shards == 0,
    {
        let cpus = available_parallelism();
        resolve_concurrency_level(self.concurrency_level, cpus, self.num_executor_shards)
    }
}

} // verus!
