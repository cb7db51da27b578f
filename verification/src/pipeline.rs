//! The staged pipeline that drives blocks through generation, execution and
//! commit.

use vstd::prelude::*;

verus! {

/// How the stages of a run overlap, and which abnormal transaction outcomes
/// it tolerates.
#[derive(Clone, Copy, Debug, PartialEq, Eq, Structural)]
pub struct PipelineConfig {
    /// Generate every block before the first one is executed.
    pub delay_execution_start: bool,
    /// Run the stages side by side, joined by bounded queues.
    pub split_stages: bool,
    /// Leave the commit stage out.
    pub skip_commit: bool,
    /// Go on when a transaction is discarded.
    pub allow_discards: bool,
    /// Go on when a transaction aborts.
    pub allow_aborts: bool,
}

/// The pipeline switches of a run, as given on the command line.
#[derive(Clone, Copy, Debug, PartialEq, Eq, Structural)]
pub struct PipelineOpt {
    pub generate_then_execute: bool,
    pub split_stages: bool,
    pub skip_commit: bool,
    pub allow_discards: bool,
    pub allow_aborts: bool,
}

impl PipelineOpt {
    /// The configuration that these switches stand for.
    pub open spec fn spec_pipeline_config(&self) -> PipelineConfig {
        PipelineConfig {
            delay_execution_start: self.generate_then_execute,
            split_stages: self.split_stages,
            skip_commit: self.skip_commit,
            allow_discards: self.allow_discards,
            allow_aborts: self.allow_aborts,
        }
    }

    pub fn pipeline_config(&self) -> (config: PipelineConfig)
        ensures
            config == self.spec_pipeline_config(),
    {
        PipelineConfig {
            delay_execution_start: self.generate_then_execute,
            split_stages: self.split_stages,
            skip_commit: self.skip_commit,
            allow_discards: self.allow_discards,
            allow_aborts: self.allow_aborts,
        }
    }
}

impl Default for PipelineOpt {
    /// Every switch off: one block at a time, commits on, abnormal outcomes
    /// fatal.
    fn default() -> (opt: PipelineOpt)
        ensures
            opt == (PipelineOpt {
                generate_then_execute: false,
                split_stages: false,
                skip_commit: false,
                allow_discards: false,
                allow_aborts: false,
            }),
    {
        PipelineOpt {
            generate_then_execute: false,
            split_stages: false,
            skip_commit: false,
            allow_discards: false,
            allow_aborts: false,
        }
    }
}

/// The three stages that a block goes through, in this order.
#[derive(Clone, Copy, Debug, PartialEq, Eq, Structural)]
pub enum Stage {
    Generate,
    Execute,
    Commit,
}

/// What a stage reports when it has finished its next block.
#[derive(Clone, Copy, Debug, PartialEq, Eq, Structural)]
pub enum PipelineEvent {
    /// The generation stage has produced its next block.
    Generated,
    /// The execution stage has executed its next block; so many of the
    /// block's transactions were discarded, and so many aborted.
    Executed { discards: usize, aborts: usize },
    /// The commit stage has committed its next block.
    Committed,
}

/// Why the pipeline refuses an event.
#[derive(Clone, Copy, Debug, PartialEq, Eq, Structural)]
pub enum PipelineError {
    /// The stage may not work on a block now: its input is empty, its output
    /// is full, the run leaves the stage out, or the pipeline has halted.
    StageNotReady(Stage),
    /// The block with this number had discarded transactions, which the run
    /// does not tolerate. The pipeline has halted.
    Discarded { block: usize, count: usize },
    /// The block with this number had aborted transactions, which the run
    /// does not tolerate. The pipeline has halted.
    Aborted { block: usize, count: usize },
}

/// The mathematical state of a pipeline. Blocks are numbered from zero in
/// the order in which they are generated, and every stage takes them in that
/// order: the next block of a stage has the number of blocks that the stage
/// has finished.
pub struct PipelineModel {
    pub config: PipelineConfig,
    /// The number of blocks of the run.
    pub total: nat,
    /// The bound of each queue between two stages, when the stages are split.
    pub capacity: nat,
    /// The number of blocks that have been generated.
    pub generated: nat,
    /// The number of blocks that have been executed.
    pub executed: nat,
    /// The number of blocks that have been committed.
    pub committed: nat,
    /// The tolerated discarded transactions so far.
    pub discards: nat,
    /// The tolerated aborted transactions so far.
    pub aborts: nat,
    /// An abnormal outcome that the run does not tolerate has stopped it.
    pub halted: bool,
}

impl PipelineModel {
    /// A pipeline that has not seen any block yet.
    pub open spec fn fresh(config: PipelineConfig, total: nat, capacity: nat) -> PipelineModel {
        PipelineModel {
            config,
            total,
            capacity,
            generated: 0,
            executed: 0,
            committed: 0,
            discards: 0,
            aborts: 0,
            halted: false,
        }
    }

    /// The number of generated blocks that may wait for execution.
    pub open spec fn execute_backlog_limit(self) -> nat {
        if self.config.delay_execution_start {
            self.total
        } else if self.config.split_stages {
            self.capacity
        } else {
            1
        }
    }

    /// The number of executed blocks that may wait for commit.
    pub open spec fn commit_backlog_limit(self) -> nat {
        if self.config.split_stages {
            self.capacity
        } else {
            1
        }
    }

    /// No block is waiting for commit, or commits are left out.
    pub open spec fn commits_drained(self) -> bool {
        self.config.skip_commit || self.committed == self.executed
    }

    pub open spec fn wf(self) -> bool {
        &&& self.capacity >= 1
        &&& self.committed <= self.executed <= self.generated <= self.total
        &&& self.config.skip_commit ==> self.committed == 0
        &&& self.generated - self.executed <= self.execute_backlog_limit()
        &&& !self.config.skip_commit ==> self.executed - self.committed
            <= self.commit_backlog_limit()
        &&& self.config.delay_execution_start && self.executed > 0 ==> self.generated
            == self.total
        &&& !self.config.split_stages && !self.config.delay_execution_start && self.generated
            > self.executed ==> self.commits_drained()
    }

    /// The stage may finish its next block now.
    pub open spec fn enabled(self, stage: Stage) -> bool {
        !self.halted && match stage {
            Stage::Generate => {
                &&& self.generated < self.total
                &&& self.generated - self.executed < self.execute_backlog_limit()
                &&& (self.config.split_stages || self.config.delay_execution_start
                    || self.commits_drained())
            },
            Stage::Execute => {
                &&& self.executed < self.generated
                &&& (self.config.delay_execution_start ==> self.generated == self.total)
                &&& (self.config.skip_commit || self.executed - self.committed
                    < self.commit_backlog_limit())
            },
            Stage::Commit => !self.config.skip_commit && self.committed < self.executed,
        }
    }

    /// Every block has gone through every stage of the run.
    pub open spec fn finished(self) -> bool {
        &&& self.generated == self.total
        &&& self.executed == self.total
        &&& self.commits_drained()
    }

    /// The stage that an event comes from.
    pub open spec fn stage_of(event: PipelineEvent) -> Stage {
        match event {
            PipelineEvent::Generated => Stage::Generate,
            PipelineEvent::Executed { .. } => Stage::Execute,
            PipelineEvent::Committed => Stage::Commit,
        }
    }

    /// The answer to an event: the number of the block that the stage has
    /// finished, or why the event is refused.
    pub open spec fn verdict(self, event: PipelineEvent) -> Result<usize, PipelineError> {
        if !self.enabled(Self::stage_of(event)) {
            Err(PipelineError::StageNotReady(Self::stage_of(event)))
        } else {
            match event {
                PipelineEvent::Generated => Ok(self.generated as usize),
                PipelineEvent::Executed { discards, aborts } => {
                    if discards > 0 && !self.config.allow_discards {
                        Err(
                            PipelineError::Discarded {
                                block: self.executed as usize,
                                count: discards,
                            },
                        )
                    } else if aborts > 0 && !self.config.allow_aborts {
                        Err(PipelineError::Aborted { block: self.executed as usize, count: aborts })
                    } else {
                        Ok(self.executed as usize)
                    }
                },
                PipelineEvent::Committed => Ok(self.committed as usize),
            }
        }
    }

    /// The state after an event. A refused event changes nothing, but that
    /// an outcome which the run does not tolerate halts the pipeline.
    pub open spec fn step(self, event: PipelineEvent) -> PipelineModel {
        match self.verdict(event) {
            Err(PipelineError::StageNotReady(_)) => self,
            Err(_) => PipelineModel { halted: true, ..self },
            Ok(_) => match event {
                PipelineEvent::Generated => PipelineModel {
                    generated: self.generated + 1,
                    ..self
                },
                PipelineEvent::Executed { discards, aborts } => PipelineModel {
                    executed: self.executed + 1,
                    discards: self.discards + discards as nat,
                    aborts: self.aborts + aborts as nat,
                    ..self
                },
                PipelineEvent::Committed => PipelineModel {
                    committed: self.committed + 1,
                    ..self
                },
            },
        }
    }

    /// The state after a sequence of events.
    pub open spec fn run(self, events: Seq<PipelineEvent>) -> PipelineModel
        decreases events.len(),
    {
        if events.len() == 0 {
            self
        } else {
            self.step(events[0]).run(events.skip(1))
        }
    }

    /// The numbers of the blocks committed by a sequence of events, in the
    /// order of the commits.
    pub open spec fn commit_log(self, events: Seq<PipelineEvent>) -> Seq<nat>
        decreases events.len(),
    {
        if events.len() == 0 {
            Seq::empty()
        } else {
            let rest = self.step(events[0]).commit_log(events.skip(1));
            if events[0] is Committed && self.verdict(events[0]) is Ok {
                seq![self.committed] + rest
            } else {
                rest
            }
        }
    }
}

/// A fresh pipeline is well-formed.
pub proof fn lemma_fresh_is_wf(config: PipelineConfig, total: nat, capacity: nat)
    requires
        capacity >= 1,
    ensures
        PipelineModel::fresh(config, total, capacity).wf(),
{
}

/// An event keeps a well-formed pipeline well-formed, and never takes back
/// what a stage has done.
pub proof fn lemma_step_preserves_wf(state: PipelineModel, event: PipelineEvent)
    requires
        state.wf(),
    ensures
        state.step(event).wf(),
        state.step(event).config == state.config,
        state.step(event).total == state.total,
        state.step(event).capacity == state.capacity,
        state.step(event).generated >= state.generated,
        state.step(event).executed >= state.executed,
        state.step(event).committed >= state.committed,
{
}

/// Any sequence of events keeps a well-formed pipeline well-formed.
pub proof fn lemma_run_preserves_wf(state: PipelineModel, events: Seq<PipelineEvent>)
    requires
        state.wf(),
    ensures
        state.run(events).wf(),
        state.run(events).config == state.config,
        state.run(events).total == state.total,
        state.run(events).committed >= state.committed,
    decreases events.len(),
{
    if events.len() > 0 {
        lemma_step_preserves_wf(state, events[0]);
        lemma_run_preserves_wf(state.step(events[0]), events.skip(1));
    }
}

/// Commits come in block order: whatever the events, the blocks committed
/// are the next ones after those already committed, each once and none left
/// out, so that no block is committed before its predecessor.
pub proof fn lemma_commits_in_block_order(state: PipelineModel, events: Seq<PipelineEvent>)
    requires
        state.wf(),
    ensures
        state.commit_log(events).len() == state.run(events).committed - state.committed,
        forall|k: int|
            0 <= k < state.commit_log(events).len() ==> #[trigger] state.commit_log(events)[k]
                == state.committed + k,
    decreases events.len(),
{
    if events.len() > 0 {
        let next = state.step(events[0]);
        lemma_step_preserves_wf(state, events[0]);
        lemma_commits_in_block_order(next, events.skip(1));
        let rest = next.commit_log(events.skip(1));
        if events[0] is Committed && state.verdict(events[0]) is Ok {
            assert forall|k: int| 0 <= k < state.commit_log(events).len() implies
                #[trigger] state.commit_log(events)[k] == state.committed + k by {
                if k > 0 {
                    assert(state.commit_log(events)[k] == rest[k - 1]);
                }
            }
        }
    }
}

/// A block is committed only after it has been executed, and executed only
/// after it has been generated: when a stage's event is accepted, the stage
/// before it has already finished that block.
pub proof fn lemma_no_stage_runs_ahead(state: PipelineModel, event: PipelineEvent)
    requires
        state.wf(),
        state.verdict(event) is Ok,
    ensures
        event is Executed ==> state.verdict(event).unwrap() < state.generated,
        event is Committed ==> state.verdict(event).unwrap() < state.executed,
{
}

/// A run that leaves commits out never commits a block: no commit event is
/// accepted, whatever the events.
pub proof fn lemma_skip_commit_never_commits(state: PipelineModel, events: Seq<PipelineEvent>)
    requires
        state.wf(),
        state.config.skip_commit,
    ensures
        !state.enabled(Stage::Commit),
        state.run(events).committed == 0,
        state.commit_log(events).len() == 0,
    decreases events.len(),
{
    if events.len() > 0 {
        lemma_step_preserves_wf(state, events[0]);
        lemma_skip_commit_never_commits(state.step(events[0]), events.skip(1));
    }
}

/// The queues cannot bring the pipeline to a standstill: as long as it has
/// neither finished nor halted, some stage may work.
pub proof fn lemma_some_stage_is_enabled(state: PipelineModel)
    requires
        state.wf(),
        !state.halted,
        !state.finished(),
    ensures
        state.enabled(Stage::Generate) || state.enabled(Stage::Execute) || state.enabled(
            Stage::Commit,
        ),
{
}

/// Without split stages and without a delayed start, one block at a time is
/// in the pipeline: a block is generated only when every earlier block has
/// been executed and, unless commits are left out, committed.
pub proof fn lemma_sequential_runs_one_block_at_a_time(state: PipelineModel)
    requires
        state.wf(),
        !state.config.split_stages,
        !state.config.delay_execution_start,
    ensures
        state.generated - state.executed <= 1,
        state.enabled(Stage::Generate) ==> state.executed == state.generated
            && state.commits_drained(),
{
}

/// With a delayed start no block is executed before all are generated.
pub proof fn lemma_delayed_start_generates_first(state: PipelineModel)
    requires
        state.wf(),
        state.config.delay_execution_start,
        state.enabled(Stage::Execute),
    ensures
        state.generated == state.total,
{
}

/// With split stages each queue holds at most `capacity` blocks.
pub proof fn lemma_split_queues_are_bounded(state: PipelineModel)
    requires
        state.wf(),
        state.config.split_stages,
    ensures
        !state.config.delay_execution_start ==> state.generated - state.executed
            <= state.capacity,
        !state.config.skip_commit ==> state.executed - state.committed <= state.capacity,
{
}

/// The pipeline of one run.
#[derive(Clone, Copy, Debug, PartialEq, Eq, Structural)]
pub struct Pipeline {
    config: PipelineConfig,
    total: usize,
    capacity: usize,
    generated: usize,
    executed: usize,
    committed: usize,
    discards: u128,
    aborts: u128,
    halted: bool,
}

impl View for Pipeline {
    type V = PipelineModel;

    closed spec fn view(&self) -> PipelineModel {
        PipelineModel {
            config: self.config,
            total: self.total as nat,
            capacity: self.capacity as nat,
            generated: self.generated as nat,
            executed: self.executed as nat,
            committed: self.committed as nat,
            discards: self.discards as nat,
            aborts: self.aborts as nat,
            halted: self.halted,
        }
    }
}

impl Pipeline {
    pub closed spec fn wf(&self) -> bool {
        &&& self@.wf()
        &&& self.discards <= self.executed * usize::MAX
        &&& self.aborts <= self.executed * usize::MAX
    }

    /// A pipeline for `total` blocks whose queues, when the stages are
    /// split, hold up to `capacity` blocks each. A queue holds at least one
    /// block: there is no pipeline of capacity zero.
    pub fn new(config: PipelineConfig, total: usize, capacity: usize) -> (pipeline: Option<
        Pipeline,
    >)
        ensures
            pipeline is Some <==> capacity >= 1,
            pipeline matches Some(p) ==> p.wf() && p@ == PipelineModel::fresh(
                config,
                total as nat,
                capacity as nat,
            ),
    {
        if capacity == 0 {
            return None;
        }
        let pipeline = Pipeline {
            config,
            total,
            capacity,
            generated: 0,
            executed: 0,
            committed: 0,
            discards: 0,
            aborts: 0,
            halted: false,
        };
        assert(pipeline.executed * usize::MAX == 0);
        Some(pipeline)
    }

    fn execute_backlog_limit(&self) -> (limit: usize)
        ensures
            limit == self@.execute_backlog_limit(),
    {
        if self.config.delay_execution_start {
            self.total
        } else if self.config.split_stages {
            self.capacity
        } else {
            1
        }
    }

    fn commit_backlog_limit(&self) -> (limit: usize)
        ensures
            limit == self@.commit_backlog_limit(),
    {
        if self.config.split_stages {
            self.capacity
        } else {
            1
        }
    }

    fn commits_drained(&self) -> (drained: bool)
        ensures
            drained == self@.commits_drained(),
    {
        self.config.skip_commit || self.committed == self.executed
    }

    /// Tells whether the stage may finish its next block now.
    pub fn enabled(&self, stage: Stage) -> (yes: bool)
        requires
            self.wf(),
        ensures
            yes == self@.enabled(stage),
    {
        if self.halted {
            return false;
        }
        match stage {
            Stage::Generate => {
                self.generated < self.total && self.generated - self.executed
                    < self.execute_backlog_limit() && (self.config.split_stages
                    || self.config.delay_execution_start || self.commits_drained())
            },
            Stage::Execute => {
                self.executed < self.generated && (!self.config.delay_execution_start
                    || self.generated == self.total) && (self.config.skip_commit || self.executed
                    - self.committed < self.commit_backlog_limit())
            },
            Stage::Commit => !self.config.skip_commit && self.committed < self.executed,
        }
    }

    /// Takes the report of a stage that has finished its next block, and
    /// answers with the number of that block. An event from a stage that may
    /// not work now is refused and changes nothing. Discarded or aborted
    /// transactions that the run tolerates are counted; those that it does
    /// not tolerate halt the pipeline.
    pub fn on_event(&mut self, event: PipelineEvent) -> (r: Result<usize, PipelineError>)
        requires
            old(self).wf(),
        ensures
            final(self).wf(),
            final(self)@ == old(self)@.step(event),
            r == old(self)@.verdict(event),
    {
        match event {
            PipelineEvent::Generated => {
                if !self.enabled(Stage::Generate) {
                    return Err(PipelineError::StageNotReady(Stage::Generate));
                }
                let block: usize = self.generated;
                self.generated = block + 1;
                Ok(block)
            },
            PipelineEvent::Executed { discards, aborts } => {
                if !self.enabled(Stage::Execute) {
                    return Err(PipelineError::StageNotReady(Stage::Execute));
                }
                let block: usize = self.executed;
                if discards > 0 && !self.config.allow_discards {
                    self.halted = true;
                    return Err(PipelineError::Discarded { block, count: discards });
                }
                if aborts > 0 && !self.config.allow_aborts {
                    self.halted = true;
                    return Err(PipelineError::Aborted { block, count: aborts });
                }
                proof {
                    let e = block as int;
                    let m = usize::MAX as int;
                    assert((e + 1) * m == e * m + m) by (nonlinear_arith);
                    assert((e + 1) * m <= m * m) by (nonlinear_arith)
                        requires
                            0 <= e + 1 <= m,
                    ;
                    assert(m * m < 0x1_0000_0000_0000_0000_0000_0000_0000_0000) by (nonlinear_arith)
                        requires
                            0 <= m < 0x1_0000_0000_0000_0000,
                    ;
                }
                self.discards = self.discards + discards as u128;
                self.aborts = self.aborts + aborts as u128;
                self.executed = block + 1;
                Ok(block)
            },
            PipelineEvent::Committed => {
                if !self.enabled(Stage::Commit) {
                    return Err(PipelineError::StageNotReady(Stage::Commit));
                }
                let block: usize = self.committed;
                self.committed = block + 1;
                Ok(block)
            },
        }
    }

    /// Tells whether every block has gone through every stage of the run.
    pub fn is_finished(&self) -> (yes: bool)
        ensures
            yes == self@.finished(),
    {
        self.generated == self.total && self.executed == self.total && self.commits_drained()
    }

    /// Tells whether an outcome that the run does not tolerate has stopped
    /// the pipeline.
    pub fn is_halted(&self) -> (yes: bool)
        ensures
            yes == self@.halted,
    {
        self.halted
    }

    pub fn config(&self) -> (config: PipelineConfig)
        ensures
            config == self@.config,
    {
        self.config
    }

    /// The number of blocks that the stage has finished.
    pub fn finished_blocks(&self, stage: Stage) -> (n: usize)
        ensures
            n == match stage {
                Stage::Generate => self@.generated,
                Stage::Execute => self@.executed,
                Stage::Commit => self@.committed,
            },
    {
        match stage {
            Stage::Generate => self.generated,
            Stage::Execute => self.executed,
            Stage::Commit => self.committed,
        }
    }

    /// The tolerated discarded transactions so far.
    pub fn discard_count(&self) -> (n: u128)
        ensures
            n == self@.discards,
    {
        self.discards
    }

    /// The tolerated aborted transactions so far.
    pub fn abort_count(&self) -> (n: u128)
        ensures
            n == self@.aborts,
    {
        self.aborts
    }
}

} // verus!
