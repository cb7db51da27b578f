//! The client side of remote block execution, without the connection: what
//! is sent, what is made of the answer, and when a failed exchange is tried
//! again. The owner of the connection sends the frame, reads the answer and
//! reports back.

use vstd::prelude::*;
use crate::codec::{
    command_fits, decode_result, encode_request, request_bytes, result_of_bytes, CodecError,
    ExecuteBlockCommand, ExecuteBlockCommandView, RemoteExecutionRequest,
    RemoteExecutionRequestView, RemoteExecutionResult, SubBlocksForShard, TransactionOutput,
    VMStatus,
};
use crate::frame::{encode_frame, frame_of, FrameError};
use crate::retry::{RetryDecision, RetryModel, RetryPolicy, RetryState};

verus! {

/// What the host does when a remote call has used up its attempts.
#[derive(Clone, Copy, Debug, PartialEq, Eq, Structural)]
pub enum ExhaustionPolicy {
    /// End the process: remote execution failure is fatal.
    Terminate,
    /// Hand the failure to the caller.
    Report,
}

/// Why a remote call cannot be made or its answer cannot be used. None of
/// these is tried again.
#[derive(Clone, Copy, Debug, PartialEq, Eq, Structural)]
pub enum RemoteCallError {
    /// The request has no encoding, or the answer is no result envelope.
    Codec(CodecError),
    /// The encoded request does not fit a frame.
    Frame(FrameError),
    /// The answer's shard count or one of its per-shard transaction counts
    /// differs from the request's.
    ShapeMismatch,
}

/// The number of transactions of each shard, in shard order.
pub open spec fn shape_of(groups: Seq<Seq<Seq<u8>>>) -> Seq<usize> {
    Seq::new(groups.len(), |i: int| groups[i].len() as usize)
}

/// The outputs have one group per shard of the shape, and in each group one
/// output per transaction.
pub open spec fn has_shape(outputs: Seq<Seq<Seq<u8>>>, shape: Seq<usize>) -> bool {
    &&& outputs.len() == shape.len()
    &&& forall|i: int| 0 <= i < outputs.len() ==> (#[trigger] outputs[i]).len() == shape[i]
}

/// What a call returns for a decoded answer: the remote status as it is, the
/// outputs if they have the request's shape, and a shape mismatch otherwise.
pub open spec fn concluded(
    shape: Seq<usize>,
    outcome: Result<Seq<Seq<Seq<u8>>>, Seq<u8>>,
) -> Result<Result<Seq<Seq<Seq<u8>>>, Seq<u8>>, RemoteCallError> {
    match outcome {
        Err(status) => Ok(Err(status)),
        Ok(outputs) => if has_shape(outputs, shape) {
            Ok(Ok(outputs))
        } else {
            Err(RemoteCallError::ShapeMismatch)
        },
    }
}

/// Outputs that a call hands to its caller have the request's shape: as
/// many groups as the request has shards, and in each group as many outputs
/// as the shard has transactions. Outputs of any other shape are refused.
pub proof fn lemma_returned_outputs_have_request_shape(
    sub_blocks: Seq<Seq<Seq<u8>>>,
    outputs: Seq<Seq<Seq<u8>>>,
)
    requires
        forall|i: int| 0 <= i < sub_blocks.len() ==> (#[trigger] sub_blocks[i]).len() <= usize::MAX,
    ensures
        concluded(shape_of(sub_blocks), Ok(outputs)) is Ok <==> {
            &&& outputs.len() == sub_blocks.len()
            &&& forall|i: int|
                0 <= i < outputs.len() ==> (#[trigger] outputs[i]).len() == sub_blocks[i].len()
        },
        concluded(shape_of(sub_blocks), Ok(outputs)) is Ok ==> concluded(
            shape_of(sub_blocks),
            Ok(outputs),
        ) == Ok::<Result<Seq<Seq<Seq<u8>>>, Seq<u8>>, RemoteCallError>(Ok(outputs)),
        concluded(shape_of(sub_blocks), Ok(outputs)) is Err ==> concluded(
            shape_of(sub_blocks),
            Ok(outputs),
        ) == Err::<Result<Seq<Seq<Seq<u8>>>, Seq<u8>>, RemoteCallError>(
            RemoteCallError::ShapeMismatch,
        ),
{
    let shape = shape_of(sub_blocks);
    if has_shape(outputs, shape) {
        assert forall|i: int| 0 <= i < outputs.len() implies (#[trigger] outputs[i]).len()
            == sub_blocks[i].len() by {
            assert(sub_blocks[i].len() <= usize::MAX);
        }
    }
    if outputs.len() == sub_blocks.len() && (forall|i: int|
        0 <= i < outputs.len() ==> (#[trigger] outputs[i]).len() == sub_blocks[i].len()) {
        assert forall|i: int| 0 <= i < outputs.len() implies (#[trigger] outputs[i]).len()
            == shape[i] by {
            assert(sub_blocks[i].len() <= usize::MAX);
        }
    }
}

/// What a call returns for the bytes of an answer.
pub open spec fn answered(shape: Seq<usize>, payload: Seq<u8>) -> Result<
    Result<Seq<Seq<Seq<u8>>>, Seq<u8>>,
    RemoteCallError,
> {
    match result_of_bytes(payload) {
        Err(e) => Err(RemoteCallError::Codec(e)),
        Ok(outcome) => concluded(shape, outcome),
    }
}

/// What a returned value holds.
pub open spec fn returned_view(
    r: Result<Result<Vec<Vec<TransactionOutput>>, VMStatus>, RemoteCallError>,
) -> Result<Result<Seq<Seq<Seq<u8>>>, Seq<u8>>, RemoteCallError> {
    match r {
        Ok(Ok(outputs)) => Ok(Ok(outputs.deep_view())),
        Ok(Err(status)) => Ok(Err(status@)),
        Err(e) => Err(e),
    }
}

/// The number of transactions of each shard, in shard order.
pub fn shard_sizes(groups: &Vec<Vec<Vec<u8>>>) -> (shape: Vec<usize>)
    ensures
        shape@ == shape_of(groups.deep_view()),
{
    let mut shape: Vec<usize> = Vec::new();
    let n: usize = groups.len();
    let mut i: usize = 0;
    while i < n
        invariant
            i <= n,
            n == groups@.len(),
            shape@.len() == i,
            forall|k: int| 0 <= k < i ==> shape@[k] == (#[trigger] groups@[k])@.len(),
        decreases n - i,
    {
        shape.push(groups[i].len());
        i = i + 1;
    }
    assert(shape@ =~= shape_of(groups.deep_view()));
    shape
}

/// Tells whether the outputs have the shape.
pub fn check_shape(outputs: &Vec<Vec<TransactionOutput>>, shape: &Vec<usize>) -> (ok: bool)
    ensures
        ok == has_shape(outputs.deep_view(), shape@),
{
    if outputs.len() != shape.len() {
        return false;
    }
    let n: usize = outputs.len();
    let mut i: usize = 0;
    while i < n
        invariant
            i <= n,
            n == outputs@.len(),
            n == shape@.len(),
            forall|k: int| 0 <= k < i ==> (#[trigger] outputs@[k])@.len() == shape@[k],
        decreases n - i,
    {
        if outputs[i].len() != shape[i] {
            assert(outputs.deep_view()[i as int].len() != shape@[i as int]);
            return false;
        }
        i = i + 1;
    }
    assert forall|k: int| 0 <= k < outputs.deep_view().len() implies (
    #[trigger] outputs.deep_view()[k]).len() == shape@[k] by {
        assert(outputs@[k]@.len() == shape@[k]);
    }
    true
}

/// Makes of a decoded answer what the call returns: a remote status goes to
/// the caller as it is; outputs go to the caller if they have the shape of
/// the request, and are refused if they have not.
pub fn conclude(shape: &Vec<usize>, result: RemoteExecutionResult) -> (r: Result<
    Result<Vec<Vec<TransactionOutput>>, VMStatus>,
    RemoteCallError,
>)
    ensures
        returned_view(r) == concluded(shape@, result@),
{
    match result.inner {
        Err(status) => Ok(Err(status)),
        Ok(outputs) => {
            if check_shape(&outputs, shape) {
                Ok(Ok(outputs))
            } else {
                Err(RemoteCallError::ShapeMismatch)
            }
        },
    }
}

/// The outputs of a block in the order of its transactions: shard after
/// shard, and within a shard in the shard's order.
pub open spec fn in_block_order(outputs: Seq<Seq<Seq<u8>>>) -> Seq<Seq<u8>> {
    outputs.flatten()
}

/// Puts the outputs of all shards into one list, shard after shard, each
/// shard's outputs in their order.
pub fn reassemble(outputs: &Vec<Vec<TransactionOutput>>) -> (flat: Vec<TransactionOutput>)
    ensures
        flat.deep_view() == in_block_order(outputs.deep_view()),
{
    let mut flat: Vec<TransactionOutput> = Vec::new();
    let n: usize = outputs.len();
    let mut i: usize = 0;
    assert(outputs.deep_view().subrange(0, 0) =~= Seq::<Seq<Seq<u8>>>::empty());
    assert(flat.deep_view() =~= Seq::<Seq<u8>>::empty());
    while i < n
        invariant
            i <= n,
            n == outputs@.len(),
            flat.deep_view() == outputs.deep_view().subrange(0, i as int).flatten(),
        decreases n - i,
    {
        let group = &outputs[i];
        let m: usize = group.len();
        let ghost before = flat.deep_view();
        let mut j: usize = 0;
        while j < m
            invariant
                j <= m,
                m == group@.len(),
                flat.deep_view() == before + group.deep_view().subrange(0, j as int),
            decreases m - j,
        {
            let ghost earlier = flat.deep_view();
            let ghost held = flat@;
            let output = group[j].clone();
            assert(output@ =~= group@[j as int]@);
            assert(output.deep_view() =~= group@[j as int].deep_view());
            flat.push(output);
            j = j + 1;
            assert(flat@ =~= held.push(output));
            assert forall|k: int| 0 <= k < flat@.len() implies #[trigger] flat.deep_view()[k]
                == earlier.push(output.deep_view())[k] by {
                if k < held.len() {
                    assert(flat@[k] == held[k]);
                }
            }
            assert(flat.deep_view() =~= earlier.push(output.deep_view()));
            assert(flat.deep_view() =~= before + group.deep_view().subrange(0, j as int));
        }
        assert(group.deep_view().subrange(0, m as int) =~= group.deep_view());
        proof {
            let done = outputs.deep_view().subrange(0, i as int);
            assert(outputs.deep_view().subrange(0, i + 1) =~= done.push(group.deep_view()));
            done.lemma_flatten_push(group.deep_view());
        }
        i = i + 1;
    }
    assert(outputs.deep_view().subrange(0, n as int) =~= outputs.deep_view());
    flat
}

/// What a `RemoteCall` holds.
pub struct RemoteCallView {
    /// The frame to send, the same at every attempt.
    pub frame: Seq<u8>,
    /// The number of transactions of each shard of the request.
    pub shape: Seq<usize>,
    pub retry: RetryModel,
}

/// One remote execution of one block, from the first attempt to its end.
#[derive(Debug)]
pub struct RemoteCall {
    frame: Vec<u8>,
    shape: Vec<usize>,
    retry: RetryState,
}

impl View for RemoteCall {
    type V = RemoteCallView;

    closed spec fn view(&self) -> RemoteCallView {
        RemoteCallView { frame: self.frame@, shape: self.shape@, retry: self.retry@ }
    }
}

impl RemoteCall {
    pub closed spec fn wf(&self) -> bool {
        self.retry.wf()
    }

    /// The frame to send at each attempt.
    pub fn frame(&self) -> (frame: &Vec<u8>)
        ensures
            frame@ == self@.frame,
    {
        &self.frame
    }

    /// The number of attempts made so far.
    pub fn attempts(&self) -> (n: usize)
        requires
            self.wf(),
        ensures
            n == self@.retry.attempts(),
    {
        self.retry.attempts()
    }

    /// The exchange failed on the connection. The call decides whether the
    /// same frame is sent again after the fixed delay, or no more.
    pub fn on_transport_failure(&mut self) -> (decision: RetryDecision)
        requires
            old(self).wf(),
        ensures
            final(self).wf(),
            final(self)@.frame == old(self)@.frame,
            final(self)@.shape == old(self)@.shape,
            final(self)@.retry == old(self)@.retry.step(false),
            decision == old(self)@.retry.decision(),
    {
        self.retry.on_failure()
    }

    /// The exchange brought an answer. The call is over, whatever the answer
    /// holds: bytes that are no result envelope and outputs of another shape
    /// than the request's are refused, and nothing is tried again.
    pub fn on_response(&mut self, payload: &[u8]) -> (r: Result<
        Result<Vec<Vec<TransactionOutput>>, VMStatus>,
        RemoteCallError,
    >)
        requires
            old(self).wf(),
        ensures
            final(self).wf(),
            final(self)@.frame == old(self)@.frame,
            final(self)@.shape == old(self)@.shape,
            final(self)@.retry == old(self)@.retry.step(true),
            returned_view(r) == answered(old(self)@.shape, payload@),
    {
        self.retry.on_success();
        match decode_result(payload) {
            Err(e) => Err(RemoteCallError::Codec(e)),
            Ok(result) => conclude(&self.shape, result),
        }
    }
}

/// A client of one remote executor: where it is, how long the connection
/// waits, and how failed exchanges are tried again.
#[derive(Clone, Debug)]
pub struct RemoteExecutorClient1 {
    server_address: String,
    network_timeout_ms: u64,
    retry_policy: RetryPolicy,
    exhaustion_policy: ExhaustionPolicy,
}

impl RemoteExecutorClient1 {
    pub closed spec fn spec_server_address(&self) -> String {
        self.server_address
    }

    pub closed spec fn spec_network_timeout_ms(&self) -> u64 {
        self.network_timeout_ms
    }

    pub closed spec fn spec_retry_policy(&self) -> RetryPolicy {
        self.retry_policy
    }

    pub closed spec fn spec_exhaustion_policy(&self) -> ExhaustionPolicy {
        self.exhaustion_policy
    }

    pub open spec fn wf(&self) -> bool {
        self.spec_retry_policy().wf()
    }

    /// A client of the executor at `server_address`, with the standard retry
    /// policy, that ends the process when a call is exhausted.
    pub fn new(server_address: String, network_timeout_ms: u64) -> (client: RemoteExecutorClient1)
        ensures
            client.wf(),
            client.spec_server_address() == server_address,
            client.spec_network_timeout_ms() == network_timeout_ms,
            client.spec_retry_policy().spec_max_attempts() == 5,
            client.spec_retry_policy().spec_delay_ms() == 20,
            client.spec_exhaustion_policy() == ExhaustionPolicy::Terminate,
    {
        RemoteExecutorClient1 {
            server_address,
            network_timeout_ms,
            retry_policy: RetryPolicy::standard(),
            exhaustion_policy: ExhaustionPolicy::Terminate,
        }
    }

    /// The same client with another retry policy.
    pub fn with_retry_policy(self, retry_policy: RetryPolicy) -> (client: RemoteExecutorClient1)
        requires
            retry_policy.wf(),
        ensures
            client.wf(),
            client.spec_server_address() == self.spec_server_address(),
            client.spec_network_timeout_ms() == self.spec_network_timeout_ms(),
            client.spec_retry_policy() == retry_policy,
            client.spec_exhaustion_policy() == self.spec_exhaustion_policy(),
    {
        RemoteExecutorClient1 {
            server_address: self.server_address,
            network_timeout_ms: self.network_timeout_ms,
            retry_policy,
            exhaustion_policy: self.exhaustion_policy,
        }
    }

    /// The same client with another answer to exhausted calls.
    pub fn with_exhaustion_policy(self, exhaustion_policy: ExhaustionPolicy) -> (client:
        RemoteExecutorClient1)
        ensures
            client.spec_server_address() == self.spec_server_address(),
            client.spec_network_timeout_ms() == self.spec_network_timeout_ms(),
            client.spec_retry_policy() == self.spec_retry_policy(),
            client.spec_exhaustion_policy() == exhaustion_policy,
    {
        RemoteExecutorClient1 {
            server_address: self.server_address,
            network_timeout_ms: self.network_timeout_ms,
            retry_policy: self.retry_policy,
            exhaustion_policy,
        }
    }

    pub fn server_address(&self) -> (address: &String)
        ensures
            *address == self.spec_server_address(),
    {
        &self.server_address
    }

    pub fn network_timeout_ms(&self) -> (ms: u64)
        ensures
            ms == self.spec_network_timeout_ms(),
    {
        self.network_timeout_ms
    }

    pub fn retry_policy(&self) -> (policy: RetryPolicy)
        ensures
            policy == self.spec_retry_policy(),
    {
        self.retry_policy
    }

    pub fn exhaustion_policy(&self) -> (policy: ExhaustionPolicy)
        ensures
            policy == self.spec_exhaustion_policy(),
    {
        self.exhaustion_policy
    }

    /// Starts the remote execution of a block: puts the four parts into one
    /// command, wraps it as a request, encodes and frames it. No attempt has
    /// been made yet when this returns.
    pub fn execute_block(
        &self,
        sub_blocks: SubBlocksForShard,
        state_view: Vec<u8>,
        concurrency_level: usize,
        maybe_block_gas_limit: Option<u64>,
    ) -> (r: Result<RemoteCall, RemoteCallError>)
        requires
            self.wf(),
        ensures
            ({
                let command = ExecuteBlockCommandView {
                    sub_blocks: sub_blocks.deep_view(),
                    state_view: state_view@,
                    concurrency_level,
                    maybe_block_gas_limit,
                };
                let bytes = request_bytes(RemoteExecutionRequestView::ExecuteBlock(command));
                match r {
                    Ok(call) => {
                        &&& command_fits(command)
                        &&& bytes.len() <= u32::MAX
                        &&& call.wf()
                        &&& call@.frame == frame_of(bytes)
                        &&& call@.shape == shape_of(sub_blocks.deep_view())
                        &&& call@.retry == RetryModel::fresh(
                            self.spec_retry_policy().spec_max_attempts() as nat,
                            self.spec_retry_policy().spec_delay_ms() as nat,
                        )
                    },
                    Err(e) => if !command_fits(command) {
                        e == RemoteCallError::Codec(CodecError::SequenceTooLong)
                    } else {
                        bytes.len() > u32::MAX && e == RemoteCallError::Frame(
                            FrameError::DataTooLarge(bytes.len() as usize),
                        )
                    },
                }
            }),
    {
        let shape = shard_sizes(&sub_blocks);
        let request = RemoteExecutionRequest::ExecuteBlock(
            ExecuteBlockCommand {
                sub_blocks,
                state_view,
                concurrency_level,
                maybe_block_gas_limit,
            },
        );
        let bytes = match encode_request(&request) {
            Ok(bytes) => bytes,
            Err(e) => { return Err(RemoteCallError::Codec(e)); },
        };
        let frame = match encode_frame(bytes.as_slice()) {
            Ok(frame) => frame,
            Err(e) => { return Err(RemoteCallError::Frame(e)); },
        };
        Ok(RemoteCall { frame, shape, retry: RetryState::new(self.retry_policy) })
    }
}

} // verus!
