//! The wire codec: request and result envelopes to and from bytes.
//!
//! Transactions, state snapshots, transaction outputs and execution statuses
//! are carried, not interpreted: each travels as the bytes that its owner
//! made of it. The envelopes around them are written in BCS by the `bcs`
//! crate; what this module takes on trust of that crate is said at the four
//! functions that call it.

use vstd::prelude::*;

verus! {

/// A transaction with its analysis, as opaque bytes.
pub type AnalyzedTransaction = Vec<u8>;

/// The transactions of one block, grouped by shard: the position of a group
/// is its shard's index, and each group keeps its shard's order.
pub type SubBlocksForShard = Vec<Vec<AnalyzedTransaction>>;

/// The outcome of one transaction, as opaque bytes.
pub type TransactionOutput = Vec<u8>;

/// The status with which the remote executor refused a block, as opaque bytes.
pub type VMStatus = Vec<u8>;

/// The longest sequence that BCS writes or reads: 2^31 - 1 items.
pub const MAX_SEQUENCE_LENGTH: usize = 0x7fff_ffff;

/// The tag of the only request variant.
pub const EXECUTE_BLOCK_TAG: u8 = 0;

/// Why bytes are no envelope, or an envelope has no bytes.
#[derive(Clone, Copy, Debug, PartialEq, Eq, Structural)]
pub enum CodecError {
    /// Encoding: a sequence is longer than `MAX_SEQUENCE_LENGTH`.
    SequenceTooLong,
    /// Decoding: the input ends before the variant tag.
    UnexpectedEnd,
    /// Decoding: the variant tag, given here, names no variant.
    UnknownVariant(u8),
    /// Decoding: the bytes after the tag are not the variant's fields in
    /// canonical form: too few, too many, or not canonical.
    Malformed,
    /// Decoding: the concurrency level, given here, does not fit this
    /// machine's `usize`.
    LevelOutOfRange(u64),
}

/// A complete, self-contained unit of remote work.
#[derive(Clone, Debug, PartialEq, Eq)]
pub struct ExecuteBlockCommand {
    pub sub_blocks: SubBlocksForShard,
    /// The snapshot of the state that the block reads, as opaque bytes.
    pub state_view: Vec<u8>,
    pub concurrency_level: usize,
    pub maybe_block_gas_limit: Option<u64>,
}

/// The request envelope.
#[derive(Clone, Debug, PartialEq, Eq)]
pub enum RemoteExecutionRequest {
    ExecuteBlock(ExecuteBlockCommand),
}

/// The result envelope: per shard and per transaction the outputs, or the
/// status with which the block was refused.
#[derive(Debug, PartialEq, Eq)]
pub struct RemoteExecutionResult {
    pub inner: Result<Vec<Vec<TransactionOutput>>, VMStatus>,
}

/// What an `ExecuteBlockCommand` holds.
pub struct ExecuteBlockCommandView {
    pub sub_blocks: Seq<Seq<Seq<u8>>>,
    pub state_view: Seq<u8>,
    pub concurrency_level: usize,
    pub maybe_block_gas_limit: Option<u64>,
}

/// What a `RemoteExecutionRequest` holds.
pub enum RemoteExecutionRequestView {
    ExecuteBlock(ExecuteBlockCommandView),
}

impl View for ExecuteBlockCommand {
    type V = ExecuteBlockCommandView;

    open spec fn view(&self) -> ExecuteBlockCommandView {
        ExecuteBlockCommandView {
            sub_blocks: self.sub_blocks.deep_view(),
            state_view: self.state_view@,
            concurrency_level: self.concurrency_level,
            maybe_block_gas_limit: self.maybe_block_gas_limit,
        }
    }
}

impl View for RemoteExecutionRequest {
    type V = RemoteExecutionRequestView;

    open spec fn view(&self) -> RemoteExecutionRequestView {
        match self {
            RemoteExecutionRequest::ExecuteBlock(command) => {
                RemoteExecutionRequestView::ExecuteBlock(command@)
            },
        }
    }
}

/// What an execution result holds.
pub open spec fn outcome_view(inner: Result<Vec<Vec<TransactionOutput>>, VMStatus>) -> Result<
    Seq<Seq<Seq<u8>>>,
    Seq<u8>,
> {
    match inner {
        Ok(outputs) => Ok(outputs.deep_view()),
        Err(status) => Err(status@),
    }
}

impl View for RemoteExecutionResult {
    type V = Result<Seq<Seq<Seq<u8>>>, Seq<u8>>;

    open spec fn view(&self) -> Result<Seq<Seq<Seq<u8>>>, Seq<u8>> {
        outcome_view(self.inner)
    }
}

/// No group list, group or item is longer than BCS allows.
pub open spec fn groups_fit(groups: Seq<Seq<Seq<u8>>>) -> bool {
    &&& groups.len() <= MAX_SEQUENCE_LENGTH
    &&& forall|i: int|
        0 <= i < groups.len() ==> (#[trigger] groups[i]).len() <= MAX_SEQUENCE_LENGTH
    &&& forall|i: int, j: int|
        0 <= i < groups.len() && 0 <= j < groups[i].len() ==> (#[trigger] groups[i][j]).len()
            <= MAX_SEQUENCE_LENGTH
}

/// Neither the groups nor the snapshot hold a sequence longer than BCS
/// allows.
pub open spec fn fields_fit(sub_blocks: Seq<Seq<Seq<u8>>>, state_view: Seq<u8>) -> bool {
    groups_fit(sub_blocks) && state_view.len() <= MAX_SEQUENCE_LENGTH
}

/// No sequence of the command is longer than BCS allows.
pub open spec fn command_fits(command: ExecuteBlockCommandView) -> bool {
    fields_fit(command.sub_blocks, command.state_view)
}

/// No sequence of the result is longer than BCS allows.
pub open spec fn outcome_fits(outcome: Result<Seq<Seq<Seq<u8>>>, Seq<u8>>) -> bool {
    match outcome {
        Ok(outputs) => groups_fit(outputs),
        Err(status) => status.len() <= MAX_SEQUENCE_LENGTH,
    }
}

/// The bytes that `bcs::to_bytes` makes of the four fields of a command,
/// taken as a tuple.
pub uninterp spec fn bcs_command_bytes(
    sub_blocks: Seq<Seq<Seq<u8>>>,
    state_view: Seq<u8>,
    concurrency_level: u64,
    maybe_block_gas_limit: Option<u64>,
) -> Seq<u8>;

/// The four fields that `bcs::from_bytes` reads from bytes, where it accepts
/// them as a command's tuple.
pub uninterp spec fn bcs_command_parsed(bytes: Seq<u8>) -> Option<
    (Seq<Seq<Seq<u8>>>, Seq<u8>, u64, Option<u64>),
>;

/// The bytes that `bcs::to_bytes` makes of an execution result.
pub uninterp spec fn bcs_outcome_bytes(outcome: Result<Seq<Seq<Seq<u8>>>, Seq<u8>>) -> Seq<u8>;

/// The execution result that `bcs::from_bytes` reads from bytes, where it
/// accepts them as one.
pub uninterp spec fn bcs_outcome_parsed(bytes: Seq<u8>) -> Option<
    Result<Seq<Seq<Seq<u8>>>, Seq<u8>>,
>;

#[verifier::external_type_specification]
#[verifier::external_body]
pub struct ExBcsError(bcs::Error);

/// `bcs::to_bytes` on the tuple of a command's fields. Taken on trust: it
/// fails exactly when a sequence is longer than `MAX_SEQUENCE_LENGTH`; its
/// output depends on the fields alone; and BCS being canonical,
/// `bcs::from_bytes` reads that output back as the same fields.
#[verifier::external_body]
fn bcs_encode_command(
    sub_blocks: &Vec<Vec<Vec<u8>>>,
    state_view: &Vec<u8>,
    concurrency_level: u64,
    maybe_block_gas_limit: Option<u64>,
) -> (r: Result<Vec<u8>, bcs::Error>)
    ensures
        r is Ok <==> fields_fit(sub_blocks.deep_view(), state_view@),
        r matches Ok(bytes) ==> bytes@ == bcs_command_bytes(
            sub_blocks.deep_view(),
            state_view@,
            concurrency_level,
            maybe_block_gas_limit,
        ),
        r matches Ok(bytes) ==> bcs_command_parsed(bytes@) == Some(
            (sub_blocks.deep_view(), state_view@, concurrency_level, maybe_block_gas_limit),
        ),
{
    bcs::to_bytes(&(sub_blocks, state_view, concurrency_level, maybe_block_gas_limit))
}

/// `bcs::from_bytes` at the type of a command's tuple. Taken on trust: what
/// it returns depends on the bytes alone.
#[verifier::external_body]
fn bcs_decode_command(bytes: &[u8]) -> (r: Result<
    (Vec<Vec<Vec<u8>>>, Vec<u8>, u64, Option<u64>),
    bcs::Error,
>)
    ensures
        match r {
            Ok(fields) => bcs_command_parsed(bytes@) == Some(
                (fields.0.deep_view(), fields.1@, fields.2, fields.3),
            ),
            Err(_) => bcs_command_parsed(bytes@) is None,
        },
{
    bcs::from_bytes(bytes)
}

/// `bcs::to_bytes` on an execution result. Taken on trust: it fails exactly
/// when a sequence is longer than `MAX_SEQUENCE_LENGTH`; its output depends
/// on the result alone; and BCS being canonical, `bcs::from_bytes` reads
/// that output back as the same result.
#[verifier::external_body]
fn bcs_encode_outcome(outcome: &Result<Vec<Vec<Vec<u8>>>, Vec<u8>>) -> (r: Result<
    Vec<u8>,
    bcs::Error,
>)
    ensures
        r is Ok <==> outcome_fits(outcome_view(*outcome)),
        r matches Ok(bytes) ==> bytes@ == bcs_outcome_bytes(outcome_view(*outcome)),
        r matches Ok(bytes) ==> bcs_outcome_parsed(bytes@) == Some(outcome_view(*outcome)),
{
    bcs::to_bytes(outcome)
}

/// `bcs::from_bytes` at the type of an execution result. Taken on trust:
/// what it returns depends on the bytes alone.
#[verifier::external_body]
fn bcs_decode_outcome(bytes: &[u8]) -> (r: Result<Result<Vec<Vec<Vec<u8>>>, Vec<u8>>, bcs::Error>)
    ensures
        match r {
            Ok(outcome) => bcs_outcome_parsed(bytes@) == Some(outcome_view(outcome)),
            Err(_) => bcs_outcome_parsed(bytes@) is None,
        },
{
    bcs::from_bytes(bytes)
}

/// The bytes of a request: the variant's tag, then the command's fields.
pub open spec fn request_bytes(request: RemoteExecutionRequestView) -> Seq<u8> {
    match request {
        RemoteExecutionRequestView::ExecuteBlock(command) => seq![EXECUTE_BLOCK_TAG]
            + bcs_command_bytes(
            command.sub_blocks,
            command.state_view,
            command.concurrency_level as u64,
            command.maybe_block_gas_limit,
        ),
    }
}

/// The command that four decoded fields make, or why they make none.
pub open spec fn command_of_fields(
    fields: (Seq<Seq<Seq<u8>>>, Seq<u8>, u64, Option<u64>),
) -> Result<ExecuteBlockCommandView, CodecError> {
    if fields.2 > usize::MAX {
        Err(CodecError::LevelOutOfRange(fields.2))
    } else {
        Ok(
            ExecuteBlockCommandView {
                sub_blocks: fields.0,
                state_view: fields.1,
                concurrency_level: fields.2 as usize,
                maybe_block_gas_limit: fields.3,
            },
        )
    }
}

/// The request that bytes stand for, or why they stand for none.
pub open spec fn request_of_bytes(bytes: Seq<u8>) -> Result<
    RemoteExecutionRequestView,
    CodecError,
> {
    if bytes.len() == 0 {
        Err(CodecError::UnexpectedEnd)
    } else if bytes[0] != EXECUTE_BLOCK_TAG {
        Err(CodecError::UnknownVariant(bytes[0]))
    } else {
        match bcs_command_parsed(bytes.skip(1)) {
            None => Err(CodecError::Malformed),
            Some(fields) => match command_of_fields(fields) {
                Ok(command) => Ok(RemoteExecutionRequestView::ExecuteBlock(command)),
                Err(e) => Err(e),
            },
        }
    }
}

/// The execution result that bytes stand for, or why they stand for none.
pub open spec fn result_of_bytes(bytes: Seq<u8>) -> Result<
    Result<Seq<Seq<Seq<u8>>>, Seq<u8>>,
    CodecError,
> {
    match bcs_outcome_parsed(bytes) {
        None => Err(CodecError::Malformed),
        Some(outcome) => Ok(outcome),
    }
}

/// Puts the tag of the execute-block variant before the encoded fields.
pub fn tag_execute_block(fields: &Vec<u8>) -> (bytes: Vec<u8>)
    ensures
        bytes@ == seq![EXECUTE_BLOCK_TAG] + fields@,
{
    let mut bytes: Vec<u8> = Vec::new();
    bytes.push(EXECUTE_BLOCK_TAG);
    let n: usize = fields.len();
    let mut i: usize = 0;
    while i < n
        invariant
            i <= n,
            n == fields@.len(),
            bytes@ == seq![EXECUTE_BLOCK_TAG] + fields@.subrange(0, i as int),
        decreases n - i,
    {
        bytes.push(fields[i]);
        i = i + 1;
        assert(bytes@ =~= seq![EXECUTE_BLOCK_TAG] + fields@.subrange(0, i as int));
    }
    assert(fields@.subrange(0, n as int) =~= fields@);
    bytes
}

/// Reads the variant tag of a request and returns the bytes after it.
pub fn untag_execute_block(bytes: &[u8]) -> (r: Result<&[u8], CodecError>)
    ensures
        match r {
            Ok(fields) => bytes@.len() > 0 && bytes@[0] == EXECUTE_BLOCK_TAG && fields@
                == bytes@.skip(1),
            Err(e) => e == (if bytes@.len() == 0 {
                CodecError::UnexpectedEnd
            } else {
                CodecError::UnknownVariant(bytes@[0])
            }) && (bytes@.len() == 0 || bytes@[0] != EXECUTE_BLOCK_TAG),
        },
{
    if bytes.len() == 0 {
        return Err(CodecError::UnexpectedEnd);
    }
    let tag: u8 = bytes[0];
    if tag != EXECUTE_BLOCK_TAG {
        return Err(CodecError::UnknownVariant(tag));
    }
    let fields = vstd::slice::slice_subrange(bytes, 1, bytes.len());
    assert(fields@ =~= bytes@.skip(1));
    Ok(fields)
}

/// Makes a command of four decoded fields. The concurrency level travels in
/// 64 bits and must fit this machine's `usize`.
pub fn command_from_fields(fields: (Vec<Vec<Vec<u8>>>, Vec<u8>, u64, Option<u64>)) -> (r: Result<
    ExecuteBlockCommand,
    CodecError,
>)
    ensures
        match r {
            Ok(command) => command_of_fields(
                (fields.0.deep_view(), fields.1@, fields.2, fields.3),
            ) == Ok::<ExecuteBlockCommandView, CodecError>(command@),
            Err(e) => command_of_fields((fields.0.deep_view(), fields.1@, fields.2, fields.3))
                == Err::<ExecuteBlockCommandView, CodecError>(e),
        },
{
    let (sub_blocks, state_view, level, maybe_block_gas_limit) = fields;
    if level > usize::MAX as u64 {
        return Err(CodecError::LevelOutOfRange(level));
    }
    Ok(
        ExecuteBlockCommand {
            sub_blocks,
            state_view,
            concurrency_level: level as usize,
            maybe_block_gas_limit,
        },
    )
}

/// Encodes a request. It fails exactly when a sequence in it is longer than
/// the format allows; the bytes of a request decode to that request.
pub fn encode_request(request: &RemoteExecutionRequest) -> (r: Result<Vec<u8>, CodecError>)
    ensures
        match r {
            Ok(bytes) => {
                &&& (request@ matches RemoteExecutionRequestView::ExecuteBlock(command)
                    && command_fits(command))
                &&& bytes@ == request_bytes(request@)
                &&& request_of_bytes(bytes@) == Ok::<RemoteExecutionRequestView, CodecError>(
                    request@,
                )
            },
            Err(e) => {
                &&& e == CodecError::SequenceTooLong
                &&& (request@ matches RemoteExecutionRequestView::ExecuteBlock(command)
                    && !command_fits(command))
            },
        },
{
    match request {
        RemoteExecutionRequest::ExecuteBlock(command) => {
            let encoded = bcs_encode_command(
                &command.sub_blocks,
                &command.state_view,
                command.concurrency_level as u64,
                command.maybe_block_gas_limit,
            );
            match encoded {
                Err(_) => Err(CodecError::SequenceTooLong),
                Ok(fields) => {
                    let bytes = tag_execute_block(&fields);
                    assert(bytes@.skip(1) =~= fields@);
                    Ok(bytes)
                },
            }
        },
    }
}

/// Decodes a request.
pub fn decode_request(bytes: &[u8]) -> (r: Result<RemoteExecutionRequest, CodecError>)
    ensures
        match r {
            Ok(request) => request_of_bytes(bytes@) == Ok::<
                RemoteExecutionRequestView,
                CodecError,
            >(request@),
            Err(e) => request_of_bytes(bytes@) == Err::<RemoteExecutionRequestView, CodecError>(
                e,
            ),
        },
{
    let fields = match untag_execute_block(bytes) {
        Ok(fields) => fields,
        Err(e) => { return Err(e); },
    };
    match bcs_decode_command(fields) {
        Err(_) => Err(CodecError::Malformed),
        Ok(parts) => match command_from_fields(parts) {
            Ok(command) => Ok(RemoteExecutionRequest::ExecuteBlock(command)),
            Err(e) => Err(e),
        },
    }
}

/// Encodes an execution result. It fails exactly when a sequence in it is
/// longer than the format allows; the bytes of a result decode to that
/// result.
pub fn encode_result(result: &RemoteExecutionResult) -> (r: Result<Vec<u8>, CodecError>)
    ensures
        match r {
            Ok(bytes) => {
                &&& outcome_fits(result@)
                &&& bytes@ == bcs_outcome_bytes(result@)
                &&& result_of_bytes(bytes@) == Ok::<
                    Result<Seq<Seq<Seq<u8>>>, Seq<u8>>,
                    CodecError,
                >(result@)
            },
            Err(e) => e == CodecError::SequenceTooLong && !outcome_fits(result@),
        },
{
    match bcs_encode_outcome(&result.inner) {
        Ok(bytes) => Ok(bytes),
        Err(_) => Err(CodecError::SequenceTooLong),
    }
}

/// Decodes an execution result.
pub fn decode_result(bytes: &[u8]) -> (r: Result<RemoteExecutionResult, CodecError>)
    ensures
        match r {
            Ok(result) => result_of_bytes(bytes@) == Ok::<
                Result<Seq<Seq<Seq<u8>>>, Seq<u8>>,
                CodecError,
            >(result@),
            Err(e) => result_of_bytes(bytes@) == Err::<
                Result<Seq<Seq<Seq<u8>>>, Seq<u8>>,
                CodecError,
            >(e),
        },
{
    match bcs_decode_outcome(bytes) {
        Ok(inner) => Ok(RemoteExecutionResult { inner }),
        Err(_) => Err(CodecError::Malformed),
    }
}

} // verus!
