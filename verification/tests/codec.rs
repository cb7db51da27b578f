use executor_service::codec::{
    decode_request, decode_result, encode_request, encode_result, tag_execute_block,
    untag_execute_block, command_from_fields, CodecError, ExecuteBlockCommand,
    RemoteExecutionRequest, RemoteExecutionResult,
};

fn sample_command() -> ExecuteBlockCommand {
    ExecuteBlockCommand {
        sub_blocks: vec![vec![vec![1u8, 2u8]], vec![]],
        state_view: vec![9u8],
        concurrency_level: 4,
        maybe_block_gas_limit: Some(7),
    }
}

fn sample_request_bytes() -> Vec<u8> {
    vec![
        0u8, // variant tag
        2, // two groups
        1, 2, 1, 2, // group 0: one transaction of two bytes
        0, // group 1: empty
        1, 9, // state snapshot
        4, 0, 0, 0, 0, 0, 0, 0, // concurrency level
        1, 7, 0, 0, 0, 0, 0, 0, 0, // gas limit, present
    ]
}

#[test]
fn encode_request_writes_tag_then_fields() {
    let request = RemoteExecutionRequest::ExecuteBlock(sample_command());
    assert_eq!(encode_request(&request), Ok(sample_request_bytes()));
}

#[test]
fn decode_request_reads_tag_then_fields() {
    assert_eq!(
        decode_request(&sample_request_bytes()),
        Ok(RemoteExecutionRequest::ExecuteBlock(sample_command()))
    );
}

#[test]
fn request_round_trip_with_zero_shards_and_absent_gas_limit() {
    let request = RemoteExecutionRequest::ExecuteBlock(ExecuteBlockCommand {
        sub_blocks: vec![],
        state_view: vec![],
        concurrency_level: 0,
        maybe_block_gas_limit: None,
    });
    let bytes = encode_request(&request).unwrap();
    assert_eq!(bytes, vec![0u8, 0, 0, 0, 0, 0, 0, 0, 0, 0, 0, 0]);
    assert_eq!(decode_request(&bytes), Ok(request));
}

#[test]
fn request_round_trip_with_empty_sub_block() {
    let request = RemoteExecutionRequest::ExecuteBlock(ExecuteBlockCommand {
        sub_blocks: vec![vec![], vec![vec![]], vec![vec![0xffu8; 200]]],
        state_view: vec![1u8, 2, 3],
        concurrency_level: 16,
        maybe_block_gas_limit: Some(u64::MAX),
    });
    let bytes = encode_request(&request).unwrap();
    assert_eq!(decode_request(&bytes), Ok(request));
}

#[test]
fn request_bytes_agree_with_bcs_on_the_fields() {
    let command = sample_command();
    let fields = bcs::to_bytes(&(
        &command.sub_blocks,
        &command.state_view,
        command.concurrency_level as u64,
        command.maybe_block_gas_limit,
    ))
    .unwrap();
    let mut expected: Vec<u8> = vec![0u8];
    expected.extend_from_slice(&fields);
    assert_eq!(encode_request(&RemoteExecutionRequest::ExecuteBlock(command)), Ok(expected));
}

#[test]
fn decode_request_rejects_empty_input() {
    assert_eq!(decode_request(&[]), Err(CodecError::UnexpectedEnd));
}

#[test]
fn decode_request_rejects_wrong_tag() {
    let mut bytes = sample_request_bytes();
    bytes[0] = 1;
    assert_eq!(decode_request(&bytes), Err(CodecError::UnknownVariant(1)));
}

#[test]
fn decode_request_rejects_truncated_fields() {
    let mut bytes = sample_request_bytes();
    bytes.pop();
    assert_eq!(decode_request(&bytes), Err(CodecError::Malformed));
    assert_eq!(decode_request(&[0u8]), Err(CodecError::Malformed));
}

#[test]
fn decode_request_rejects_trailing_bytes() {
    let mut bytes = sample_request_bytes();
    bytes.push(0);
    assert_eq!(decode_request(&bytes), Err(CodecError::Malformed));
}

#[test]
fn decode_request_rejects_non_canonical_length() {
    // 0x80 0x00 is a two-byte way to write the length zero.
    let bytes: Vec<u8> = vec![0u8, 0x80, 0x00, 0, 0, 0, 0, 0, 0, 0, 0, 0, 0];
    assert_eq!(decode_request(&bytes), Err(CodecError::Malformed));
}

#[test]
fn decode_request_rejects_bad_option_tag() {
    let mut bytes = sample_request_bytes();
    let at = bytes.len() - 9;
    bytes[at] = 2;
    assert_eq!(decode_request(&bytes), Err(CodecError::Malformed));
}

#[test]
fn tag_and_untag_are_inverse() {
    let fields: Vec<u8> = vec![5u8, 6, 7];
    let tagged = tag_execute_block(&fields);
    assert_eq!(tagged, vec![0u8, 5, 6, 7]);
    assert_eq!(untag_execute_block(&tagged), Ok(&fields[..]));
    assert_eq!(untag_execute_block(&[3u8, 1]), Err(CodecError::UnknownVariant(3)));
    assert_eq!(untag_execute_block(&[]), Err(CodecError::UnexpectedEnd));
}

#[test]
fn command_from_fields_keeps_each_field() {
    let command = command_from_fields((vec![vec![vec![8u8]]], vec![1u8], 3, None)).unwrap();
    assert_eq!(
        command,
        ExecuteBlockCommand {
            sub_blocks: vec![vec![vec![8u8]]],
            state_view: vec![1u8],
            concurrency_level: 3,
            maybe_block_gas_limit: None,
        }
    );
}

#[test]
fn encode_result_of_outputs() {
    let result = RemoteExecutionResult { inner: Ok(vec![vec![vec![5u8]], vec![]]) };
    assert_eq!(encode_result(&result), Ok(vec![0u8, 2, 1, 1, 5, 0]));
}

#[test]
fn encode_result_of_status() {
    let result = RemoteExecutionResult { inner: Err(vec![3u8, 4]) };
    assert_eq!(encode_result(&result), Ok(vec![1u8, 2, 3, 4]));
}

#[test]
fn result_round_trip_each_variant() {
    let outputs = RemoteExecutionResult { inner: Ok(vec![vec![], vec![vec![1u8, 2], vec![]]]) };
    let bytes = encode_result(&outputs).unwrap();
    assert_eq!(decode_result(&bytes), Ok(outputs));
    let status = RemoteExecutionResult { inner: Err(vec![]) };
    let bytes = encode_result(&status).unwrap();
    assert_eq!(bytes, vec![1u8, 0]);
    assert_eq!(decode_result(&bytes), Ok(status));
    let none = RemoteExecutionResult { inner: Ok(vec![]) };
    let bytes = encode_result(&none).unwrap();
    assert_eq!(bytes, vec![0u8, 0]);
    assert_eq!(decode_result(&bytes), Ok(none));
}

#[test]
fn decode_result_rejects_malformed_bytes() {
    assert_eq!(decode_result(&[]), Err(CodecError::Malformed));
    assert_eq!(decode_result(&[2u8, 0]), Err(CodecError::Malformed));
    assert_eq!(decode_result(&[0u8, 1]), Err(CodecError::Malformed));
    assert_eq!(decode_result(&[1u8, 0, 0]), Err(CodecError::Malformed));
}

fn next(seed: &mut u64) -> u64 {
    *seed = seed.wrapping_mul(6364136223846793005).wrapping_add(1442695040888963407);
    *seed >> 33
}

fn bytes(seed: &mut u64, longest: u64) -> Vec<u8> {
    let len = next(seed) % (longest + 1);
    (0..len).map(|_| next(seed) as u8).collect()
}

fn groups(seed: &mut u64) -> Vec<Vec<Vec<u8>>> {
    let shards = next(seed) % 5;
    (0..shards)
        .map(|_| {
            let transactions = next(seed) % 4;
            (0..transactions).map(|_| bytes(seed, 300)).collect()
        })
        .collect()
}

#[test]
fn round_trip_over_many_envelopes() {
    let mut seed: u64 = 7;
    for _ in 0..200 {
        let request = RemoteExecutionRequest::ExecuteBlock(ExecuteBlockCommand {
            sub_blocks: groups(&mut seed),
            state_view: bytes(&mut seed, 1000),
            concurrency_level: next(&mut seed) as usize,
            maybe_block_gas_limit: if next(&mut seed) % 2 == 0 {
                None
            } else {
                Some(next(&mut seed))
            },
        });
        let encoded = encode_request(&request).unwrap();
        assert_eq!(encode_request(&request).unwrap(), encoded);
        assert_eq!(decode_request(&encoded), Ok(request));

        let result = RemoteExecutionResult {
            inner: if next(&mut seed) % 2 == 0 {
                Ok(groups(&mut seed))
            } else {
                Err(bytes(&mut seed, 50))
            },
        };
        let encoded = encode_result(&result).unwrap();
        assert_eq!(decode_result(&encoded), Ok(result));
    }
}

#[test]
fn long_sequences_use_multi_byte_lengths() {
    let request = RemoteExecutionRequest::ExecuteBlock(ExecuteBlockCommand {
        sub_blocks: vec![],
        state_view: vec![7u8; 128],
        concurrency_level: 1,
        maybe_block_gas_limit: None,
    });
    let encoded = encode_request(&request).unwrap();
    assert_eq!(&encoded[..4], &[0u8, 0, 0x80, 0x01]);
    assert_eq!(encoded.len(), 4 + 128 + 8 + 1);
    assert_eq!(decode_request(&encoded), Ok(request));
}
