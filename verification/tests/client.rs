use executor_service::client::{
    check_shape, conclude, reassemble, shard_sizes, ExhaustionPolicy, RemoteCallError,
    RemoteExecutorClient1,
};
use executor_service::codec::{
    decode_request, encode_result, CodecError, ExecuteBlockCommand, RemoteExecutionRequest,
    RemoteExecutionResult,
};
use executor_service::frame::FrameBuffer;
use executor_service::retry::{RetryDecision, RetryPolicy};

fn client() -> RemoteExecutorClient1 {
    RemoteExecutorClient1::new("127.0.0.1:8080".to_string(), 5000)
}

fn sub_blocks() -> Vec<Vec<Vec<u8>>> {
    vec![vec![vec![1u8], vec![2u8]], vec![], vec![vec![3u8]]]
}

fn answer(inner: Result<Vec<Vec<Vec<u8>>>, Vec<u8>>) -> Vec<u8> {
    encode_result(&RemoteExecutionResult { inner }).unwrap()
}

#[test]
fn new_client_has_standard_policies() {
    let c = client();
    assert_eq!(c.server_address(), "127.0.0.1:8080");
    assert_eq!(c.network_timeout_ms(), 5000);
    assert_eq!(c.retry_policy(), RetryPolicy::standard());
    assert_eq!(c.exhaustion_policy(), ExhaustionPolicy::Terminate);
    let c = c
        .with_retry_policy(RetryPolicy::fixed(2, 1).unwrap())
        .with_exhaustion_policy(ExhaustionPolicy::Report);
    assert_eq!(c.retry_policy().max_attempts(), 2);
    assert_eq!(c.exhaustion_policy(), ExhaustionPolicy::Report);
    assert_eq!(c.network_timeout_ms(), 5000);
}

#[test]
fn execute_block_frames_the_encoded_request() {
    let call = client().execute_block(sub_blocks(), vec![9u8], 4, None).unwrap();
    let mut buffer = FrameBuffer::new();
    buffer.extend(call.frame());
    let payload = buffer.next_frame().unwrap();
    assert_eq!(buffer.len(), 0);
    assert_eq!(
        decode_request(&payload),
        Ok(RemoteExecutionRequest::ExecuteBlock(ExecuteBlockCommand {
            sub_blocks: sub_blocks(),
            state_view: vec![9u8],
            concurrency_level: 4,
            maybe_block_gas_limit: None,
        }))
    );
    assert_eq!(call.attempts(), 0);
}

#[test]
fn outputs_of_the_request_shape_are_returned() {
    let mut call = client().execute_block(sub_blocks(), vec![], 1, Some(10)).unwrap();
    let outputs: Vec<Vec<Vec<u8>>> = vec![vec![vec![10u8], vec![20u8, 21]], vec![], vec![vec![]]];
    assert_eq!(call.on_response(&answer(Ok(outputs.clone()))), Ok(Ok(outputs)));
    assert_eq!(call.attempts(), 1);
}

#[test]
fn remote_status_is_passed_on() {
    let mut call = client().execute_block(sub_blocks(), vec![], 1, None).unwrap();
    assert_eq!(call.on_response(&answer(Err(vec![4u8, 2]))), Ok(Err(vec![4u8, 2])));
}

#[test]
fn wrong_shard_count_is_rejected() {
    let mut call = client().execute_block(sub_blocks(), vec![], 1, None).unwrap();
    let outputs: Vec<Vec<Vec<u8>>> = vec![vec![vec![10u8], vec![20u8]], vec![]];
    assert_eq!(call.on_response(&answer(Ok(outputs))), Err(RemoteCallError::ShapeMismatch));
}

#[test]
fn wrong_transaction_count_is_rejected() {
    let mut call = client().execute_block(sub_blocks(), vec![], 1, None).unwrap();
    let outputs: Vec<Vec<Vec<u8>>> = vec![vec![vec![10u8]], vec![vec![1u8]], vec![vec![]]];
    assert_eq!(call.on_response(&answer(Ok(outputs))), Err(RemoteCallError::ShapeMismatch));
}

#[test]
fn malformed_answer_is_fatal_and_not_retried() {
    let mut call = client().execute_block(sub_blocks(), vec![], 1, None).unwrap();
    assert_eq!(
        call.on_response(&[7u8, 7, 7]),
        Err(RemoteCallError::Codec(CodecError::Malformed))
    );
    assert_eq!(call.on_transport_failure(), RetryDecision::GiveUp);
    assert_eq!(call.attempts(), 1);
}

#[test]
fn retry_success_path_uses_the_connection_three_times() {
    let mut call = client().execute_block(sub_blocks(), vec![], 1, None).unwrap();
    let outputs: Vec<Vec<Vec<u8>>> = vec![vec![vec![], vec![]], vec![], vec![vec![1u8]]];
    let reply = answer(Ok(outputs.clone()));
    let first_frame: Vec<u8> = call.frame().clone();
    let mut uses: usize = 0;
    let mut pauses: Vec<u64> = Vec::new();
    let returned = loop {
        uses += 1;
        assert_eq!(call.frame(), &first_frame);
        if uses < 3 {
            match call.on_transport_failure() {
                RetryDecision::RetryAfter(ms) => pauses.push(ms),
                RetryDecision::GiveUp => panic!("gave up after {} attempts", uses),
            }
        } else {
            break call.on_response(&reply);
        }
    };
    assert_eq!(returned, Ok(Ok(outputs)));
    assert_eq!(uses, 3);
    assert_eq!(call.attempts(), 3);
    assert_eq!(pauses, vec![20u64, 20]);
}

#[test]
fn retry_exhaustion_after_five_attempts() {
    let mut call = client().execute_block(sub_blocks(), vec![], 1, None).unwrap();
    let mut uses: usize = 0;
    loop {
        uses += 1;
        if call.on_transport_failure() == RetryDecision::GiveUp {
            break;
        }
    }
    assert_eq!(uses, 5);
    assert_eq!(call.attempts(), 5);
    assert_eq!(call.on_transport_failure(), RetryDecision::GiveUp);
    assert_eq!(call.attempts(), 5);
}

#[test]
fn shorter_policy_can_be_substituted() {
    let c = client().with_retry_policy(RetryPolicy::fixed(2, 1).unwrap());
    let mut call = c.execute_block(vec![], vec![], 1, None).unwrap();
    assert_eq!(call.on_transport_failure(), RetryDecision::RetryAfter(1));
    assert_eq!(call.on_transport_failure(), RetryDecision::GiveUp);
}

#[test]
fn shape_helpers() {
    assert_eq!(shard_sizes(&sub_blocks()), vec![2usize, 0, 1]);
    assert_eq!(shard_sizes(&vec![]), Vec::<usize>::new());
    assert!(check_shape(&vec![vec![vec![], vec![]], vec![], vec![vec![9u8]]], &vec![2usize, 0, 1]));
    assert!(!check_shape(&vec![vec![vec![]], vec![]], &vec![1usize]));
    assert!(check_shape(&vec![], &vec![]));
    assert_eq!(
        conclude(&vec![1usize], RemoteExecutionResult { inner: Ok(vec![vec![vec![1u8]]]) }),
        Ok(Ok(vec![vec![vec![1u8]]]))
    );
    assert_eq!(
        conclude(&vec![1usize], RemoteExecutionResult { inner: Ok(vec![vec![]]) }),
        Err(RemoteCallError::ShapeMismatch)
    );
    assert_eq!(
        conclude(&vec![1usize], RemoteExecutionResult { inner: Err(vec![1u8]) }),
        Ok(Err(vec![1u8]))
    );
}

#[test]
fn reassemble_concatenates_in_shard_order() {
    let outputs: Vec<Vec<Vec<u8>>> =
        vec![vec![vec![1u8], vec![2u8, 2]], vec![], vec![vec![3u8]], vec![vec![], vec![4u8]]];
    assert_eq!(
        reassemble(&outputs),
        vec![vec![1u8], vec![2u8, 2], vec![3u8], vec![], vec![4u8]]
    );
    assert_eq!(reassemble(&vec![]), Vec::<Vec<u8>>::new());
    assert_eq!(reassemble(&vec![vec![], vec![]]), Vec::<Vec<u8>>::new());
}
