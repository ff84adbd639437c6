use token_cursor::token_vec::{DrainError, TokenVec};

fn five_tokens() -> Vec<(char, usize)> {
    vec![('a', 10), ('b', 11), ('c', 12), ('d', 13), ('e', 14)]
}

#[test]
fn scenario_five_tokens() {
    let stream = five_tokens();
    let mut cursor = TokenVec::new(&stream);
    assert_eq!(cursor.len(), 5);

    let first = cursor.drain(2).unwrap();
    assert_eq!(first, &[('a', 10), ('b', 11)]);
    assert_eq!(cursor.len(), 3);

    let second = cursor.drain_to(4).unwrap();
    assert_eq!(second, &[('c', 12), ('d', 13)]);
    assert_eq!(cursor.len(), 1);

    assert_eq!(cursor.drain(2), Err(DrainError::OverConsumption));
    assert_eq!(cursor.len(), 1);

    let last = cursor.drain(1).unwrap();
    assert_eq!(last, &[('e', 14)]);
    assert_eq!(cursor.len(), 0);
}

#[test]
fn drain_lowers_remaining_by_n() {
    let stream = five_tokens();
    let mut cursor = TokenVec::new(&stream);
    let before = cursor.len();
    cursor.drain(3).unwrap();
    assert_eq!(cursor.len(), before - 3);
}

#[test]
fn drain_zero_always_succeeds_and_yields_nothing() {
    let stream = five_tokens();
    let mut cursor = TokenVec::new(&stream);
    assert_eq!(cursor.drain(0).unwrap(), &[] as &[(char, usize)]);
    assert_eq!(cursor.len(), 5);

    cursor.drain(5).unwrap();
    assert_eq!(cursor.len(), 0);
    assert_eq!(cursor.drain(0).unwrap(), &[] as &[(char, usize)]);
    assert_eq!(cursor.len(), 0);
}

#[test]
fn exhausting_drains_leave_zero_remaining() {
    let stream = five_tokens();
    let mut cursor = TokenVec::new(&stream);
    cursor.drain(1).unwrap();
    cursor.drain(3).unwrap();
    cursor.drain(0).unwrap();
    cursor.drain(1).unwrap();
    assert_eq!(cursor.len(), 0);
    assert!(cursor.drain(0).is_ok());
    assert_eq!(cursor.drain(1), Err(DrainError::OverConsumption));
}

#[test]
fn drain_to_then_remaining() {
    let stream = five_tokens();
    let mut cursor = TokenVec::new(&stream);
    cursor.drain_to(3).unwrap();
    assert_eq!(cursor.len(), stream.len() - 3);
}

#[test]
fn drain_to_backward_fails_without_consuming() {
    let stream = five_tokens();
    let mut cursor = TokenVec::new(&stream);
    cursor.drain(3).unwrap();
    assert_eq!(cursor.drain_to(2), Err(DrainError::BackwardDrain));
    assert_eq!(cursor.len(), 2);
    let rest = cursor.drain(2).unwrap();
    assert_eq!(rest, &[('d', 13), ('e', 14)]);
}

#[test]
fn drain_to_current_index_yields_nothing() {
    let stream = five_tokens();
    let mut cursor = TokenVec::new(&stream);
    cursor.drain(2).unwrap();
    assert_eq!(cursor.drain_to(2).unwrap(), &[] as &[(char, usize)]);
    assert_eq!(cursor.len(), 3);
}

#[test]
fn drain_to_past_end_fails_with_over_consumption() {
    let stream = five_tokens();
    let mut cursor = TokenVec::new(&stream);
    assert_eq!(cursor.drain_to(6), Err(DrainError::OverConsumption));
    assert_eq!(cursor.len(), 5);
}

#[test]
fn failed_calls_are_idempotent() {
    let stream = five_tokens();
    let mut cursor = TokenVec::new(&stream);
    cursor.drain(4).unwrap();

    assert_eq!(cursor.drain(2), Err(DrainError::OverConsumption));
    assert_eq!(cursor.len(), 1);
    assert_eq!(cursor.drain(2), Err(DrainError::OverConsumption));
    assert_eq!(cursor.len(), 1);

    assert_eq!(cursor.drain_to(3), Err(DrainError::BackwardDrain));
    assert_eq!(cursor.len(), 1);
    assert_eq!(cursor.drain_to(3), Err(DrainError::BackwardDrain));
    assert_eq!(cursor.len(), 1);
}

#[test]
fn empty_stream() {
    let stream: Vec<(char, usize)> = vec![];
    let mut cursor = TokenVec::new(&stream);
    assert_eq!(cursor.len(), 0);
    assert_eq!(cursor.drain(0).unwrap(), &[] as &[(char, usize)]);
    assert_eq!(cursor.drain(1), Err(DrainError::OverConsumption));
    assert_eq!(cursor.drain_to(0).unwrap(), &[] as &[(char, usize)]);
    assert_eq!(cursor.drain_to(1), Err(DrainError::OverConsumption));
    assert_eq!(cursor.len(), 0);
}

#[test]
fn views_pass_tokens_and_positions_through_unchanged() {
    let stream = five_tokens();
    let mut cursor = TokenVec::new(&stream);
    let view = cursor.drain(5).unwrap();
    assert_eq!(view, stream.as_slice());
}
