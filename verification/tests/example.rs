use aflpp_custom_mutator::example::{reverse_in_place, ExampleMutator};
use aflpp_custom_mutator::{CustomMutator, FuzzResult, NulTerminated};

#[test]
fn reverse_of_nothing_and_of_one_byte() {
    let mut empty: Vec<u8> = Vec::new();
    reverse_in_place(&mut empty);
    assert_eq!(empty, Vec::<u8>::new());
    let mut one = vec![7u8];
    reverse_in_place(&mut one);
    assert_eq!(one, vec![7u8]);
}

#[test]
fn reverse_of_even_and_odd_lengths() {
    let mut two = vec![1u8, 2];
    reverse_in_place(&mut two);
    assert_eq!(two, vec![2u8, 1]);
    let mut five = vec![1u8, 2, 3, 4, 5];
    reverse_in_place(&mut five);
    assert_eq!(five, vec![5u8, 4, 3, 2, 1]);
    let mut six = vec![1u8, 2, 3, 4, 5, 6];
    reverse_in_place(&mut six);
    assert_eq!(six, vec![6u8, 5, 4, 3, 2, 1]);
}

#[test]
fn reverse_twice_is_the_input() {
    let input: Vec<u8> = (0..=255u8).collect();
    let mut bytes = input.clone();
    reverse_in_place(&mut bytes);
    assert_eq!(bytes[0], 255);
    assert_eq!(bytes[255], 0);
    reverse_in_place(&mut bytes);
    assert_eq!(bytes, input);
}

#[test]
fn example_mutator_reverses_and_answers_in_place() {
    let mut mutator = ExampleMutator::init(&(), 42);
    let mut buf = vec![0x01u8, 0x02, 0x03];
    let add = vec![9u8; 4];
    let result = mutator.fuzz(&mut buf, Some(&add[..]), 16);
    assert!(matches!(result, FuzzResult::InPlace));
    assert_eq!(buf, vec![0x03u8, 0x02, 0x01]);
}

#[test]
fn example_mutator_keeps_what_is_provided() {
    let mut mutator = ExampleMutator::init(&(), 0);
    let path = NulTerminated::from_bytes_with_nul(b"queue/id:000001\0").unwrap();
    assert_eq!(mutator.fuzz_count(&[1, 2, 3]), 1);
    assert!(mutator.queue_get(path));
    mutator.queue_new_entry(path, None);
    mutator.queue_new_entry(path, Some(path));
    assert!(mutator.describe(64).is_none());
    assert!(mutator.introspection().is_none());
}
