use fibonacci_server::fib::{fib_iter, MAX_N, MIN_N};
use fibonacci_server::handler::evaluate;
use fibonacci_server::response::FibError;

#[test]
fn first_two_are_one() {
    assert_eq!(evaluate(1), Ok(1));
    assert_eq!(evaluate(2), Ok(1));
    assert_eq!(fib_iter(1), 1);
    assert_eq!(fib_iter(2), 1);
}

#[test]
fn tenth_is_fifty_five() {
    assert_eq!(evaluate(10), Ok(55));
    assert_eq!(fib_iter(10), 55);
}

#[test]
fn small_values_follow_the_recurrence() {
    let expected: [i64; 12] = [1, 1, 2, 3, 5, 8, 13, 21, 34, 55, 89, 144];
    for (i, want) in expected.iter().enumerate() {
        assert_eq!(evaluate(i as i64 + 1), Ok(*want));
    }
}

#[test]
fn eighty_ninth_and_ninetieth() {
    // n - 1 rounds of the iteration from a = 0, b = 1 give these two.
    assert_eq!(evaluate(89), Ok(1779979416004714189));
    assert_eq!(evaluate(90), Ok(2880067194370816120));
    assert_eq!(fib_iter(90), 2880067194370816120);
}

#[test]
fn every_value_is_the_sum_of_the_two_before() {
    for n in 3..=90i64 {
        let a = evaluate(n - 2).unwrap();
        let b = evaluate(n - 1).unwrap();
        assert_eq!(evaluate(n), Ok(a + b), "n = {}", n);
    }
}

#[test]
fn same_input_same_result() {
    for n in -5..=95i64 {
        assert_eq!(evaluate(n), evaluate(n), "n = {}", n);
    }
}

#[test]
fn bounds_of_the_domain() {
    assert_eq!(MIN_N, 1);
    assert_eq!(MAX_N, 90);
    assert!(evaluate(MIN_N).is_ok());
    assert!(evaluate(MAX_N).is_ok());
    assert_eq!(evaluate(MIN_N - 1), Err(FibError::OutOfRange));
    assert_eq!(evaluate(MAX_N + 1), Err(FibError::OutOfRange));
}

#[test]
fn out_of_range_is_refused() {
    for n in [0i64, -1, -90, 91, 92, 1000, i64::MIN, i64::MAX] {
        assert_eq!(evaluate(n), Err(FibError::OutOfRange), "n = {}", n);
    }
}

#[test]
fn refusal_message_text() {
    assert_eq!(FibError::OutOfRange.message(), "n must be between 1 and 90");
}
