use rustracer::prime::{is_prime, sqrt};

#[test]
fn test_primality() {
    assert_eq!(is_prime(0), false);
    assert_eq!(is_prime(1), false);
    assert_eq!(is_prime(2), true);
    assert_eq!(is_prime(4), false);
    assert_eq!(is_prime(5), true);
    assert_eq!(is_prime(13), true);
    assert_eq!(is_prime(1992), false);
}

#[test]
fn primality_of_negatives_and_squares() {
    assert_eq!(is_prime(-7), false);
    assert_eq!(is_prime(i32::MIN), false);
    assert_eq!(is_prime(3), true);
    assert_eq!(is_prime(9), false);
    assert_eq!(is_prime(25), false);
    assert_eq!(is_prime(49), false);
    assert_eq!(is_prime(97), true);
    assert_eq!(is_prime(7919), true);
    assert_eq!(is_prime(2147483647), true);
    assert_eq!(is_prime(2147395600), false);
}

#[test]
fn square_root_rounds_down() {
    assert_eq!(sqrt(0), 0);
    assert_eq!(sqrt(1), 1);
    assert_eq!(sqrt(3), 1);
    assert_eq!(sqrt(4), 2);
    assert_eq!(sqrt(15), 3);
    assert_eq!(sqrt(16), 4);
    assert_eq!(sqrt(1992), 44);
    assert_eq!(sqrt(2147395599), 46339);
    assert_eq!(sqrt(2147395600), 46340);
    assert_eq!(sqrt(i32::MAX), 46340);
}

#[test]
fn square_root_of_negative_is_zero() {
    assert_eq!(sqrt(-1), 0);
    assert_eq!(sqrt(i32::MIN), 0);
}
