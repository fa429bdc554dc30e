use fundamentals::fib;
use fundamentals::sum;
use fundamentals::Rectangle;

#[test]
fn fib_seed_values() {
    assert_eq!(fib(0), 0);
    assert_eq!(fib(1), 1);
}

#[test]
fn fib_recurrence_on_small_values() {
    for n in 2i32..30i32 {
        assert_eq!(fib(n), fib(n - 1) + fib(n - 2));
    }
}

#[test]
fn fib_tenth_is_fifty_five() {
    assert_eq!(fib(10), 55);
}

#[test]
fn fib_largest_that_fits() {
    assert_eq!(fib(46), 1_836_311_903);
}

#[test]
fn fib_negative_passes_through() {
    assert_eq!(fib(-1), -1);
    assert_eq!(fib(-7), -7);
}

#[test]
fn sum_of_empty_is_zero() {
    let empty: [i32; 0] = [];
    assert_eq!(sum(&empty), 0);
}

#[test]
fn sum_of_fixed_array() {
    let numbers: [i32; 5] = [1, 2, 3, 4, 5];
    assert_eq!(sum(&numbers), 15);
}

#[test]
fn sum_of_single_element() {
    let one: [i32; 1] = [-9];
    assert_eq!(sum(&one), -9);
}

#[test]
fn sum_is_order_independent() {
    let numbers: Vec<i32> = vec![7, -3, 12, 0, 5, -8, 21];
    let mut reversed: Vec<i32> = numbers.clone();
    reversed.reverse();
    assert_eq!(sum(&numbers), sum(&reversed));
    assert_eq!(sum(&numbers), 34);
}

#[test]
fn sum_with_negative_values() {
    let numbers: [i32; 4] = [10, -20, 30, -40];
    assert_eq!(sum(&numbers), -20);
}

#[test]
fn area_of_thirty_by_fifty() {
    let rect = Rectangle { width: 30, height: 50 };
    assert_eq!(rect.area(), 1500);
}

#[test]
fn area_at_the_largest_size() {
    let rect = Rectangle { width: u32::MAX, height: 1 };
    assert_eq!(rect.area(), u32::MAX);
}

#[test]
fn can_hold_smaller_rectangle() {
    let rect1 = Rectangle { width: 30, height: 50 };
    let rect2 = Rectangle { width: 10, height: 40 };
    assert!(rect1.can_hold(&rect2));
}

#[test]
fn cannot_hold_wider_rectangle() {
    let rect1 = Rectangle { width: 30, height: 50 };
    let rect3 = Rectangle { width: 60, height: 45 };
    assert!(!rect1.can_hold(&rect3));
}

#[test]
fn can_hold_rectangle_of_equal_size() {
    let rect = Rectangle { width: 30, height: 50 };
    let same = Rectangle { width: 30, height: 50 };
    assert!(rect.can_hold(&same));
}

#[test]
fn cannot_hold_taller_rectangle() {
    let rect1 = Rectangle { width: 30, height: 50 };
    let rect4 = Rectangle { width: 20, height: 51 };
    assert!(!rect1.can_hold(&rect4));
}
