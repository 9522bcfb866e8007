use openmp_reducer::GlobalCell;
use openmp_reducer::ReducerError;

fn add(global: &mut u64, local: &u64) {
    *global += *local;
}

#[test]
fn a_new_cell_holds_the_initial_value_and_no_handle() {
    let mut cell = GlobalCell::new(3u64);
    assert_eq!(cell.count(), 0);
    assert_eq!(cell.peek(false), Ok(3));
    assert_eq!(cell.take(false), Ok(3));
}

#[test]
fn lease_counts_one_more_and_keeps_the_value() {
    let mut cell = GlobalCell::new(3u64);
    cell.lease();
    assert_eq!(cell.count(), 1);
    cell.lease();
    assert_eq!(cell.count(), 2);
    cell.lease();
    assert_eq!(cell.count(), 3);
    assert_eq!(cell.peek(false), Ok(3));
}

#[test]
fn release_merges_once_and_counts_one_less() {
    let mut cell = GlobalCell::new(3u64);
    cell.lease();
    cell.lease();
    let first = 5u64;
    let second = 10u64;
    assert_eq!(cell.release(false, &add, &first), Ok(()));
    assert_eq!(first, 5);
    assert_eq!(cell.count(), 1);
    assert_eq!(cell.peek(false), Ok(8));
    assert_eq!(cell.release(false, &add, &second), Ok(()));
    assert_eq!(second, 10);
    assert_eq!(cell.count(), 0);
    assert_eq!(cell.peek(false), Ok(18));
    assert_eq!(cell.take(false), Ok(18));
}

#[test]
fn release_of_a_default_local_leaves_a_sum_as_it_is() {
    let mut cell = GlobalCell::new(3u64);
    cell.lease();
    cell.lease();
    assert_eq!(cell.release(false, &add, &5), Ok(()));
    assert_eq!(cell.release(false, &add, &u64::default()), Ok(()));
    assert_eq!(cell.peek(false), Ok(8));
    assert_eq!(cell.count(), 0);
}

#[test]
fn the_count_stops_at_zero() {
    let mut cell = GlobalCell::new(3u64);
    assert_eq!(cell.release(false, &add, &1), Ok(()));
    assert_eq!(cell.count(), 0);
    assert_eq!(cell.peek(false), Ok(4));
    cell.lease();
    assert_eq!(cell.count(), 1);
}

#[test]
fn release_under_a_poisoned_lock_merges_nothing_but_gives_up_the_lease() {
    let mut cell = GlobalCell::new(3u64);
    cell.lease();
    cell.lease();
    assert_eq!(cell.release(true, &add, &5), Err(ReducerError::PoisonedLock));
    assert_eq!(cell.count(), 1);
    assert_eq!(cell.peek(false), Ok(3));
}

#[test]
fn peek_under_a_poisoned_lock_fails() {
    let cell = GlobalCell::new(3u64);
    assert_eq!(cell.peek(true), Err(ReducerError::PoisonedLock));
    assert_eq!(cell.peek(false), Ok(3));
}

#[test]
fn take_under_a_poisoned_lock_fails_and_changes_nothing() {
    let mut cell = GlobalCell::new(3u64);
    assert_eq!(cell.take(true), Err(ReducerError::PoisonedLock));
    assert_eq!(cell.count(), 0);
    assert_eq!(cell.peek(false), Ok(3));
    cell.lease();
    assert_eq!(cell.take(true), Err(ReducerError::PoisonedLock));
    assert_eq!(cell.count(), 1);
}

#[test]
fn take_with_a_live_handle_fails_and_changes_nothing() {
    let mut cell = GlobalCell::new(3u64);
    cell.lease();
    assert_eq!(cell.take(false), Err(ReducerError::OutstandingHandles));
    assert_eq!(cell.count(), 1);
    assert_eq!(cell.peek(false), Ok(3));
}

#[test]
fn take_leaves_a_default_value_behind() {
    let mut cell = GlobalCell::new(3u64);
    assert_eq!(cell.take(false), Ok(3));
    assert_eq!(cell.peek(false), Ok(0));
    assert_eq!(cell.count(), 0);
    assert_eq!(cell.take(false), Ok(0));
}

#[test]
fn peek_does_not_change_the_cell() {
    let mut cell = GlobalCell::new(String::from("abc"));
    cell.lease();
    assert_eq!(cell.peek(false), Ok(String::from("abc")));
    assert_eq!(cell.peek(false), Ok(String::from("abc")));
    assert_eq!(cell.count(), 1);
    assert_eq!(cell.release(false, &|_: &mut String, _: &()| {}, &()), Ok(()));
    assert_eq!(cell.take(false), Ok(String::from("abc")));
}

#[test]
fn releases_in_either_order_agree() {
    let keep_max = |global: &mut i32, local: &i32| {
        if *local > *global {
            *global = *local;
        }
    };
    let mut forward = GlobalCell::new(-1i32);
    let mut backward = GlobalCell::new(-1i32);
    let locals = [4i32, 9, -7];
    for value in locals {
        assert_eq!(forward.release(false, &keep_max, &value), Ok(()));
    }
    for value in [locals[2], locals[1], locals[0]] {
        assert_eq!(backward.release(false, &keep_max, &value), Ok(()));
    }
    assert_eq!(forward.peek(false), Ok(9));
    assert_eq!(backward.peek(false), Ok(9));
}
