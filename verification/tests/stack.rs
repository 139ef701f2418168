use linked_stack::stack::List;

#[test]
fn basics() {
    let mut ls = List::new();

    ls.push(1);
    ls.push(2);
    ls.push(3);

    assert_eq!(ls.pop(), Some(3));
    assert_eq!(ls.pop(), Some(2));

    ls.push(4);
    ls.push(5);

    assert_eq!(ls.pop(), Some(5));
    assert_eq!(ls.pop(), Some(4));

    assert_eq!(ls.pop(), Some(1));

    assert_eq!(ls.pop(), None);
}

#[test]
fn new_stack_is_empty() {
    let mut ls = List::new();
    assert_eq!(ls.pop(), None);
}

#[test]
fn default_stack_is_empty() {
    let mut ls = List::default();
    assert_eq!(ls.pop(), None);
    ls.push(7);
    assert_eq!(ls.pop(), Some(7));
    assert_eq!(ls.pop(), None);
}

#[test]
fn root_export_is_the_same_type() {
    let mut ls: List = linked_stack::List::new();
    ls.push(11);
    assert_eq!(ls.pop(), Some(11));
}

#[test]
fn push_then_pop_returns_the_value() {
    let mut ls = List::new();
    ls.push(42);
    assert_eq!(ls.pop(), Some(42));
    assert_eq!(ls.pop(), None);
}

#[test]
fn pops_come_in_reverse_push_order() {
    let values: Vec<i32> = vec![10, -3, 0, 77, 77, 5, -1000, 8];
    let mut ls = List::new();
    for v in values.iter() {
        ls.push(*v);
    }
    let mut out: Vec<i32> = Vec::new();
    for _ in 0..values.len() {
        out.push(ls.pop().unwrap());
    }
    assert_eq!(out, vec![8, -1000, 5, 77, 77, 0, -3, 10]);
    assert_eq!(ls.pop(), None);
}

#[test]
fn pushes_on_a_filled_stack_leave_what_was_below() {
    let mut ls = List::new();
    ls.push(100);
    ls.push(200);
    ls.push(1);
    ls.push(2);
    ls.push(3);
    assert_eq!(ls.pop(), Some(3));
    assert_eq!(ls.pop(), Some(2));
    assert_eq!(ls.pop(), Some(1));
    assert_eq!(ls.pop(), Some(200));
    assert_eq!(ls.pop(), Some(100));
    assert_eq!(ls.pop(), None);
}

#[test]
fn empty_pop_repeats() {
    let mut ls = List::new();
    for _ in 0..10 {
        assert_eq!(ls.pop(), None);
    }
    ls.push(9);
    assert_eq!(ls.pop(), Some(9));
    for _ in 0..10 {
        assert_eq!(ls.pop(), None);
    }
}

#[test]
fn empty_pop_leaves_the_stack_usable() {
    let mut ls = List::new();
    assert_eq!(ls.pop(), None);
    assert_eq!(ls.pop(), None);
    ls.push(1);
    ls.push(2);
    assert_eq!(ls.pop(), Some(2));
    assert_eq!(ls.pop(), Some(1));
    assert_eq!(ls.pop(), None);
}

#[test]
fn extreme_values_round_trip() {
    let mut ls = List::new();
    ls.push(i32::MIN);
    ls.push(i32::MAX);
    ls.push(0);
    ls.push(-1);
    assert_eq!(ls.pop(), Some(-1));
    assert_eq!(ls.pop(), Some(0));
    assert_eq!(ls.pop(), Some(i32::MAX));
    assert_eq!(ls.pop(), Some(i32::MIN));
    assert_eq!(ls.pop(), None);
}

#[test]
fn length_after_pushes_and_pops() {
    let k: i32 = 20;
    let j: i32 = 7;
    let mut ls = List::new();
    for v in 1..=k {
        ls.push(v);
    }
    for _ in 0..j {
        assert!(ls.pop().is_some());
    }
    let mut rest: Vec<i32> = Vec::new();
    while let Some(v) = ls.pop() {
        rest.push(v);
    }
    assert_eq!(rest.len(), 13);
    assert_eq!(rest, vec![13, 12, 11, 10, 9, 8, 7, 6, 5, 4, 3, 2, 1]);
}

#[test]
fn all_pushed_then_all_popped_is_empty() {
    let mut ls = List::new();
    for v in 0..50 {
        ls.push(v);
    }
    for v in (0..50).rev() {
        assert_eq!(ls.pop(), Some(v));
    }
    assert_eq!(ls.pop(), None);
}

#[test]
fn pop_before_push_does_not_count() {
    let mut ls = List::new();
    assert_eq!(ls.pop(), None);
    ls.push(1);
    let mut left: usize = 0;
    while ls.pop().is_some() {
        left += 1;
    }
    assert_eq!(left, 1);
}

#[test]
fn walk_meets_as_many_nodes_as_the_tally() {
    let mut ls = List::new();
    let mut tally: usize = 0;
    for round in 0..200 {
        if round % 3 == 2 || round % 7 == 0 {
            let got = ls.pop();
            if tally == 0 {
                assert_eq!(got, None);
            } else {
                assert!(got.is_some());
                tally -= 1;
            }
        } else {
            ls.push(round);
            tally += 1;
        }
    }
    assert_eq!(tally, 29);
    let mut met: usize = 0;
    while ls.pop().is_some() {
        met += 1;
        assert!(met <= tally);
    }
    assert_eq!(met, tally);
    assert_eq!(ls.pop(), None);
}

#[test]
fn long_chain_is_torn_down() {
    let mut ls = List::new();
    for v in 0..1_000_000 {
        ls.push(v);
    }
    drop(ls);
}

#[test]
fn long_chain_is_torn_down_after_some_pops() {
    let mut ls = List::new();
    for v in 0..300_000 {
        ls.push(v);
    }
    assert_eq!(ls.pop(), Some(299_999));
    assert_eq!(ls.pop(), Some(299_998));
    drop(ls);
}

#[test]
fn empty_stack_is_torn_down() {
    let ls = List::new();
    drop(ls);
}
