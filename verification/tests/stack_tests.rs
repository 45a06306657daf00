use spinstack::stack::Stack;
use spinstack::stack::CAPACITY;

#[test]
fn test_stack() {
    let mut s = Stack::new();
    s.push(1);
    s.push(2);
    s.push(3);
    assert_eq!(s.pop(), Some(3));
    assert_eq!(s.pop(), Some(2));
    assert_eq!(s.pop(), Some(1));
    assert_eq!(s.pop(), None);
}

#[test]
fn fresh_stack_reports_empty() {
    let mut s: Stack<u64> = Stack::new();
    assert_eq!(s.pop(), None);
    assert_eq!(s.pop(), None);
}

#[test]
fn drain_conserves_values() {
    let mut s: Stack<u32> = Stack::new();
    for _ in 0..3 {
        for _ in 0..10 {
            s.push(1000);
        }
    }
    let mut seen: usize = 0;
    while let Some(v) = s.pop() {
        assert_eq!(v, 1000);
        seen += 1;
    }
    assert_eq!(seen, 30);
    assert_eq!(s.pop(), None);
}

#[test]
fn interleaved_pushes_and_pops_stay_lifo() {
    let mut s: Stack<i64> = Stack::new();
    s.push(5);
    s.push(7);
    assert_eq!(s.pop(), Some(7));
    s.push(9);
    assert_eq!(s.pop(), Some(9));
    assert_eq!(s.pop(), Some(5));
    assert_eq!(s.pop(), None);
}

#[test]
fn popped_slot_is_reused_by_next_push() {
    let mut s: Stack<u8> = Stack::new();
    s.push(1);
    assert_eq!(s.pop(), Some(1));
    s.push(2);
    assert_eq!(s.pop(), Some(2));
    assert_eq!(s.pop(), None);
}

#[test]
fn popped_value_is_not_returned_twice() {
    let mut s: Stack<u16> = Stack::new();
    s.push(7);
    assert_eq!(s.pop(), Some(7));
    assert_eq!(s.pop(), None);
}

#[test]
fn full_capacity_drains_in_reverse() {
    let mut s: Stack<usize> = Stack::new();
    for i in 0..CAPACITY {
        s.push(i);
    }
    for i in (0..CAPACITY).rev() {
        assert_eq!(s.pop(), Some(i));
    }
    assert_eq!(s.pop(), None);
}
