use copper::queue::CircularQueue;

#[test]
fn zero_capacity() {
    let mut q = CircularQueue::<i32>::new(0);
    assert_eq!(q.len(), 0);
    assert_eq!(q.capacity(), 0);
    assert!(q.is_empty());

    q.push(3);
    q.push(4);
    q.push(5);

    assert_eq!(q.len(), 0);
    assert_eq!(q.capacity(), 0);
    assert!(q.is_empty());

    assert_eq!(q.iter().len(), 0);
    assert_eq!(q.asc_iter().len(), 0);

    q.clear();
}

#[test]
fn empty_queue() {
    let q = CircularQueue::<i32>::new(5);

    assert!(q.is_empty());
    assert_eq!(q.iter().first(), None);
}

#[test]
fn partially_full_queue() {
    let mut q = CircularQueue::<i32>::new(5);
    q.push(1);
    q.push(2);
    q.push(3);

    assert!(!q.is_empty());
    assert_eq!(q.len(), 3);

    let res: Vec<_> = q.iter();
    assert_eq!(res, [3, 2, 1]);
}

#[test]
fn full_queue() {
    let mut q = CircularQueue::<i32>::new(5);
    q.push(1);
    q.push(2);
    q.push(3);
    q.push(4);
    q.push(5);

    assert_eq!(q.len(), 5);

    let res: Vec<_> = q.iter();
    assert_eq!(res, [5, 4, 3, 2, 1]);
}

#[test]
fn over_full_queue() {
    let mut q = CircularQueue::<i32>::new(5);
    q.push(1);
    q.push(2);
    q.push(3);
    q.push(4);
    q.push(5);
    q.push(6);
    q.push(7);

    assert_eq!(q.len(), 5);

    let res: Vec<_> = q.iter();
    assert_eq!(res, [7, 6, 5, 4, 3]);
}

#[test]
fn clear() {
    let mut q = CircularQueue::<i32>::new(5);
    q.push(1);
    q.push(2);
    q.push(3);
    q.push(4);
    q.push(5);
    q.push(6);
    q.push(7);

    q.clear();

    assert_eq!(q.len(), 0);
    assert_eq!(q.iter().first(), None);

    q.push(1);
    q.push(2);
    q.push(3);

    assert_eq!(q.len(), 3);

    let res: Vec<_> = q.iter();
    assert_eq!(res, [3, 2, 1]);
}

#[test]
fn mutable_iterator() {
    let mut q = CircularQueue::<i32>::new(5);
    q.push(1);
    q.push(2);
    q.push(3);
    q.push(4);
    q.push(5);
    q.push(6);
    q.push(7);

    for i in 0..q.len() {
        let x: i32 = *q.get(i);
        q.set(i, x * 2);
    }

    let res: Vec<_> = q.iter();
    assert_eq!(res, [14, 12, 10, 8, 6]);
}

#[test]
fn zero_sized() {
    let mut q = CircularQueue::<()>::new(5);
    assert_eq!(q.capacity(), 5);

    q.push(());
    q.push(());
    q.push(());

    assert_eq!(q.len(), 3);

    let it: Vec<()> = q.iter();
    assert_eq!(it.first(), Some(&()));
    assert_eq!(it.get(1), Some(&()));
    assert_eq!(it.get(2), Some(&()));
    assert_eq!(it.get(3), None);
}

#[test]
fn empty_queue_eq() {
    let q1 = CircularQueue::<i32>::new(5);
    let q2 = CircularQueue::<i32>::new(5);
    assert_eq!(q1, q2);
}

#[test]
fn partially_full_queue_eq() {
    let mut q1 = CircularQueue::<i32>::new(5);
    q1.push(1);
    q1.push(2);
    q1.push(3);

    let mut q2 = CircularQueue::<i32>::new(5);
    q2.push(1);
    q2.push(2);
    assert_ne!(q1, q2);

    q2.push(3);
    assert_eq!(q1, q2);

    q2.push(4);
    assert_ne!(q1, q2);
}

#[test]
fn full_queue_eq() {
    let mut q1 = CircularQueue::<i32>::new(5);
    q1.push(1);
    q1.push(2);
    q1.push(3);
    q1.push(4);
    q1.push(5);

    let mut q2 = CircularQueue::<i32>::new(5);
    q2.push(1);
    q2.push(2);
    q2.push(3);
    q2.push(4);
    q2.push(5);

    assert_eq!(q1, q2);
}

#[test]
fn over_full_queue_eq() {
    let mut q1 = CircularQueue::<i32>::new(5);
    q1.push(1);
    q1.push(2);
    q1.push(3);
    q1.push(4);
    q1.push(5);
    q1.push(6);
    q1.push(7);

    let mut q2 = CircularQueue::<i32>::new(5);
    q2.push(1);
    q2.push(2);
    q2.push(3);
    q2.push(4);
    q2.push(5);
    q2.push(6);
    assert_ne!(q1, q2);

    q2.push(7);
    assert_eq!(q1, q2);

    q2.push(8);
    assert_ne!(q1, q2);

    q2.push(3);
    q2.push(4);
    q2.push(5);
    q2.push(6);
    q2.push(7);
    assert_eq!(q1, q2);
}

#[test]
fn clear_eq() {
    let mut q1 = CircularQueue::<i32>::new(5);
    q1.push(1);
    q1.push(2);
    q1.push(3);
    q1.push(4);
    q1.push(5);
    q1.push(6);
    q1.push(7);
    q1.clear();

    let mut q2 = CircularQueue::<i32>::new(5);
    assert_eq!(q1, q2);

    q2.push(1);
    q2.clear();
    assert_eq!(q1, q2);
}

#[test]
fn zero_sized_eq() {
    let mut q1 = CircularQueue::<()>::new(3);
    q1.push(());
    q1.push(());
    q1.push(());
    q1.push(());

    let mut q2 = CircularQueue::<()>::new(3);
    q2.push(());
    q2.push(());
    assert_ne!(q1, q2);

    q2.push(());
    assert_eq!(q1, q2);

    q2.push(());
    assert_eq!(q1, q2);

    q2.push(());
    assert_eq!(q1, q2);
}

#[test]
fn push_reports_eviction_once_full() {
    let mut q = CircularQueue::<i32>::new(3);
    assert_eq!(q.push(1), None);
    assert_eq!(q.push(2), None);
    assert_eq!(q.push(3), None);
    assert!(q.is_full());
    assert_eq!(q.push(4), Some(1));
    assert_eq!(q.push(5), Some(2));
    assert_eq!(q.len(), 3);
    assert_eq!(q.iter(), [5, 4, 3]);
}

#[test]
fn pop_returns_newest_first() {
    let mut q = CircularQueue::<i32>::new(3);
    assert_eq!(q.pop(), None);
    q.push(1);
    q.push(2);
    assert_eq!(q.pop(), Some(2));
    assert_eq!(q.pop(), Some(1));
    assert_eq!(q.pop(), None);
    assert_eq!(q.len(), 0);
}

#[test]
fn pop_after_wraparound() {
    let mut q = CircularQueue::<i32>::new(3);
    q.push(1);
    q.push(2);
    q.push(3);
    q.push(4);
    assert_eq!(q.pop(), Some(4));
    assert_eq!(q.pop(), Some(3));
    assert_eq!(q.pop(), Some(2));
    assert_eq!(q.pop(), None);
}

#[test]
fn zero_capacity_pop() {
    let mut q = CircularQueue::<i32>::new(0);
    q.push(1);
    assert_eq!(q.pop(), None);
    assert_eq!(q.len(), 0);
}

#[test]
fn asc_iter_is_oldest_first() {
    let mut q = CircularQueue::<i32>::new(5);
    q.push(1);
    q.push(2);
    q.push(3);
    assert_eq!(q.asc_iter(), [1, 2, 3]);

    q.push(4);
    q.push(5);
    q.push(6);
    q.push(7);
    assert_eq!(q.asc_iter(), [3, 4, 5, 6, 7]);
}

#[test]
fn iter_count_matches_len() {
    let mut q = CircularQueue::<i32>::new(4);
    assert_eq!(q.iter().len(), q.len());
    q.push(10);
    q.push(20);
    assert_eq!(q.iter().len(), q.len());
    q.push(30);
    q.push(40);
    q.push(50);
    assert_eq!(q.iter().len(), q.len());
    assert_eq!(q.iter().len(), 4);
}

#[test]
fn is_full_tracks_capacity() {
    let mut q = CircularQueue::<i32>::new(2);
    assert!(!q.is_full());
    q.push(1);
    assert!(!q.is_full());
    q.push(2);
    assert!(q.is_full());
    q.pop();
    assert!(!q.is_full());
}

#[test]
fn eq_ignores_capacity() {
    let mut q1 = CircularQueue::<i32>::new(5);
    q1.push(1);
    q1.push(2);
    q1.push(3);

    let mut q2 = CircularQueue::<i32>::new(7);
    q2.push(1);
    q2.push(2);
    q2.push(3);

    assert_eq!(q1, q2);

    q2.push(4);
    assert_ne!(q1, q2);
}

#[test]
fn get_and_set_by_recency() {
    let mut q = CircularQueue::<i32>::new(3);
    q.push(7);
    q.push(8);
    q.push(9);
    assert_eq!(*q.get(0), 9);
    assert_eq!(*q.get(1), 8);
    assert_eq!(*q.get(2), 7);
    q.set(1, 80);
    assert_eq!(q.iter(), [9, 80, 7]);
}
