use nostd_tool::queue::{ErrorKind, Queue};

#[test]
fn test_new() {
    let mut mem: [u32; 16] = [0; 16];
    let q = Queue::<u32>::new(&mut mem);
    assert_eq!(q.capacity(), 16);
    assert_eq!(q.len(), 0);
    assert_eq!(q.available(), 16);
    assert_eq!(q.is_empty(), true);
}

#[test]
fn test_push_pop() {
    let mut mem: [u32; 16] = [0; 16];
    let mut q = Queue::<u32>::new(&mut mem);
    q.push(5);
    assert_eq!(q.peek(0), 5);
    assert_eq!(q.pop().unwrap(), 5);
    match q.pop() {
        Some(_) => assert!(false, "wrong"),
        None => (),
    }
}

#[test]
fn test_shift_unshift() {
    let mut mem: [u32; 16] = [0; 16];
    let mut q = Queue::<u32>::new(&mut mem);
    q.push(1);
    assert_eq!(q.peek(0), 1);
    q.push(2);
    assert_eq!(q.peek(0), 1);
    assert_eq!(q.peek(1), 2);
    assert_eq!(q.len(), 2);
    q.unshift(0);
    assert_eq!(q.peek(0), 0);
    assert_eq!(q.peek(1), 1);
    assert_eq!(q.peek(2), 2);
    assert_eq!(q.len(), 3);
    assert_eq!(q.shift().unwrap(), 0);
    assert_eq!(q.shift().unwrap(), 1);
    q.clear();
    match q.shift() {
        Some(_) => assert!(false, "wrong"),
        None => (),
    }
}

#[test]
fn pushes_keep_order_and_count() {
    let mut mem: [u32; 8] = [0; 8];
    let mut q = Queue::<u32>::new(&mut mem);
    let values: [u32; 8] = [7, 3, 9, 1, 4, 4, 0, 12];
    for (n, v) in values.iter().enumerate() {
        q.push(*v);
        assert_eq!(q.len(), n + 1);
    }
    for i in 0..values.len() {
        assert_eq!(q.peek(i), values[i]);
    }
    assert_eq!(q.available(), 0);
}

#[test]
fn push_then_pop_restores_empty() {
    let mut mem: [i64; 4] = [11; 4];
    let mut q = Queue::<i64>::new(&mut mem);
    q.push(-8);
    assert_eq!(q.pop(), Some(-8));
    assert!(q.is_empty());
    assert_eq!(q.len(), 0);
}

#[test]
fn unshift_then_shift_restores_contents() {
    let mut mem: [u8; 5] = [0; 5];
    let mut q = Queue::<u8>::new(&mut mem);
    q.push(1);
    q.push(2);
    q.push(3);
    q.unshift(42);
    assert_eq!(q.as_slice(), &[42, 1, 2, 3]);
    assert_eq!(q.shift(), Some(42));
    assert_eq!(q.len(), 3);
    assert_eq!(q.as_slice(), &[1, 2, 3]);
}

#[test]
fn insert_then_remove_restores_contents() {
    let mut mem: [u32; 6] = [0; 6];
    let mut q = Queue::<u32>::new(&mut mem);
    q.push(10);
    q.push(20);
    q.push(30);
    q.insert(1, 15);
    assert_eq!(q.as_slice(), &[10, 15, 20, 30]);
    assert_eq!(q.remove(1), 15);
    assert_eq!(q.as_slice(), &[10, 20, 30]);
    q.insert(3, 40);
    assert_eq!(q.as_slice(), &[10, 20, 30, 40]);
    assert_eq!(q.remove(3), 40);
    q.insert(0, 5);
    assert_eq!(q.as_slice(), &[5, 10, 20, 30]);
    assert_eq!(q.remove(0), 5);
    assert_eq!(q.as_slice(), &[10, 20, 30]);
}

#[test]
fn insert_into_empty_and_full() {
    let mut mem: [u32; 2] = [0; 2];
    let mut q = Queue::<u32>::new(&mut mem);
    q.insert(0, 1);
    q.insert(0, 2);
    assert_eq!(q.as_slice(), &[2, 1]);
    q.insert(1, 3);
    assert_eq!(q.as_slice(), &[2, 1]);
    q.insert(2, 3);
    assert_eq!(q.as_slice(), &[2, 1]);
}

#[test]
fn insert_when_one_slot_left() {
    let mut mem: [u32; 4] = [0; 4];
    let mut q = Queue::<u32>::new(&mut mem);
    q.push(1);
    q.push(2);
    q.push(3);
    q.insert(0, 9);
    assert_eq!(q.as_slice(), &[9, 1, 2, 3]);
    assert_eq!(q.available(), 0);
}

#[test]
fn empty_queue_gives_nothing() {
    let mut mem: [u32; 3] = [0; 3];
    let mut q = Queue::<u32>::new(&mut mem);
    assert_eq!(q.pop(), None);
    assert_eq!(q.len(), 0);
    assert_eq!(q.shift(), None);
    assert_eq!(q.len(), 0);
}

#[test]
fn clear_empties_any_queue() {
    let mut mem: [u32; 3] = [0; 3];
    let mut q = Queue::<u32>::new(&mut mem);
    q.clear();
    assert!(q.is_empty());
    q.push(1);
    q.push(2);
    q.push(3);
    q.clear();
    assert!(q.is_empty());
    assert_eq!(q.len(), 0);
    assert_eq!(q.available(), 3);
}

#[test]
fn scenario_capacity_sixteen() {
    let mut mem: [u32; 16] = [0; 16];
    let mut q = Queue::<u32>::new(&mut mem);
    q.push(1);
    q.push(2);
    assert_eq!(q.peek(0), 1);
    assert_eq!(q.peek(1), 2);
    assert_eq!(q.len(), 2);
    q.unshift(0);
    assert_eq!(q.peek(0), 0);
    assert_eq!(q.peek(1), 1);
    assert_eq!(q.peek(2), 2);
    assert_eq!(q.len(), 3);
    assert_eq!(q.shift(), Some(0));
    assert_eq!(q.shift(), Some(1));
    q.clear();
    assert_eq!(q.shift(), None);
}

#[test]
fn scenario_capacity_one() {
    let mut mem: [u32; 1] = [0; 1];
    let mut q = Queue::<u32>::new(&mut mem);
    q.push(5);
    assert_eq!(q.len(), 1);
    q.push(9);
    assert_eq!(q.len(), 1);
    assert_eq!(q.peek(0), 5);
    q.unshift(9);
    assert_eq!(q.as_slice(), &[5]);
}

#[test]
fn capacity_zero_takes_nothing() {
    let mut mem: [u32; 0] = [];
    let mut q = Queue::<u32>::new(&mut mem);
    q.push(1);
    assert_eq!(q.len(), 0);
    assert_eq!(q.pop(), None);
    assert_eq!(q.push_all(&[1]), Err(ErrorKind::NoSpace));
    assert_eq!(q.push_all(&[]), Ok(()));
}

#[test]
fn push_all_appends_in_order() {
    let mut mem: [u32; 5] = [0; 5];
    let mut q = Queue::<u32>::new(&mut mem);
    q.push(1);
    assert_eq!(q.push_all(&[2, 3, 4]), Ok(()));
    assert_eq!(q.as_slice(), &[1, 2, 3, 4]);
    assert_eq!(q.push_all(&[5]), Ok(()));
    assert_eq!(q.as_slice(), &[1, 2, 3, 4, 5]);
}

#[test]
fn push_all_too_long_is_no_space() {
    let mut mem: [u32; 4] = [0; 4];
    let mut q = Queue::<u32>::new(&mut mem);
    q.push(1);
    q.push(2);
    assert_eq!(q.push_all(&[3, 4, 5]), Err(ErrorKind::NoSpace));
    assert_eq!(q.as_slice(), &[1, 2]);
    assert_eq!(q.len(), 2);
}

#[test]
fn replace_returns_old_value() {
    let mut mem: [u32; 4] = [0; 4];
    let mut q = Queue::<u32>::new(&mut mem);
    q.push(1);
    q.push(2);
    assert_eq!(q.replace(1, 7), 2);
    assert_eq!(q.as_slice(), &[1, 7]);
    assert_eq!(q.len(), 2);
}

#[test]
fn remove_last_and_middle() {
    let mut mem: [u32; 4] = [0; 4];
    let mut q = Queue::<u32>::new(&mut mem);
    q.push_all(&[1, 2, 3, 4]).unwrap();
    assert_eq!(q.remove(3), 4);
    assert_eq!(q.remove(1), 2);
    assert_eq!(q.as_slice(), &[1, 3]);
}

#[test]
fn map_in_place_transforms_each() {
    let mut mem: [u32; 4] = [0; 4];
    let mut q = Queue::<u32>::new(&mut mem);
    q.push_all(&[1, 2, 3]).unwrap();
    q.map_in_place(|x| x * 10);
    assert_eq!(q.as_slice(), &[10, 20, 30]);
    assert_eq!(q.len(), 3);
}

#[test]
fn iterators_cover_valid_elements() {
    let mut mem: [u32; 6] = [99; 6];
    let mut q = Queue::<u32>::new(&mut mem);
    q.push_all(&[1, 2, 3]).unwrap();
    let seen: Vec<u32> = q.iter().copied().collect();
    assert_eq!(seen, vec![1, 2, 3]);
    for x in q.iter_mut() {
        *x += 1;
    }
    assert_eq!(q.as_slice(), &[2, 3, 4]);
    q.as_mut_slice()[0] = 8;
    assert_eq!(q.as_slice(), &[8, 3, 4]);
    assert_eq!(q.len(), 3);
}

#[test]
fn queue_lock_toggles() {
    let mut mem: [u32; 2] = [0; 2];
    let mut q = Queue::<u32>::new(&mut mem);
    q.get_lock();
    q.unlock();
    q.push(3);
    assert_eq!(q.pop(), Some(3));
}
