use windows_trash_manager::CircularBuffer;

fn contents(b: &CircularBuffer<String>) -> Vec<String> {
    b.iter().into_iter().cloned().collect()
}

fn strings(items: &[&str]) -> Vec<String> {
    items.iter().map(|s| s.to_string()).collect()
}

#[test]
fn pushes_keep_the_last_capacity_items_in_order() {
    for capacity in 1..6usize {
        for count in 0..12usize {
            let mut b = CircularBuffer::new(capacity);
            let pushed: Vec<String> = (0..count).map(|i| format!("line {}", i)).collect();
            for p in &pushed {
                b.push(p.clone());
            }
            let kept = count.min(capacity);
            assert_eq!(contents(&b), pushed[count - kept..].to_vec());
            assert_eq!(b.len(), kept);
        }
    }
}

#[test]
fn push_into_full_buffer_evicts_the_oldest() {
    let mut b = CircularBuffer::new(3);
    for s in ["a", "b", "c"] {
        b.push(s.to_string());
    }
    assert_eq!(contents(&b), strings(&["a", "b", "c"]));
    b.push("d".to_string());
    assert_eq!(contents(&b), strings(&["b", "c", "d"]));
    b.push("e".to_string());
    assert_eq!(contents(&b), strings(&["c", "d", "e"]));
    assert_eq!(b.len(), 3);
    assert_eq!(b.capacity(), 3);
}

#[test]
fn capacity_two_keeps_the_last_two() {
    let mut b = CircularBuffer::new(2);
    for s in ["x", "y", "z"] {
        b.push(s.to_string());
    }
    assert_eq!(contents(&b), strings(&["y", "z"]));
}

#[test]
fn capacity_one_keeps_only_the_newest() {
    let mut b = CircularBuffer::new(1);
    b.push(7u32);
    b.push(8u32);
    let v: Vec<u32> = b.iter().into_iter().copied().collect();
    assert_eq!(v, vec![8]);
}

#[test]
fn clear_empties_and_behaves_as_fresh() {
    let mut b = CircularBuffer::new(2);
    assert!(b.is_empty());
    for s in ["x", "y", "z"] {
        b.push(s.to_string());
    }
    assert!(!b.is_empty());
    b.clear();
    assert!(b.is_empty());
    b.clear();
    assert!(b.is_empty());
    let mut fresh = CircularBuffer::new(2);
    for s in ["p", "q", "r"] {
        b.push(s.to_string());
        fresh.push(s.to_string());
    }
    assert_eq!(contents(&b), contents(&fresh));
    assert_eq!(contents(&b), strings(&["q", "r"]));
}

#[test]
fn serialized_form_is_capacity_and_items() {
    let mut b = CircularBuffer::new(3);
    for s in ["a", "b", "c", "d"] {
        b.push(s.to_string());
    }
    let (capacity, items) = b.serialize();
    assert_eq!(capacity, 3);
    let items: Vec<String> = items.into_iter().cloned().collect();
    assert_eq!(items, strings(&["b", "c", "d"]));
}

#[test]
fn serialize_round_trip() {
    for count in 0..8usize {
        let mut b = CircularBuffer::new(3);
        for i in 0..count {
            b.push(format!("{}", i));
        }
        let (capacity, items) = b.serialize();
        let items: Vec<String> = items.into_iter().cloned().collect();
        let restored = CircularBuffer::deserialize(capacity, items.clone());
        let (capacity2, items2) = restored.serialize();
        let items2: Vec<String> = items2.into_iter().cloned().collect();
        assert_eq!(capacity2, capacity);
        assert_eq!(items2, items);
    }
}

#[test]
fn deserialize_keeps_the_last_items() {
    let b = CircularBuffer::deserialize(2, strings(&["a", "b", "c", "d"]));
    assert_eq!(contents(&b), strings(&["c", "d"]));
    assert_eq!(b.capacity(), 2);
}
