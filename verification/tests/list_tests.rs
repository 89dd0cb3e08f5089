use singly_list::SinglyList;

#[test]
fn push_and_pop_round_trip() {
    let mut list = SinglyList::new();
    let values = vec![10u64, 20, 30, 40];
    for v in values.iter().rev() {
        list.push(*v);
    }
    assert_eq!(list.len(), values.len());
    let mut it = list.iter();
    for v in values.iter() {
        assert_eq!(it.next(), Some(v));
    }
    assert_eq!(it.next(), None);
}

#[test]
fn pop_yields_head_first() {
    let mut list = SinglyList::new();
    list.push(3u64);
    list.push(2);
    list.push(1);
    assert_eq!(list.pop(), Some(1));
    assert_eq!(list.pop(), Some(2));
    assert_eq!(list.pop(), Some(3));
    assert_eq!(list.pop(), None);
    assert_eq!(list.len(), 0);
}

#[test]
fn length_tracks_push_and_pop() {
    let mut list = SinglyList::new();
    assert_eq!(list.len(), 0);
    for i in 0..5u64 {
        list.push(i);
        assert_eq!(list.len() as u64, i + 1);
    }
    for i in 0..5u64 {
        list.pop();
        assert_eq!(list.len() as u64, 4 - i);
    }
    assert_eq!(list.pop(), None);
    assert_eq!(list.len(), 0);
}

#[test]
fn length_matches_traversal_count() {
    let mut list = SinglyList::new();
    for i in 0..7u64 {
        list.push(i);
    }
    list.pop();
    list.pop();
    let mut counted: usize = 0;
    let mut it = list.iter();
    while it.next().is_some() {
        counted += 1;
    }
    assert_eq!(list.len(), counted);
}

#[test]
fn insert_at_zero_is_push() {
    let mut list = SinglyList::new();
    list.push(2u64);
    list.insert(0, 1);
    assert_eq!(list.get(0), Some(&1));
    assert_eq!(list.get(1), Some(&2));
    assert_eq!(list.len(), 2);
}

#[test]
fn insert_matches_reference_collection() {
    let mut list = SinglyList::new();
    let mut reference = vec![5u64, 6, 7, 8];
    for v in reference.iter().rev() {
        list.push(*v);
    }
    list.insert(2, 99);
    reference.insert(2, 99);
    assert_eq!(list.len(), reference.len());
    for (i, v) in reference.iter().enumerate() {
        assert_eq!(list.get(i), Some(v));
    }
}

#[test]
fn insert_at_length_appends() {
    let mut list = SinglyList::new();
    list.push(2u64);
    list.push(1);
    list.insert(2, 3);
    assert_eq!(list.len(), 3);
    assert_eq!(list.get(2), Some(&3));
}

#[test]
fn insert_beyond_length_is_noop() {
    let mut list = SinglyList::new();
    list.push(2u64);
    list.push(1);
    list.insert(3, 99);
    assert_eq!(list.len(), 2);
    assert_eq!(list.get(0), Some(&1));
    assert_eq!(list.get(1), Some(&2));
    assert_eq!(list.get(2), None);
}

#[test]
fn insert_into_empty_beyond_zero_is_noop() {
    let mut list = SinglyList::new();
    list.insert(1, 42u64);
    assert_eq!(list.len(), 0);
    assert_eq!(list.pop(), None);
}

#[test]
fn delete_at_zero_is_pop() {
    let mut by_delete = SinglyList::new();
    let mut by_pop = SinglyList::new();
    for v in [30u64, 20, 10] {
        by_delete.push(v);
        by_pop.push(v);
    }
    assert_eq!(by_delete.delete(0), by_pop.pop());
    assert_eq!(by_delete.len(), by_pop.len());
    for i in 0..by_pop.len() {
        assert_eq!(by_delete.get(i), by_pop.get(i));
    }
}

#[test]
fn delete_middle_removes_exactly_that_position() {
    let mut list = SinglyList::new();
    for v in [4u64, 3, 2, 1] {
        list.push(v);
    }
    assert_eq!(list.delete(2), Some(3));
    assert_eq!(list.len(), 3);
    assert_eq!(list.get(0), Some(&1));
    assert_eq!(list.get(1), Some(&2));
    assert_eq!(list.get(2), Some(&4));
}

#[test]
fn delete_last_position() {
    let mut list = SinglyList::new();
    for v in [3u64, 2, 1] {
        list.push(v);
    }
    assert_eq!(list.delete(2), Some(3));
    assert_eq!(list.len(), 2);
    assert_eq!(list.get(2), None);
}

#[test]
fn delete_at_length_is_noop() {
    // The node at index - 1 exists but has no successor to detach.
    let mut list = SinglyList::new();
    for v in [3u64, 2, 1] {
        list.push(v);
    }
    assert_eq!(list.delete(3), None);
    assert_eq!(list.len(), 3);
    assert_eq!(list.get(0), Some(&1));
    assert_eq!(list.get(1), Some(&2));
    assert_eq!(list.get(2), Some(&3));
}

#[test]
fn delete_beyond_length_is_noop() {
    let mut list = SinglyList::new();
    list.push(1u64);
    assert_eq!(list.delete(7), None);
    assert_eq!(list.len(), 1);
    assert_eq!(list.get(0), Some(&1));
}

#[test]
fn delete_on_empty_is_noop() {
    let mut list = SinglyList::<u64>::new();
    assert_eq!(list.delete(0), None);
    assert_eq!(list.delete(1), None);
    assert_eq!(list.len(), 0);
}

#[test]
fn delete_run_at_fixed_index_removes_middle_block() {
    // Content [1, 2, 3, 4, 5]: deleting twice at index 2 removes the
    // middle block [3, 4] in order and leaves [1, 2, 5].
    let mut list = SinglyList::new();
    for v in [5u64, 4, 3, 2, 1] {
        list.push(v);
    }
    let mut deleted = Vec::new();
    for _ in 0..2 {
        if let Some(v) = list.delete(2) {
            deleted.push(v);
        }
    }
    assert_eq!(deleted, vec![3, 4]);
    assert_eq!(list.len(), 3);
    assert_eq!(list.get(0), Some(&1));
    assert_eq!(list.get(1), Some(&2));
    assert_eq!(list.get(2), Some(&5));
}

#[test]
fn long_chain_round_trip() {
    let mut list = SinglyList::new();
    for v in (0..1000u64).rev() {
        list.push(v);
    }
    assert_eq!(list.len(), 1000);
    let mut it = list.into_iter();
    for v in 0..1000u64 {
        assert_eq!(it.next(), Some(v));
    }
    assert_eq!(it.next(), None);
}

#[test]
fn pop_then_push_back_restores_list() {
    let mut list = SinglyList::new();
    let values = vec![1u64, 2, 3, 4, 5];
    for v in values.iter().rev() {
        list.push(*v);
    }
    let mut popped = Vec::new();
    for _ in 0..3 {
        popped.push(list.pop().unwrap());
    }
    assert_eq!(popped, vec![1, 2, 3]);
    assert_eq!(list.len(), 2);
    for v in popped.iter().rev() {
        list.push(*v);
    }
    assert_eq!(list.len(), values.len());
    for (i, v) in values.iter().enumerate() {
        assert_eq!(list.get(i), Some(v));
    }
}

#[test]
fn owning_traversal_yields_in_order_and_consumes() {
    let mut list = SinglyList::new();
    for v in [3u64, 2, 1] {
        list.push(v);
    }
    let mut it = list.into_iter();
    assert_eq!(it.next(), Some(1));
    assert_eq!(it.next(), Some(2));
    assert_eq!(it.next(), Some(3));
    assert_eq!(it.next(), None);
    assert_eq!(it.next(), None);
}

#[test]
fn read_only_traversals_run_independently() {
    let mut list = SinglyList::new();
    for v in [2u64, 1] {
        list.push(v);
    }
    let mut first = list.iter();
    let mut second = list.iter();
    assert_eq!(first.next(), Some(&1));
    assert_eq!(second.next(), Some(&1));
    assert_eq!(first.next(), Some(&2));
    assert_eq!(second.next(), Some(&2));
    assert_eq!(first.next(), None);
    assert_eq!(second.next(), None);
    assert_eq!(list.len(), 2);
}

#[test]
fn set_overwrites_in_place() {
    let mut list = SinglyList::new();
    for v in [3u64, 2, 1] {
        list.push(v);
    }
    assert!(list.set(1, 99));
    assert_eq!(list.get(0), Some(&1));
    assert_eq!(list.get(1), Some(&99));
    assert_eq!(list.get(2), Some(&3));
    assert_eq!(list.len(), 3);
}

#[test]
fn set_beyond_length_is_noop() {
    let mut list = SinglyList::new();
    list.push(1u64);
    assert!(!list.set(1, 99));
    assert_eq!(list.get(0), Some(&1));
    assert_eq!(list.get(1), None);
}

#[test]
fn get_out_of_range_is_none() {
    let mut list = SinglyList::new();
    assert_eq!(list.get(0), None);
    list.push(5u64);
    assert_eq!(list.get(0), Some(&5));
    assert_eq!(list.get(1), None);
}

#[test]
fn default_is_empty() {
    let mut list: SinglyList<u64> = SinglyList::default();
    assert_eq!(list.len(), 0);
    assert_eq!(list.pop(), None);
}

#[test]
fn works_with_non_copy_elements() {
    let mut list = SinglyList::new();
    list.push(String::from("tail"));
    list.push(String::from("head"));
    assert_eq!(list.get(0).map(|s| s.as_str()), Some("head"));
    assert_eq!(list.pop(), Some(String::from("head")));
    assert_eq!(list.pop(), Some(String::from("tail")));
}
