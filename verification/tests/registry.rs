use panes::storage::{index_error, PaneStorage};
use panes::{DivHandle, LocalRect, NodeRef, Pane, PaneHandle, PanesError};

fn sample(node: u64) -> Pane {
    Pane {
        node: NodeRef(node),
        displayed: true,
        local: LocalRect { x: node, y: 2 * node, w: 3, h: 4 },
    }
}

#[test]
fn a_new_registry_is_empty() {
    let registry = PaneStorage::new();
    assert_eq!(registry.len(), 0);
    assert_eq!(registry.next_index(), 0);
    assert_eq!(registry.get(&DivHandle(0)), Err(PanesError::NotAllocated));
}

#[test]
fn indices_are_issued_in_rising_order() {
    let mut registry = PaneStorage::new();
    assert_eq!(registry.insert(sample(10)), Ok(DivHandle(0)));
    assert_eq!(registry.insert(sample(11)), Ok(DivHandle(1)));
    assert_eq!(registry.insert(sample(12)), Ok(DivHandle(2)));
    assert_eq!(registry.len(), 3);
    assert_eq!(registry.next_index(), 3);
    assert_eq!(registry.get(&DivHandle(1)), Ok(&sample(11)));
}

#[test]
fn indices_are_not_reused_after_removal() {
    let mut registry = PaneStorage::new();
    let mut issued = Vec::new();
    for round in 0..20u64 {
        let handle = registry.insert(sample(round)).unwrap();
        for earlier in &issued {
            assert!(handle.0 > *earlier);
        }
        issued.push(handle.0);
        if round % 2 == 0 {
            assert_eq!(registry.remove(&handle), Ok(sample(round)));
        }
        if round % 5 == 0 && round > 0 {
            let _ = registry.remove(&DivHandle((round - 1) as usize));
        }
    }
    assert_eq!(issued, (0..20usize).collect::<Vec<_>>());
}

#[test]
fn removal_hands_out_the_pane_and_keeps_the_others() {
    let mut registry = PaneStorage::new();
    let a = registry.insert(sample(1)).unwrap();
    let b = registry.insert(sample(2)).unwrap();
    let c = registry.insert(sample(3)).unwrap();
    assert_eq!(registry.remove(&b), Ok(sample(2)));
    assert_eq!(registry.len(), 2);
    assert_eq!(registry.next_index(), 3);
    assert_eq!(registry.get(&a), Ok(&sample(1)));
    assert_eq!(registry.get(&b), Err(PanesError::UseAfterDelete));
    assert_eq!(registry.get(&c), Ok(&sample(3)));
    assert_eq!(
        registry.for_each(&|pane: &Pane| Ok(pane.node)),
        Ok(vec![NodeRef(1), NodeRef(3)])
    );
}

#[test]
fn removal_twice_fails_the_second_time() {
    let mut registry = PaneStorage::new();
    let a = registry.insert(sample(1)).unwrap();
    assert!(registry.remove(&a).is_ok());
    assert_eq!(registry.remove(&a), Err(PanesError::UseAfterDelete));
    assert_eq!(registry.remove(&DivHandle(1)), Err(PanesError::NotAllocated));
    assert_eq!(registry.len(), 0);
    assert_eq!(registry.next_index(), 1);
}

#[test]
fn a_deleted_index_stays_deleted() {
    let mut registry = PaneStorage::new();
    let a = registry.insert(sample(1)).unwrap();
    registry.remove(&a).unwrap();
    for node in 0..10 {
        let h = registry.insert(sample(node)).unwrap();
        assert!(h != a);
        assert_eq!(registry.get(&a), Err(PanesError::UseAfterDelete));
    }
}

#[test]
fn get_mut_changes_one_record() {
    let mut registry = PaneStorage::new();
    let a = registry.insert(sample(1)).unwrap();
    let b = registry.insert(sample(2)).unwrap();
    let hidden = Pane { displayed: false, ..sample(2) };
    registry.get_mut(&b).unwrap().displayed = false;
    assert_eq!(registry.get(&a), Ok(&sample(1)));
    assert_eq!(registry.get(&b), Ok(&hidden));
    *registry.get_mut(&a).unwrap() = sample(9);
    assert_eq!(registry.get(&a), Ok(&sample(9)));
    assert_eq!(registry.get_mut(&DivHandle(2)), Err(PanesError::NotAllocated));
    registry.remove(&a).unwrap();
    assert_eq!(registry.get_mut(&a), Err(PanesError::UseAfterDelete));
    assert_eq!(registry.len(), 1);
    assert_eq!(registry.next_index(), 2);
}

#[test]
fn lookups_find_every_pane_of_a_large_registry() {
    let mut registry = PaneStorage::new();
    for node in 0..100u64 {
        registry.insert(sample(node)).unwrap();
    }
    for index in (0..100usize).filter(|i| i % 3 == 1) {
        registry.remove(&DivHandle(index)).unwrap();
    }
    for index in 0..100usize {
        if index % 3 == 1 {
            assert_eq!(registry.get(&DivHandle(index)), Err(PanesError::UseAfterDelete));
        } else {
            assert_eq!(registry.get(&DivHandle(index)), Ok(&sample(index as u64)));
        }
    }
    assert_eq!(registry.get(&DivHandle(100)), Err(PanesError::NotAllocated));
    assert_eq!(registry.len(), 67);
}

#[test]
fn for_each_walks_in_the_order_of_registration() {
    let mut registry = PaneStorage::new();
    assert_eq!(registry.for_each(&|pane: &Pane| Ok(pane.node)), Ok(vec![]));
    for node in [5u64, 3, 8] {
        registry.insert(sample(node)).unwrap();
    }
    registry.get_mut(&DivHandle(1)).unwrap().displayed = false;
    assert_eq!(
        registry.for_each(&|pane: &Pane| Ok((pane.node, pane.displayed))),
        Ok(vec![(NodeRef(5), true), (NodeRef(3), false), (NodeRef(8), true)])
    );
}

#[test]
fn for_each_stops_at_the_first_error() {
    let mut registry = PaneStorage::new();
    for node in [1u64, 2, 3, 4] {
        registry.insert(sample(node)).unwrap();
    }
    let seen = std::cell::RefCell::new(Vec::new());
    let result: Result<Vec<()>, PanesError> = registry.for_each(&|pane: &Pane| {
        seen.borrow_mut().push(pane.node);
        if pane.node == NodeRef(2) {
            Err(PanesError::MissingChild)
        } else if pane.node == NodeRef(3) {
            Err(PanesError::JsCastError)
        } else {
            Ok(())
        }
    });
    assert_eq!(result, Err(PanesError::MissingChild));
    assert_eq!(*seen.borrow(), vec![NodeRef(1), NodeRef(2)]);
}

#[test]
fn invalid_handles_are_told_apart() {
    assert_eq!(index_error(&DivHandle(0), 0), PanesError::NotAllocated);
    assert_eq!(index_error(&DivHandle(3), 3), PanesError::NotAllocated);
    assert_eq!(index_error(&DivHandle(4), 3), PanesError::NotAllocated);
    assert_eq!(index_error(&DivHandle(2), 3), PanesError::UseAfterDelete);
    assert_eq!(index_error(&DivHandle(0), usize::MAX), PanesError::UseAfterDelete);
    assert_eq!(index_error(&DivHandle(usize::MAX), usize::MAX), PanesError::NotAllocated);
}

#[test]
fn both_handle_names_are_one_type() {
    let pane_handle: PaneHandle = DivHandle(4);
    let div_handle: DivHandle = pane_handle;
    assert_eq!(div_handle.0, 4);
}
