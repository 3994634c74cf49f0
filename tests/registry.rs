use quic_dispatch::registry::{bytes_eq, ConnectionRegistry};

fn filled(n: u8) -> ConnectionRegistry<u32> {
    let mut reg = ConnectionRegistry::new();
    for i in 0..n {
        assert!(reg.insert(vec![i, i], 100 + i as u32).is_ok());
    }
    reg
}

#[test]
fn insert_refuses_a_second_entry_for_an_identifier() {
    let mut reg = filled(3);
    assert_eq!(reg.insert(vec![1, 1], 7), Err(7));
    assert_eq!(reg.len(), 3);
    assert_eq!(reg.lookup(&[1, 1]), Some(1));
    assert_eq!(reg.entries[1].handle, 101);
    assert_eq!(reg.lookup(&[3, 3]), None);
}

#[test]
fn resolve_prefers_raw_identifier_then_routed() {
    let reg = filled(3);
    assert_eq!(reg.resolve(&[2, 2], &[0, 0]), Some(2));
    assert_eq!(reg.resolve(&[9], &[0, 0]), Some(0));
    assert_eq!(reg.resolve(&[9], &[8]), None);
}

#[test]
fn collect_terminated_twice_removes_nothing_more() {
    let mut reg = filled(4);
    let removed = reg.collect_terminated(&vec![false, true, false, true]);
    assert_eq!(removed, 2);
    let ids: Vec<Vec<u8>> = reg.entries.iter().map(|e| e.id.clone()).collect();
    assert_eq!(ids, vec![vec![0, 0], vec![2, 2]]);
    let again = reg.collect_terminated(&vec![false, false]);
    assert_eq!(again, 0);
    assert_eq!(reg.len(), 2);
}

#[test]
fn collect_terminated_removes_exactly_the_closed_entry() {
    let mut reg = filled(5);
    let removed = reg.collect_terminated(&vec![false, false, true, false, false]);
    assert_eq!(removed, 1);
    let handles: Vec<u32> = reg.entries.iter().map(|e| e.handle).collect();
    assert_eq!(handles, vec![100, 101, 103, 104]);
    assert_eq!(reg.lookup(&[2, 2]), None);
}

#[test]
fn collect_terminated_on_empty_registry() {
    let mut reg: ConnectionRegistry<u32> = ConnectionRegistry::new();
    assert_eq!(reg.collect_terminated(&vec![]), 0);
    assert_eq!(reg.len(), 0);
}

#[test]
fn bytes_eq_compares_contents() {
    assert!(bytes_eq(&[1, 2], &[1, 2]));
    assert!(!bytes_eq(&[1, 2], &[1, 3]));
    assert!(!bytes_eq(&[1, 2], &[1]));
    assert!(bytes_eq(&[], &[]));
}
