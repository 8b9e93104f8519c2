use mstsc_bridge::registry::ClientRegistry;

#[test]
fn failed_clients_are_pruned_and_others_kept() {
    let mut r: ClientRegistry<&str> = ClientRegistry::new();
    let a = r.add("a").unwrap();
    let b = r.add("b").unwrap();
    let c = r.add("c").unwrap();
    assert_eq!((a, b, c), (0, 1, 2));
    // The broadcaster took the ids, then `b` failed; `d` joined meanwhile.
    let taken = r.ids();
    assert_eq!(taken, vec![a, b, c]);
    let d = r.add("d").unwrap();
    r.prune_failed(&vec![b]);
    assert_eq!(r.ids(), vec![a, c, d]);
    assert_eq!(*r.handle_at(0), "a");
    assert_eq!(*r.handle_at(1), "c");
    assert_eq!(*r.handle_at(2), "d");
}

#[test]
fn pruning_unknown_or_no_ids_changes_nothing() {
    let mut r: ClientRegistry<u8> = ClientRegistry::new();
    r.add(1).unwrap();
    r.add(2).unwrap();
    r.prune_failed(&vec![]);
    assert_eq!(r.ids(), vec![0, 1]);
    r.prune_failed(&vec![7, 9]);
    assert_eq!(r.ids(), vec![0, 1]);
    r.prune_failed(&vec![0, 1]);
    assert_eq!(r.len(), 0);
}

#[test]
fn removed_client_is_gone_and_ids_are_not_reused() {
    let mut r: ClientRegistry<u8> = ClientRegistry::new();
    let a = r.add(1).unwrap();
    r.remove(a);
    assert_eq!(r.len(), 0);
    assert_eq!(r.add(2), Some(1));
}

fn churn(n: usize) {
    let mut r: ClientRegistry<usize> = ClientRegistry::new();
    for i in 0..n {
        r.add(i).unwrap();
    }
    for round in 0..3 {
        let ids = r.ids();
        // Every other client fails to receive; one new client joins per round.
        let failed: Vec<u64> = ids.iter().copied().filter(|id| id % 2 == round % 2).collect();
        r.add(1000 + round as usize).unwrap();
        let before = r.ids();
        r.prune_failed(&failed);
        let after = r.ids();
        let expected: Vec<u64> = before.iter().copied().filter(|id| !failed.contains(id)).collect();
        assert_eq!(after, expected);
    }
}

#[test]
fn registry_with_no_clients() {
    churn(0);
}

#[test]
fn registry_with_one_client() {
    churn(1);
}

#[test]
fn registry_with_fifty_clients() {
    churn(50);
}
