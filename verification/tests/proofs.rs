use pallet_poe::{ClaimRecord, Proofs};

fn record(owner: u64, recorded_at: u64) -> ClaimRecord {
    ClaimRecord { owner, recorded_at }
}

#[test]
fn empty_store_holds_nothing() {
    let proofs = Proofs::new();
    assert!(!proofs.contains_key(&vec![0, 1]));
    assert_eq!(proofs.get(&vec![0, 1]), None);
}

#[test]
fn default_store_holds_nothing() {
    let proofs = Proofs::default();
    assert!(!proofs.contains_key(&Vec::new()));
    assert_eq!(proofs.get(&vec![7]), None);
}

#[test]
fn insert_then_get() {
    let mut proofs = Proofs::new();
    proofs.insert(&vec![0, 1], record(1, 5));
    assert!(proofs.contains_key(&vec![0, 1]));
    assert_eq!(proofs.get(&vec![0, 1]), Some(record(1, 5)));
    assert!(!proofs.contains_key(&vec![0]));
    assert!(!proofs.contains_key(&vec![0, 1, 2]));
    assert_eq!(proofs.get(&vec![1, 0]), None);
}

#[test]
fn insert_under_a_held_key_replaces_the_record() {
    let mut proofs = Proofs::new();
    proofs.insert(&vec![1], record(1, 1));
    proofs.insert(&vec![2], record(2, 2));
    proofs.insert(&vec![1], record(7, 3));
    assert_eq!(proofs.get(&vec![1]), Some(record(7, 3)));
    assert_eq!(proofs.get(&vec![2]), Some(record(2, 2)));
    assert_eq!(proofs.remove(&vec![1]), Some(record(7, 3)));
    assert_eq!(proofs.get(&vec![1]), None);
}

#[test]
fn remove_returns_what_lay_there() {
    let mut proofs = Proofs::new();
    proofs.insert(&vec![1], record(1, 1));
    assert_eq!(proofs.remove(&vec![2]), None);
    assert_eq!(proofs.remove(&vec![1]), Some(record(1, 1)));
    assert_eq!(proofs.remove(&vec![1]), None);
    assert!(!proofs.contains_key(&vec![1]));
}

#[test]
fn remove_keeps_every_other_entry() {
    let mut proofs = Proofs::new();
    let keys: Vec<Vec<u8>> = vec![vec![1], vec![2], vec![3], vec![4], vec![5]];
    for (i, key) in keys.iter().enumerate() {
        proofs.insert(key, record(i as u64, 10 + i as u64));
    }
    assert_eq!(proofs.remove(&keys[1]), Some(record(1, 11)));
    assert_eq!(proofs.remove(&keys[4]), Some(record(4, 14)));
    assert_eq!(proofs.remove(&keys[0]), Some(record(0, 10)));
    assert_eq!(proofs.get(&keys[0]), None);
    assert_eq!(proofs.get(&keys[1]), None);
    assert_eq!(proofs.get(&keys[2]), Some(record(2, 12)));
    assert_eq!(proofs.get(&keys[3]), Some(record(3, 13)));
    assert_eq!(proofs.get(&keys[4]), None);
    proofs.insert(&keys[1], record(9, 9));
    assert_eq!(proofs.get(&keys[1]), Some(record(9, 9)));
    assert_eq!(proofs.get(&keys[2]), Some(record(2, 12)));
    assert_eq!(proofs.get(&keys[3]), Some(record(3, 13)));
}

#[test]
fn store_keeps_its_own_copy_of_the_key() {
    let mut proofs = Proofs::new();
    let mut key: Vec<u8> = vec![1, 2, 3];
    proofs.insert(&key, record(1, 1));
    key[0] = 9;
    assert_eq!(proofs.get(&key), None);
    assert_eq!(proofs.get(&vec![1, 2, 3]), Some(record(1, 1)));
}
