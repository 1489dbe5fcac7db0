use transaction_simulator::entries::{position, put, Key};
use transaction_simulator::types::{Address, H256};

#[test]
fn same_compares_every_byte() {
    let a = Address([7; 20]);
    assert!(a.same(&Address([7; 20])));
    for i in 0..20 {
        let mut other = [7u8; 20];
        other[i] = 8;
        assert!(!a.same(&Address(other)), "byte {}", i);
    }
    let h = H256([0; 32]);
    assert!(h.same(&H256([0; 32])));
    for i in 0..32 {
        let mut other = [0u8; 32];
        other[i] = 1;
        assert!(!h.same(&H256(other)), "byte {}", i);
    }
}

#[test]
fn put_fills_a_map_in_order() {
    let key = |n: u8| Address([n; 20]);
    let mut entries: Vec<(Address, u32)> = Vec::new();
    put(&mut entries, key(1), 10);
    put(&mut entries, key(2), 20);
    put(&mut entries, key(3), 30);
    assert_eq!(entries, vec![(key(1), 10), (key(2), 20), (key(3), 30)]);
    // a key that stands already keeps its place and takes the new value
    put(&mut entries, key(2), 21);
    assert_eq!(entries, vec![(key(1), 10), (key(2), 21), (key(3), 30)]);
    put(&mut entries, key(1), 11);
    put(&mut entries, key(3), 31);
    assert_eq!(entries, vec![(key(1), 11), (key(2), 21), (key(3), 31)]);
    put(&mut entries, key(4), 40);
    assert_eq!(entries.len(), 4);
    assert_eq!(entries[3], (key(4), 40));
}

#[test]
fn position_of_a_key() {
    let key = |n: u8| H256([n; 32]);
    let entries = vec![(key(5), 'a'), (key(6), 'b'), (key(5), 'c')];
    assert_eq!(position(&entries, &key(5)), Some(0));
    assert_eq!(position(&entries, &key(6)), Some(1));
    assert_eq!(position(&entries, &key(7)), None);
    assert_eq!(position(&Vec::<(H256, char)>::new(), &key(5)), None);
}

#[test]
fn put_into_a_list_with_a_key_twice_changes_the_first() {
    let key = |n: u8| H256([n; 32]);
    let mut entries = vec![(key(5), 'a'), (key(5), 'b')];
    put(&mut entries, key(5), 'c');
    assert_eq!(entries, vec![(key(5), 'c'), (key(5), 'b')]);
}
