use near_practice::{convert_to_array, LeafFormatError, SimpleSmartContract};
use rs_merkle::algorithms::Sha256;
use rs_merkle::Hasher;

fn leaf(s: &str) -> [u8; 32] {
    Sha256::hash(s.as_bytes())
}

fn blob(leaves: &[[u8; 32]]) -> Vec<u8> {
    let mut out = Vec::new();
    for l in leaves {
        out.extend_from_slice(l);
    }
    out
}

fn record_with(leaves: &[[u8; 32]]) -> SimpleSmartContract {
    let mut c = SimpleSmartContract::new();
    assert_eq!(c.update(blob(leaves)), Ok(()));
    c
}

#[test]
fn concrete_abc_scenario() {
    let leaves = [leaf("a"), leaf("b"), leaf("c")];
    let mut c = record_with(&leaves);
    assert!(c.verify(leaf("b").to_vec()));
    assert!(!c.verify(leaf("d").to_vec()));
    assert_eq!(c.update(Vec::new()), Ok(()));
    assert!(!c.verify(leaf("b").to_vec()));
}

#[test]
fn every_leaf_is_a_member() {
    for n in 1..=9usize {
        let leaves: Vec<[u8; 32]> = (0..n).map(|k| leaf(&format!("leaf{}", k))).collect();
        let c = record_with(&leaves);
        for l in &leaves {
            assert!(c.verify(l.to_vec()), "leaf missing from a tree of {} leaves", n);
        }
    }
}

#[test]
fn single_leaf_tree() {
    let c = record_with(&[leaf("only")]);
    assert!(c.verify(leaf("only").to_vec()));
    assert!(!c.verify(leaf("other").to_vec()));
}

#[test]
fn duplicate_leaves_are_members() {
    let c = record_with(&[leaf("x"), leaf("x"), leaf("y")]);
    assert!(c.verify(leaf("x").to_vec()));
    assert!(c.verify(leaf("y").to_vec()));
}

#[test]
fn absent_digest_is_not_a_member() {
    let leaves = [leaf("a"), leaf("b"), leaf("c"), leaf("d"), leaf("e")];
    let c = record_with(&leaves);
    assert!(!c.verify(leaf("f").to_vec()));
    assert!(!c.verify(vec![0u8; 32]));
    let mut flipped = leaf("a");
    flipped[0] ^= 1;
    assert!(!c.verify(flipped.to_vec()));
}

#[test]
fn fresh_record_has_no_members() {
    let c = SimpleSmartContract::new();
    assert!(!c.verify(leaf("a").to_vec()));
    assert!(!c.verify(vec![0u8; 32]));
    let d = SimpleSmartContract::default();
    assert!(!d.verify(leaf("a").to_vec()));
    assert_eq!(d.into_stored(), None);
}

#[test]
fn malformed_update_is_refused_and_keeps_state() {
    let leaves = [leaf("a"), leaf("b")];
    let mut c = record_with(&leaves);
    assert_eq!(c.update(vec![7u8; 10]), Err(LeafFormatError::InvalidLeafFormat));
    assert!(c.verify(leaf("a").to_vec()));
    assert!(c.verify(leaf("b").to_vec()));
    assert_eq!(c.update(vec![1u8; 33]), Err(LeafFormatError::InvalidLeafFormat));
    assert_eq!(c.into_stored(), Some(leaves.to_vec()));
}

#[test]
fn malformed_update_on_fresh_record_stores_nothing() {
    let mut c = SimpleSmartContract::new();
    assert_eq!(c.update(vec![0u8; 31]), Err(LeafFormatError::InvalidLeafFormat));
    assert_eq!(c.into_stored(), None);
}

#[test]
fn wrong_digest_lengths_are_not_members() {
    let a = leaf("a");
    let c = record_with(&[a, leaf("b")]);
    assert!(!c.verify(a[..31].to_vec()));
    let mut long = a.to_vec();
    long.push(0);
    assert!(!c.verify(long));
    assert!(!c.verify(Vec::new()));
}

#[test]
fn repeated_queries_agree() {
    let c = record_with(&[leaf("a"), leaf("b"), leaf("c")]);
    for _ in 0..3 {
        assert!(c.verify(leaf("c").to_vec()));
        assert!(!c.verify(leaf("z").to_vec()));
    }
}

#[test]
fn empty_blob_stores_empty_set() {
    let mut c = record_with(&[leaf("a")]);
    assert_eq!(c.update(Vec::new()), Ok(()));
    assert_eq!(c.into_stored(), Some(Vec::new()));
}

#[test]
fn update_replaces_previous_leaves() {
    let mut c = record_with(&[leaf("a"), leaf("b")]);
    assert_eq!(c.update(blob(&[leaf("c")])), Ok(()));
    assert!(!c.verify(leaf("a").to_vec()));
    assert!(c.verify(leaf("c").to_vec()));
}

#[test]
fn convert_splits_in_order() {
    let mut bytes = Vec::new();
    for k in 0..64u8 {
        bytes.push(k);
    }
    let leaves = convert_to_array(bytes).unwrap();
    assert_eq!(leaves.len(), 2);
    assert_eq!(leaves[0][0], 0);
    assert_eq!(leaves[0][31], 31);
    assert_eq!(leaves[1][0], 32);
    assert_eq!(leaves[1][31], 63);
    assert_eq!(convert_to_array(Vec::new()), Ok(Vec::new()));
    assert_eq!(convert_to_array(vec![0u8; 10]), Err(LeafFormatError::InvalidLeafFormat));
}

#[test]
fn from_stored_round_trips() {
    let leaves = vec![leaf("p"), leaf("q")];
    let c = SimpleSmartContract::from_stored(Some(leaves.clone()));
    assert!(c.verify(leaf("q").to_vec()));
    assert_eq!(c.into_stored(), Some(leaves));
}
