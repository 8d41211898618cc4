use hedera::signer::{bytes_equal, SignaturePair, SignerSet};

fn toy_sign(id: &Vec<u8>, payload: &Vec<u8>) -> Vec<u8> {
    let mut out = id.clone();
    out.extend(payload.iter().rev());
    out
}

#[test]
fn bytes_equal_compares_contents() {
    assert!(bytes_equal(&vec![], &vec![]));
    assert!(bytes_equal(&vec![1, 2, 3], &vec![1, 2, 3]));
    assert!(!bytes_equal(&vec![1, 2, 3], &vec![1, 2, 4]));
    assert!(!bytes_equal(&vec![1, 2, 3], &vec![1, 2]));
    assert!(!bytes_equal(&vec![], &vec![0]));
}

#[test]
fn attach_appends_new_identities_in_order() {
    let mut set = SignerSet::new();
    assert_eq!(set.len(), 0);
    assert!(set.attach(vec![1]));
    assert!(set.attach(vec![2, 2]));
    assert!(set.attach(vec![3]));
    assert_eq!(set.len(), 3);
    assert_eq!(set.get(0), Some(&vec![1]));
    assert_eq!(set.get(1), Some(&vec![2, 2]));
    assert_eq!(set.get(2), Some(&vec![3]));
}

#[test]
fn attach_skips_an_identity_that_is_attached() {
    let mut set = SignerSet::new();
    assert!(set.attach(vec![1]));
    assert!(set.attach(vec![2]));
    assert!(!set.attach(vec![1]));
    assert_eq!(set.len(), 2);
    assert_eq!(set.get(0), Some(&vec![1]));
    assert_eq!(set.get(1), Some(&vec![2]));
    assert!(set.contains(&vec![1]));
    assert!(set.contains(&vec![2]));
    assert!(!set.contains(&vec![3]));
    assert!(!set.contains(&vec![]));
}

#[test]
fn sign_payload_asks_every_signer_in_attachment_order() {
    let mut set = SignerSet::new();
    set.attach(vec![9]);
    set.attach(vec![4, 4]);
    set.attach(vec![9]);
    set.attach(vec![1]);
    let payload = vec![10, 20, 30];
    let signatures = set.sign_payload(&payload, toy_sign);
    assert_eq!(
        signatures,
        vec![
            SignaturePair { public_identity: vec![9], signature: vec![9, 30, 20, 10] },
            SignaturePair { public_identity: vec![4, 4], signature: vec![4, 4, 30, 20, 10] },
            SignaturePair { public_identity: vec![1], signature: vec![1, 30, 20, 10] },
        ]
    );
}

#[test]
fn sign_payload_without_signers_gives_nothing() {
    let set = SignerSet::new();
    let signatures = set.sign_payload(&vec![1, 2], toy_sign);
    assert!(signatures.is_empty());
}

#[test]
fn sign_payload_calls_the_capability_once_for_each_signer() {
    let mut set = SignerSet::new();
    set.attach(vec![1]);
    set.attach(vec![2]);
    let calls = std::cell::RefCell::new(Vec::new());
    let signatures = set.sign_payload(&vec![5], |id: &Vec<u8>, _payload: &Vec<u8>| {
        calls.borrow_mut().push(id.clone());
        vec![0]
    });
    assert_eq!(signatures.len(), 2);
    assert_eq!(*calls.borrow(), vec![vec![1u8], vec![2u8]]);
}
