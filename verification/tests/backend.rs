use forge_executor::backend::{Backend, ConfigError};
use forge_executor::fork::Fork;
use forge_executor::types::{AccountInfo, Address, B256, SlotKey, U256};

fn address(lo: u64) -> Address {
    Address { hi: 0, mid: 0, lo }
}

fn word(lo: u64) -> U256 {
    U256::from_u64(lo)
}

fn hash(lo: u64) -> B256 {
    B256 { limb3: 0, limb2: 0, limb1: 0, limb0: lo }
}

fn forked(url: &str, pin_block: Option<u64>) -> Backend {
    Backend::new(Some(Fork { url: url.to_string(), pin_block })).expect("fork should be accepted")
}

#[test]
fn local_backend_has_inert_defaults() {
    let backend = Backend::new(None).expect("local construction cannot fail");
    assert!(backend.is_simple());
    assert!(!backend.is_forked());

    let info = backend.basic(address(7)).expect("local always answers");
    assert_eq!(info.balance, U256::zero());
    assert_eq!(info.nonce, 0);
    assert_eq!(info.code_hash, B256::zero());

    let code = backend.code_by_hash(hash(9)).expect("local always answers");
    assert!(code.is_empty());

    assert_eq!(backend.storage(address(7), word(3)), Some(U256::zero()));
    assert_eq!(backend.block_hash(word(123)), Some(B256::zero()));
}

#[test]
fn local_backend_ignores_its_inputs() {
    let backend = Backend::new(None).unwrap();
    assert_eq!(backend.basic(address(1)), backend.basic(address(0xdead)));
    assert_eq!(backend.block_hash(word(0)), backend.block_hash(word(u64::MAX)));
    assert_eq!(backend.code_by_hash(hash(1)), backend.code_by_hash(hash(2)));
    assert_eq!(
        backend.storage(address(1), word(1)),
        backend.storage(address(2), word(2))
    );
}

#[test]
fn fork_descriptor_selects_forked_variant() {
    let backend = forked("https://node.example", Some(100));
    assert!(backend.is_forked());
    assert!(!backend.is_simple());
}

#[test]
fn no_descriptor_selects_local_variant() {
    let backend = Backend::new(None).unwrap();
    assert!(backend.is_simple());
}

#[test]
fn malformed_endpoint_is_a_configuration_error() {
    let r = Backend::new(Some(Fork { url: "not-a-url".to_string(), pin_block: None }));
    assert_eq!(r.err(), Some(ConfigError::InvalidEndpoint));
}

#[test]
fn empty_endpoint_is_refused_with_a_diagnostic() {
    let r = Backend::new(Some(Fork { url: String::new(), pin_block: None }));
    let e = r.err().expect("an empty endpoint is malformed");
    assert_eq!(e, ConfigError::InvalidEndpoint);
    assert_eq!(e.message(), "invalid fork endpoint: not a valid node address");
}

#[test]
fn forked_block_hash_is_cached_and_stable() {
    let backend = forked("https://node.example", Some(100));
    let mut sb = match backend {
        Backend::Forked(sb) => sb,
        Backend::Simple(_) => panic!("expected the forked variant"),
    };

    // A miss before any fetch was recorded.
    assert_eq!(sb.block_hash(word(100)), None);

    // Record the fetched hash; the same key then answers it, every time.
    sb.insert_block_hash(word(100), hash(0xabc));
    assert_eq!(sb.block_hash(word(100)), Some(hash(0xabc)));
    assert_eq!(sb.block_hash(word(100)), Some(hash(0xabc)));

    // A later fill under the same key cannot change the answer.
    sb.insert_block_hash(word(100), hash(0xdef));
    assert_eq!(sb.block_hash(word(100)), Some(hash(0xabc)));
}

#[test]
fn forked_block_hash_beyond_pin_is_zero() {
    let backend = forked("https://node.example", Some(100));
    let sb = match backend {
        Backend::Forked(sb) => sb,
        Backend::Simple(_) => panic!("expected the forked variant"),
    };
    assert_eq!(sb.block_hash(word(101)), Some(B256::zero()));
    assert_eq!(sb.block_hash(word(u64::MAX)), Some(B256::zero()));
}

#[test]
fn forked_without_pin_serves_every_number_from_cache() {
    let backend = forked("https://node.example", None);
    let mut sb = match backend {
        Backend::Forked(sb) => sb,
        Backend::Simple(_) => panic!("expected the forked variant"),
    };
    assert_eq!(sb.block_hash(word(u64::MAX)), None);
    sb.insert_block_hash(word(u64::MAX), hash(5));
    assert_eq!(sb.block_hash(word(u64::MAX)), Some(hash(5)));
}

#[test]
fn forked_account_and_storage_round_trip() {
    let backend = forked("https://node.example", Some(42));
    let mut sb = match backend {
        Backend::Forked(sb) => sb,
        Backend::Simple(_) => panic!("expected the forked variant"),
    };

    assert_eq!(sb.basic(address(7)), None);
    let info = AccountInfo { balance: word(1000), nonce: 3, code_hash: hash(0x77) };
    sb.insert_account(address(7), info);
    assert_eq!(sb.basic(address(7)), Some(info));
    assert_eq!(sb.basic(address(7)), Some(info));
    // Another address is still a miss.
    assert_eq!(sb.basic(address(8)), None);

    assert_eq!(sb.storage(address(7), word(1)), None);
    sb.insert_storage(address(7), word(1), word(99));
    assert_eq!(sb.storage(address(7), word(1)), Some(word(99)));
    // A different slot of the same account is independent.
    assert_eq!(sb.storage(address(7), word(2)), None);
}

#[test]
fn forked_code_round_trip() {
    let backend = forked("https://node.example", Some(42));
    let mut sb = match backend {
        Backend::Forked(sb) => sb,
        Backend::Simple(_) => panic!("expected the forked variant"),
    };

    assert_eq!(sb.code_by_hash(hash(0x77)), None);
    sb.insert_code(hash(0x77), vec![0x60, 0x80, 0x60, 0x40]);
    assert_eq!(sb.code_by_hash(hash(0x77)), Some(vec![0x60, 0x80, 0x60, 0x40]));
    assert_eq!(sb.code_by_hash(hash(0x77)), Some(vec![0x60, 0x80, 0x60, 0x40]));
}

#[test]
fn dispatch_forwards_forked_queries_verbatim() {
    let backend = forked("https://node.example", Some(100));
    let mut sb = match backend {
        Backend::Forked(sb) => sb,
        Backend::Simple(_) => panic!("expected the forked variant"),
    };
    sb.insert_block_hash(word(100), hash(0xabc));
    let info = AccountInfo { balance: word(5), nonce: 1, code_hash: hash(0x11) };
    sb.insert_account(address(4), info);

    // The union answers exactly what the inner backend answers.
    let backend = Backend::Forked(sb);
    assert_eq!(backend.block_hash(word(100)), Some(hash(0xabc)));
    assert_eq!(backend.block_hash(word(101)), Some(B256::zero()));
    assert_eq!(backend.block_hash(word(99)), None);
    assert_eq!(backend.basic(address(4)), Some(info));
    assert_eq!(backend.basic(address(5)), None);
    assert_eq!(backend.code_by_hash(hash(0x11)), None);
    assert_eq!(backend.storage(address(4), word(0)), None);
}

#[test]
fn word_order_follows_the_numeric_value() {
    let small = word(100);
    let big = word(101);
    assert!(small.le(&big));
    assert!(small.le(&small));
    assert!(!big.le(&small));

    let high_limb = U256 { limb3: 1, limb2: 0, limb1: 0, limb0: 0 };
    assert!(big.le(&high_limb));
    assert!(!high_limb.le(&big));
}

#[test]
fn slot_keys_compare_by_both_parts() {
    let a = SlotKey { address: address(1), index: word(1) };
    let b = SlotKey { address: address(1), index: word(2) };
    let c = SlotKey { address: address(2), index: word(1) };
    assert_ne!(a, b);
    assert_ne!(a, c);
    assert_eq!(a, SlotKey { address: address(1), index: word(1) });
}
