use forge_executor::backend::ConfigError;
use forge_executor::builder::ExecutorBuilder;
use forge_executor::environment::{BlockEnv, CfgEnv, Env, SpecId};
use forge_executor::fork::Fork;
use forge_executor::types::{Address, B256, U256};

fn sample_fork() -> Fork {
    Fork { url: "https://node.example".to_string(), pin_block: Some(100) }
}

#[test]
fn new_builder_holds_the_defaults() {
    let b = ExecutorBuilder::new();
    assert!(!b.cheatcodes());
    assert!(!b.ffi());
    assert!(b.fork().is_none());
    let config = b.config();
    assert_eq!(config.cfg.chain_id, 1);
    assert_eq!(config.cfg.spec_id, SpecId::Latest);
    assert_eq!(config.block.number, 0);
    assert_eq!(config.block.gas_limit, u64::MAX);
}

#[test]
fn with_cheatcodes_sets_both_toggles() {
    let b = ExecutorBuilder::new().with_cheatcodes(true);
    assert!(b.cheatcodes());
    assert!(b.ffi());

    let b = ExecutorBuilder::new().with_cheatcodes(false);
    assert!(b.cheatcodes());
    assert!(!b.ffi());
}

#[test]
fn ffi_never_outruns_cheatcodes() {
    // The only operation that touches the FFI toggle also enables
    // cheatcodes, so FFI-without-cheatcodes is unreachable.
    let chains = [
        ExecutorBuilder::new(),
        ExecutorBuilder::new().with_cheatcodes(true),
        ExecutorBuilder::new().with_cheatcodes(false),
        ExecutorBuilder::new().with_cheatcodes(true).with_spec(SpecId::Berlin),
        ExecutorBuilder::new().with_fork(sample_fork()).with_cheatcodes(true),
    ];
    for b in chains {
        assert!(!b.ffi() || b.cheatcodes());
    }
}

#[test]
fn with_spec_replaces_only_the_ruleset() {
    let b = ExecutorBuilder::new().with_spec(SpecId::Berlin);
    let config = b.config();
    assert_eq!(config.cfg.spec_id, SpecId::Berlin);
    assert_eq!(config.cfg.chain_id, 1);
    assert_eq!(config.block, BlockEnv::default());
}

#[test]
fn with_config_replaces_the_whole_record() {
    let custom = Env {
        cfg: CfgEnv { chain_id: 5, spec_id: SpecId::London },
        block: BlockEnv { number: 17, timestamp: 1000, gas_limit: 30_000_000 },
    };
    let b = ExecutorBuilder::new().with_config(custom);
    assert_eq!(b.config(), custom);
}

#[test]
fn independent_operations_commute() {
    let one = ExecutorBuilder::new()
        .with_cheatcodes(true)
        .with_fork(sample_fork())
        .with_spec(SpecId::Istanbul);
    let other = ExecutorBuilder::new()
        .with_spec(SpecId::Istanbul)
        .with_fork(sample_fork())
        .with_cheatcodes(true);

    assert_eq!(one.cheatcodes(), other.cheatcodes());
    assert_eq!(one.ffi(), other.ffi());
    assert_eq!(one.config(), other.config());
    let f1 = one.fork().as_ref().expect("fork was attached");
    let f2 = other.fork().as_ref().expect("fork was attached");
    assert_eq!(f1.url, f2.url);
    assert_eq!(f1.pin_block, f2.pin_block);
}

#[test]
fn build_without_fork_yields_a_blank_backend() {
    let executor = ExecutorBuilder::new().build().expect("local build cannot fail");
    assert!(executor.backend().is_simple());

    let info = executor
        .backend()
        .basic(Address { hi: 1, mid: 2, lo: 3 })
        .expect("local always answers");
    assert_eq!(info.balance, U256::zero());
    assert_eq!(info.nonce, 0);
    assert_eq!(info.code_hash, B256::zero());
    let code = executor.backend().code_by_hash(info.code_hash).unwrap();
    assert!(code.is_empty());
}

#[test]
fn build_with_fork_yields_a_forked_backend() {
    let custom = Env {
        cfg: CfgEnv { chain_id: 10, spec_id: SpecId::Homestead },
        block: BlockEnv::default(),
    };
    let executor = ExecutorBuilder::new()
        .with_config(custom)
        .with_fork(sample_fork())
        .build()
        .expect("a well-formed endpoint is accepted");
    assert!(executor.backend().is_forked());
    assert_eq!(executor.config(), custom);
}

#[test]
fn build_with_malformed_endpoint_fails_before_any_engine() {
    let r = ExecutorBuilder::new()
        .with_fork(Fork { url: "not-a-url".to_string(), pin_block: None })
        .build();
    match r {
        Ok(_) => panic!("a malformed endpoint must be refused"),
        Err(e) => assert_eq!(e, ConfigError::InvalidEndpoint),
    }
}

#[test]
fn default_environment_values() {
    assert_eq!(Env::default().cfg, CfgEnv::default());
    assert_eq!(Env::default().block, BlockEnv::default());
    assert_eq!(SpecId::default(), SpecId::Latest);
    assert_eq!(CfgEnv::default().chain_id, 1);
    assert_eq!(BlockEnv::default().timestamp, 0);
}
