use dsm_exchange_node::config::{
    Config, HttpConfig, IdentityConfig, NodeConfig, StorageConfig,
};
use dsm_exchange_node::node::genesis::{
    entropy_input, genesis_input, genesis_record, identity_state, publish_genesis_to_registry,
    settle_genesis, Genesis, GenesisIds, GenesisOutcome,
};
use dsm_exchange_node::node::http::is_success;
use dsm_exchange_node::node::identity::{our_device_id, IdentityState};
use dsm_exchange_node::node::registration::{
    registration_ids, registration_request, try_register_or_reissue, Action, Attempt, Event,
    RegisterDeviceRequest, Registration, Verdict,
};
use dsm_exchange_node::node::identity_run::{
    load_or_create_identity, IdentityAction, IdentityEvent, IdentityRun,
};
use dsm_exchange_node::node::startup::{boot_action, bootstrap, sdk_config, BootAction, BootStep};
use dsm_exchange_node::node::wallet_seed::{ensure_wallet_seed_cached, SeedEvent, SeedStage};

fn config(env: Option<&str>) -> Config {
    Config {
        node: NodeConfig { id: "node".to_string(), network: "test".to_string() },
        storage: StorageConfig {
            endpoints: vec!["http://a/".to_string(), "http://b".to_string(), "http://c".to_string()],
            env_config_path: env.map(|s| s.to_string()),
        },
        identity: IdentityConfig {
            data_dir: "/d".to_string(),
            mnemonic_path: "/d/m".to_string(),
            identity_state_path: None,
        },
        http: HttpConfig { listen: "0.0.0.0:1".to_string() },
    }
}

fn s(t: &str) -> String {
    t.to_string()
}

fn failed(stage: SeedStage) -> String {
    match stage {
        SeedStage::Failed(why) => why,
        other => panic!("{:?}", other),
    }
}

fn go(stage: SeedStage, event: SeedEvent) -> SeedStage {
    ensure_wallet_seed_cached("/d/m", stage, event)
}

#[test]
fn sealed_seed_is_preferred() {
    let stage = go(SeedStage::LoadSealed, SeedEvent::SealedLoaded(true));
    assert_eq!(stage, SeedStage::ReadCache { sealed: true });
    assert_eq!(go(stage, SeedEvent::Cached(Some(vec![1, 2]))), SeedStage::Done(vec![1, 2]));
    let stage = SeedStage::ReadCache { sealed: true };
    assert_eq!(
        failed(go(stage, SeedEvent::Cached(None))),
        "wallet seed cache unexpectedly empty after sealed load"
    );
}

#[test]
fn backup_is_next() {
    let stage = go(SeedStage::LoadSealed, SeedEvent::SealedLoaded(false));
    assert_eq!(stage, SeedStage::ProbeBackup);
    let stage = go(stage, SeedEvent::BackupExists(true));
    assert_eq!(stage, SeedStage::ReadBackup);
    let stage = go(stage, SeedEvent::BackupRead(Some(s("  one two three\n"))));
    assert_eq!(stage, SeedStage::Derive { mnemonic: s("one two three"), fresh: false });
    let stage = go(stage, SeedEvent::Derived(None));
    assert_eq!(stage, SeedStage::ReadCache { sealed: false });
    assert_eq!(
        failed(go(stage, SeedEvent::Cached(None))),
        "wallet seed cache unexpectedly empty after derive_and_cache_key"
    );
    assert_eq!(
        failed(go(SeedStage::ReadBackup, SeedEvent::BackupRead(None))),
        "reading mnemonic backup from /d/m"
    );
    assert_eq!(
        failed(go(
            SeedStage::Derive { mnemonic: s("x"), fresh: false },
            SeedEvent::Derived(Some(s("bad")))
        )),
        "derive_and_cache_key from persisted mnemonic failed: bad"
    );
}

#[test]
fn padded_backup_gives_the_same_seed() {
    let seed_after = |first: SeedEvent| {
        let stage = go(SeedStage::LoadSealed, first);
        let stage = match stage {
            SeedStage::ProbeBackup => {
                let stage = go(stage, SeedEvent::BackupExists(true));
                let text = s("\u{3000}\t w1\u{200b} w2\u{a0}\u{85}\r\n");
                let stage = go(stage, SeedEvent::BackupRead(Some(text)));
                let mnemonic = s("w1\u{200b} w2");
                assert_eq!(stage, SeedStage::Derive { mnemonic, fresh: false });
                go(stage, SeedEvent::Derived(None))
            }
            other => other,
        };
        go(stage, SeedEvent::Cached(Some(vec![7])))
    };
    assert_eq!(seed_after(SeedEvent::SealedLoaded(false)), SeedStage::Done(vec![7]));
    assert_eq!(seed_after(SeedEvent::SealedLoaded(true)), SeedStage::Done(vec![7]));
}

#[test]
fn fresh_mnemonic_is_backed_up_first() {
    let stage = go(SeedStage::ProbeBackup, SeedEvent::BackupExists(false));
    assert_eq!(stage, SeedStage::Generate);
    let stage = go(stage, SeedEvent::Generated(Ok(s("w1 w2"))));
    assert_eq!(stage, SeedStage::CreateParent(s("w1 w2")));
    let stage = go(stage, SeedEvent::ParentReady(true));
    assert_eq!(stage, SeedStage::WriteBackup(s("w1 w2")));
    let stage = go(stage, SeedEvent::Written(true));
    assert_eq!(stage, SeedStage::Restrict(s("w1 w2")));
    let stage = go(stage, SeedEvent::Restricted);
    assert_eq!(stage, SeedStage::Derive { mnemonic: s("w1 w2"), fresh: true });
    let stage = go(stage, SeedEvent::Derived(None));
    assert_eq!(go(stage, SeedEvent::Cached(Some(vec![7]))), SeedStage::Done(vec![7]));
}

#[test]
fn fresh_mnemonic_failures() {
    assert_eq!(
        failed(go(SeedStage::Generate, SeedEvent::Generated(Err(s("rng"))))),
        "generate_mnemonic failed: rng"
    );
    assert_eq!(
        failed(go(SeedStage::CreateParent(s("w")), SeedEvent::ParentReady(false))),
        "creating parent dirs for /d/m"
    );
    assert_eq!(
        failed(go(SeedStage::WriteBackup(s("w")), SeedEvent::Written(false))),
        "writing mnemonic to /d/m"
    );
    assert_eq!(
        failed(go(
            SeedStage::Derive { mnemonic: s("w"), fresh: true },
            SeedEvent::Derived(Some(s("bad")))
        )),
        "derive_and_cache_key for new mnemonic failed: bad"
    );
}

#[test]
fn start_up_goes_in_order() {
    let c = config(Some("/env"));
    let mut step = BootStep::SetStorageDir;
    let mut seen = vec![step];
    while step != BootStep::Ready {
        step = bootstrap(&c, step, Ok(())).unwrap();
        seen.push(step);
    }
    assert_eq!(
        seen,
        vec![
            BootStep::SetStorageDir,
            BootStep::SetEnvConfig,
            BootStep::InitSdk,
            BootStep::LoadIdentity,
            BootStep::RegisterDevice,
            BootStep::Ready,
        ]
    );
    assert_eq!(bootstrap(&config(None), BootStep::SetStorageDir, Ok(())), Ok(BootStep::InitSdk));
}

#[test]
fn start_up_failures() {
    let c = config(None);
    assert_eq!(
        bootstrap(&c, BootStep::SetStorageDir, Err(s("x"))),
        Err(s("set_storage_base_dir failed: x"))
    );
    assert_eq!(bootstrap(&c, BootStep::InitSdk, Err(s("x"))), Err(s("init_dsm_sdk failed: x")));
    assert_eq!(bootstrap(&c, BootStep::LoadIdentity, Err(s("x"))), Err(s("x")));
    assert_eq!(bootstrap(&c, BootStep::RegisterDevice, Err(s("x"))), Ok(BootStep::Ready));
}

#[test]
fn start_up_steps_are_told_what_to_do() {
    let c = config(Some("/env"));
    assert!(matches!(boot_action(&c, BootStep::SetStorageDir), BootAction::SetStorageDir(d) if d == "/d"));
    assert!(matches!(boot_action(&c, BootStep::SetEnvConfig), BootAction::SetEnvConfig(f) if f == "/env"));
    assert!(matches!(boot_action(&c, BootStep::InitSdk), BootAction::InitSdk(k) if k.node_id == "node"));
    assert!(matches!(boot_action(&c, BootStep::LoadIdentity), BootAction::LoadIdentity));
    assert!(matches!(boot_action(&c, BootStep::RegisterDevice), BootAction::RegisterDevice));
    assert!(matches!(boot_action(&c, BootStep::Ready), BootAction::Ready));
}

fn well() -> IdentityEvent {
    IdentityEvent::Taken(Ok(()))
}

fn badly() -> IdentityEvent {
    IdentityEvent::Taken(Err(s("x")))
}

fn good_event(action: &IdentityAction) -> IdentityEvent {
    match action {
        IdentityAction::CacheSeed => IdentityEvent::Seed(Ok(vec![5, 6])),
        IdentityAction::DeriveGenesis { .. } => IdentityEvent::Derived(Ok(outcome())),
        IdentityAction::EncodeIds { .. } => IdentityEvent::Ids(GenesisIds {
            device_id: s("D"),
            hash: s("H"),
            nonce: s("N"),
            smt_root: s("R"),
        }),
        IdentityAction::BindKyber => IdentityEvent::Kyber(Some(vec![0xfe])),
        _ => well(),
    }
}

fn after_good_steps(c: &Config, count: usize) -> IdentityRun<'_> {
    let mut run = load_or_create_identity(c);
    for _ in 0..count {
        let event = good_event(&run.action());
        run.on_event(event);
    }
    run
}

fn why(count: usize) -> String {
    let c = config(None);
    let mut run = after_good_steps(&c, count);
    run.on_event(badly());
    match run.action() {
        IdentityAction::Failed(text) => text,
        other => panic!("{:?}", other),
    }
}

#[test]
fn identity_comes_up_in_order() {
    let c = config(None);
    let mut run = load_or_create_identity(&c);
    let mut seen = vec![];
    loop {
        let action = run.action();
        let event = good_event(&action);
        match action {
            IdentityAction::CacheSeed => seen.push("seed"),
            IdentityAction::DeriveGenesis { seed, input } => {
                assert_eq!(seed, vec![5, 6]);
                assert_eq!(input.network, b"test".to_vec());
                seen.push("genesis");
            }
            IdentityAction::CreateCore { device_id, public_key } => {
                assert_eq!((device_id, public_key), (vec![0xd1; 32], vec![3]));
                seen.push("core");
            }
            IdentityAction::InstallGenesis => seen.push("install"),
            IdentityAction::EncodeIds { device_id, hash, nonce, smt_root } => {
                assert_eq!((device_id, hash), (vec![0xd1; 32], vec![0xa2; 32]));
                assert_eq!((nonce, smt_root), (vec![4], vec![0xa2; 32]));
                seen.push("ids");
            }
            IdentityAction::StoreRecord(r) => {
                assert_eq!((r.device_id.as_str(), r.genesis_id.as_str()), ("D", "H"));
                assert_eq!((r.entropy_hash.as_str(), r.merkle_root.as_str()), ("N", "R"));
                seen.push("record");
            }
            IdentityAction::EnsureWalletState { device_id } => {
                assert_eq!(device_id, "D");
                seen.push("wallet");
            }
            IdentityAction::SetIdentity { device_id, public_key, genesis_hash, smt_root } => {
                assert_eq!((device_id, public_key), (vec![0xd1; 32], vec![3]));
                assert_eq!((genesis_hash, smt_root), (vec![0xa2; 32], vec![0xa2; 32]));
                seen.push("identity");
            }
            IdentityAction::InitContext { device_id, genesis_hash, entropy_input } => {
                let mut joined = vec![0xd1; 32];
                joined.extend_from_slice(&[0xa2; 32]);
                joined.extend_from_slice(&[5, 6]);
                assert_eq!((device_id, genesis_hash), (vec![0xd1; 32], vec![0xa2; 32]));
                assert_eq!(entropy_input, joined);
                seen.push("context");
            }
            IdentityAction::CreateRouter(sdk) => {
                assert_eq!(sdk.node_id, "node");
                seen.push("router");
            }
            IdentityAction::InstallRouter => seen.push("install router"),
            IdentityAction::InstallPolicyResolver => seen.push("resolver"),
            IdentityAction::RehydrateTokens => seen.push("tokens"),
            IdentityAction::RepublishPolicies => seen.push("policies"),
            IdentityAction::PublishGenesis(g) => {
                assert_eq!(g.device_entropy, vec![4]);
                seen.push("publish");
            }
            IdentityAction::BindKyber => seen.push("kyber"),
            IdentityAction::Ready(state) => {
                assert_eq!(state.device_id_hex, "d1".repeat(32));
                assert_eq!(state.genesis_hash_hex, "a2".repeat(32));
                assert_eq!(state.kyber_public_key_hex, "fe");
                break;
            }
            IdentityAction::Failed(text) => panic!("{}", text),
        }
        run.on_event(event);
    }
    assert_eq!(
        seen,
        vec![
            "seed", "genesis", "core", "install", "ids", "record", "wallet", "identity", "context",
            "router", "install router", "resolver", "tokens", "policies", "publish", "kyber",
        ]
    );
}

#[test]
fn identity_failures() {
    let c = config(None);
    let mut run = after_good_steps(&c, 0);
    run.on_event(IdentityEvent::Seed(Err(s("no seed"))));
    assert!(matches!(run.action(), IdentityAction::Failed(t) if t == "no seed"));
    let mut run = after_good_steps(&c, 1);
    run.on_event(IdentityEvent::Derived(Err(s("x"))));
    assert!(
        matches!(run.action(), IdentityAction::Failed(t) if t == "genesis v3 derivation failed: x")
    );
    assert_eq!(why(2), "CoreSDK::new_with_device failed: x");
    assert_eq!(why(3), "install_v2_genesis failed: x");
    assert_eq!(why(5), "store_genesis_record_with_verification failed: x");
    assert_eq!(why(6), "ensure_wallet_state_for_device failed: x");
    assert_eq!(why(8), "initialize_sdk_context failed: x");
    assert_eq!(why(9), "AppRouterImpl::new failed: x");
    assert_eq!(why(10), "install_app_router failed: x");
}

#[test]
fn identity_comes_up_for_its_own_configuration() {
    let mut other = config(None);
    other.node.id = s("other");
    other.node.network = s("main");
    let run = after_good_steps(&other, 1);
    assert!(
        matches!(run.action(), IdentityAction::DeriveGenesis { input, .. } if input.network == b"main")
    );
    let run = after_good_steps(&other, 9);
    assert!(matches!(run.action(), IdentityAction::CreateRouter(sdk) if sdk.node_id == "other"));
    let run = after_good_steps(&other, 14);
    assert!(matches!(run.action(), IdentityAction::PublishGenesis(g) if g.network_id == "main"));
}

#[test]
fn same_seed_and_network_give_the_same_ids() {
    let first = config(None);
    let mut second = config(Some("/env"));
    second.node.id = s("another");
    second.storage.endpoints.pop();
    second.identity.data_dir = s("/elsewhere");
    let input = |c: &Config| match after_good_steps(c, 1).action() {
        IdentityAction::DeriveGenesis { seed, input } => {
            (seed, input.network, input.wallet_index, input.device_slot, input.genesis_version)
        }
        other => panic!("{:?}", other),
    };
    assert_eq!(input(&first), input(&second));
    let ids = |c: &Config| match after_good_steps(c, 16).action() {
        IdentityAction::Ready(state) => (state.device_id_hex, state.genesis_hash_hex),
        other => panic!("{:?}", other),
    };
    assert_eq!(ids(&first), ids(&second));
}

#[test]
fn identity_comes_up_without_the_registry_and_the_kyber_key() {
    let c = config(None);
    let mut run = after_good_steps(&c, 14);
    assert!(matches!(run.action(), IdentityAction::PublishGenesis(_)));
    run.on_event(badly());
    assert!(matches!(run.action(), IdentityAction::BindKyber));
    run.on_event(IdentityEvent::Kyber(None));
    match run.action() {
        IdentityAction::Ready(state) => assert_eq!(state.kyber_public_key_hex, ""),
        other => panic!("{:?}", other),
    }
}

#[test]
fn sdk_is_configured_for_the_node() {
    let c = sdk_config(&config(None));
    assert_eq!(c.node_id, "node");
    assert_eq!(c.storage_endpoints, config(None).storage.endpoints);
    assert!(!c.enable_offline);
}

fn outcome() -> GenesisOutcome {
    GenesisOutcome {
        device_id: Some(vec![0xd1; 32]),
        hash: vec![0xa2; 32],
        public_key: vec![3],
        merkle_root: None,
        nonce: vec![4],
    }
}

#[test]
fn genesis_is_settled() {
    let g = settle_genesis(Ok(outcome())).unwrap();
    assert_eq!(g.smt_root, vec![0xa2; 32]);
    assert_eq!(g.device_id, vec![0xd1; 32]);
    let mut with_root = outcome();
    with_root.merkle_root = Some(vec![9]);
    assert_eq!(settle_genesis(Ok(with_root)).unwrap().smt_root, vec![9]);
    let mut nameless = outcome();
    nameless.device_id = None;
    assert_eq!(settle_genesis(Ok(nameless)).unwrap_err(), "v3 genesis missing device_id");
    assert_eq!(settle_genesis(Err(s("x"))).unwrap_err(), "genesis v3 derivation failed: x");
}

#[test]
fn genesis_is_derived_for_the_network() {
    let input = genesis_input(&config(None));
    assert_eq!(input.network, b"test".to_vec());
    assert_eq!((input.wallet_index, input.device_slot, input.genesis_version), (0, 0, 3));
}

#[test]
fn genesis_is_recorded() {
    let ids = GenesisIds { device_id: s("D"), hash: s("H"), nonce: s("N"), smt_root: s("R") };
    let r = genesis_record(&config(None), &ids);
    assert_eq!(r.genesis_id, "H");
    assert_eq!(r.device_id, "D");
    assert_eq!(r.mpc_proof, "");
    assert_eq!(r.device_birth_binding, "");
    assert_eq!(r.merkle_root, "R");
    assert_eq!(r.participant_count, 0);
    assert_eq!(r.progress_marker, "genesis");
    assert_eq!(r.publication_hash, "H");
    assert_eq!(r.storage_nodes, config(None).storage.endpoints);
    assert_eq!(r.entropy_hash, "N");
    assert_eq!(r.protocol_version, "genesis-v3");
    assert!(r.hash_chain_proof.is_none() && r.smt_proof.is_none() && r.verification_step.is_none());
    assert_eq!(r.genesis_nonce, "N");
    assert_eq!(r.genesis_profile, "MnemonicV3");
    assert_eq!(r.network_id, "test");
}

#[test]
fn genesis_is_announced() {
    let g = settle_genesis(Ok(outcome())).unwrap();
    let a = publish_genesis_to_registry(&config(None), &g);
    assert_eq!(a.device_id, vec![0xd1; 32]);
    assert_eq!(a.genesis_hash, vec![0xa2; 32]);
    assert_eq!(a.public_key, vec![3]);
    assert_eq!(a.smt_root, vec![0xa2; 32]);
    assert_eq!(a.device_entropy, vec![4]);
    assert_eq!((a.session_id.as_str(), a.threshold, a.locale.as_str()), ("", 0, "en"));
    assert_eq!(a.network_id, "test");
    assert_eq!(a.storage_nodes.len(), 3);
}

#[test]
fn entropy_comes_from_device_genesis_and_seed() {
    assert_eq!(entropy_input(&[1], &[2, 3], &[4]), vec![1, 2, 3, 4]);
}

#[test]
fn reported_identity_reads_back_as_bytes() {
    let g: Genesis = settle_genesis(Ok(outcome())).unwrap();
    let state = identity_state(&g, &Some(vec![0xfe]));
    assert_eq!(state.device_id_hex, "d1".repeat(32));
    assert_eq!(state.genesis_hash_hex, "a2".repeat(32));
    assert_eq!(state.kyber_public_key_hex, "fe");
    assert_eq!(identity_state(&g, &None).kyber_public_key_hex, "");
    assert_eq!(registration_ids(&state), Some((vec![0xd1; 32], vec![0xa2; 32])));
    assert_eq!(our_device_id(&Some(state)).unwrap(), vec![0xd1; 32]);
}

#[test]
fn faulty_identity_is_not_registered() {
    let with = |device: &str, genesis: &str| IdentityState {
        device_id_hex: s(device),
        genesis_hash_hex: s(genesis),
        kyber_public_key_hex: String::new(),
    };
    assert_eq!(registration_ids(&with("0", "00")), None);
    assert_eq!(registration_ids(&with("00", "0g")), None);
    assert_eq!(registration_ids(&with("00", "")), Some((vec![0], vec![])));
}

#[test]
fn registration_needs_the_kyber_binding() {
    assert_eq!(registration_request(vec![1], vec![2], Some(vec![3]), None), None);
    assert_eq!(
        registration_request(vec![1], vec![2], None, Some((vec![4], vec![5]))),
        Some(RegisterDeviceRequest {
            device_id: vec![1],
            pubkey: vec![],
            genesis_hash: vec![2],
            kyber_public_key: vec![4],
            kyber_binding_sig: vec![5],
        })
    );
    assert_eq!(
        registration_request(vec![1], vec![2], Some(vec![3]), Some((vec![4], vec![5]))).unwrap().pubkey,
        vec![3]
    );
}

#[test]
fn answers_to_a_registration() {
    assert_eq!(try_register_or_reissue(Attempt::Register, Some(201)), Verdict::TakeToken);
    assert_eq!(try_register_or_reissue(Attempt::Register, Some(409)), Verdict::AskAgain);
    assert_eq!(try_register_or_reissue(Attempt::Register, Some(500)), Verdict::GiveUp);
    assert_eq!(try_register_or_reissue(Attempt::Register, None), Verdict::GiveUp);
    assert_eq!(try_register_or_reissue(Attempt::Reissue, Some(200)), Verdict::TakeToken);
    assert_eq!(try_register_or_reissue(Attempt::Reissue, Some(409)), Verdict::GiveUp);
    assert!(is_success(Some(299)) && !is_success(Some(300)) && !is_success(None));
}

fn post(url: &str) -> Action {
    Action::Post { url: s(url), content_type: s("application/protobuf") }
}

#[test]
fn every_node_is_registered_with() {
    let endpoints = vec![s("http://a//"), s("http://b"), s("http://c")];
    let mut run = Registration::new(&endpoints);
    assert_eq!(run.action(), post("http://a/api/v2/device/register"));
    run.on_event(Event::Answered(Some(200)));
    assert_eq!(run.action(), Action::ReadToken);
    run.on_event(Event::Token(Some(s("T1"))));
    assert_eq!(run.action(), Action::StoreToken { endpoint: s("http://a"), token: s("T1") });
    run.on_event(Event::Stored);
    assert_eq!(run.action(), post("http://b/api/v2/device/register"));
    run.on_event(Event::Answered(Some(409)));
    assert_eq!(run.action(), post("http://b/api/v2/device/token"));
    run.on_event(Event::Answered(Some(200)));
    assert_eq!(run.action(), Action::ReadToken);
    run.on_event(Event::Token(None));
    assert_eq!(run.action(), post("http://c/api/v2/device/register"));
    run.on_event(Event::Answered(None));
    assert_eq!(run.action(), Action::Finished);
}

#[test]
fn second_conflict_gives_up_on_the_node() {
    let mut run = Registration::new(&vec![s("a")]);
    run.on_event(Event::Answered(Some(409)));
    run.on_event(Event::Answered(Some(409)));
    assert_eq!(run.action(), Action::Finished);
    assert_eq!(Registration::new(&vec![]).action(), Action::Finished);
}
