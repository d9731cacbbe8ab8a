use parachains_runtime::initializer::{
    finalization_order, initialization_order, new_session_order, random_seed, randomness_subject,
    initialization_calls, receives_outgoing_paras, session_change_notification, BufferedSessionChange,
    EndOfBlockAction, NewSessionCall, NewSessionEvent, NewSessionStage, NewSessionState, Config,
    Pallet, ParachainsModule,
    SessionChangeNotification, SessionChangeOutcome,
};
use parachains_runtime::primitives::{ConsensusLog, DispatchClass, DispatchError, ValidatorId};

struct Test;

impl Config for Test {
    type WeightInfo = ();
}

type Initializer = Pallet<Test>;

const NO_ACCOUNTS: &[(u64, ValidatorId)] = &[];

fn zero_weights() -> Vec<(ParachainsModule, u64)> {
    initialization_order().into_iter().map(|m| (m, 0)).collect()
}

fn key(b: u8) -> ValidatorId {
    [b; 32]
}

fn applied(actions: Vec<EndOfBlockAction>) -> Option<BufferedSessionChange> {
    actions.into_iter().find_map(|a| match a {
        EndOfBlockAction::ApplySessionChange(c) => Some(c),
        EndOfBlockAction::Finalize(_) => None,
    })
}

fn finalized(actions: &[EndOfBlockAction]) -> Vec<ParachainsModule> {
    actions
        .iter()
        .filter_map(|a| match a {
            EndOfBlockAction::Finalize(m) => Some(*m),
            EndOfBlockAction::ApplySessionChange(_) => None,
        })
        .collect()
}

#[test]
fn session_0_is_instantly_applied() {
    let mut initializer = Initializer::new();
    let applied = initializer.on_new_session(false, 0, NO_ACCOUNTS, Some(NO_ACCOUNTS));

    let v = initializer.buffered_session_changes();
    assert!(v.is_empty());

    let change = applied.expect("the genesis session is applied at once");
    assert_eq!(change.session_index, 0);
}

#[test]
fn session_change_before_initialize_is_still_buffered_after() {
    let mut initializer = Initializer::new();
    let applied = initializer.on_new_session(false, 1, NO_ACCOUNTS, Some(NO_ACCOUNTS));
    assert!(applied.is_none());

    initializer.on_initialize(&zero_weights());

    let v = initializer.buffered_session_changes();
    assert_eq!(v.len(), 1);
}

#[test]
fn session_change_applied_on_finalize() {
    let mut initializer = Initializer::new();
    initializer.on_initialize(&zero_weights());
    initializer.on_new_session(false, 1, NO_ACCOUNTS, Some(NO_ACCOUNTS));

    let actions = initializer.on_finalize();

    assert!(initializer.buffered_session_changes().is_empty());
    assert_eq!(applied(actions).map(|c| c.session_index), Some(1));
}

#[test]
fn sets_flag_on_initialize() {
    let mut initializer = Initializer::new();
    initializer.on_initialize(&zero_weights());

    assert!(initializer.has_initialized());
}

#[test]
fn clears_flag_on_finalize() {
    let mut initializer = Initializer::new();
    initializer.on_initialize(&zero_weights());
    initializer.on_finalize();

    assert!(!initializer.has_initialized());
}

#[test]
fn on_initialize_sums_module_weights() {
    let mut initializer = Initializer::new();
    let weights: Vec<(ParachainsModule, u64)> =
        initialization_order().into_iter().zip(1..=10u64).map(|(m, i)| (m, i * 1_000)).collect();
    assert_eq!(initializer.on_initialize(&weights), 55_000);
}

#[test]
fn initialization_calls_share_the_block_number() {
    let calls = initialization_calls(77);
    assert_eq!(calls.len(), 10);
    assert_eq!(calls.iter().map(|c| c.0).collect::<Vec<_>>(), initialization_order());
    assert!(calls.iter().all(|c| c.1 == 77));
}

#[test]
fn only_last_buffered_change_is_applied() {
    let mut initializer = Initializer::new();
    let first = [(1u64, key(1))];
    let second = [(2u64, key(2)), (3u64, key(3))];
    initializer.on_new_session(true, 5, &first, None);
    initializer.on_new_session(true, 6, &second, Some(&first));
    assert_eq!(initializer.buffered_session_changes().len(), 2);

    let applied = applied(initializer.on_finalize()).expect("a change was buffered");
    assert_eq!(applied.session_index, 6);
    assert_eq!(applied.validators, vec![key(2), key(3)]);
    assert_eq!(applied.queued, vec![key(1)]);
    assert!(initializer.buffered_session_changes().is_empty());
}

#[test]
fn finalize_without_changes_applies_nothing() {
    let mut initializer = Initializer::new();
    let actions = initializer.on_finalize();
    assert_eq!(actions.len(), 10);
    assert!(applied(actions).is_none());
}

#[test]
fn validators_are_queued_when_no_queue_given() {
    let mut initializer = Initializer::new();
    let keys = [(7u64, key(7)), (8u64, key(8))];
    let applied = initializer.on_new_session(false, 0, &keys, None).unwrap();
    assert_eq!(applied.validators, vec![key(7), key(8)]);
    assert_eq!(applied.queued, applied.validators);
}

#[test]
fn buffered_change_keeps_order_of_keys() {
    let mut initializer = Initializer::new();
    let keys = [(9u64, key(9)), (4u64, key(4)), (6u64, key(6))];
    initializer.on_new_session(false, 3, &keys, None);
    let change: &BufferedSessionChange = &initializer.buffered_session_changes()[0];
    assert_eq!(change.validators, vec![key(9), key(4), key(6)]);
    assert_eq!(change.session_index, 3);
}

#[test]
fn finalization_is_reverse_of_initialization() {
    let mut init = initialization_order();
    assert_eq!(init.len(), 10);
    assert_eq!(init[0], ParachainsModule::Configuration);
    assert_eq!(init[9], ParachainsModule::Hrmp);
    init.reverse();
    assert_eq!(finalization_order(), init);
}

#[test]
fn new_session_order_and_outgoing_paras() {
    let order = new_session_order();
    assert_eq!(order, initialization_order()[2..].to_vec());
    let receiving: Vec<ParachainsModule> =
        order.iter().copied().filter(|m| receives_outgoing_paras(*m)).collect();
    assert_eq!(
        receiving,
        vec![ParachainsModule::Dmp, ParachainsModule::Ump, ParachainsModule::Hrmp]
    );
    assert!(!receives_outgoing_paras(ParachainsModule::Paras));
}

#[test]
fn random_seed_pads_short_hash() {
    let seed = random_seed(&[1, 2, 3]);
    let mut expected = [0u8; 32];
    expected[0] = 1;
    expected[1] = 2;
    expected[2] = 3;
    assert_eq!(seed, expected);
}

#[test]
fn random_seed_truncates_long_hash() {
    let hash: Vec<u8> = (0..40).collect();
    let seed = random_seed(&hash);
    let expected: Vec<u8> = (0..32).collect();
    assert_eq!(seed.to_vec(), expected);
}

#[test]
fn randomness_subject_is_paras() {
    assert_eq!(randomness_subject(), b"paras".to_vec());
}

#[test]
fn unchanged_configuration_is_kept() {
    let outcome = SessionChangeOutcome { prev_config: 17u32, new_config: None };
    assert_eq!(outcome.resolve(), (17, 17));
    let outcome = SessionChangeOutcome { prev_config: 17u32, new_config: Some(23) };
    assert_eq!(outcome.resolve(), (17, 23));
}

#[test]
fn default_notification_is_empty() {
    let n: SessionChangeNotification<u32> = Default::default();
    assert!(n.validators.is_empty());
    assert!(n.queued.is_empty());
    assert_eq!(n.random_seed, [0u8; 32]);
    assert_eq!(n.session_index, 0);
    assert_eq!(n.prev_config, 0);
    assert_eq!(n.new_config, 0);
}

#[test]
fn finalize_asks_for_reverse_order() {
    let mut initializer = Initializer::new();
    initializer.on_initialize(&zero_weights());
    initializer.on_new_session(false, 4, NO_ACCOUNTS, None);
    let actions = initializer.on_finalize();
    let mut expected = initialization_order();
    expected.reverse();
    assert_eq!(actions.len(), 11);
    assert_eq!(finalized(&actions[..10]), expected);
    assert!(matches!(&actions[10], EndOfBlockAction::ApplySessionChange(c) if c.session_index == 4));
}

#[test]
fn new_session_wiring() {
    let change = BufferedSessionChange { validators: vec![key(1), key(2)], queued: vec![key(3)], session_index: 8 };
    let mut state: NewSessionState<u32> = NewSessionState::new(change);

    match state.call() {
        NewSessionCall::Random { subject } => assert_eq!(subject, b"paras".to_vec()),
        _ => panic!("randomness first"),
    }
    let mut hash = vec![4u8; 3];
    hash.extend_from_slice(&[0u8; 40]);
    assert!(state.advance(NewSessionEvent::RandomHash(hash)));

    match state.call() {
        NewSessionCall::MoveConfiguration { session_index } => assert_eq!(session_index, 8),
        _ => panic!("configuration second"),
    }
    assert!(!state.advance(NewSessionEvent::ModuleNotified));
    assert_eq!(state.stage(), NewSessionStage::Configuration);
    assert!(state.advance(NewSessionEvent::ConfigurationMoved(SessionChangeOutcome {
        prev_config: 10,
        new_config: Some(11),
    })));

    let mut seed = [0u8; 32];
    seed[..3].copy_from_slice(&[4, 4, 4]);
    match state.call() {
        NewSessionCall::MoveShared { session_index, random_seed, new_config, all_validators } => {
            assert_eq!(session_index, 8);
            assert_eq!(random_seed, seed);
            assert_eq!(*new_config, 11);
            assert_eq!(*all_validators, vec![key(1), key(2)]);
        }
        _ => panic!("shared third"),
    }
    assert!(state.advance(NewSessionEvent::SharedMoved(vec![key(2)])));

    match state.call() {
        NewSessionCall::NotifyParas { notification } => {
            assert_eq!(notification.validators, vec![key(2)]);
            assert_eq!(notification.queued, vec![key(3)]);
            assert_eq!(notification.prev_config, 10);
            assert_eq!(notification.new_config, 11);
            assert_eq!(notification.random_seed, seed);
            assert_eq!(notification.session_index, 8);
        }
        _ => panic!("paras fourth"),
    }
    assert!(state.advance(NewSessionEvent::ParasNotified(vec![1312, 228])));

    let mut notified = Vec::new();
    loop {
        match state.call() {
            NewSessionCall::Notify { module, notification, outgoing_paras } => {
                assert_eq!(notification.session_index, 8);
                notified.push((module, outgoing_paras.cloned()));
            }
            NewSessionCall::Done => break,
            _ => panic!("only notifications remain"),
        }
        assert!(state.advance(NewSessionEvent::ModuleNotified));
    }
    let with = Some(vec![1312u32, 228]);
    assert_eq!(
        notified,
        vec![
            (ParachainsModule::Scheduler, None),
            (ParachainsModule::Inclusion, None),
            (ParachainsModule::SessionInfo, None),
            (ParachainsModule::Disputes, None),
            (ParachainsModule::Dmp, with.clone()),
            (ParachainsModule::Ump, with.clone()),
            (ParachainsModule::Hrmp, with),
        ]
    );
    assert_eq!(state.stage(), NewSessionStage::Done);
    assert!(!state.advance(NewSessionEvent::ModuleNotified));
}

#[test]
fn unchanged_configuration_reaches_shared_state() {
    let change = BufferedSessionChange { validators: vec![], queued: vec![], session_index: 2 };
    let mut state: NewSessionState<u32> = NewSessionState::new(change);
    assert!(state.advance(NewSessionEvent::RandomHash(vec![])));
    assert!(state.advance(NewSessionEvent::ConfigurationMoved(SessionChangeOutcome {
        prev_config: 6,
        new_config: None,
    })));
    match state.call() {
        NewSessionCall::MoveShared { new_config, random_seed, .. } => {
            assert_eq!(*new_config, 6);
            assert_eq!(random_seed, [0u8; 32]);
        }
        _ => panic!("shared next"),
    }
}

#[test]
fn flag_follows_last_block_hook() {
    let mut initializer = Initializer::new();
    initializer.on_initialize(&zero_weights());
    initializer.on_new_session(false, 2, NO_ACCOUNTS, None);
    assert!(initializer.has_initialized());
    initializer.on_finalize();
    initializer.on_new_session(false, 3, NO_ACCOUNTS, None);
    assert!(!initializer.has_initialized());
    initializer.on_initialize(&zero_weights());
    assert!(initializer.has_initialized());
}

#[test]
fn notification_is_assembled_from_its_parts() {
    let change = BufferedSessionChange { validators: vec![key(1), key(2)], queued: vec![key(3)], session_index: 9 };
    let n = session_change_notification(change, (4u32, 5u32), [7u8; 32], vec![key(2)]);
    assert_eq!(n.validators, vec![key(2)]);
    assert_eq!(n.queued, vec![key(3)]);
    assert_eq!(n.prev_config, 4);
    assert_eq!(n.new_config, 5);
    assert_eq!(n.random_seed, [7u8; 32]);
    assert_eq!(n.session_index, 9);
}

#[test]
fn force_approve_is_operational() {
    assert_eq!(
        Initializer::force_approve_dispatch_info(2),
        (1_000_000_000_000, DispatchClass::Operational)
    );
}

#[test]
fn force_approve_from_force_origin() {
    assert_eq!(Initializer::force_approve(Ok(()), 42), Ok(ConsensusLog::ForceApprove(42)));
}

#[test]
fn force_approve_from_other_origin_is_refused() {
    assert_eq!(
        Initializer::force_approve(Err(DispatchError::BadOrigin), 42),
        Err(DispatchError::BadOrigin)
    );
}

#[test]
fn force_approve_without_benchmarks_costs_a_block() {
    assert_eq!(Initializer::force_approve_weight(3), 1_000_000_000_000);
    assert_eq!(Initializer::force_approve_weight(0), 1_000_000_000_000);
}

#[test]
fn genesis_session_applied_at_once() {
    let mut initializer = Initializer::new();
    let keys = [(1u64, key(1))];
    let applied = initializer.on_genesis_session(&keys).expect("applied at once");
    assert_eq!(applied.session_index, 0);
    assert_eq!(applied.validators, vec![key(1)]);
    assert_eq!(applied.queued, vec![key(1)]);
    assert!(initializer.buffered_session_changes().is_empty());
}
