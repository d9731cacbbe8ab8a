//! Initialization order of the parachains modules, buffering of session
//! changes until the end of the block, and the data handed to the modules
//! when a new session begins.

use core::marker::PhantomData;
use vstd::prelude::*;

use crate::primitives::{
    BlockNumber, ConsensusLog, DispatchClass, DispatchError, SessionIndex, ValidatorId, Weight,
};

verus! {

// ---------------------------------------------------------------------------
// Module order
// ---------------------------------------------------------------------------

/// The parachains modules that the initializer drives.
#[derive(Clone, Copy, Debug, PartialEq, Eq, Structural)]
pub enum ParachainsModule {
    Configuration,
    Shared,
    Paras,
    Scheduler,
    Inclusion,
    SessionInfo,
    Disputes,
    Dmp,
    Ump,
    Hrmp,
}

/// The order in which the modules are initialized at the start of a block.
pub open spec fn initialization_order_spec() -> Seq<ParachainsModule> {
    seq![
        ParachainsModule::Configuration,
        ParachainsModule::Shared,
        ParachainsModule::Paras,
        ParachainsModule::Scheduler,
        ParachainsModule::Inclusion,
        ParachainsModule::SessionInfo,
        ParachainsModule::Disputes,
        ParachainsModule::Dmp,
        ParachainsModule::Ump,
        ParachainsModule::Hrmp,
    ]
}

/// The modules that are told of a new session once the configuration and the
/// shared state have moved to it: the initialization order without its first
/// two modules.
pub open spec fn new_session_order_spec() -> Seq<ParachainsModule> {
    initialization_order_spec().subrange(2, 10)
}

/// Whether a module is told which parachains leave at a session change.
pub open spec fn receives_outgoing_paras_spec(m: ParachainsModule) -> bool {
    m == ParachainsModule::Dmp || m == ParachainsModule::Ump || m == ParachainsModule::Hrmp
}

/// The modules in the order in which `on_initialize` runs them.
pub fn initialization_order() -> (order: Vec<ParachainsModule>)
    ensures
        order@ == initialization_order_spec(),
{
    let order = vec![
        ParachainsModule::Configuration,
        ParachainsModule::Shared,
        ParachainsModule::Paras,
        ParachainsModule::Scheduler,
        ParachainsModule::Inclusion,
        ParachainsModule::SessionInfo,
        ParachainsModule::Disputes,
        ParachainsModule::Dmp,
        ParachainsModule::Ump,
        ParachainsModule::Hrmp,
    ];
    assert(order@ =~= initialization_order_spec());
    order
}

/// The initialization calls of a block started at `now`: each module, in
/// the initialization order, is initialized once with the same block number.
pub fn initialization_calls(now: BlockNumber) -> (calls: Vec<(ParachainsModule, BlockNumber)>)
    ensures
        calls@.len() == initialization_order_spec().len(),
        forall|i: int|
            0 <= i < calls@.len() ==> #[trigger] calls@[i] == (initialization_order_spec()[i], now),
{
    let order = initialization_order();
    let mut calls: Vec<(ParachainsModule, BlockNumber)> = Vec::new();
    let n = order.len();
    for i in 0..n
        invariant
            n == order@.len(),
            order@ == initialization_order_spec(),
            calls@.len() == i,
            forall|k: int| 0 <= k < i ==> #[trigger] calls@[k] == (order@[k], now),
    {
        calls.push((order[i], now));
    }
    calls
}

/// The modules in the order in which `on_finalize` runs them: the reverse of
/// the initialization order.
pub fn finalization_order() -> (order: Vec<ParachainsModule>)
    ensures
        order@ == initialization_order_spec().reverse(),
{
    let order = vec![
        ParachainsModule::Hrmp,
        ParachainsModule::Ump,
        ParachainsModule::Dmp,
        ParachainsModule::Disputes,
        ParachainsModule::SessionInfo,
        ParachainsModule::Inclusion,
        ParachainsModule::Scheduler,
        ParachainsModule::Paras,
        ParachainsModule::Shared,
        ParachainsModule::Configuration,
    ];
    assert(order@ =~= initialization_order_spec().reverse());
    order
}

/// The modules, in order, that receive the session-change notification after
/// the configuration and the shared state have been moved to the new session.
pub fn new_session_order() -> (order: Vec<ParachainsModule>)
    ensures
        order@ == new_session_order_spec(),
{
    let order = vec![
        ParachainsModule::Paras,
        ParachainsModule::Scheduler,
        ParachainsModule::Inclusion,
        ParachainsModule::SessionInfo,
        ParachainsModule::Disputes,
        ParachainsModule::Dmp,
        ParachainsModule::Ump,
        ParachainsModule::Hrmp,
    ];
    assert(order@ =~= new_session_order_spec());
    order
}

/// Whether a module also receives the list of outgoing parachains (computed by
/// the paras module) together with the session-change notification.
pub fn receives_outgoing_paras(m: ParachainsModule) -> (r: bool)
    ensures
        r == receives_outgoing_paras_spec(m),
{
    match m {
        ParachainsModule::Dmp | ParachainsModule::Ump | ParachainsModule::Hrmp => true,
        _ => false,
    }
}

} // verus!

verus! {

// ---------------------------------------------------------------------------
// Weights
// ---------------------------------------------------------------------------

/// Weight information for the calls of the initializer.
pub trait WeightInfo {
    /// The weight charged for `force_approve` when the block digest holds
    /// `d` log items.
    spec fn spec_force_approve(d: u32) -> Weight;

    fn force_approve(d: u32) -> (w: Weight)
        ensures
            w == Self::spec_force_approve(d),
    ;
}

/// The reference time of a full block under the default block weights:
/// one second of execution.
pub open spec fn default_max_block_weight_spec() -> Weight {
    1_000_000_000_000
}

/// Calls `frame_system::limits::BlockWeights::default()` and reads the
/// reference-time part of its `max_block`. In frame-system the default is
/// built from an expected block weight of `WEIGHT_REF_TIME_PER_SECOND`
/// (10^12) reference time, and `max_block` is the largest per-class total,
/// that of the operational class, which is the whole expected weight; the
/// contract states that value.
#[verifier::external_body]
fn default_max_block_weight() -> (w: Weight)
    ensures
        w == default_max_block_weight_spec(),
{
    frame_system::limits::BlockWeights::default().max_block.ref_time()
}

/// Without benchmarks, a forced approval is charged a whole block.
impl WeightInfo for () {
    open spec fn spec_force_approve(d: u32) -> Weight {
        default_max_block_weight_spec()
    }

    fn force_approve(_d: u32) -> (w: Weight) {
        default_max_block_weight()
    }
}

/// The configuration of the initializer within a runtime.
pub trait Config {
    /// Weight information for the calls of the initializer.
    type WeightInfo: WeightInfo;
}

// ---------------------------------------------------------------------------
// Session changes
// ---------------------------------------------------------------------------

/// A session change that was announced during a block and waits to be applied
/// at its end.
#[derive(Clone, Debug)]
pub struct BufferedSessionChange {
    pub validators: Vec<ValidatorId>,
    pub queued: Vec<ValidatorId>,
    pub session_index: SessionIndex,
}

/// The validator keys of a list of (account, key) pairs, in order.
pub open spec fn validator_keys<A>(keys: Seq<(A, ValidatorId)>) -> Seq<ValidatorId> {
    keys.map_values(|p: (A, ValidatorId)| p.1)
}

/// `change` is the session change for `session_index` built from the new
/// validators and, when given, the queued ones; when no queued validators are
/// given, the new validators are also the queued ones.
pub open spec fn is_session_change<A>(
    change: BufferedSessionChange,
    session_index: SessionIndex,
    validators: Seq<(A, ValidatorId)>,
    queued: Option<Seq<(A, ValidatorId)>>,
) -> bool {
    &&& change.session_index == session_index
    &&& change.validators@ == validator_keys(validators)
    &&& change.queued@ == match queued {
        Some(q) => validator_keys(q),
        None => validator_keys(validators),
    }
}

/// The buffered session changes after a new session is announced: the genesis
/// session is applied at once and never buffered, any other one is appended.
pub open spec fn buffered_after_new_session(
    buffered: Seq<BufferedSessionChange>,
    change: BufferedSessionChange,
) -> Seq<BufferedSessionChange> {
    if change.session_index == 0 {
        buffered
    } else {
        buffered.push(change)
    }
}

/// The session change applied at the end of a block: the last one buffered,
/// if any. Earlier ones lasted less than a block and are dropped.
pub open spec fn applied_on_finalize(buffered: Seq<BufferedSessionChange>) -> Option<
    BufferedSessionChange,
> {
    if buffered.len() == 0 {
        None
    } else {
        Some(buffered.last())
    }
}

/// Collects the validator keys of a list of (account, key) pairs.
fn collect_keys<A>(keys: &[(A, ValidatorId)]) -> (out: Vec<ValidatorId>)
    ensures
        out@ == validator_keys(keys@),
{
    let mut out: Vec<ValidatorId> = Vec::new();
    let n = keys.len();
    for i in 0..n
        invariant
            n == keys@.len(),
            out@ == validator_keys(keys@.take(i as int)),
    {
        out.push(keys[i].1);
        assert(keys@.take(i + 1) =~= keys@.take(i as int).push(keys@[i as int]));
    }
    assert(keys@.take(n as int) =~= keys@);
    out
}

/// A copy of a list of validator keys.
fn copy_keys(keys: &Vec<ValidatorId>) -> (out: Vec<ValidatorId>)
    ensures
        out@ == keys@,
{
    let mut out: Vec<ValidatorId> = Vec::new();
    let n = keys.len();
    for i in 0..n
        invariant
            n == keys@.len(),
            out@ == keys@.take(i as int),
    {
        out.push(keys[i]);
        assert(keys@.take(i + 1) =~= keys@.take(i as int).push(keys@[i as int]));
    }
    assert(keys@.take(n as int) =~= keys@);
    out
}

// ---------------------------------------------------------------------------
// The initializer's storage and hooks
// ---------------------------------------------------------------------------

/// One step the runtime performs at the end of a block.
#[derive(Debug)]
pub enum EndOfBlockAction {
    /// Finalize a module.
    Finalize(ParachainsModule),
    /// Move every module to the session of this change.
    ApplySessionChange(BufferedSessionChange),
}

/// The steps at the end of a block, in order, for the given buffered session
/// changes: each module is finalized, in the reverse of the initialization
/// order, and only then is the last buffered session change, if any, applied.
pub open spec fn is_end_of_block_plan(
    actions: Seq<EndOfBlockAction>,
    buffered: Seq<BufferedSessionChange>,
) -> bool {
    &&& actions.len() == initialization_order_spec().len() + if buffered.len() == 0 {
        0int
    } else {
        1int
    }
    &&& forall|i: int|
        0 <= i < initialization_order_spec().len() ==> #[trigger] actions[i]
            == EndOfBlockAction::Finalize(initialization_order_spec().reverse()[i])
    &&& applied_on_finalize(buffered) matches Some(c) ==> actions[
        initialization_order_spec().len() as int
    ] == EndOfBlockAction::ApplySessionChange(c)
}

/// The entry points of the initializer, as far as the initialized flag is
/// concerned.
#[derive(Clone, Copy, Debug, PartialEq, Eq, Structural)]
pub enum HookCall {
    /// Start of a block.
    Initialize,
    /// End of a block.
    Finalize,
    /// A session begins (genesis or later).
    NewSession,
    /// A forced approval is dispatched.
    ForceApprove,
}

/// The initialized flag after one entry point runs: set at the start of a
/// block, cleared at its end, kept by everything else.
pub open spec fn flag_after_call(flag: bool, call: HookCall) -> bool {
    match call {
        HookCall::Initialize => true,
        HookCall::Finalize => false,
        _ => flag,
    }
}

/// The initialized flag after a sequence of entry points runs.
pub open spec fn flag_after_calls(flag: bool, calls: Seq<HookCall>) -> bool
    decreases calls.len(),
{
    if calls.len() == 0 {
        flag
    } else {
        flag_after_call(flag_after_calls(flag, calls.drop_last()), calls.last())
    }
}

/// Whether an entry point is one of the block hooks.
pub open spec fn is_block_hook(call: HookCall) -> bool {
    call == HookCall::Initialize || call == HookCall::Finalize
}

/// The storage of the initializer: whether the parachains modules have been
/// initialized within the current block, and the session changes waiting for
/// the end of the block.
pub struct Pallet<T: Config> {
    has_initialized: bool,
    buffered_session_changes: Vec<BufferedSessionChange>,
    config: PhantomData<T>,
}

impl<T: Config> Pallet<T> {
    /// Whether the modules have been initialized within this block.
    pub closed spec fn spec_has_initialized(&self) -> bool {
        self.has_initialized
    }

    /// The session changes buffered during this block, oldest first.
    pub closed spec fn spec_buffered(&self) -> Seq<BufferedSessionChange> {
        self.buffered_session_changes@
    }

    /// Empty storage, as at genesis.
    pub fn new() -> (p: Self)
        ensures
            !p.spec_has_initialized(),
            p.spec_buffered() == Seq::<BufferedSessionChange>::empty(),
    {
        Pallet { has_initialized: false, buffered_session_changes: Vec::new(), config: PhantomData }
    }

    /// Whether the modules have been initialized within this block.
    pub fn has_initialized(&self) -> (r: bool)
        ensures
            r == self.spec_has_initialized(),
    {
        self.has_initialized
    }

    /// The session changes buffered during this block, oldest first.
    pub fn buffered_session_changes(&self) -> (r: &Vec<BufferedSessionChange>)
        ensures
            r@ == self.spec_buffered(),
    {
        &self.buffered_session_changes
    }

    /// Records that the modules were initialized for this block.
    /// `module_weights` pairs each module, in `initialization_order()`, with
    /// the weight it reported when initialized (see `initialization_calls`);
    /// the total weight is returned. The buffered session changes are left as
    /// they are.
    pub fn on_initialize(&mut self, module_weights: &[(ParachainsModule, Weight)]) -> (total: Weight)
        requires
            module_weights@.map_values(|p: (ParachainsModule, Weight)| p.0)
                == initialization_order_spec(),
            weight_sum(reported_weights(module_weights@)) <= u64::MAX,
        ensures
            total == weight_sum(reported_weights(module_weights@)),
            final(self).spec_has_initialized(),
            final(self).spec_has_initialized() == flag_after_call(
                old(self).spec_has_initialized(),
                HookCall::Initialize,
            ),
            final(self).spec_buffered() == old(self).spec_buffered(),
    {
        let ghost ws = reported_weights(module_weights@);
        let mut total: Weight = 0;
        let n = module_weights.len();
        for i in 0..n
            invariant
                n == module_weights@.len(),
                ws == reported_weights(module_weights@),
                weight_sum(ws) <= u64::MAX,
                total == weight_sum(ws.take(i as int)),
        {
            proof {
                lemma_weight_sum_prefix(ws, i + 1);
                assert(ws.take(i + 1).drop_last() =~= ws.take(i as int));
            }
            total = total + module_weights[i].1;
        }
        assert(ws.take(n as int) =~= ws);
        self.has_initialized = true;
        total
    }

    /// Ends the block. Returns the steps to perform, in order: the modules
    /// are finalized in the reverse of the order in which they were
    /// initialized, and then the last buffered session change, if any, is
    /// applied. The buffer is emptied and the initialized flag is cleared.
    pub fn on_finalize(&mut self) -> (actions: Vec<EndOfBlockAction>)
        ensures
            is_end_of_block_plan(actions@, old(self).spec_buffered()),
            final(self).spec_buffered() == Seq::<BufferedSessionChange>::empty(),
            !final(self).spec_has_initialized(),
            final(self).spec_has_initialized() == flag_after_call(
                old(self).spec_has_initialized(),
                HookCall::Finalize,
            ),
    {
        let order = finalization_order();
        let mut actions: Vec<EndOfBlockAction> = Vec::new();
        let n = order.len();
        for i in 0..n
            invariant
                n == order@.len(),
                order@ == initialization_order_spec().reverse(),
                actions@.len() == i,
                forall|k: int|
                    0 <= k < i ==> #[trigger] actions@[k] == EndOfBlockAction::Finalize(order@[k]),
        {
            actions.push(EndOfBlockAction::Finalize(order[i]));
        }
        let ghost old_buffered = self.buffered_session_changes@;
        let mut buffered: Vec<BufferedSessionChange> = Vec::new();
        core::mem::swap(&mut buffered, &mut self.buffered_session_changes);
        if let Some(change) = buffered.pop() {
            actions.push(EndOfBlockAction::ApplySessionChange(change));
        }
        self.has_initialized = false;
        assert(initialization_order_spec().len() == 10);
        assert(old_buffered.len() == 0 ==> applied_on_finalize(old_buffered) is None);
        actions
    }

    /// A new session begins. `validators` are the new validators and
    /// `queued` those of the following session; when `queued` is `None`, the
    /// new validators are taken as queued too. The genesis session (index 0)
    /// is returned to be applied at once; any other is buffered until the end
    /// of the block and `None` is returned.
    pub fn on_new_session<A>(
        &mut self,
        _changed: bool,
        session_index: SessionIndex,
        validators: &[(A, ValidatorId)],
        queued: Option<&[(A, ValidatorId)]>,
    ) -> (apply_now: Option<BufferedSessionChange>)
        ensures
            final(self).spec_has_initialized() == old(self).spec_has_initialized(),
            final(self).spec_has_initialized() == flag_after_call(
                old(self).spec_has_initialized(),
                HookCall::NewSession,
            ),
            session_index == 0 <==> apply_now is Some,
            apply_now matches Some(c) ==> is_session_change(
                c,
                session_index,
                validators@,
                match queued {
                    Some(q) => Some(q@),
                    None => None,
                },
            ),
            session_index == 0 ==> final(self).spec_buffered() == old(self).spec_buffered(),
            session_index != 0 ==> {
                let change = final(self).spec_buffered().last();
                &&& is_session_change(
                    change,
                    session_index,
                    validators@,
                    match queued {
                        Some(q) => Some(q@),
                        None => None,
                    },
                )
                &&& final(self).spec_buffered() == buffered_after_new_session(
                    old(self).spec_buffered(),
                    change,
                )
            },
    {
        let validators = collect_keys(validators);
        let queued = match queued {
            Some(q) => collect_keys(q),
            None => copy_keys(&validators),
        };
        let change = BufferedSessionChange { validators, queued, session_index };
        if session_index == 0 {
            Some(change)
        } else {
            self.buffered_session_changes.push(change);
            None
        }
    }
}

impl<T: Config> Pallet<T> {
    /// The genesis session begins with `validators`, who are also the queued
    /// ones; it is returned to be applied at once and nothing is buffered.
    pub fn on_genesis_session<A>(&mut self, validators: &[(A, ValidatorId)]) -> (apply_now:
        Option<BufferedSessionChange>)
        ensures
            apply_now matches Some(c) && is_session_change(c, 0, validators@, None),
            final(self).spec_buffered() == old(self).spec_buffered(),
            final(self).spec_has_initialized() == old(self).spec_has_initialized(),
    {
        self.on_new_session(false, 0, validators, None)
    }
}

/// The weights in a list of (module, weight) pairs, in order.
pub open spec fn reported_weights(module_weights: Seq<(ParachainsModule, Weight)>) -> Seq<Weight> {
    module_weights.map_values(|p: (ParachainsModule, Weight)| p.1)
}

/// Sum of a list of weights.
pub open spec fn weight_sum(ws: Seq<Weight>) -> int
    decreases ws.len(),
{
    if ws.len() == 0 {
        0
    } else {
        weight_sum(ws.drop_last()) + ws.last()
    }
}

/// The sum of a prefix of a list of weights is at most the sum of the list.
pub proof fn lemma_weight_sum_prefix(ws: Seq<Weight>, k: int)
    requires
        0 <= k <= ws.len(),
    ensures
        weight_sum(ws.take(k)) <= weight_sum(ws),
    decreases ws.len(),
{
    if k < ws.len() {
        lemma_weight_sum_prefix(ws.drop_last(), k);
        assert(ws.drop_last().take(k) =~= ws.take(k));
    } else {
        assert(ws.take(k) =~= ws);
    }
}

} // verus!

verus! {

// ---------------------------------------------------------------------------
// Applying a new session
// ---------------------------------------------------------------------------

/// Information about a session change that has just occurred, handed to each
/// module in `new_session_order()`. `C` is the host configuration.
#[derive(Clone)]
pub struct SessionChangeNotification<C> {
    /// The new validators in the session.
    pub validators: Vec<ValidatorId>,
    /// The queued validators for the following session.
    pub queued: Vec<ValidatorId>,
    /// The configuration before handling the session change.
    pub prev_config: C,
    /// The configuration after handling the session change.
    pub new_config: C,
    /// A random seed for the session.
    pub random_seed: [u8; 32],
    /// New session index.
    pub session_index: SessionIndex,
}

impl<C: Default> Default for SessionChangeNotification<C> {
    fn default() -> (n: Self)
        ensures
            n.validators@.len() == 0,
            n.queued@.len() == 0,
            n.random_seed@ == Seq::new(32, |i: int| 0u8),
            n.session_index == 0,
            call_ensures(C::default, (), n.prev_config),
            call_ensures(C::default, (), n.new_config),
    {
        SessionChangeNotification {
            validators: Vec::new(),
            queued: Vec::new(),
            prev_config: C::default(),
            new_config: C::default(),
            random_seed: [0u8; 32],
            session_index: 0,
        }
    }
}

/// What the configuration module reports when it moves to a new session: the
/// configuration in force before, and the new one if it changed.
pub struct SessionChangeOutcome<C> {
    pub prev_config: C,
    pub new_config: Option<C>,
}

impl<C: Clone> SessionChangeOutcome<C> {
    /// The configurations before and after the session change: when the
    /// configuration did not change, the new one is a clone of the previous.
    pub fn resolve(self) -> (configs: (C, C))
        ensures
            configs.0 == self.prev_config,
            match self.new_config {
                Some(c) => configs.1 == c,
                None => cloned(self.prev_config, configs.1),
            },
    {
        let SessionChangeOutcome { prev_config, new_config } = self;
        let new_config = match new_config {
            Some(c) => c,
            None => prev_config.clone(),
        };
        (prev_config, new_config)
    }
}

/// Assembles the notification of a session change: `change` is the session
/// change being applied, `configs` the configurations before and after it (as
/// `SessionChangeOutcome::resolve` gives them), `random_seed` the session's
/// seed, and `validators` the active validators that the shared module chose
/// from `change.validators`.
pub fn session_change_notification<C>(
    change: BufferedSessionChange,
    configs: (C, C),
    random_seed: [u8; 32],
    validators: Vec<ValidatorId>,
) -> (n: SessionChangeNotification<C>)
    ensures
        n.validators@ == validators@,
        n.queued@ == change.queued@,
        n.prev_config == configs.0,
        n.new_config == configs.1,
        n.random_seed == random_seed,
        n.session_index == change.session_index,
{
    let (prev_config, new_config) = configs;
    SessionChangeNotification {
        validators,
        queued: change.queued,
        prev_config,
        new_config,
        random_seed,
        session_index: change.session_index,
    }
}

/// The subject under which the session's randomness is requested.
pub open spec fn randomness_subject_spec() -> Seq<u8> {
    seq![112u8, 97u8, 114u8, 97u8, 115u8]
}

/// The subject under which the session's randomness is requested: the bytes
/// of `"paras"`.
pub fn randomness_subject() -> (subject: Vec<u8>)
    ensures
        subject@ == randomness_subject_spec(),
{
    let subject: Vec<u8> = vec![112u8, 97u8, 114u8, 97u8, 115u8];
    assert(subject@ =~= randomness_subject_spec());
    subject
}

/// The random seed of a session made from a random hash: its first 32 bytes,
/// padded with zeros when the hash is shorter.
pub open spec fn random_seed_spec(random_hash: Seq<u8>) -> Seq<u8> {
    Seq::new(32, |i: int| if i < random_hash.len() { random_hash[i] } else { 0u8 })
}

/// Builds the random seed of a session from the random hash obtained for
/// `randomness_subject()`.
pub fn random_seed(random_hash: &[u8]) -> (seed: [u8; 32])
    ensures
        seed@ == random_seed_spec(random_hash@),
        random_hash@.len() >= 32 ==> seed@ == random_hash@.subrange(0, 32),
        random_hash@.len() < 32 ==> seed@ == random_hash@ + Seq::new(
            (32 - random_hash@.len()) as nat,
            |i: int| 0u8,
        ),
{
    proof {
        lemma_random_seed(random_hash@);
    }
    let mut buf: [u8; 32] = [0u8; 32];
    let len: usize = if random_hash.len() < 32 { random_hash.len() } else { 32 };
    for i in 0..len
        invariant
            len <= 32,
            len <= random_hash@.len(),
            len == 32 || len == random_hash@.len(),
            buf@.len() == 32,
            forall|j: int| 0 <= j < i ==> buf@[j] == random_hash@[j],
            forall|j: int| i <= j < 32 ==> buf@[j] == 0u8,
    {
        buf[i] = random_hash[i];
    }
    assert(buf@ =~= random_seed_spec(random_hash@));
    buf
}

// ---------------------------------------------------------------------------
// Forced approval
// ---------------------------------------------------------------------------

impl<T: Config> Pallet<T> {
    /// Signals the consensus engine to act as though all parachain blocks in
    /// all relay blocks up to and including `up_to` are valid and should be
    /// finalized. `origin_check` is the outcome of checking the caller against
    /// the configured force origin; on success the consensus log to deposit is
    /// returned, otherwise the check's error.
    pub fn force_approve(origin_check: Result<(), DispatchError>, up_to: BlockNumber) -> (r:
        Result<ConsensusLog, DispatchError>)
        ensures
            r == match origin_check {
                Ok(()) => Ok::<ConsensusLog, DispatchError>(ConsensusLog::ForceApprove(up_to)),
                Err(e) => Err(e),
            },
    {
        match origin_check {
            Ok(()) => Ok(ConsensusLog::ForceApprove(up_to)),
            Err(e) => Err(e),
        }
    }

    /// The dispatch information of `force_approve` when the block digest
    /// holds `digest_logs` log items: its weight, and the operational class.
    pub fn force_approve_dispatch_info(digest_logs: usize) -> (info: (Weight, DispatchClass))
        ensures
            info.0 == T::WeightInfo::spec_force_approve(digest_logs as u32),
            info.1 == DispatchClass::Operational,
    {
        (Self::force_approve_weight(digest_logs), DispatchClass::Operational)
    }

    /// The weight charged for `force_approve` when the block digest holds
    /// `digest_logs` log items (their count taken modulo 2^32).
    pub fn force_approve_weight(digest_logs: usize) -> (w: Weight)
        ensures
            w == T::WeightInfo::spec_force_approve(digest_logs as u32),
    {
        T::WeightInfo::force_approve(digest_logs as u32)
    }
}

// ---------------------------------------------------------------------------
// Laws
// ---------------------------------------------------------------------------

/// A session change announced for a session other than the genesis one is
/// the change applied when the block is finalized, whatever was buffered
/// before it.
pub proof fn lemma_announced_change_applied_on_finalize(
    buffered: Seq<BufferedSessionChange>,
    change: BufferedSessionChange,
)
    requires
        change.session_index != 0,
    ensures
        applied_on_finalize(buffered_after_new_session(buffered, change)) == Some(change),
{
}

/// The genesis session is never buffered, so announcing it changes nothing of
/// what finalizing the block applies.
pub proof fn lemma_genesis_change_not_buffered(
    buffered: Seq<BufferedSessionChange>,
    change: BufferedSessionChange,
)
    requires
        change.session_index == 0,
    ensures
        applied_on_finalize(buffered_after_new_session(buffered, change)) == applied_on_finalize(
            buffered,
        ),
{
}

/// Finalizing a block applies nothing when no session change was buffered.
pub proof fn lemma_nothing_buffered_nothing_applied()
    ensures
        applied_on_finalize(Seq::<BufferedSessionChange>::empty()) == None::<BufferedSessionChange>,
{
}

/// With no block hook among the calls, the initialized flag keeps its value.
pub proof fn lemma_flag_kept_without_block_hooks(flag: bool, calls: Seq<HookCall>)
    requires
        forall|i: int| 0 <= i < calls.len() ==> !is_block_hook(#[trigger] calls[i]),
    ensures
        flag_after_calls(flag, calls) == flag,
    decreases calls.len(),
{
    if calls.len() > 0 {
        let prefix = calls.drop_last();
        assert forall|i: int| 0 <= i < prefix.len() implies !is_block_hook(#[trigger] prefix[i]) by {
            assert(prefix[i] == calls[i]);
        }
        assert(!is_block_hook(calls[calls.len() - 1]));
        lemma_flag_kept_without_block_hooks(flag, prefix);
    }
}

/// When the block hook at position `i` is the last one among the calls, the
/// initialized flag ends set exactly when that hook started a block.
pub proof fn lemma_flag_set_by_last_block_hook(flag: bool, calls: Seq<HookCall>, i: int)
    requires
        0 <= i < calls.len(),
        is_block_hook(calls[i]),
        forall|j: int| i < j < calls.len() ==> !is_block_hook(#[trigger] calls[j]),
    ensures
        flag_after_calls(flag, calls) == (calls[i] == HookCall::Initialize),
    decreases calls.len(),
{
    let n = calls.len() - 1;
    if i < n {
        let prefix = calls.drop_last();
        assert(!is_block_hook(calls[n]));
        assert(prefix[i] == calls[i]);
        assert forall|j: int| i < j < prefix.len() implies !is_block_hook(#[trigger] prefix[j]) by {
            assert(prefix[j] == calls[j]);
        }
        lemma_flag_set_by_last_block_hook(flag, prefix, i);
    }
}

/// The initialized flag is set exactly when, of the block hooks that ran, the
/// most recent was the start of a block; with no block hook run it keeps its
/// value. Session announcements and forced approvals never change it.
pub proof fn lemma_flag_tracks_last_block_hook(flag: bool, calls: Seq<HookCall>)
    ensures
        (forall|i: int| 0 <= i < calls.len() ==> !is_block_hook(#[trigger] calls[i]))
            ==> flag_after_calls(flag, calls) == flag,
        forall|i: int|
            0 <= i < calls.len() && is_block_hook(#[trigger] calls[i]) && (forall|j: int|
                i < j < calls.len() ==> !is_block_hook(#[trigger] calls[j])) ==> flag_after_calls(
                flag,
                calls,
            ) == (calls[i] == HookCall::Initialize),
{
    if forall|i: int| 0 <= i < calls.len() ==> !is_block_hook(#[trigger] calls[i]) {
        lemma_flag_kept_without_block_hooks(flag, calls);
    }
    assert forall|i: int|
        0 <= i < calls.len() && is_block_hook(#[trigger] calls[i]) && (forall|j: int|
            i < j < calls.len() ==> !is_block_hook(#[trigger] calls[j])) implies flag_after_calls(
        flag,
        calls,
    ) == (calls[i] == HookCall::Initialize) by {
        lemma_flag_set_by_last_block_hook(flag, calls, i);
    }
}

/// The modules notified of a new session keep the initialization order, and
/// of them exactly the last three (downward, upward and horizontal messaging)
/// also learn which parachains leave.
pub proof fn lemma_module_orders()
    ensures
        forall|i: int|
            0 <= i < new_session_order_spec().len() ==> new_session_order_spec()[i]
                == initialization_order_spec()[i + 2],
        forall|i: int|
            0 <= i < new_session_order_spec().len() ==> (receives_outgoing_paras_spec(
                new_session_order_spec()[i],
            ) <==> i >= 5),
{
    assert(initialization_order_spec().len() == 10);
}

} // verus!

verus! {

// ---------------------------------------------------------------------------
// Moving the modules to a new session
// ---------------------------------------------------------------------------

/// Where the move to a new session stands.
#[derive(Clone, Copy, Debug, PartialEq, Eq, Structural)]
pub enum NewSessionStage {
    /// Waiting for the session's randomness.
    Randomness,
    /// Waiting for the configuration module to move to the new session.
    Configuration,
    /// Waiting for the shared state to move to the new session.
    Shared,
    /// Waiting for the paras module to take the notification.
    Paras,
    /// Waiting for the module at this position of `new_session_order()` to
    /// take the notification.
    Notify(usize),
    /// Every module is in the new session.
    Done,
}

/// What the runtime reports back after performing a `NewSessionCall`.
pub enum NewSessionEvent<C> {
    /// The random hash obtained for the requested subject.
    RandomHash(Vec<u8>),
    /// What the configuration module reported.
    ConfigurationMoved(SessionChangeOutcome<C>),
    /// The active validators that the shared module returned.
    SharedMoved(Vec<ValidatorId>),
    /// The outgoing parachains that the paras module returned.
    ParasNotified(Vec<u32>),
    /// A module took the notification.
    ModuleNotified,
}

/// The next outside call of the move to a new session, with its arguments.
pub enum NewSessionCall<'a, C> {
    /// Ask the randomness beacon for a random hash for `subject`.
    Random { subject: Vec<u8> },
    /// Move the configuration module to the session.
    MoveConfiguration { session_index: SessionIndex },
    /// Move the shared state to the session.
    MoveShared {
        session_index: SessionIndex,
        random_seed: [u8; 32],
        new_config: &'a C,
        all_validators: &'a Vec<ValidatorId>,
    },
    /// Hand the notification to the paras module.
    NotifyParas { notification: &'a SessionChangeNotification<C> },
    /// Hand the notification, and the outgoing parachains when given, to a module.
    Notify {
        module: ParachainsModule,
        notification: &'a SessionChangeNotification<C>,
        outgoing_paras: Option<&'a Vec<u32>>,
    },
    /// Nothing is left to do.
    Done,
}

/// Whether an event answers the call made at a stage.
pub open spec fn answers<C>(stage: NewSessionStage, event: NewSessionEvent<C>) -> bool {
    match stage {
        NewSessionStage::Randomness => event is RandomHash,
        NewSessionStage::Configuration => event is ConfigurationMoved,
        NewSessionStage::Shared => event is SharedMoved,
        NewSessionStage::Paras => event is ParasNotified,
        NewSessionStage::Notify(_) => event is ModuleNotified,
        NewSessionStage::Done => false,
    }
}

/// The stage that follows an answered call.
pub open spec fn stage_after(stage: NewSessionStage) -> NewSessionStage {
    match stage {
        NewSessionStage::Randomness => NewSessionStage::Configuration,
        NewSessionStage::Configuration => NewSessionStage::Shared,
        NewSessionStage::Shared => NewSessionStage::Paras,
        NewSessionStage::Paras => NewSessionStage::Notify(1),
        NewSessionStage::Notify(i) => if i + 1 < new_session_order_spec().len() {
            NewSessionStage::Notify((i + 1) as usize)
        } else {
            NewSessionStage::Done
        },
        NewSessionStage::Done => NewSessionStage::Done,
    }
}

/// The move of every module to the session of one session change. The
/// runtime asks `call()` what to do, does it, and reports the outcome with
/// `advance`; the randomness is requested, the configuration module and the
/// shared state are moved, the notification is built and handed to the
/// modules of `new_session_order()`.
pub struct NewSessionState<C> {
    change: BufferedSessionChange,
    stage: NewSessionStage,
    random_seed: [u8; 32],
    configs: Option<(C, C)>,
    notification: Option<SessionChangeNotification<C>>,
    outgoing_paras: Vec<u32>,
}

impl<C> NewSessionState<C> {
    /// The session change being applied.
    pub closed spec fn spec_change(&self) -> BufferedSessionChange {
        self.change
    }

    pub closed spec fn spec_stage(&self) -> NewSessionStage {
        self.stage
    }

    /// The session's random seed, once the randomness has been obtained.
    pub closed spec fn spec_seed(&self) -> [u8; 32] {
        self.random_seed
    }

    /// The configurations before and after the change, between the moves of
    /// the configuration module and of the shared state.
    pub closed spec fn spec_configs(&self) -> Option<(C, C)> {
        self.configs
    }

    /// The notification, once built.
    pub closed spec fn spec_notification(&self) -> Option<SessionChangeNotification<C>> {
        self.notification
    }

    /// The outgoing parachains reported by the paras module.
    pub closed spec fn spec_outgoing(&self) -> Seq<u32> {
        self.outgoing_paras@
    }

    /// What each stage has at hand.
    pub closed spec fn wf(&self) -> bool {
        match self.stage {
            NewSessionStage::Randomness => self.configs is None && self.notification is None,
            NewSessionStage::Configuration => self.configs is None && self.notification is None,
            NewSessionStage::Shared => self.configs is Some && self.notification is None,
            NewSessionStage::Paras => self.notification is Some,
            NewSessionStage::Notify(i) => self.notification is Some && 1 <= i < 8,
            NewSessionStage::Done => self.notification is Some,
        }
    }

    /// Starts moving the modules to the session of `change`.
    pub fn new(change: BufferedSessionChange) -> (s: Self)
        ensures
            s.wf(),
            s.spec_change() == change,
            s.spec_stage() == NewSessionStage::Randomness,
    {
        NewSessionState {
            change,
            stage: NewSessionStage::Randomness,
            random_seed: [0u8; 32],
            configs: None,
            notification: None,
            outgoing_paras: Vec::new(),
        }
    }

    /// The stage reached.
    pub fn stage(&self) -> (st: NewSessionStage)
        ensures
            st == self.spec_stage(),
    {
        self.stage
    }

    /// The next outside call and its arguments:
    /// - the randomness is requested for `randomness_subject()`;
    /// - the configuration module is moved to the change's session;
    /// - the shared state is moved to the change's session with the random
    ///   seed, the new configuration and the announced validators;
    /// - the paras module, then each further module of `new_session_order()`,
    ///   takes the notification; the modules for which
    ///   `receives_outgoing_paras` holds also take the outgoing parachains
    ///   that the paras module reported.
    pub fn call(&self) -> (c: NewSessionCall<'_, C>)
        requires
            self.wf(),
        ensures
            match self.spec_stage() {
                NewSessionStage::Randomness => c matches NewSessionCall::Random { subject }
                    && subject@ == randomness_subject_spec(),
                NewSessionStage::Configuration => c matches NewSessionCall::MoveConfiguration {
                    session_index,
                } && session_index == self.spec_change().session_index,
                NewSessionStage::Shared => c matches NewSessionCall::MoveShared {
                    session_index,
                    random_seed,
                    new_config,
                    all_validators,
                } && session_index == self.spec_change().session_index && random_seed
                    == self.spec_seed() && *new_config == self.spec_configs().unwrap().1
                    && all_validators@ == self.spec_change().validators@,
                NewSessionStage::Paras => c matches NewSessionCall::NotifyParas { notification }
                    && *notification == self.spec_notification().unwrap(),
                NewSessionStage::Notify(i) => c matches NewSessionCall::Notify {
                    module,
                    notification,
                    outgoing_paras,
                } && module == new_session_order_spec()[i as int] && *notification
                    == self.spec_notification().unwrap() && (if receives_outgoing_paras_spec(
                    module,
                ) {
                    outgoing_paras matches Some(o) && o@ == self.spec_outgoing()
                } else {
                    outgoing_paras is None
                }),
                NewSessionStage::Done => c is Done,
            },
    {
        match self.stage {
            NewSessionStage::Randomness => NewSessionCall::Random { subject: randomness_subject() },
            NewSessionStage::Configuration => NewSessionCall::MoveConfiguration {
                session_index: self.change.session_index,
            },
            NewSessionStage::Shared => match &self.configs {
                Some(configs) => NewSessionCall::MoveShared {
                    session_index: self.change.session_index,
                    random_seed: self.random_seed,
                    new_config: &configs.1,
                    all_validators: &self.change.validators,
                },
                None => NewSessionCall::Done,
            },
            NewSessionStage::Paras => match &self.notification {
                Some(n) => NewSessionCall::NotifyParas { notification: n },
                None => NewSessionCall::Done,
            },
            NewSessionStage::Notify(i) => match &self.notification {
                Some(n) => {
                    let order = new_session_order();
                    let module = order[i];
                    let outgoing_paras = if receives_outgoing_paras(module) {
                        Some(&self.outgoing_paras)
                    } else {
                        None
                    };
                    NewSessionCall::Notify { module, notification: n, outgoing_paras }
                },
                None => NewSessionCall::Done,
            },
            NewSessionStage::Done => NewSessionCall::Done,
        }
    }
}

impl<C: Clone> NewSessionState<C> {
    /// Takes the outcome of the last call. An event that does not answer the
    /// current call is refused and nothing changes; otherwise the stage moves
    /// on and:
    /// - the random hash gives the session's seed (`random_seed`);
    /// - the configuration module's report gives the configurations before
    ///   and after (`SessionChangeOutcome::resolve`);
    /// - the validators returned by the shared state become the notification's
    ///   validators, next to the change's queued validators and index, both
    ///   configurations and the seed;
    /// - the paras module's report gives the outgoing parachains.
    pub fn advance(&mut self, event: NewSessionEvent<C>) -> (accepted: bool)
        requires
            old(self).wf(),
        ensures
            final(self).wf(),
            accepted == answers(old(self).spec_stage(), event),
            old(self).spec_stage() == NewSessionStage::Randomness && event is RandomHash ==> accepted,
            old(self).spec_stage() == NewSessionStage::Configuration && event is ConfigurationMoved
                ==> accepted,
            old(self).spec_stage() == NewSessionStage::Shared && event is SharedMoved ==> accepted,
            old(self).spec_stage() == NewSessionStage::Paras && event is ParasNotified ==> accepted,
            old(self).spec_stage() is Notify && event is ModuleNotified ==> accepted,
            old(self).spec_stage() == NewSessionStage::Done ==> !accepted,
            !accepted ==> *final(self) == *old(self),
            final(self).spec_change() == old(self).spec_change(),
            accepted ==> final(self).spec_stage() == stage_after(old(self).spec_stage()),
            accepted ==> match event {
                NewSessionEvent::RandomHash(h) => {
                    &&& final(self).spec_seed()@ == random_seed_spec(h@)
                    &&& final(self).spec_configs() == old(self).spec_configs()
                    &&& final(self).spec_notification() == old(self).spec_notification()
                },
                NewSessionEvent::ConfigurationMoved(o) => {
                    &&& final(self).spec_seed() == old(self).spec_seed()
                    &&& final(self).spec_configs() matches Some(configs)
                    &&& configs.0 == o.prev_config
                    &&& match o.new_config {
                        Some(c) => configs.1 == c,
                        None => cloned(o.prev_config, configs.1),
                    }
                    &&& final(self).spec_notification() == old(self).spec_notification()
                },
                NewSessionEvent::SharedMoved(v) => {
                    &&& final(self).spec_seed() == old(self).spec_seed()
                    &&& final(self).spec_notification() matches Some(n)
                    &&& n.validators@ == v@
                    &&& n.queued@ == old(self).spec_change().queued@
                    &&& n.prev_config == old(self).spec_configs().unwrap().0
                    &&& n.new_config == old(self).spec_configs().unwrap().1
                    &&& n.random_seed == old(self).spec_seed()
                    &&& n.session_index == old(self).spec_change().session_index
                },
                NewSessionEvent::ParasNotified(p) => {
                    &&& final(self).spec_outgoing() == p@
                    &&& final(self).spec_notification() == old(self).spec_notification()
                },
                NewSessionEvent::ModuleNotified => {
                    &&& final(self).spec_notification() == old(self).spec_notification()
                    &&& final(self).spec_outgoing() == old(self).spec_outgoing()
                },
            },
    {
        match event {
            NewSessionEvent::RandomHash(h) => {
                if let NewSessionStage::Randomness = self.stage {
                    self.random_seed = random_seed(&h);
                    self.stage = NewSessionStage::Configuration;
                    true
                } else {
                    false
                }
            },
            NewSessionEvent::ConfigurationMoved(o) => {
                if let NewSessionStage::Configuration = self.stage {
                    self.configs = Some(o.resolve());
                    self.stage = NewSessionStage::Shared;
                    true
                } else {
                    false
                }
            },
            NewSessionEvent::SharedMoved(v) => {
                if let NewSessionStage::Shared = self.stage {
                    let mut configs: Option<(C, C)> = None;
                    core::mem::swap(&mut configs, &mut self.configs);
                    match configs {
                        Some((prev_config, new_config)) => {
                            self.notification = Some(
                                SessionChangeNotification {
                                    validators: v,
                                    queued: copy_keys(&self.change.queued),
                                    prev_config,
                                    new_config,
                                    random_seed: self.random_seed,
                                    session_index: self.change.session_index,
                                },
                            );
                            self.stage = NewSessionStage::Paras;
                            true
                        },
                        None => {
                            self.configs = configs;
                            false
                        },
                    }
                } else {
                    false
                }
            },
            NewSessionEvent::ParasNotified(p) => {
                if let NewSessionStage::Paras = self.stage {
                    self.outgoing_paras = p;
                    self.stage = NewSessionStage::Notify(1);
                    true
                } else {
                    false
                }
            },
            NewSessionEvent::ModuleNotified => {
                if let NewSessionStage::Notify(i) = self.stage {
                    self.stage = if i + 1 < 8 {
                        NewSessionStage::Notify(i + 1)
                    } else {
                        NewSessionStage::Done
                    };
                    true
                } else {
                    false
                }
            },
        }
    }
}

} // verus!

verus! {

/// The stage reached from the start after `n` answered calls.
pub open spec fn stage_after_answers(n: nat) -> NewSessionStage
    decreases n,
{
    if n == 0 {
        NewSessionStage::Randomness
    } else {
        stage_after(stage_after_answers((n - 1) as nat))
    }
}

/// Answering the calls one after the other requests the randomness, moves
/// the configuration and the shared state, notifies the paras module and then
/// each further module of `new_session_order()` once, in order, and ends
/// after eleven answers.
pub proof fn lemma_new_session_runs_every_step_once()
    ensures
        stage_after_answers(1) == NewSessionStage::Configuration,
        stage_after_answers(2) == NewSessionStage::Shared,
        stage_after_answers(3) == NewSessionStage::Paras,
        forall|k: nat| 4 <= k <= 10 ==> #[trigger] stage_after_answers(k) == NewSessionStage::Notify(
            (k - 3) as usize,
        ),
        stage_after_answers(11) == NewSessionStage::Done,
        stage_after(NewSessionStage::Done) == NewSessionStage::Done,
{
    reveal_with_fuel(stage_after_answers, 12);
    assert(new_session_order_spec().len() == 8);
    assert forall|k: nat| 4 <= k <= 10 implies #[trigger] stage_after_answers(k)
        == NewSessionStage::Notify((k - 3) as usize) by {
        reveal_with_fuel(stage_after_answers, 12);
    }
}

} // verus!

verus! {

/// The seed of a session is the first 32 bytes of the random hash when it
/// has at least 32 bytes (so a 32-byte hash is its own seed), and otherwise
/// the whole hash followed by zeros.
pub proof fn lemma_random_seed(h: Seq<u8>)
    ensures
        random_seed_spec(h).len() == 32,
        forall|i: int| 0 <= i < 32 && i < h.len() ==> #[trigger] random_seed_spec(h)[i] == h[i],
        forall|i: int| h.len() <= i < 32 ==> #[trigger] random_seed_spec(h)[i] == 0u8,
        h.len() >= 32 ==> random_seed_spec(h) == h.subrange(0, 32),
        h.len() == 32 ==> random_seed_spec(h) == h,
        h.len() < 32 ==> random_seed_spec(h) == h + Seq::new((32 - h.len()) as nat, |i: int| 0u8),
{
    if h.len() >= 32 {
        assert(random_seed_spec(h) =~= h.subrange(0, 32));
        if h.len() == 32 {
            assert(h.subrange(0, 32) =~= h);
        }
    } else {
        assert(random_seed_spec(h) =~= h + Seq::new((32 - h.len()) as nat, |i: int| 0u8));
    }
}

/// Two random hashes that agree on their first 32 bytes give the same seed.
pub proof fn lemma_random_seed_depends_on_prefix(h1: Seq<u8>, h2: Seq<u8>)
    requires
        h1.len() >= 32,
        h2.len() >= 32,
        h1.subrange(0, 32) == h2.subrange(0, 32),
    ensures
        random_seed_spec(h1) == random_seed_spec(h2),
{
    lemma_random_seed(h1);
    lemma_random_seed(h2);
}

/// The modules are initialized in this order: the configuration, then the
/// shared state, then the paras module, the scheduler, inclusion, session
/// info, disputes, and the downward, upward and horizontal message queues;
/// each module exactly once. They are finalized in the exact reverse, and a
/// new session is announced to them from the paras module on, in the same
/// order.
pub proof fn lemma_initialization_order()
    ensures
        initialization_order_spec().len() == 10,
        initialization_order_spec()[0] == ParachainsModule::Configuration,
        initialization_order_spec()[1] == ParachainsModule::Shared,
        initialization_order_spec()[2] == ParachainsModule::Paras,
        initialization_order_spec()[3] == ParachainsModule::Scheduler,
        initialization_order_spec()[4] == ParachainsModule::Inclusion,
        initialization_order_spec()[5] == ParachainsModule::SessionInfo,
        initialization_order_spec()[6] == ParachainsModule::Disputes,
        initialization_order_spec()[7] == ParachainsModule::Dmp,
        initialization_order_spec()[8] == ParachainsModule::Ump,
        initialization_order_spec()[9] == ParachainsModule::Hrmp,
        forall|i: int, j: int|
            0 <= i < j < 10 ==> initialization_order_spec()[i] != initialization_order_spec()[j],
        forall|m: ParachainsModule| initialization_order_spec().contains(m),
        initialization_order_spec().reverse()[0] == ParachainsModule::Hrmp,
        initialization_order_spec().reverse()[7] == ParachainsModule::Paras,
        initialization_order_spec().reverse()[8] == ParachainsModule::Shared,
        initialization_order_spec().reverse()[9] == ParachainsModule::Configuration,
        new_session_order_spec().len() == 8,
        new_session_order_spec()[0] == ParachainsModule::Paras,
        !new_session_order_spec().contains(ParachainsModule::Configuration),
        !new_session_order_spec().contains(ParachainsModule::Shared),
{
    let o = initialization_order_spec();
    assert forall|m: ParachainsModule| o.contains(m) by {
        match m {
            ParachainsModule::Configuration => assert(o[0] == m),
            ParachainsModule::Shared => assert(o[1] == m),
            ParachainsModule::Paras => assert(o[2] == m),
            ParachainsModule::Scheduler => assert(o[3] == m),
            ParachainsModule::Inclusion => assert(o[4] == m),
            ParachainsModule::SessionInfo => assert(o[5] == m),
            ParachainsModule::Disputes => assert(o[6] == m),
            ParachainsModule::Dmp => assert(o[7] == m),
            ParachainsModule::Ump => assert(o[8] == m),
            ParachainsModule::Hrmp => assert(o[9] == m),
        }
    }
    let n = new_session_order_spec();
    assert forall|i: int| 0 <= i < n.len() implies n[i] != ParachainsModule::Configuration
        && n[i] != ParachainsModule::Shared by {
        assert(n[i] == o[i + 2]);
    }
}

/// Whichever stage the move to a new session is at (other than done), the
/// outcome of the call it made is accepted whatever it holds: any random
/// hash, any configuration report, any validator list, any list of outgoing
/// parachains (an empty one too); a report of another kind is refused, and
/// nothing is accepted once every module has moved.
pub proof fn lemma_answers_by_kind<C>(stage: NewSessionStage, event: NewSessionEvent<C>)
    ensures
        stage == NewSessionStage::Randomness ==> (answers(stage, event) <==> event is RandomHash),
        stage == NewSessionStage::Configuration ==> (answers(stage, event)
            <==> event is ConfigurationMoved),
        stage == NewSessionStage::Shared ==> (answers(stage, event) <==> event is SharedMoved),
        stage == NewSessionStage::Paras ==> (answers(stage, event) <==> event is ParasNotified),
        stage is Notify ==> (answers(stage, event) <==> event is ModuleNotified),
        stage == NewSessionStage::Done ==> !answers(stage, event),
        forall|p: Vec<u32>| answers(NewSessionStage::Paras, NewSessionEvent::<C>::ParasNotified(p)),
        forall|h: Vec<u8>| answers(NewSessionStage::Randomness, NewSessionEvent::<C>::RandomHash(h)),
        forall|v: Vec<ValidatorId>| answers(NewSessionStage::Shared, NewSessionEvent::<C>::SharedMoved(v)),
        forall|o: SessionChangeOutcome<C>|
            answers(NewSessionStage::Configuration, NewSessionEvent::<C>::ConfigurationMoved(o)),
{
}

} // verus!

verus! {

/// Adding up weights: nothing sums to zero, a single weight to itself, and
/// the sum of two lists laid end to end is the sum of their sums.
pub proof fn lemma_weight_sum_additive(a: Seq<Weight>, b: Seq<Weight>)
    ensures
        weight_sum(Seq::<Weight>::empty()) == 0,
        forall|x: Weight| weight_sum(seq![x]) == x,
        weight_sum(a + b) == weight_sum(a) + weight_sum(b),
    decreases b.len(),
{
    assert forall|x: Weight| weight_sum(seq![x]) == x by {
        assert(seq![x].drop_last() =~= Seq::<Weight>::empty());
        assert(seq![x].last() == x);
        assert(weight_sum(Seq::<Weight>::empty()) == 0);
    }
    if b.len() == 0 {
        assert(a + b =~= a);
    } else {
        assert((a + b).drop_last() =~= a + b.drop_last());
        lemma_weight_sum_additive(a, b.drop_last());
    }
}

/// The validator keys of (account, key) pairs are the keys, one for each
/// pair, in the same order.
pub proof fn lemma_validator_keys<A>(keys: Seq<(A, ValidatorId)>)
    ensures
        validator_keys(keys).len() == keys.len(),
        forall|i: int| 0 <= i < keys.len() ==> #[trigger] validator_keys(keys)[i] == keys[i].1,
{
}

/// A session change announced without queued validators queues its new
/// validators; with queued validators given, those are queued.
pub proof fn lemma_queued_defaults_to_validators<A>(
    change: BufferedSessionChange,
    session_index: SessionIndex,
    validators: Seq<(A, ValidatorId)>,
    queued: Seq<(A, ValidatorId)>,
)
    ensures
        is_session_change(change, session_index, validators, None) ==> change.queued@
            == change.validators@ && change.session_index == session_index,
        is_session_change(change, session_index, validators, Some(queued)) ==> change.queued@.len()
            == queued.len() && forall|i: int|
            0 <= i < queued.len() ==> #[trigger] change.queued@[i] == queued[i].1,
{
}

/// The randomness for a session is asked for under the subject "paras".
pub proof fn lemma_randomness_subject()
    ensures
        randomness_subject_spec().len() == 5,
        randomness_subject_spec()[0] == 0x70u8,
        randomness_subject_spec()[1] == 0x61u8,
        randomness_subject_spec()[2] == 0x72u8,
        randomness_subject_spec()[3] == 0x61u8,
        randomness_subject_spec()[4] == 0x73u8,
{
}

} // verus!
