//! Weighing of XCM instructions on the Westend relay chain. Assets are
//! classified as the chain's native balances or as unknown; an instruction
//! over assets costs the per-asset benchmark weight for each native asset and
//! the maximal weight for anything else, added with saturation.

use vstd::prelude::*;

use crate::primitives::Weight;

verus! {

// ---------------------------------------------------------------------------
// Locations and assets
// ---------------------------------------------------------------------------

/// One step of the interior of a location.
#[derive(Clone, Debug, PartialEq, Eq)]
pub enum Junction {
    Parachain(u32),
    AccountId32([u8; 32]),
    AccountIndex64(u64),
    AccountKey20([u8; 20]),
    PalletInstance(u8),
    GeneralIndex(u128),
    GeneralKey(Vec<u8>),
    OnlyChild,
}

/// The interior part of a location, outermost step first; empty means "here".
pub type InteriorMultiLocation = Vec<Junction>;

/// A location relative to the current consensus system: go up `parents`
/// levels, then follow `interior`.
#[derive(Clone, Debug, PartialEq, Eq)]
pub struct MultiLocation {
    pub parents: u8,
    pub interior: InteriorMultiLocation,
}

/// How an asset is identified.
#[derive(Clone, Debug, PartialEq, Eq)]
pub enum AssetId {
    /// By the location of its issuer.
    Concrete(MultiLocation),
    /// By an abstract name.
    Abstract(Vec<u8>),
}

/// Which instance of a non-fungible asset.
#[derive(Clone, Debug, PartialEq, Eq)]
pub enum AssetInstance {
    Undefined,
    Index(u128),
    Blob(Vec<u8>),
}

/// The amount of a fungible asset, or the instance of a non-fungible one.
#[derive(Clone, Debug, PartialEq, Eq)]
pub enum Fungibility {
    Fungible(u128),
    NonFungible(AssetInstance),
}

/// An asset together with its amount or instance.
#[derive(Clone, Debug, PartialEq, Eq)]
pub struct MultiAsset {
    pub id: AssetId,
    pub fun: Fungibility,
}

/// A list of assets.
#[derive(Clone, Debug, PartialEq, Eq)]
pub struct MultiAssets(pub Vec<MultiAsset>);

impl MultiAssets {
    /// The assets in the list.
    pub fn inner(&self) -> (v: &Vec<MultiAsset>)
        ensures
            v@ == self.0@,
    {
        &self.0
    }
}

/// The kind of a wildcard asset.
#[derive(Clone, Copy, Debug, PartialEq, Eq)]
pub enum WildFungibility {
    Fungible,
    NonFungible,
}

/// A wildcard over assets.
#[derive(Clone, Debug, PartialEq, Eq)]
pub enum WildMultiAsset {
    All,
    AllOf { id: AssetId, fun: WildFungibility },
}

/// Assets given either as a definite list or by a wildcard.
#[derive(Clone, Debug, PartialEq, Eq)]
pub enum MultiAssetFilter {
    Definite(MultiAssets),
    Wild(WildMultiAsset),
}

// ---------------------------------------------------------------------------
// Classification and weighing
// ---------------------------------------------------------------------------

/// How the runtime knows an asset.
#[derive(Clone, Copy, Debug, PartialEq, Eq, Structural)]
pub enum AssetTypes {
    /// The relay chain's own currency, identified as the concrete location
    /// "here" (no parents, empty interior).
    Balances,
    /// Anything else.
    Unknown,
}

/// The kind of an asset.
pub open spec fn asset_type_spec(asset: MultiAsset) -> AssetTypes {
    match asset.id {
        AssetId::Concrete(loc) => if loc.parents == 0 && loc.interior@.len() == 0 {
            AssetTypes::Balances
        } else {
            AssetTypes::Unknown
        },
        AssetId::Abstract(_) => AssetTypes::Unknown,
    }
}

impl AssetTypes {
    /// Classifies an asset.
    pub fn from(asset: &MultiAsset) -> (t: AssetTypes)
        ensures
            t == asset_type_spec(*asset),
            t == AssetTypes::Balances <==> is_here_asset(*asset),
    {
        match &asset.id {
            AssetId::Concrete(loc) => {
                if loc.parents == 0 && loc.interior.len() == 0 {
                    AssetTypes::Balances
                } else {
                    AssetTypes::Unknown
                }
            },
            AssetId::Abstract(_) => AssetTypes::Unknown,
        }
    }
}

/// Whether an asset is identified by the concrete location "here": no
/// parents and an empty interior.
pub open spec fn is_here_asset(asset: MultiAsset) -> bool {
    asset.id matches AssetId::Concrete(loc) && loc.parents == 0 && loc.interior@.len() == 0
}

/// The weight charged for one asset: the per-asset benchmark weight of the
/// native currency, and the maximal weight for any other asset.
pub open spec fn asset_weight_spec(asset: MultiAsset, balances_weight: Weight) -> Weight {
    match asset_type_spec(asset) {
        AssetTypes::Balances => balances_weight,
        AssetTypes::Unknown => u64::MAX,
    }
}

/// Addition capped at the maximal weight.
pub open spec fn saturating_add_spec(a: Weight, b: Weight) -> Weight {
    if a + b > u64::MAX {
        u64::MAX
    } else {
        (a + b) as Weight
    }
}

/// The weight of a list of assets: the per-asset weights added in order,
/// with saturation.
pub open spec fn assets_weight_spec(assets: Seq<MultiAsset>, balances_weight: Weight) -> Weight
    decreases assets.len(),
{
    if assets.len() == 0 {
        0
    } else {
        saturating_add_spec(
            assets_weight_spec(assets.drop_last(), balances_weight),
            asset_weight_spec(assets.last(), balances_weight),
        )
    }
}

/// The weight of a filter: that of its assets when definite, the maximal
/// weight for a wildcard.
pub open spec fn filter_weight_spec(filter: MultiAssetFilter, balances_weight: Weight) -> Weight {
    match filter {
        MultiAssetFilter::Definite(assets) => assets_weight_spec(assets.0@, balances_weight),
        MultiAssetFilter::Wild(_) => u64::MAX,
    }
}

/// The weight charged for one asset.
fn asset_weight(asset: &MultiAsset, balances_weight: Weight) -> (w: Weight)
    ensures
        w == asset_weight_spec(*asset, balances_weight),
{
    match AssetTypes::from(asset) {
        AssetTypes::Balances => balances_weight,
        AssetTypes::Unknown => Weight::MAX,
    }
}

impl MultiAssets {
    /// The weight of the instruction over these assets, given the benchmark
    /// weight of one native asset.
    pub fn weigh_multi_assets(&self, balances_weight: Weight) -> (w: Weight)
        ensures
            w == assets_weight_spec(self.0@, balances_weight),
    {
        let assets = self.inner();
        let n = assets.len();
        let mut acc: Weight = 0;
        for i in 0..n
            invariant
                n == assets@.len(),
                assets@ == self.0@,
                acc == assets_weight_spec(assets@.take(i as int), balances_weight),
        {
            assert(assets@.take(i + 1).drop_last() =~= assets@.take(i as int));
            let x = asset_weight(&assets[i], balances_weight);
            acc = acc.saturating_add(x);
        }
        assert(assets@.take(n as int) =~= assets@);
        acc
    }
}

impl MultiAssetFilter {
    /// The weight of the instruction over these assets, given the benchmark
    /// weight of one native asset; a wildcard is charged the maximal weight.
    pub fn weigh_multi_assets(&self, balances_weight: Weight) -> (w: Weight)
        ensures
            w == filter_weight_spec(*self, balances_weight),
    {
        match self {
            MultiAssetFilter::Definite(assets) => assets.weigh_multi_assets(balances_weight),
            MultiAssetFilter::Wild(_) => Weight::MAX,
        }
    }
}

} // verus!

verus! {

// ---------------------------------------------------------------------------
// Laws of weighing
// ---------------------------------------------------------------------------

/// The exact (unbounded) sum of the per-asset weights of a list of assets.
pub open spec fn assets_total_spec(assets: Seq<MultiAsset>, balances_weight: Weight) -> int
    decreases assets.len(),
{
    if assets.len() == 0 {
        0
    } else {
        assets_total_spec(assets.drop_last(), balances_weight) + asset_weight_spec(
            assets.last(),
            balances_weight,
        )
    }
}

/// The smaller of a sum and the maximal weight.
pub open spec fn capped(total: int) -> Weight {
    if total > u64::MAX {
        u64::MAX
    } else {
        total as Weight
    }
}

/// Weighing with saturation in order gives the exact total of the per-asset
/// weights, capped at the maximal weight.
pub proof fn lemma_weight_is_capped_total(assets: Seq<MultiAsset>, balances_weight: Weight)
    ensures
        assets_total_spec(assets, balances_weight) >= 0,
        assets_weight_spec(assets, balances_weight) == capped(
            assets_total_spec(assets, balances_weight),
        ),
    decreases assets.len(),
{
    if assets.len() > 0 {
        lemma_weight_is_capped_total(assets.drop_last(), balances_weight);
    }
}

/// Each asset's weight is part of the total.
proof fn lemma_total_covers_each(assets: Seq<MultiAsset>, balances_weight: Weight, i: int)
    requires
        0 <= i < assets.len(),
    ensures
        assets_total_spec(assets, balances_weight) >= asset_weight_spec(assets[i], balances_weight),
    decreases assets.len(),
{
    lemma_weight_is_capped_total(assets.drop_last(), balances_weight);
    if i < assets.len() - 1 {
        lemma_total_covers_each(assets.drop_last(), balances_weight, i);
    }
}

/// A list holding any asset that is not the native currency is charged the
/// maximal weight.
pub proof fn lemma_unknown_asset_saturates(
    assets: Seq<MultiAsset>,
    balances_weight: Weight,
    i: int,
)
    requires
        0 <= i < assets.len(),
        asset_type_spec(assets[i]) == AssetTypes::Unknown,
    ensures
        assets_weight_spec(assets, balances_weight) == u64::MAX,
{
    lemma_total_covers_each(assets, balances_weight, i);
    lemma_weight_is_capped_total(assets, balances_weight);
}

/// A list of native-currency assets only is charged the per-asset weight
/// once per asset, capped at the maximal weight.
pub proof fn lemma_native_assets_weight(assets: Seq<MultiAsset>, balances_weight: Weight)
    requires
        forall|i: int| 0 <= i < assets.len() ==> asset_type_spec(#[trigger] assets[i])
            == AssetTypes::Balances,
    ensures
        assets_weight_spec(assets, balances_weight) == capped(assets.len() * balances_weight),
{
    lemma_native_total(assets, balances_weight);
    lemma_weight_is_capped_total(assets, balances_weight);
}

proof fn lemma_native_total(assets: Seq<MultiAsset>, balances_weight: Weight)
    requires
        forall|i: int| 0 <= i < assets.len() ==> asset_type_spec(#[trigger] assets[i])
            == AssetTypes::Balances,
    ensures
        assets_total_spec(assets, balances_weight) == assets.len() * balances_weight,
    decreases assets.len(),
{
    if assets.len() > 0 {
        let prefix = assets.drop_last();
        assert forall|i: int| 0 <= i < prefix.len() implies asset_type_spec(#[trigger] prefix[i])
            == AssetTypes::Balances by {
            assert(prefix[i] == assets[i]);
        }
        lemma_native_total(prefix, balances_weight);
        assert(asset_type_spec(assets[assets.len() - 1]) == AssetTypes::Balances);
        let n = assets.len() as int;
        let b = balances_weight as int;
        assert((n - 1) * b + b == n * b) by (nonlinear_arith);
    }
}

/// The exact total of a concatenation is the sum of the totals.
proof fn lemma_total_concat(a: Seq<MultiAsset>, b: Seq<MultiAsset>, balances_weight: Weight)
    ensures
        assets_total_spec(a + b, balances_weight) == assets_total_spec(a, balances_weight)
            + assets_total_spec(b, balances_weight),
    decreases b.len(),
{
    if b.len() == 0 {
        assert(a + b =~= a);
    } else {
        assert((a + b).drop_last() =~= a + b.drop_last());
        assert((a + b).last() == b.last());
        lemma_total_concat(a, b.drop_last(), balances_weight);
    }
}

/// Weighing two lists one after the other is weighing each and adding the
/// results with saturation; in particular the order of the lists does not
/// matter.
pub proof fn lemma_weight_of_concat(a: Seq<MultiAsset>, b: Seq<MultiAsset>, balances_weight: Weight)
    ensures
        assets_weight_spec(a + b, balances_weight) == saturating_add_spec(
            assets_weight_spec(a, balances_weight),
            assets_weight_spec(b, balances_weight),
        ),
        assets_weight_spec(a + b, balances_weight) == assets_weight_spec(b + a, balances_weight),
{
    lemma_total_concat(a, b, balances_weight);
    lemma_total_concat(b, a, balances_weight);
    lemma_weight_is_capped_total(a, balances_weight);
    lemma_weight_is_capped_total(b, balances_weight);
    lemma_weight_is_capped_total(a + b, balances_weight);
    lemma_weight_is_capped_total(b + a, balances_weight);
}

/// Adding assets to a list never lowers its weight.
pub proof fn lemma_weight_monotone(a: Seq<MultiAsset>, b: Seq<MultiAsset>, balances_weight: Weight)
    ensures
        assets_weight_spec(a, balances_weight) <= assets_weight_spec(a + b, balances_weight),
{
    lemma_weight_of_concat(a, b, balances_weight);
}

} // verus!

verus! {

// ---------------------------------------------------------------------------
// Instruction weights
// ---------------------------------------------------------------------------

/// Benchmarked weights of the instructions that move the native currency,
/// each for a single asset.
#[derive(Clone, Copy, Debug, PartialEq, Eq, Structural)]
pub struct FungibleBenchmarks {
    pub withdraw_asset: Weight,
    pub receive_teleported_asset: Weight,
    pub transfer_asset: Weight,
    pub transfer_reserve_asset: Weight,
    pub deposit_asset: Weight,
    pub deposit_reserve_asset: Weight,
    pub initiate_reserve_withdraw: Weight,
    pub initiate_teleport: Weight,
}

/// Benchmarked weights of the instructions that do not depend on the assets
/// they name.
#[derive(Clone, Copy, Debug, PartialEq, Eq, Structural)]
pub struct GenericBenchmarks {
    pub reserve_asset_deposited: Weight,
    pub transact: Weight,
    pub hrmp_new_channel_open_request: Weight,
    pub hrmp_channel_accepted: Weight,
    pub hrmp_channel_closing: Weight,
    pub clear_origin: Weight,
    pub descend_origin: Weight,
    pub relayed_from: Weight,
    pub query_holding: Weight,
    pub buy_execution: Weight,
    pub refund_surplus: Weight,
    pub set_error_handler: Weight,
    pub set_appendix: Weight,
    pub clear_error: Weight,
    pub claim_asset: Weight,
    pub trap: Weight,
    pub subscribe_version: Weight,
    pub unsubscribe_version: Weight,
}

/// The weigher of XCM instructions on Westend, given the runtime's benchmark
/// results.
#[derive(Clone, Copy, Debug, PartialEq, Eq, Structural)]
pub struct WestendXcmWeight {
    pub fungible: FungibleBenchmarks,
    pub generic: GenericBenchmarks,
}

impl WestendXcmWeight {
    /// Withdrawing assets: the withdrawal benchmark per native asset.
    pub fn withdraw_asset(&self, assets: &MultiAssets) -> (w: Weight)
        ensures
            w == assets_weight_spec(assets.0@, self.fungible.withdraw_asset),
    {
        assets.weigh_multi_assets(self.fungible.withdraw_asset)
    }

    /// Assets reported as deposited in a reserve: the generic benchmark per native asset.
    pub fn reserve_asset_deposited(&self, assets: &MultiAssets) -> (w: Weight)
        ensures
            w == assets_weight_spec(assets.0@, self.generic.reserve_asset_deposited),
    {
        assets.weigh_multi_assets(self.generic.reserve_asset_deposited)
    }

    /// Receiving teleported assets: the teleport-receipt benchmark per native asset.
    pub fn receive_teleported_asset(&self, assets: &MultiAssets) -> (w: Weight)
        ensures
            w == assets_weight_spec(assets.0@, self.fungible.receive_teleported_asset),
    {
        assets.weigh_multi_assets(self.fungible.receive_teleported_asset)
    }

    /// A query response is charged the weight the query allowed for it.
    pub fn query_response(&self, _query_id: &u64, max_weight: &u64) -> (w: Weight)
        ensures
            w == *max_weight,
    {
        *max_weight
    }

    /// Transferring assets: the transfer benchmark per native asset.
    pub fn transfer_asset(&self, assets: &MultiAssets, _dest: &MultiLocation) -> (w: Weight)
        ensures
            w == assets_weight_spec(assets.0@, self.fungible.transfer_asset),
    {
        assets.weigh_multi_assets(self.fungible.transfer_asset)
    }

    /// Transferring assets to a reserve: the reserve-transfer benchmark per native asset.
    pub fn transfer_reserve_asset(&self, assets: &MultiAssets, _dest: &MultiLocation) -> (w: Weight)
        ensures
            w == assets_weight_spec(assets.0@, self.fungible.transfer_reserve_asset),
    {
        assets.weigh_multi_assets(self.fungible.transfer_reserve_asset)
    }

    /// Dispatching an encoded call: the generic benchmark.
    pub fn transact(&self, _require_weight_at_most: &u64) -> (w: Weight)
        ensures
            w == self.generic.transact,
    {
        self.generic.transact
    }

    /// A request to open an HRMP channel: the generic benchmark.
    pub fn hrmp_new_channel_open_request(&self, _sender: &u32, _max_message_size: &u32, _max_capacity: &u32) -> (w: Weight)
        ensures
            w == self.generic.hrmp_new_channel_open_request,
    {
        self.generic.hrmp_new_channel_open_request
    }

    /// An accepted HRMP channel: the generic benchmark.
    pub fn hrmp_channel_accepted(&self, _recipient: &u32) -> (w: Weight)
        ensures
            w == self.generic.hrmp_channel_accepted,
    {
        self.generic.hrmp_channel_accepted
    }

    /// A closing HRMP channel: the generic benchmark.
    pub fn hrmp_channel_closing(&self, _initiator: &u32, _sender: &u32, _recipient: &u32) -> (w: Weight)
        ensures
            w == self.generic.hrmp_channel_closing,
    {
        self.generic.hrmp_channel_closing
    }

    /// Clearing the origin: the generic benchmark.
    pub fn clear_origin(&self) -> (w: Weight)
        ensures
            w == self.generic.clear_origin,
    {
        self.generic.clear_origin
    }

    /// Descending the origin: the generic benchmark.
    pub fn descend_origin(&self, _who: &InteriorMultiLocation) -> (w: Weight)
        ensures
            w == self.generic.descend_origin,
    {
        self.generic.descend_origin
    }

    /// Reporting an error is charged the weight allowed for the response.
    pub fn report_error(&self, _query_id: &u64, _dest: &MultiLocation, max_response_weight: &u64) -> (w: Weight)
        ensures
            w == *max_response_weight,
    {
        *max_response_weight
    }

    /// A relayed message: the generic benchmark.
    pub fn relayed_from(&self, _who: &InteriorMultiLocation) -> (w: Weight)
        ensures
            w == self.generic.relayed_from,
    {
        self.generic.relayed_from
    }

    /// Depositing assets: the deposit benchmark per native asset; a wildcard is charged the maximal weight.
    pub fn deposit_asset(&self, assets: &MultiAssetFilter, _max_assets: &u32, _dest: &MultiLocation) -> (w: Weight)
        ensures
            w == filter_weight_spec(*assets, self.fungible.deposit_asset),
    {
        assets.weigh_multi_assets(self.fungible.deposit_asset)
    }

    /// Depositing assets in a reserve: the reserve-deposit benchmark per native asset; a wildcard is charged the maximal weight.
    pub fn deposit_reserve_asset(&self, assets: &MultiAssetFilter, _max_assets: &u32, _dest: &MultiLocation) -> (w: Weight)
        ensures
            w == filter_weight_spec(*assets, self.fungible.deposit_reserve_asset),
    {
        assets.weigh_multi_assets(self.fungible.deposit_reserve_asset)
    }

    /// Exchanging assets is not supported and is charged the maximal weight.
    pub fn exchange_asset(&self, _give: &MultiAssetFilter, _receive: &MultiAssets) -> (w: Weight)
        ensures
            w == u64::MAX,
    {
        Weight::MAX
    }

    /// Starting a withdrawal from a reserve: its benchmark per native asset; a wildcard is charged the maximal weight.
    pub fn initiate_reserve_withdraw(&self, assets: &MultiAssetFilter, _reserve: &MultiLocation) -> (w: Weight)
        ensures
            w == filter_weight_spec(*assets, self.fungible.initiate_reserve_withdraw),
    {
        assets.weigh_multi_assets(self.fungible.initiate_reserve_withdraw)
    }

    /// Starting a teleport: its benchmark per native asset; a wildcard is charged the maximal weight.
    pub fn initiate_teleport(&self, assets: &MultiAssetFilter, _dest: &MultiLocation) -> (w: Weight)
        ensures
            w == filter_weight_spec(*assets, self.fungible.initiate_teleport),
    {
        assets.weigh_multi_assets(self.fungible.initiate_teleport)
    }

    /// Querying the holding register: the generic benchmark.
    pub fn query_holding(&self, _query_id: &u64, _dest: &MultiLocation, _assets: &MultiAssetFilter, _max_response_weight: &u64) -> (w: Weight)
        ensures
            w == self.generic.query_holding,
    {
        self.generic.query_holding
    }

    /// Buying execution: the generic benchmark.
    pub fn buy_execution(&self, _fees: &MultiAsset) -> (w: Weight)
        ensures
            w == self.generic.buy_execution,
    {
        self.generic.buy_execution
    }

    /// Refunding surplus weight: the generic benchmark.
    pub fn refund_surplus(&self) -> (w: Weight)
        ensures
            w == self.generic.refund_surplus,
    {
        self.generic.refund_surplus
    }

    /// Setting the error handler: the generic benchmark.
    pub fn set_error_handler(&self) -> (w: Weight)
        ensures
            w == self.generic.set_error_handler,
    {
        self.generic.set_error_handler
    }

    /// Setting the appendix: the generic benchmark.
    pub fn set_appendix(&self) -> (w: Weight)
        ensures
            w == self.generic.set_appendix,
    {
        self.generic.set_appendix
    }

    /// Clearing the error register: the generic benchmark.
    pub fn clear_error(&self) -> (w: Weight)
        ensures
            w == self.generic.clear_error,
    {
        self.generic.clear_error
    }

    /// Claiming trapped assets: the generic benchmark.
    pub fn claim_asset(&self, _assets: &MultiAssets, _ticket: &MultiLocation) -> (w: Weight)
        ensures
            w == self.generic.claim_asset,
    {
        self.generic.claim_asset
    }

    /// Trapping: the generic benchmark.
    pub fn trap(&self, _code: &u64) -> (w: Weight)
        ensures
            w == self.generic.trap,
    {
        self.generic.trap
    }

    /// Subscribing to version changes: the generic benchmark.
    pub fn subscribe_version(&self, _query_id: &u64, _max_response_weight: &u64) -> (w: Weight)
        ensures
            w == self.generic.subscribe_version,
    {
        self.generic.subscribe_version
    }

    /// Unsubscribing from version changes: the generic benchmark.
    pub fn unsubscribe_version(&self) -> (w: Weight)
        ensures
            w == self.generic.unsubscribe_version,
    {
        self.generic.unsubscribe_version
    }
}

} // verus!

verus! {

/// An asset is the native currency exactly when it is identified by the
/// concrete location "here"; an abstract id, a location with parents, or a
/// location with any interior step is unknown.
pub proof fn lemma_classification(asset: MultiAsset)
    ensures
        asset_type_spec(asset) == AssetTypes::Balances <==> is_here_asset(asset),
        asset.id is Abstract ==> asset_type_spec(asset) == AssetTypes::Unknown,
        (asset.id matches AssetId::Concrete(loc) && loc.parents > 0) ==> asset_type_spec(asset)
            == AssetTypes::Unknown,
        (asset.id matches AssetId::Concrete(loc) && loc.interior@.len() > 0) ==> asset_type_spec(
            asset,
        ) == AssetTypes::Unknown,
        asset_weight_spec(asset, 0) == 0 <==> is_here_asset(asset),
{
}

/// A list holding an asset that is not identified by the concrete location
/// "here" (for instance one held on a parachain, or the parent's currency)
/// is charged the maximal weight, whatever the per-asset weight.
pub proof fn lemma_foreign_asset_costs_maximum(
    assets: Seq<MultiAsset>,
    balances_weight: Weight,
    i: int,
)
    requires
        0 <= i < assets.len(),
        !is_here_asset(assets[i]),
    ensures
        assets_weight_spec(assets, balances_weight) == u64::MAX,
{
    lemma_classification(assets[i]);
    lemma_unknown_asset_saturates(assets, balances_weight, i);
}

/// A list of assets all identified by "here" is charged the per-asset weight
/// once per asset, capped at the maximal weight.
pub proof fn lemma_here_assets_weight(assets: Seq<MultiAsset>, balances_weight: Weight)
    requires
        forall|i: int| 0 <= i < assets.len() ==> is_here_asset(#[trigger] assets[i]),
    ensures
        assets_weight_spec(assets, balances_weight) == capped(assets.len() * balances_weight),
{
    assert forall|i: int| 0 <= i < assets.len() implies asset_type_spec(#[trigger] assets[i])
        == AssetTypes::Balances by {
        lemma_classification(assets[i]);
    }
    lemma_native_assets_weight(assets, balances_weight);
}

} // verus!

verus! {

/// A wildcard filter is charged the maximal weight whatever the per-asset
/// weight; a definite filter is charged what its assets are.
pub proof fn lemma_filter_weight(filter: MultiAssetFilter, balances_weight: Weight)
    ensures
        filter is Wild ==> filter_weight_spec(filter, balances_weight) == u64::MAX,
        filter matches MultiAssetFilter::Definite(a) ==> filter_weight_spec(filter, balances_weight)
            == assets_weight_spec(a.0@, balances_weight),
        assets_weight_spec(Seq::<MultiAsset>::empty(), balances_weight) == 0,
{
}

/// Saturating addition: the exact sum when it fits, the maximal weight
/// otherwise.
pub proof fn lemma_saturating_add(a: Weight, b: Weight)
    ensures
        a + b <= u64::MAX ==> saturating_add_spec(a, b) == a + b,
        a + b > u64::MAX ==> saturating_add_spec(a, b) == u64::MAX,
        saturating_add_spec(a, b) == saturating_add_spec(b, a),
{
}

} // verus!
