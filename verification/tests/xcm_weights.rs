use parachains_runtime::xcm_weights::{
    AssetId, AssetInstance, AssetTypes, FungibleBenchmarks, Fungibility, GenericBenchmarks, Junction,
    MultiAsset, MultiAssetFilter, MultiAssets, MultiLocation, WestendXcmWeight, WildFungibility,
    WildMultiAsset,
};

fn here() -> MultiLocation {
    MultiLocation { parents: 0, interior: vec![] }
}

fn native(amount: u128) -> MultiAsset {
    MultiAsset { id: AssetId::Concrete(here()), fun: Fungibility::Fungible(amount) }
}

fn parachain_asset() -> MultiAsset {
    MultiAsset {
        id: AssetId::Concrete(MultiLocation { parents: 0, interior: vec![Junction::Parachain(1000)] }),
        fun: Fungibility::Fungible(5),
    }
}

fn parent_asset() -> MultiAsset {
    MultiAsset {
        id: AssetId::Concrete(MultiLocation { parents: 1, interior: vec![] }),
        fun: Fungibility::Fungible(5),
    }
}

fn abstract_asset() -> MultiAsset {
    MultiAsset { id: AssetId::Abstract(b"DOT".to_vec()), fun: Fungibility::NonFungible(AssetInstance::Index(3)) }
}

fn weigher() -> WestendXcmWeight {
    WestendXcmWeight {
        fungible: FungibleBenchmarks {
            withdraw_asset: 10,
            receive_teleported_asset: 11,
            transfer_asset: 12,
            transfer_reserve_asset: 13,
            deposit_asset: 14,
            deposit_reserve_asset: 15,
            initiate_reserve_withdraw: 16,
            initiate_teleport: 17,
        },
        generic: GenericBenchmarks {
            reserve_asset_deposited: 20,
            transact: 21,
            hrmp_new_channel_open_request: 22,
            hrmp_channel_accepted: 23,
            hrmp_channel_closing: 24,
            clear_origin: 25,
            descend_origin: 26,
            relayed_from: 27,
            query_holding: 28,
            buy_execution: 29,
            refund_surplus: 30,
            set_error_handler: 31,
            set_appendix: 32,
            clear_error: 33,
            claim_asset: 34,
            trap: 35,
            subscribe_version: 36,
            unsubscribe_version: 37,
        },
    }
}

#[test]
fn native_asset_is_balances() {
    assert_eq!(AssetTypes::from(&native(1)), AssetTypes::Balances);
    assert_eq!(AssetTypes::from(&parachain_asset()), AssetTypes::Unknown);
    assert_eq!(AssetTypes::from(&parent_asset()), AssetTypes::Unknown);
    assert_eq!(AssetTypes::from(&abstract_asset()), AssetTypes::Unknown);
}

#[test]
fn empty_assets_weigh_nothing() {
    assert_eq!(MultiAssets(vec![]).weigh_multi_assets(100), 0);
}

#[test]
fn native_assets_weigh_per_asset() {
    let assets = MultiAssets(vec![native(1), native(2), native(3)]);
    assert_eq!(assets.weigh_multi_assets(100), 300);
}

#[test]
fn native_assets_saturate() {
    let assets = MultiAssets(vec![native(1), native(2)]);
    assert_eq!(assets.weigh_multi_assets(u64::MAX / 2 + 1), u64::MAX);
}

#[test]
fn unknown_asset_costs_maximum() {
    let assets = MultiAssets(vec![native(1), parachain_asset(), native(2)]);
    assert_eq!(assets.weigh_multi_assets(100), u64::MAX);
    let assets = MultiAssets(vec![abstract_asset()]);
    assert_eq!(assets.weigh_multi_assets(0), u64::MAX);
}

#[test]
fn order_of_assets_does_not_matter() {
    let a = MultiAssets(vec![native(1), parent_asset()]);
    let b = MultiAssets(vec![parent_asset(), native(1)]);
    assert_eq!(a.weigh_multi_assets(7), b.weigh_multi_assets(7));
}

#[test]
fn wild_filter_costs_maximum() {
    let all = MultiAssetFilter::Wild(WildMultiAsset::All);
    assert_eq!(all.weigh_multi_assets(1), u64::MAX);
    let all_of = MultiAssetFilter::Wild(WildMultiAsset::AllOf {
        id: AssetId::Concrete(here()),
        fun: WildFungibility::Fungible,
    });
    assert_eq!(all_of.weigh_multi_assets(1), u64::MAX);
}

#[test]
fn definite_filter_weighs_its_assets() {
    let filter = MultiAssetFilter::Definite(MultiAssets(vec![native(1), native(2)]));
    assert_eq!(filter.weigh_multi_assets(9), 18);
}

#[test]
fn westend_asset_instructions() {
    let w = weigher();
    let two = MultiAssets(vec![native(1), native(2)]);
    let dest = MultiLocation { parents: 1, interior: vec![Junction::Parachain(2000)] };
    assert_eq!(w.withdraw_asset(&two), 20);
    assert_eq!(w.reserve_asset_deposited(&two), 40);
    assert_eq!(w.receive_teleported_asset(&two), 22);
    assert_eq!(w.transfer_asset(&two, &dest), 24);
    assert_eq!(w.transfer_reserve_asset(&two, &dest), 26);
    let filter = MultiAssetFilter::Definite(two.clone());
    assert_eq!(w.deposit_asset(&filter, &1, &dest), 28);
    assert_eq!(w.deposit_reserve_asset(&filter, &1, &dest), 30);
    assert_eq!(w.initiate_reserve_withdraw(&filter, &dest), 32);
    assert_eq!(w.initiate_teleport(&filter, &dest), 34);
    let wild = MultiAssetFilter::Wild(WildMultiAsset::All);
    assert_eq!(w.deposit_asset(&wild, &1, &dest), u64::MAX);
    assert_eq!(w.exchange_asset(&filter, &two), u64::MAX);
}

#[test]
fn westend_response_instructions_use_given_limits() {
    let w = weigher();
    assert_eq!(w.query_response(&1, &5_000), 5_000);
    assert_eq!(w.report_error(&1, &here(), &6_000), 6_000);
}

#[test]
fn westend_generic_instructions() {
    let w = weigher();
    let two = MultiAssets(vec![native(1), native(2)]);
    assert_eq!(w.transact(&1_000), 21);
    assert_eq!(w.hrmp_new_channel_open_request(&1, &2, &3), 22);
    assert_eq!(w.hrmp_channel_accepted(&1), 23);
    assert_eq!(w.hrmp_channel_closing(&1, &2, &3), 24);
    assert_eq!(w.clear_origin(), 25);
    assert_eq!(w.descend_origin(&vec![Junction::PalletInstance(5)]), 26);
    assert_eq!(w.relayed_from(&vec![Junction::OnlyChild]), 27);
    assert_eq!(w.query_holding(&1, &here(), &MultiAssetFilter::Wild(WildMultiAsset::All), &9), 28);
    assert_eq!(w.buy_execution(&native(1)), 29);
    assert_eq!(w.refund_surplus(), 30);
    assert_eq!(w.set_error_handler(), 31);
    assert_eq!(w.set_appendix(), 32);
    assert_eq!(w.clear_error(), 33);
    assert_eq!(w.claim_asset(&two, &here()), 34);
    assert_eq!(w.trap(&7), 35);
    assert_eq!(w.subscribe_version(&1, &2), 36);
    assert_eq!(w.unsubscribe_version(), 37);
}
