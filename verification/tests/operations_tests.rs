use prismswap::asset::{Asset, AssetInfo, MessageInfo, SwapError};
use prismswap::codec::{decode_cw20_send, decode_pair_swap};
use prismswap::messages::CosmosMsg;
use prismswap::operations::{execute_swap_operation, SwapOperation};

fn native(denom: &str) -> AssetInfo {
    AssetInfo::Native { denom: String::from(denom) }
}

fn cw20(addr: &str) -> AssetInfo {
    AssetInfo::Cw20 { contract_addr: String::from(addr) }
}

fn self_info() -> MessageInfo {
    MessageInfo { sender: String::from("terra1router"), funds: vec![] }
}

const ROUTER: &str = "terra1router";
const PAIR: &str = "terra1pair";

#[test]
fn non_self_callers_are_rejected_without_messages() {
    let contract = String::from(ROUTER);
    let stranger = MessageInfo { sender: String::from("terra1stranger"), funds: vec![] };
    let op = SwapOperation::NativeSwap {
        offer_denom: String::from("uusd"),
        ask_denom: String::from("uluna"),
    };
    let pair = String::from(PAIR);
    let r = execute_swap_operation(&contract, &stranger, op, None, 1_000_000, 0, &pair);
    assert_eq!(r.unwrap_err(), SwapError::Unauthorized);
}

#[test]
fn native_mid_chain_hop_sweeps_full_balance_without_tax() {
    let contract = String::from(ROUTER);
    let op = SwapOperation::NativeSwap {
        offer_denom: String::from("uusd"),
        ask_denom: String::from("uluna"),
    };
    let pair = String::from(PAIR);
    let msgs =
        execute_swap_operation(&contract, &self_info(), op, None, 1_000_000, 1_000, &pair).unwrap();
    assert_eq!(msgs.len(), 1);
    match &msgs[0] {
        CosmosMsg::MarketSwap { offer_coin, ask_denom } => {
            assert_eq!(offer_coin.denom, "uusd");
            assert_eq!(offer_coin.amount, 1_000_000);
            assert_eq!(ask_denom, "uluna");
        }
        _ => panic!("a mid-chain native hop must swap in place"),
    }
}

#[test]
fn native_final_hop_deducts_tax_before_sending() {
    let contract = String::from(ROUTER);
    let op = SwapOperation::NativeSwap {
        offer_denom: String::from("uusd"),
        ask_denom: String::from("uluna"),
    };
    let pair = String::from(PAIR);
    let to = Some(String::from("terra1recipient"));
    let msgs =
        execute_swap_operation(&contract, &self_info(), op, to, 1_000_000, 1_000, &pair).unwrap();
    assert_eq!(msgs.len(), 1);
    match &msgs[0] {
        CosmosMsg::MarketSwapSend { to_address, offer_coin, ask_denom } => {
            assert_eq!(to_address, "terra1recipient");
            assert_eq!(offer_coin.denom, "uusd");
            assert_eq!(offer_coin.amount, 999_000);
            assert_eq!(ask_denom, "uluna");
        }
        _ => panic!("a final native hop must swap and send"),
    }
}

#[test]
fn native_final_hop_fails_when_tax_exceeds_balance() {
    let contract = String::from(ROUTER);
    let op = SwapOperation::NativeSwap {
        offer_denom: String::from("uusd"),
        ask_denom: String::from("uluna"),
    };
    let pair = String::from(PAIR);
    let to = Some(String::from("terra1recipient"));
    let r = execute_swap_operation(&contract, &self_info(), op, to, 100, 101, &pair);
    assert_eq!(r.unwrap_err(), SwapError::ArithmeticUnderflow);
}

#[test]
fn pool_hop_with_native_offer_attaches_taxed_amount() {
    let contract = String::from(ROUTER);
    let op = SwapOperation::PrismSwap {
        offer_asset_info: native("uusd"),
        ask_asset_info: cw20("terra1token"),
    };
    let pair = String::from(PAIR);
    let msgs =
        execute_swap_operation(&contract, &self_info(), op, None, 500_000, 500, &pair).unwrap();
    assert_eq!(msgs.len(), 1);
    match &msgs[0] {
        CosmosMsg::WasmExecute { contract_addr, funds, msg } => {
            assert_eq!(contract_addr, PAIR);
            assert_eq!(funds.len(), 1);
            assert_eq!(funds[0].denom, "uusd");
            assert_eq!(funds[0].amount, 499_500);
            let payload = decode_pair_swap(msg).unwrap();
            assert_eq!(payload.offer_asset.amount, 499_500);
            assert!(payload.offer_asset.info.is_native_token());
            assert!(payload.belief_price.is_none());
            assert!(payload.max_spread.is_none());
            assert!(payload.to.is_none());
        }
        _ => panic!("a pool hop must invoke the pool contract"),
    }
}

#[test]
fn pool_hop_with_token_offer_sends_full_balance_regardless_of_tax() {
    let contract = String::from(ROUTER);
    let pair = String::from(PAIR);
    let mut decoded_amounts = Vec::new();
    for tax in [0u128, 1_000, u128::MAX] {
        let op = SwapOperation::PrismSwap {
            offer_asset_info: cw20("terra1token"),
            ask_asset_info: native("uusd"),
        };
        let to = Some(String::from("terra1recipient"));
        let msgs =
            execute_swap_operation(&contract, &self_info(), op, to, 750_000, tax, &pair).unwrap();
        assert_eq!(msgs.len(), 1);
        match &msgs[0] {
            CosmosMsg::WasmExecute { contract_addr, funds, msg } => {
                assert_eq!(contract_addr, "terra1token");
                assert!(funds.is_empty());
                let (pool, amount, inner) = decode_cw20_send(msg).unwrap();
                assert_eq!(pool, PAIR);
                assert_eq!(amount, 750_000);
                let payload = decode_pair_swap(&inner).unwrap();
                assert_eq!(payload.offer_asset.amount, 750_000);
                assert_eq!(payload.to, Some(String::from("terra1recipient")));
                decoded_amounts.push(amount);
            }
            _ => panic!("a token offer must go through its token contract"),
        }
    }
    assert_eq!(decoded_amounts, vec![750_000, 750_000, 750_000]);
}

#[test]
fn builder_round_trip_recovers_the_inner_payload() {
    let pair = String::from(PAIR);
    let offer = Asset { info: cw20("terra1token"), amount: 123_456 };
    let spread = Some(prismswap::asset::Decimal { atomics: 5 * 10u128.pow(16) });
    let to = Some(String::from("terra1dest"));
    let msg = prismswap::messages::asset_into_swap_msg(&pair, offer, spread, to, 42).unwrap();
    match &msg {
        CosmosMsg::WasmExecute { contract_addr, funds, msg } => {
            assert_eq!(contract_addr, "terra1token");
            assert!(funds.is_empty());
            let (pool, amount, inner) = decode_cw20_send(msg).unwrap();
            assert_eq!(pool, PAIR);
            assert_eq!(amount, 123_456);
            let payload = decode_pair_swap(&inner).unwrap();
            assert_eq!(payload.offer_asset.amount, 123_456);
            assert!(!payload.offer_asset.info.is_native_token());
            assert_eq!(payload.max_spread, Some(prismswap::asset::Decimal { atomics: 5 * 10u128.pow(16) }));
            assert!(payload.belief_price.is_none());
            assert_eq!(payload.to, Some(String::from("terra1dest")));
        }
        _ => panic!("a token offer must go through its token contract"),
    }
}

#[test]
fn native_builder_fails_on_underflow() {
    let pair = String::from(PAIR);
    let offer = Asset { info: native("uusd"), amount: 10 };
    let r = prismswap::messages::asset_into_swap_msg(&pair, offer, None, None, 11);
    assert_eq!(r.unwrap_err(), SwapError::ArithmeticUnderflow);
}
