use prismswap::asset::{
    addr_validate_to_lower, format_lp_token_name, Asset, AssetInfo, BalanceQuery, Coin,
    MessageInfo, PairInfo, SwapError,
};

fn native(denom: &str) -> AssetInfo {
    AssetInfo::Native { denom: String::from(denom) }
}

fn cw20(addr: &str) -> AssetInfo {
    AssetInfo::Cw20 { contract_addr: String::from(addr) }
}

#[test]
fn is_native_token_distinguishes_variants() {
    assert!(native("uusd").is_native_token());
    assert!(!cw20("terra1token").is_native_token());
}

#[test]
fn as_bytes_is_the_key_string() {
    assert_eq!(native("uusd").as_bytes(), b"uusd");
    assert_eq!(cw20("terra1token").as_bytes(), b"terra1token");
}

#[test]
fn compute_tax_passes_through_only_for_native() {
    let a = Asset { info: native("uusd"), amount: 500 };
    assert_eq!(a.compute_tax(7), 7);
    let b = Asset { info: cw20("terra1token"), amount: 500 };
    assert_eq!(b.compute_tax(7), 0);
    assert_eq!(b.compute_tax(u128::MAX), 0);
}

#[test]
fn query_pool_builds_the_right_lookup() {
    let holder = String::from("terra1pool");
    match native("uusd").query_pool(&holder) {
        BalanceQuery::Bank { address, denom } => {
            assert_eq!(address, "terra1pool");
            assert_eq!(denom, "uusd");
        }
        _ => panic!("native asset must yield a bank query"),
    }
    match cw20("terra1token").query_pool(&holder) {
        BalanceQuery::Token { contract_addr, address } => {
            assert_eq!(contract_addr, "terra1token");
            assert_eq!(address, "terra1pool");
        }
        _ => panic!("contract token must yield a token query"),
    }
}

#[test]
fn pair_queries_and_balances_keep_order() {
    let pair = PairInfo {
        asset_infos: [native("uusd"), cw20("terra1token")],
        contract_addr: String::from("terra1pair"),
        liquidity_token: String::from("terra1lp"),
    };
    let pool = String::from("terra1pair");
    let (q0, q1) = pair.query_pools(&pool);
    assert!(matches!(q0, BalanceQuery::Bank { .. }));
    assert!(matches!(q1, BalanceQuery::Token { .. }));
    let pools = pair.pools_with_balances(11, 22);
    assert_eq!(pools[0].amount, 11);
    assert!(pools[0].info.is_native_token());
    assert_eq!(pools[1].amount, 22);
    assert!(!pools[1].info.is_native_token());
}

#[test]
fn funds_match_requires_exact_equality() {
    let asset = Asset { info: native("uusd"), amount: 100 };
    let exact = MessageInfo {
        sender: String::from("terra1user"),
        funds: vec![Coin { denom: String::from("uusd"), amount: 100 }],
    };
    assert!(asset.assert_sent_native_token_balance(&exact).is_ok());

    let low = MessageInfo {
        sender: String::from("terra1user"),
        funds: vec![Coin { denom: String::from("uusd"), amount: 99 }],
    };
    assert_eq!(
        asset.assert_sent_native_token_balance(&low),
        Err(SwapError::BalanceMismatch)
    );

    let high = MessageInfo {
        sender: String::from("terra1user"),
        funds: vec![Coin { denom: String::from("uusd"), amount: 101 }],
    };
    assert_eq!(
        asset.assert_sent_native_token_balance(&high),
        Err(SwapError::BalanceMismatch)
    );
}

#[test]
fn funds_match_zero_amount_without_funds_succeeds() {
    let zero = Asset { info: native("uusd"), amount: 0 };
    let none = MessageInfo { sender: String::from("terra1user"), funds: vec![] };
    assert!(zero.assert_sent_native_token_balance(&none).is_ok());

    let declared = Asset { info: native("uusd"), amount: 5 };
    assert_eq!(
        declared.assert_sent_native_token_balance(&none),
        Err(SwapError::BalanceMismatch)
    );

    let other_denom = MessageInfo {
        sender: String::from("terra1user"),
        funds: vec![Coin { denom: String::from("uluna"), amount: 5 }],
    };
    assert_eq!(
        declared.assert_sent_native_token_balance(&other_denom),
        Err(SwapError::BalanceMismatch)
    );
}

#[test]
fn funds_match_reads_the_first_matching_coin() {
    let asset = Asset { info: native("uusd"), amount: 100 };
    let info = MessageInfo {
        sender: String::from("terra1user"),
        funds: vec![
            Coin { denom: String::from("uluna"), amount: 1 },
            Coin { denom: String::from("uusd"), amount: 100 },
            Coin { denom: String::from("uusd"), amount: 3 },
        ],
    };
    assert!(asset.assert_sent_native_token_balance(&info).is_ok());
}

#[test]
fn funds_match_always_succeeds_for_contract_tokens() {
    let asset = Asset { info: cw20("terra1token"), amount: 100 };
    let info = MessageInfo {
        sender: String::from("terra1user"),
        funds: vec![Coin { denom: String::from("uusd"), amount: 3 }],
    };
    assert!(asset.assert_sent_native_token_balance(&info).is_ok());
    let none = MessageInfo { sender: String::from("terra1user"), funds: vec![] };
    assert!(asset.assert_sent_native_token_balance(&none).is_ok());
}

#[test]
fn addr_validation_rejects_uppercase() {
    assert_eq!(
        addr_validate_to_lower(&String::from("Terra1abc")),
        Err(SwapError::InvalidAddress)
    );
}

#[test]
fn addr_validation_accepts_lowercase() {
    let r = addr_validate_to_lower(&String::from("terra1abc"));
    assert_eq!(r, Ok(String::from("terra1abc")));
}

#[test]
fn lp_token_name_truncates_and_uppercases() {
    let infos = [native("uluna"), cw20("terra1tokenxyz")];
    let unused = String::new();
    let symbol = String::from("xprism");
    let name = format_lp_token_name(&infos, &unused, &symbol);
    assert_eq!(name, "ULUNA-XPRISM-LP");
}

#[test]
fn lp_token_name_keeps_only_six_characters_per_half() {
    let infos = [native("verylongdenom"), cw20("terra1token")];
    let unused = String::new();
    let symbol = String::from("abcdefgh");
    let name = format_lp_token_name(&infos, &unused, &symbol);
    assert_eq!(name, "VERYLO-ABCDEF-LP");
}

#[test]
fn lp_token_name_ignores_queried_symbol_for_native_pairs() {
    let infos = [native("uusd"), native("uluna")];
    let junk0 = String::from("zzzzzz");
    let junk1 = String::from("yyyyyy");
    let name = format_lp_token_name(&infos, &junk0, &junk1);
    assert_eq!(name, "UUSD-ULUNA-LP");
}
