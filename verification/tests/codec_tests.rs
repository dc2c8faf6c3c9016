use prismswap::asset::{Asset, AssetInfo, Decimal};
use prismswap::codec::{decode_cw20_send, decode_pair_swap, encode_cw20_send, encode_pair_swap};
use prismswap::messages::SwapPayload;

fn payload(info: AssetInfo, amount: u128, max_spread: Option<Decimal>, to: Option<&str>) -> SwapPayload {
    SwapPayload {
        offer_asset: Asset { info, amount },
        belief_price: None,
        max_spread,
        to: to.map(String::from),
    }
}

fn assert_payload_eq(a: &SwapPayload, b: &SwapPayload) {
    assert_eq!(a.offer_asset.amount, b.offer_asset.amount);
    assert_eq!(a.offer_asset.info.as_bytes(), b.offer_asset.info.as_bytes());
    assert_eq!(
        a.offer_asset.info.is_native_token(),
        b.offer_asset.info.is_native_token()
    );
    assert_eq!(a.belief_price, b.belief_price);
    assert_eq!(a.max_spread, b.max_spread);
    assert_eq!(a.to, b.to);
}

#[test]
fn pair_swap_round_trip_native_minimal() {
    let p = payload(AssetInfo::Native { denom: String::from("uusd") }, 0, None, None);
    let bytes = encode_pair_swap(&p);
    let q = decode_pair_swap(&bytes).unwrap();
    assert_payload_eq(&p, &q);
}

#[test]
fn pair_swap_round_trip_token_full() {
    let p = payload(
        AssetInfo::Cw20 { contract_addr: String::from("terra1token") },
        u128::MAX,
        Some(Decimal { atomics: 123_456_789 }),
        Some("terra1dest"),
    );
    let bytes = encode_pair_swap(&p);
    let q = decode_pair_swap(&bytes).unwrap();
    assert_payload_eq(&p, &q);
}

#[test]
fn pair_swap_round_trip_keeps_unicode_strings() {
    let p = payload(
        AssetInfo::Native { denom: String::from("u\u{1F680}coin") },
        7,
        None,
        Some("r\u{00E9}cipient"),
    );
    let bytes = encode_pair_swap(&p);
    let q = decode_pair_swap(&bytes).unwrap();
    assert_payload_eq(&p, &q);
}

#[test]
fn cw20_send_round_trip() {
    let inner = encode_pair_swap(&payload(
        AssetInfo::Cw20 { contract_addr: String::from("terra1token") },
        42,
        None,
        None,
    ));
    let outer = encode_cw20_send(&String::from("terra1pair"), 42, &inner);
    let (contract, amount, msg) = decode_cw20_send(&outer).unwrap();
    assert_eq!(contract, "terra1pair");
    assert_eq!(amount, 42);
    assert_eq!(msg, inner);
}

#[test]
fn decoders_reject_malformed_input() {
    assert!(decode_pair_swap(&vec![]).is_none());
    assert!(decode_cw20_send(&vec![]).is_none());
    assert!(decode_pair_swap(&vec![9u8, 0, 0]).is_none());
    assert!(decode_cw20_send(&vec![9u8, 0, 0]).is_none());

    let p = payload(AssetInfo::Native { denom: String::from("uusd") }, 5, None, None);
    let mut bytes = encode_pair_swap(&p);
    // an envelope is not a payload and the other way round
    assert!(decode_cw20_send(&bytes).is_none());
    // truncation loses the trailing option byte
    bytes.pop();
    assert!(decode_pair_swap(&bytes).is_none());
    // trailing garbage is refused: the whole input must be consumed
    let mut padded = encode_pair_swap(&p);
    padded.push(0);
    assert!(decode_pair_swap(&padded).is_none());
}

#[test]
fn decoder_rejects_invalid_utf8_in_strings() {
    let p = payload(AssetInfo::Native { denom: String::from("ab") }, 5, None, None);
    let mut bytes = encode_pair_swap(&p);
    // the two denomination bytes sit right after the variant tag and length
    // prefix; 0xff is never valid UTF-8
    bytes[10] = 0xff;
    bytes[11] = 0xff;
    assert!(decode_pair_swap(&bytes).is_none());
}
