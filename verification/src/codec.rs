//! Wire codec of the pool instructions. A pool is invoked with an encoded
//! payload; a contract-token offer is double-encoded: the token contract
//! receives a send envelope whose body is the encoded swap payload for the
//! pool. The format is length-prefixed and little-endian throughout, and
//! decoding is proved to invert encoding.

use vstd::prelude::*;
use vstd::utf8::{decode_utf8, encode_utf8, valid_utf8};
use vstd::utf8::{encode_utf8_decode_utf8, encode_utf8_valid_utf8};
use crate::asset::{AssetInfoV, AssetV, Decimal};
use crate::messages::{SwapPayload, SwapPayloadV};

verus! {

/// Leading tag of an encoded pool swap instruction.
pub const PAIR_SWAP_TAG: u8 = 0;

/// Leading tag of an encoded token-contract send envelope.
pub const CW20_SEND_TAG: u8 = 1;

/// Variant tag of a native asset identity.
pub const NATIVE_TAG: u8 = 0;

/// Variant tag of a contract-token asset identity.
pub const CW20_TAG: u8 = 1;

// ---------------------------------------------------------------------
// Encoding, as sequences of bytes.
// ---------------------------------------------------------------------

/// A 64-bit integer as eight little-endian bytes.
pub open spec fn enc_u64le(n: u64) -> Seq<u8> {
    seq![
        (n & 0xff) as u8,
        ((n >> 8) & 0xff) as u8,
        ((n >> 16) & 0xff) as u8,
        ((n >> 24) & 0xff) as u8,
        ((n >> 32) & 0xff) as u8,
        ((n >> 40) & 0xff) as u8,
        ((n >> 48) & 0xff) as u8,
        ((n >> 56) & 0xff) as u8,
    ]
}

/// The low 64 bits of a 128-bit integer.
pub open spec fn lo64(n: u128) -> u64 {
    (n & 0xffff_ffff_ffff_ffff) as u64
}

/// The high 64 bits of a 128-bit integer.
pub open spec fn hi64(n: u128) -> u64 {
    (n >> 64) as u64
}

/// A 128-bit integer as sixteen little-endian bytes.
pub open spec fn enc_u128le(n: u128) -> Seq<u8> {
    enc_u64le(lo64(n)) + enc_u64le(hi64(n))
}

/// A byte string, prefixed with its length.
pub open spec fn enc_bytes(b: Seq<u8>) -> Seq<u8> {
    enc_u64le(b.len() as u64) + b
}

/// A character string as its length-prefixed UTF-8 encoding.
pub open spec fn enc_str(s: Seq<char>) -> Seq<u8> {
    enc_bytes(encode_utf8(s))
}

/// An optional decimal: one presence byte, then the value if present.
pub open spec fn enc_opt_decimal(d: Option<Decimal>) -> Seq<u8> {
    match d {
        None => seq![0u8],
        Some(x) => seq![1u8] + enc_u128le(x.atomics),
    }
}

/// An optional string: one presence byte, then the string if present.
pub open spec fn enc_opt_str(t: Option<Seq<char>>) -> Seq<u8> {
    match t {
        None => seq![0u8],
        Some(s) => seq![1u8] + enc_str(s),
    }
}

/// An asset identity: its variant tag, then its key string.
pub open spec fn enc_asset_info(info: AssetInfoV) -> Seq<u8> {
    match info {
        AssetInfoV::Native { denom } => seq![NATIVE_TAG] + enc_str(denom),
        AssetInfoV::Cw20 { contract_addr } => seq![CW20_TAG] + enc_str(contract_addr),
    }
}

/// An asset: its identity, then its amount.
pub open spec fn enc_asset(a: AssetV) -> Seq<u8> {
    enc_asset_info(a.info) + enc_u128le(a.amount)
}

/// The encoded pool swap instruction.
pub open spec fn enc_pair_swap(p: SwapPayloadV) -> Seq<u8> {
    seq![PAIR_SWAP_TAG] + enc_asset(p.offer_asset) + enc_opt_decimal(p.belief_price)
        + enc_opt_decimal(p.max_spread) + enc_opt_str(p.to)
}

/// The encoded token-contract send envelope: the receiving pool, the sent
/// amount, and the embedded encoded payload.
pub open spec fn enc_cw20_send(contract: Seq<char>, amount: u128, msg: Seq<u8>) -> Seq<u8> {
    seq![CW20_SEND_TAG] + enc_str(contract) + enc_u128le(amount) + enc_bytes(msg)
}

/// Whether a string's UTF-8 encoding fits under a 64-bit length prefix.
pub open spec fn str_encodable(s: Seq<char>) -> bool {
    encode_utf8(s).len() < 0x1_0000_0000_0000_0000
}

/// Whether every string of a payload fits under its length prefix. Every
/// payload built from executable values satisfies this.
pub open spec fn payload_encodable(p: SwapPayloadV) -> bool {
    &&& match p.offer_asset.info {
        AssetInfoV::Native { denom } => str_encodable(denom),
        AssetInfoV::Cw20 { contract_addr } => str_encodable(contract_addr),
    }
    &&& match p.to {
        Some(t) => str_encodable(t),
        None => true,
    }
}

// ---------------------------------------------------------------------
// Decoding, as partial functions over byte sequences.
// ---------------------------------------------------------------------

/// The 64-bit integer read back from eight little-endian bytes.
pub open spec fn dec_u64le(b: Seq<u8>) -> u64
    recommends
        b.len() == 8,
{
    ((b[0] as u64) | ((b[1] as u64) << 8) | ((b[2] as u64) << 16) | ((b[3] as u64) << 24) | (
    (b[4] as u64) << 32) | ((b[5] as u64) << 40) | ((b[6] as u64) << 48) | ((b[7] as u64) << 56))
}

/// The 128-bit integer read back from sixteen little-endian bytes.
pub open spec fn dec_u128le(b: Seq<u8>) -> u128
    recommends
        b.len() == 16,
{
    (dec_u64le(b.subrange(0, 8)) as u128) | ((dec_u64le(b.subrange(8, 16)) as u128) << 64)
}

/// Reads a 64-bit integer at `pos`; the second component of each reader's
/// result is the position just after what was read.
pub open spec fn dec_u64_at(b: Seq<u8>, pos: int) -> Option<(u64, int)> {
    if 0 <= pos && pos + 8 <= b.len() {
        Some((dec_u64le(b.subrange(pos, pos + 8)), pos + 8))
    } else {
        None
    }
}

/// Reads a 128-bit integer at `pos`.
pub open spec fn dec_u128_at(b: Seq<u8>, pos: int) -> Option<(u128, int)> {
    if 0 <= pos && pos + 16 <= b.len() {
        Some((dec_u128le(b.subrange(pos, pos + 16)), pos + 16))
    } else {
        None
    }
}

/// Reads a length-prefixed byte string at `pos`.
pub open spec fn dec_bytes_at(b: Seq<u8>, pos: int) -> Option<(Seq<u8>, int)> {
    match dec_u64_at(b, pos) {
        None => None,
        Some((len, p)) => if p + len <= b.len() {
            Some((b.subrange(p, p + len), p + len))
        } else {
            None
        },
    }
}

/// Reads a length-prefixed UTF-8 string at `pos`.
pub open spec fn dec_str_at(b: Seq<u8>, pos: int) -> Option<(Seq<char>, int)> {
    match dec_bytes_at(b, pos) {
        None => None,
        Some((bs, p)) => if valid_utf8(bs) {
            Some((decode_utf8(bs), p))
        } else {
            None
        },
    }
}

/// Reads an optional decimal at `pos`.
pub open spec fn dec_opt_decimal_at(b: Seq<u8>, pos: int) -> Option<(Option<Decimal>, int)> {
    if 0 <= pos && pos < b.len() {
        if b[pos] == 0u8 {
            Some((None, pos + 1))
        } else if b[pos] == 1u8 {
            match dec_u128_at(b, pos + 1) {
                None => None,
                Some((n, p)) => Some((Some(Decimal { atomics: n }), p)),
            }
        } else {
            None
        }
    } else {
        None
    }
}

/// Reads an optional string at `pos`.
pub open spec fn dec_opt_str_at(b: Seq<u8>, pos: int) -> Option<(Option<Seq<char>>, int)> {
    if 0 <= pos && pos < b.len() {
        if b[pos] == 0u8 {
            Some((None, pos + 1))
        } else if b[pos] == 1u8 {
            match dec_str_at(b, pos + 1) {
                None => None,
                Some((s, p)) => Some((Some(s), p)),
            }
        } else {
            None
        }
    } else {
        None
    }
}

/// Reads an asset identity at `pos`.
pub open spec fn dec_asset_info_at(b: Seq<u8>, pos: int) -> Option<(AssetInfoV, int)> {
    if 0 <= pos && pos < b.len() {
        if b[pos] == NATIVE_TAG {
            match dec_str_at(b, pos + 1) {
                None => None,
                Some((s, p)) => Some((AssetInfoV::Native { denom: s }, p)),
            }
        } else if b[pos] == CW20_TAG {
            match dec_str_at(b, pos + 1) {
                None => None,
                Some((s, p)) => Some((AssetInfoV::Cw20 { contract_addr: s }, p)),
            }
        } else {
            None
        }
    } else {
        None
    }
}

/// Reads an asset at `pos`.
pub open spec fn dec_asset_at(b: Seq<u8>, pos: int) -> Option<(AssetV, int)> {
    match dec_asset_info_at(b, pos) {
        None => None,
        Some((info, p)) => match dec_u128_at(b, p) {
            None => None,
            Some((amount, p2)) => Some((AssetV { info, amount }, p2)),
        },
    }
}

/// Decodes a whole pool swap instruction; the entire input must be consumed.
pub open spec fn dec_pair_swap(b: Seq<u8>) -> Option<SwapPayloadV> {
    if b.len() > 0 && b[0] == PAIR_SWAP_TAG {
        match dec_asset_at(b, 1) {
            None => None,
            Some((offer_asset, p1)) => match dec_opt_decimal_at(b, p1) {
                None => None,
                Some((belief_price, p2)) => match dec_opt_decimal_at(b, p2) {
                    None => None,
                    Some((max_spread, p3)) => match dec_opt_str_at(b, p3) {
                        None => None,
                        Some((to, p4)) => if p4 == b.len() {
                            Some(SwapPayloadV { offer_asset, belief_price, max_spread, to })
                        } else {
                            None
                        },
                    },
                },
            },
        }
    } else {
        None
    }
}

/// Decodes a whole send envelope into the receiving pool, the sent amount,
/// and the embedded encoded payload; the entire input must be consumed.
pub open spec fn dec_cw20_send(b: Seq<u8>) -> Option<(Seq<char>, u128, Seq<u8>)> {
    if b.len() > 0 && b[0] == CW20_SEND_TAG {
        match dec_str_at(b, 1) {
            None => None,
            Some((contract, p1)) => match dec_u128_at(b, p1) {
                None => None,
                Some((amount, p2)) => match dec_bytes_at(b, p2) {
                    None => None,
                    Some((msg, p3)) => if p3 == b.len() {
                        Some((contract, amount, msg))
                    } else {
                        None
                    },
                },
            },
        }
    } else {
        None
    }
}

// ---------------------------------------------------------------------
// Decoding inverts encoding.
// ---------------------------------------------------------------------

proof fn lemma_u64le_roundtrip(n: u64)
    ensures
        enc_u64le(n).len() == 8,
        dec_u64le(enc_u64le(n)) == n,
{
    assert(((n & 0xff) as u8 as u64) | ((((n >> 8) & 0xff) as u8 as u64) << 8) | ((((n >> 16)
        & 0xff) as u8 as u64) << 16) | ((((n >> 24) & 0xff) as u8 as u64) << 24) | ((((n >> 32)
        & 0xff) as u8 as u64) << 32) | ((((n >> 40) & 0xff) as u8 as u64) << 40) | ((((n >> 48)
        & 0xff) as u8 as u64) << 48) | ((((n >> 56) & 0xff) as u8 as u64) << 56) == n)
        by (bit_vector);
}

proof fn lemma_u128le_roundtrip(n: u128)
    ensures
        enc_u128le(n).len() == 16,
        dec_u128le(enc_u128le(n)) == n,
{
    lemma_u64le_roundtrip(lo64(n));
    lemma_u64le_roundtrip(hi64(n));
    assert(enc_u128le(n).subrange(0, 8) =~= enc_u64le(lo64(n)));
    assert(enc_u128le(n).subrange(8, 16) =~= enc_u64le(hi64(n)));
    assert(((n & 0xffff_ffff_ffff_ffff) as u64 as u128) | (((n >> 64) as u64 as u128) << 64) == n)
        by (bit_vector);
}

proof fn lemma_dec_u64_embed(pre: Seq<u8>, n: u64, suf: Seq<u8>)
    ensures
        dec_u64_at(pre + enc_u64le(n) + suf, pre.len() as int) == Some(
            (n, pre.len() as int + enc_u64le(n).len()),
        ),
{
    lemma_u64le_roundtrip(n);
    let b = pre + enc_u64le(n) + suf;
    let pos = pre.len() as int;
    assert(b.subrange(pos, pos + 8) =~= enc_u64le(n));
}

proof fn lemma_dec_u128_embed(pre: Seq<u8>, n: u128, suf: Seq<u8>)
    ensures
        dec_u128_at(pre + enc_u128le(n) + suf, pre.len() as int) == Some(
            (n, pre.len() as int + enc_u128le(n).len()),
        ),
{
    lemma_u128le_roundtrip(n);
    let b = pre + enc_u128le(n) + suf;
    let pos = pre.len() as int;
    assert(b.subrange(pos, pos + 16) =~= enc_u128le(n));
}

proof fn lemma_dec_bytes_embed(pre: Seq<u8>, bs: Seq<u8>, suf: Seq<u8>)
    requires
        bs.len() < 0x1_0000_0000_0000_0000,
    ensures
        dec_bytes_at(pre + enc_bytes(bs) + suf, pre.len() as int) == Some(
            (bs, pre.len() as int + enc_bytes(bs).len()),
        ),
{
    let len64 = bs.len() as u64;
    let b = pre + enc_bytes(bs) + suf;
    assert(b =~= pre + enc_u64le(len64) + (bs + suf));
    lemma_dec_u64_embed(pre, len64, bs + suf);
    lemma_u64le_roundtrip(len64);
    let p = pre.len() as int + 8;
    assert(b.subrange(p, p + bs.len() as int) =~= bs);
}

proof fn lemma_dec_str_embed(pre: Seq<u8>, s: Seq<char>, suf: Seq<u8>)
    requires
        str_encodable(s),
    ensures
        dec_str_at(pre + enc_str(s) + suf, pre.len() as int) == Some(
            (s, pre.len() as int + enc_str(s).len()),
        ),
{
    lemma_dec_bytes_embed(pre, encode_utf8(s), suf);
    encode_utf8_valid_utf8(s);
    encode_utf8_decode_utf8(s);
}

proof fn lemma_dec_opt_decimal_embed(pre: Seq<u8>, d: Option<Decimal>, suf: Seq<u8>)
    ensures
        dec_opt_decimal_at(pre + enc_opt_decimal(d) + suf, pre.len() as int) == Some(
            (d, pre.len() as int + enc_opt_decimal(d).len()),
        ),
{
    let b = pre + enc_opt_decimal(d) + suf;
    let pos = pre.len() as int;
    match d {
        None => {
            assert(b[pos] == 0u8);
        },
        Some(x) => {
            assert(b[pos] == 1u8);
            assert(b =~= (pre + seq![1u8]) + enc_u128le(x.atomics) + suf);
            lemma_dec_u128_embed(pre + seq![1u8], x.atomics, suf);
        },
    }
}

proof fn lemma_dec_opt_str_embed(pre: Seq<u8>, t: Option<Seq<char>>, suf: Seq<u8>)
    requires
        match t {
            Some(s) => str_encodable(s),
            None => true,
        },
    ensures
        dec_opt_str_at(pre + enc_opt_str(t) + suf, pre.len() as int) == Some(
            (t, pre.len() as int + enc_opt_str(t).len()),
        ),
{
    let b = pre + enc_opt_str(t) + suf;
    let pos = pre.len() as int;
    match t {
        None => {
            assert(b[pos] == 0u8);
        },
        Some(s) => {
            assert(b[pos] == 1u8);
            assert(b =~= (pre + seq![1u8]) + enc_str(s) + suf);
            lemma_dec_str_embed(pre + seq![1u8], s, suf);
        },
    }
}

proof fn lemma_dec_asset_info_embed(pre: Seq<u8>, info: AssetInfoV, suf: Seq<u8>)
    requires
        match info {
            AssetInfoV::Native { denom } => str_encodable(denom),
            AssetInfoV::Cw20 { contract_addr } => str_encodable(contract_addr),
        },
    ensures
        dec_asset_info_at(pre + enc_asset_info(info) + suf, pre.len() as int) == Some(
            (info, pre.len() as int + enc_asset_info(info).len()),
        ),
{
    let b = pre + enc_asset_info(info) + suf;
    let pos = pre.len() as int;
    match info {
        AssetInfoV::Native { denom } => {
            assert(b[pos] == NATIVE_TAG);
            assert(b =~= (pre + seq![NATIVE_TAG]) + enc_str(denom) + suf);
            lemma_dec_str_embed(pre + seq![NATIVE_TAG], denom, suf);
        },
        AssetInfoV::Cw20 { contract_addr } => {
            assert(b[pos] == CW20_TAG);
            assert(b =~= (pre + seq![CW20_TAG]) + enc_str(contract_addr) + suf);
            lemma_dec_str_embed(pre + seq![CW20_TAG], contract_addr, suf);
        },
    }
}

proof fn lemma_dec_asset_embed(pre: Seq<u8>, a: AssetV, suf: Seq<u8>)
    requires
        match a.info {
            AssetInfoV::Native { denom } => str_encodable(denom),
            AssetInfoV::Cw20 { contract_addr } => str_encodable(contract_addr),
        },
    ensures
        dec_asset_at(pre + enc_asset(a) + suf, pre.len() as int) == Some(
            (a, pre.len() as int + enc_asset(a).len()),
        ),
{
    let b = pre + enc_asset(a) + suf;
    assert(b =~= pre + enc_asset_info(a.info) + (enc_u128le(a.amount) + suf));
    lemma_dec_asset_info_embed(pre, a.info, enc_u128le(a.amount) + suf);
    assert(b =~= (pre + enc_asset_info(a.info)) + enc_u128le(a.amount) + suf);
    lemma_dec_u128_embed(pre + enc_asset_info(a.info), a.amount, suf);
}

/// Decoding an encoded pool swap instruction recovers it exactly.
pub proof fn lemma_pair_swap_roundtrip(p: SwapPayloadV)
    requires
        payload_encodable(p),
    ensures
        dec_pair_swap(enc_pair_swap(p)) == Some(p),
{
    let b = enc_pair_swap(p);
    let e1 = enc_asset(p.offer_asset);
    let e2 = enc_opt_decimal(p.belief_price);
    let e3 = enc_opt_decimal(p.max_spread);
    let e4 = enc_opt_str(p.to);
    assert(b[0] == PAIR_SWAP_TAG);
    assert(b =~= seq![PAIR_SWAP_TAG] + e1 + (e2 + e3 + e4));
    lemma_dec_asset_embed(seq![PAIR_SWAP_TAG], p.offer_asset, e2 + e3 + e4);
    assert(b =~= (seq![PAIR_SWAP_TAG] + e1) + e2 + (e3 + e4));
    lemma_dec_opt_decimal_embed(seq![PAIR_SWAP_TAG] + e1, p.belief_price, e3 + e4);
    assert(b =~= (seq![PAIR_SWAP_TAG] + e1 + e2) + e3 + e4);
    lemma_dec_opt_decimal_embed(seq![PAIR_SWAP_TAG] + e1 + e2, p.max_spread, e4);
    assert(b =~= (seq![PAIR_SWAP_TAG] + e1 + e2 + e3) + e4 + Seq::<u8>::empty());
    lemma_dec_opt_str_embed(seq![PAIR_SWAP_TAG] + e1 + e2 + e3, p.to, Seq::<u8>::empty());
}

/// Decoding an encoded send envelope recovers the receiving pool, the sent
/// amount, and the embedded payload exactly.
pub proof fn lemma_cw20_send_roundtrip(contract: Seq<char>, amount: u128, msg: Seq<u8>)
    requires
        str_encodable(contract),
        msg.len() < 0x1_0000_0000_0000_0000,
    ensures
        dec_cw20_send(enc_cw20_send(contract, amount, msg)) == Some((contract, amount, msg)),
{
    let b = enc_cw20_send(contract, amount, msg);
    let e1 = enc_str(contract);
    let e2 = enc_u128le(amount);
    let e3 = enc_bytes(msg);
    assert(b[0] == CW20_SEND_TAG);
    assert(b =~= seq![CW20_SEND_TAG] + e1 + (e2 + e3));
    lemma_dec_str_embed(seq![CW20_SEND_TAG], contract, e2 + e3);
    assert(b =~= (seq![CW20_SEND_TAG] + e1) + e2 + e3);
    lemma_dec_u128_embed(seq![CW20_SEND_TAG] + e1, amount, e3);
    assert(b =~= (seq![CW20_SEND_TAG] + e1 + e2) + e3 + Seq::<u8>::empty());
    lemma_dec_bytes_embed(seq![CW20_SEND_TAG] + e1 + e2, msg, Seq::<u8>::empty());
}

/// The round trip of the double-encoded envelope: decoding the outer send
/// envelope of a contract-token swap message recovers the embedded bytes,
/// and decoding those recovers the original swap payload unchanged.
pub proof fn lemma_swap_envelope_roundtrip(p: SwapPayloadV, pair_contract: Seq<char>, amount: u128)
    requires
        payload_encodable(p),
        str_encodable(pair_contract),
        enc_pair_swap(p).len() < 0x1_0000_0000_0000_0000,
    ensures
        dec_cw20_send(enc_cw20_send(pair_contract, amount, enc_pair_swap(p))) == Some(
            (pair_contract, amount, enc_pair_swap(p)),
        ),
        dec_pair_swap(enc_pair_swap(p)) == Some(p),
{
    lemma_pair_swap_roundtrip(p);
    lemma_cw20_send_roundtrip(pair_contract, amount, enc_pair_swap(p));
}

// ---------------------------------------------------------------------
// Executable encoders.
// ---------------------------------------------------------------------

fn push_u64le(out: &mut Vec<u8>, n: u64)
    ensures
        final(out)@ == old(out)@ + enc_u64le(n),
{
    out.push((n & 0xff) as u8);
    out.push(((n >> 8) & 0xff) as u8);
    out.push(((n >> 16) & 0xff) as u8);
    out.push(((n >> 24) & 0xff) as u8);
    out.push(((n >> 32) & 0xff) as u8);
    out.push(((n >> 40) & 0xff) as u8);
    out.push(((n >> 48) & 0xff) as u8);
    out.push(((n >> 56) & 0xff) as u8);
    proof {
        assert(out@ =~= old(out)@ + enc_u64le(n));
    }
}

fn push_u128le(out: &mut Vec<u8>, n: u128)
    ensures
        final(out)@ == old(out)@ + enc_u128le(n),
{
    let lo = (n & 0xffff_ffff_ffff_ffff) as u64;
    let hi = (n >> 64) as u64;
    push_u64le(out, lo);
    push_u64le(out, hi);
    proof {
        assert(out@ =~= old(out)@ + enc_u128le(n));
    }
}

fn push_bytes(out: &mut Vec<u8>, bytes: &[u8])
    ensures
        final(out)@ == old(out)@ + bytes@,
{
    let n = bytes.len();
    let mut i: usize = 0;
    while i < n
        invariant
            0 <= i <= n,
            n == bytes@.len(),
            out@ == old(out)@ + bytes@.take(i as int),
        decreases n - i,
    {
        out.push(bytes[i]);
        proof {
            assert(old(out)@ + bytes@.take(i as int) + seq![bytes@[i as int]] =~= old(out)@
                + bytes@.take(i as int + 1));
        }
        i += 1;
    }
    proof {
        assert(bytes@.take(n as int) =~= bytes@);
    }
}

fn push_str(out: &mut Vec<u8>, s: &str)
    ensures
        final(out)@ == old(out)@ + enc_str(s@),
{
    let bs = s.as_bytes();
    push_u64le(out, bs.len() as u64);
    push_bytes(out, bs);
    proof {
        assert(out@ =~= old(out)@ + enc_str(s@));
    }
}

fn push_opt_decimal(out: &mut Vec<u8>, d: &Option<Decimal>)
    ensures
        final(out)@ == old(out)@ + enc_opt_decimal(*d),
{
    match d {
        None => {
            out.push(0u8);
            proof {
                assert(out@ =~= old(out)@ + enc_opt_decimal(*d));
            }
        },
        Some(x) => {
            out.push(1u8);
            push_u128le(out, x.atomics);
            proof {
                assert(out@ =~= old(out)@ + enc_opt_decimal(*d));
            }
        },
    }
}

fn push_opt_str(out: &mut Vec<u8>, t: &Option<String>)
    ensures
        final(out)@ == old(out)@ + enc_opt_str(
            match t {
                Some(s) => Some(s@),
                None => None,
            },
        ),
{
    match t {
        None => {
            out.push(0u8);
            proof {
                assert(out@ =~= old(out)@ + seq![0u8]);
            }
        },
        Some(s) => {
            out.push(1u8);
            push_str(out, s.as_str());
            proof {
                assert(out@ =~= old(out)@ + (seq![1u8] + enc_str(s@)));
            }
        },
    }
}

fn push_asset_info(out: &mut Vec<u8>, info: &crate::asset::AssetInfo)
    ensures
        final(out)@ == old(out)@ + enc_asset_info(info@),
{
    match info {
        crate::asset::AssetInfo::Native { denom } => {
            out.push(NATIVE_TAG);
            push_str(out, denom.as_str());
            proof {
                assert(out@ =~= old(out)@ + (seq![NATIVE_TAG] + enc_str(denom@)));
            }
        },
        crate::asset::AssetInfo::Cw20 { contract_addr } => {
            out.push(CW20_TAG);
            push_str(out, contract_addr.as_str());
            proof {
                assert(out@ =~= old(out)@ + (seq![CW20_TAG] + enc_str(contract_addr@)));
            }
        },
    }
}

fn push_asset(out: &mut Vec<u8>, a: &crate::asset::Asset)
    ensures
        final(out)@ == old(out)@ + enc_asset(a@),
{
    push_asset_info(out, &a.info);
    push_u128le(out, a.amount);
    proof {
        assert(out@ =~= old(out)@ + enc_asset(a@));
    }
}

/// Encodes a pool swap instruction.
pub fn encode_pair_swap(p: &SwapPayload) -> (r: Vec<u8>)
    ensures
        r@ == enc_pair_swap(p@),
{
    let mut out: Vec<u8> = Vec::new();
    out.push(PAIR_SWAP_TAG);
    push_asset(&mut out, &p.offer_asset);
    push_opt_decimal(&mut out, &p.belief_price);
    push_opt_decimal(&mut out, &p.max_spread);
    push_opt_str(&mut out, &p.to);
    proof {
        assert(out@ =~= enc_pair_swap(p@));
    }
    out
}

/// Encodes a token-contract send envelope around an already-encoded payload.
pub fn encode_cw20_send(contract: &String, amount: u128, msg: &Vec<u8>) -> (r: Vec<u8>)
    ensures
        r@ == enc_cw20_send(contract@, amount, msg@),
{
    let mut out: Vec<u8> = Vec::new();
    out.push(CW20_SEND_TAG);
    push_str(&mut out, contract.as_str());
    push_u128le(&mut out, amount);
    push_u64le(&mut out, msg.len() as u64);
    push_bytes(&mut out, msg.as_slice());
    proof {
        assert(out@ =~= enc_cw20_send(contract@, amount, msg@));
    }
    out
}

// ---------------------------------------------------------------------
// Executable decoders.
// ---------------------------------------------------------------------

/// Relies on `String::from_utf8`: it succeeds exactly on valid UTF-8 input
/// and returns the string those bytes encode.
#[verifier::external_body]
fn string_from_utf8(bytes: Vec<u8>) -> (r: Option<String>)
    ensures
        r is Some <==> valid_utf8(bytes@),
        r matches Some(s) ==> encode_utf8(s@) == bytes@,
{
    match String::from_utf8(bytes) {
        Ok(s) => Some(s),
        Err(_) => None,
    }
}

fn read_u64_at(input: &Vec<u8>, pos: usize) -> (r: Option<(u64, usize)>)
    ensures
        match (r, dec_u64_at(input@, pos as int)) {
            (Some((rn, rp)), Some((n, p))) => rn == n && rp as int == p,
            (None, None) => true,
            _ => false,
        },
{
    if input.len() >= 8 && pos <= input.len() - 8 {
        let n = (input[pos] as u64) | ((input[pos + 1] as u64) << 8) | ((input[pos + 2] as u64)
            << 16) | ((input[pos + 3] as u64) << 24) | ((input[pos + 4] as u64) << 32) | ((input[pos
            + 5] as u64) << 40) | ((input[pos + 6] as u64) << 48) | ((input[pos + 7] as u64) << 56);
        proof {
            assert(n == dec_u64le(input@.subrange(pos as int, pos as int + 8)));
        }
        Some((n, pos + 8))
    } else {
        None
    }
}

fn read_u128_at(input: &Vec<u8>, pos: usize) -> (r: Option<(u128, usize)>)
    ensures
        match (r, dec_u128_at(input@, pos as int)) {
            (Some((rn, rp)), Some((n, p))) => rn == n && rp as int == p,
            (None, None) => true,
            _ => false,
        },
{
    match read_u64_at(input, pos) {
        None => None,
        Some((lo, p1)) => match read_u64_at(input, p1) {
            None => None,
            Some((hi, p2)) => {
                let n = (lo as u128) | ((hi as u128) << 64);
                proof {
                    let sub16 = input@.subrange(pos as int, pos as int + 16);
                    assert(sub16.subrange(0, 8) =~= input@.subrange(pos as int, pos as int + 8));
                    assert(sub16.subrange(8, 16) =~= input@.subrange(
                        pos as int + 8,
                        pos as int + 16,
                    ));
                }
                Some((n, p2))
            },
        },
    }
}

fn copy_range(input: &Vec<u8>, start: usize, len: usize) -> (r: Vec<u8>)
    requires
        start + len <= input@.len(),
    ensures
        r@ == input@.subrange(start as int, start as int + len as int),
{
    let n = input.len();
    let mut out: Vec<u8> = Vec::new();
    let mut i: usize = 0;
    while i < len
        invariant
            0 <= i <= len,
            start + len <= n,
            n == input@.len(),
            out@ == input@.subrange(start as int, start as int + i as int),
        decreases len - i,
    {
        out.push(input[start + i]);
        proof {
            assert(input@.subrange(start as int, start as int + i as int) + seq![
                input@[start as int + i as int],
            ] =~= input@.subrange(start as int, start as int + i as int + 1));
        }
        i += 1;
    }
    out
}

fn read_bytes_at(input: &Vec<u8>, pos: usize) -> (r: Option<(Vec<u8>, usize)>)
    ensures
        match (r, dec_bytes_at(input@, pos as int)) {
            (Some((rb, rp)), Some((bs, p))) => rb@ == bs && rp as int == p,
            (None, None) => true,
            _ => false,
        },
{
    match read_u64_at(input, pos) {
        None => None,
        Some((len64, p)) => {
            if len64 <= (input.len() - p) as u64 {
                let len = len64 as usize;
                let bytes = copy_range(input, p, len);
                Some((bytes, p + len))
            } else {
                None
            }
        },
    }
}

fn read_str_at(input: &Vec<u8>, pos: usize) -> (r: Option<(String, usize)>)
    ensures
        match (r, dec_str_at(input@, pos as int)) {
            (Some((rs, rp)), Some((s, p))) => rs@ == s && rp as int == p,
            (None, None) => true,
            _ => false,
        },
{
    match read_bytes_at(input, pos) {
        None => None,
        Some((bytes, p)) => {
            match string_from_utf8(bytes) {
                None => None,
                Some(s) => {
                    proof {
                        encode_utf8_valid_utf8(s@);
                        encode_utf8_decode_utf8(s@);
                    }
                    Some((s, p))
                },
            }
        },
    }
}

fn read_opt_decimal_at(input: &Vec<u8>, pos: usize) -> (r: Option<(Option<Decimal>, usize)>)
    ensures
        match (r, dec_opt_decimal_at(input@, pos as int)) {
            (Some((rd, rp)), Some((d, p))) => rd == d && rp as int == p,
            (None, None) => true,
            _ => false,
        },
{
    if pos < input.len() {
        let tag = input[pos];
        if tag == 0u8 {
            Some((None, pos + 1))
        } else if tag == 1u8 {
            match read_u128_at(input, pos + 1) {
                None => None,
                Some((n, p)) => Some((Some(Decimal { atomics: n }), p)),
            }
        } else {
            None
        }
    } else {
        None
    }
}

fn read_opt_str_at(input: &Vec<u8>, pos: usize) -> (r: Option<(Option<String>, usize)>)
    ensures
        match (r, dec_opt_str_at(input@, pos as int)) {
            (Some((rt, rp)), Some((t, p))) => crate::messages::opt_str_view(rt) == t && rp as int
                == p,
            (None, None) => true,
            _ => false,
        },
{
    if pos < input.len() {
        let tag = input[pos];
        if tag == 0u8 {
            Some((None, pos + 1))
        } else if tag == 1u8 {
            match read_str_at(input, pos + 1) {
                None => None,
                Some((s, p)) => Some((Some(s), p)),
            }
        } else {
            None
        }
    } else {
        None
    }
}

fn read_asset_info_at(input: &Vec<u8>, pos: usize) -> (r: Option<(crate::asset::AssetInfo, usize)>)
    ensures
        match (r, dec_asset_info_at(input@, pos as int)) {
            (Some((ri, rp)), Some((info, p))) => ri@ == info && rp as int == p,
            (None, None) => true,
            _ => false,
        },
{
    if pos < input.len() {
        let tag = input[pos];
        if tag == NATIVE_TAG {
            match read_str_at(input, pos + 1) {
                None => None,
                Some((s, p)) => Some((crate::asset::AssetInfo::Native { denom: s }, p)),
            }
        } else if tag == CW20_TAG {
            match read_str_at(input, pos + 1) {
                None => None,
                Some((s, p)) => Some((crate::asset::AssetInfo::Cw20 { contract_addr: s }, p)),
            }
        } else {
            None
        }
    } else {
        None
    }
}

fn read_asset_at(input: &Vec<u8>, pos: usize) -> (r: Option<(crate::asset::Asset, usize)>)
    ensures
        match (r, dec_asset_at(input@, pos as int)) {
            (Some((ra, rp)), Some((a, p))) => ra@ == a && rp as int == p,
            (None, None) => true,
            _ => false,
        },
{
    match read_asset_info_at(input, pos) {
        None => None,
        Some((info, p)) => match read_u128_at(input, p) {
            None => None,
            Some((amount, p2)) => Some((crate::asset::Asset { info, amount }, p2)),
        },
    }
}

/// Decodes a pool swap instruction; inverts [`encode_pair_swap`].
pub fn decode_pair_swap(input: &Vec<u8>) -> (r: Option<SwapPayload>)
    ensures
        match (r, dec_pair_swap(input@)) {
            (Some(q), Some(v)) => q@ == v,
            (None, None) => true,
            _ => false,
        },
{
    if input.len() > 0 && input[0] == PAIR_SWAP_TAG {
        match read_asset_at(input, 1) {
            None => None,
            Some((offer_asset, p1)) => match read_opt_decimal_at(input, p1) {
                None => None,
                Some((belief_price, p2)) => match read_opt_decimal_at(input, p2) {
                    None => None,
                    Some((max_spread, p3)) => match read_opt_str_at(input, p3) {
                        None => None,
                        Some((to, p4)) => if p4 == input.len() {
                            Some(SwapPayload { offer_asset, belief_price, max_spread, to })
                        } else {
                            None
                        },
                    },
                },
            },
        }
    } else {
        None
    }
}

/// Decodes a token-contract send envelope into the receiving pool, the sent
/// amount, and the embedded encoded payload; inverts [`encode_cw20_send`].
pub fn decode_cw20_send(input: &Vec<u8>) -> (r: Option<(String, u128, Vec<u8>)>)
    ensures
        match (r, dec_cw20_send(input@)) {
            (Some(q), Some(v)) => q.0@ == v.0 && q.1 == v.1 && q.2@ == v.2,
            (None, None) => true,
            _ => false,
        },
{
    if input.len() > 0 && input[0] == CW20_SEND_TAG {
        match read_str_at(input, 1) {
            None => None,
            Some((contract, p1)) => match read_u128_at(input, p1) {
                None => None,
                Some((amount, p2)) => match read_bytes_at(input, p2) {
                    None => None,
                    Some((msg, p3)) => if p3 == input.len() {
                        Some((contract, amount, msg))
                    } else {
                        None
                    },
                },
            },
        }
    } else {
        None
    }
}

} // verus!
