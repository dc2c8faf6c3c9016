//! Outbound message construction: the swap payload, the plain-value model
//! of host messages, and the builder that turns an offered asset into the
//! correct instruction for a pool.

use vstd::prelude::*;
use crate::asset::{Asset, AssetInfo, AssetInfoV, AssetV, Coin, CoinV, Decimal, SwapError};
use crate::asset::spec_transfer_tax;
use crate::codec::{enc_cw20_send, enc_pair_swap, encode_cw20_send, encode_pair_swap};

verus! {

/// The pool's swap instruction: the offered asset and the slippage bounds.
/// `belief_price` is always left unset by this core; slippage protection
/// relies on `max_spread` alone.
#[derive(Debug)]
pub struct SwapPayload {
    pub offer_asset: Asset,
    pub belief_price: Option<Decimal>,
    pub max_spread: Option<Decimal>,
    pub to: Option<String>,
}

/// Mathematical model of a [`SwapPayload`].
pub struct SwapPayloadV {
    pub offer_asset: AssetV,
    pub belief_price: Option<Decimal>,
    pub max_spread: Option<Decimal>,
    pub to: Option<Seq<char>>,
}

/// The view of an optional owned string: the same option over characters.
pub open spec fn opt_str_view(t: Option<String>) -> Option<Seq<char>> {
    match t {
        Some(s) => Some(s@),
        None => None,
    }
}

impl View for SwapPayload {
    type V = SwapPayloadV;

    open spec fn view(&self) -> SwapPayloadV {
        SwapPayloadV {
            offer_asset: self.offer_asset@,
            belief_price: self.belief_price,
            max_spread: self.max_spread,
            to: opt_str_view(self.to),
        }
    }
}

/// A host message this core emits: a ledger-level native exchange (swap in
/// place or swap-and-send), or a contract invocation carrying an encoded
/// payload and optional attached funds.
#[derive(Debug)]
pub enum CosmosMsg {
    MarketSwap { offer_coin: Coin, ask_denom: String },
    MarketSwapSend { to_address: String, offer_coin: Coin, ask_denom: String },
    WasmExecute { contract_addr: String, funds: Vec<Coin>, msg: Vec<u8> },
}

/// Mathematical model of a [`CosmosMsg`].
pub enum CosmosMsgV {
    MarketSwap { offer_coin: CoinV, ask_denom: Seq<char> },
    MarketSwapSend { to_address: Seq<char>, offer_coin: CoinV, ask_denom: Seq<char> },
    WasmExecute { contract_addr: Seq<char>, funds: Seq<CoinV>, msg: Seq<u8> },
}

impl View for CosmosMsg {
    type V = CosmosMsgV;

    open spec fn view(&self) -> CosmosMsgV {
        match self {
            CosmosMsg::MarketSwap { offer_coin, ask_denom } => CosmosMsgV::MarketSwap {
                offer_coin: offer_coin@,
                ask_denom: ask_denom@,
            },
            CosmosMsg::MarketSwapSend { to_address, offer_coin, ask_denom } => CosmosMsgV::MarketSwapSend {
                to_address: to_address@,
                offer_coin: offer_coin@,
                ask_denom: ask_denom@,
            },
            CosmosMsg::WasmExecute { contract_addr, funds, msg } => CosmosMsgV::WasmExecute {
                contract_addr: contract_addr@,
                funds: funds@.map_values(|c: Coin| c@),
                msg: msg@,
            },
        }
    }
}

/// What [`Asset::into_swap_msg`] emits. A native offer first loses the
/// ledger transfer tax (checked subtraction) and invokes the pool directly,
/// attaching the reduced amount and encoding it in the payload. A
/// contract-token offer keeps its full amount, whatever the tax collaborator
/// answered, and is wrapped in a token-contract send envelope around the
/// same payload.
pub open spec fn spec_swap_msg(
    offer: AssetV,
    pair_contract: Seq<char>,
    max_spread: Option<Decimal>,
    to: Option<Seq<char>>,
    queried_tax: u128,
) -> Result<CosmosMsgV, SwapError> {
    match offer.info {
        AssetInfoV::Native { denom } => {
            let tax = spec_transfer_tax(offer.info, queried_tax);
            if tax <= offer.amount {
                let amount = (offer.amount - tax) as u128;
                Ok(
                    CosmosMsgV::WasmExecute {
                        contract_addr: pair_contract,
                        funds: seq![CoinV { denom, amount }],
                        msg: enc_pair_swap(
                            SwapPayloadV {
                                offer_asset: AssetV { info: offer.info, amount },
                                belief_price: None,
                                max_spread,
                                to,
                            },
                        ),
                    },
                )
            } else {
                Err(SwapError::ArithmeticUnderflow)
            }
        },
        AssetInfoV::Cw20 { contract_addr } => Ok(
            CosmosMsgV::WasmExecute {
                contract_addr,
                funds: Seq::empty(),
                msg: enc_cw20_send(
                    pair_contract,
                    offer.amount,
                    enc_pair_swap(
                        SwapPayloadV {
                            offer_asset: offer,
                            belief_price: None,
                            max_spread,
                            to,
                        },
                    ),
                ),
            },
        ),
    }
}

/// Whether an emitted message agrees with its model, error for error.
pub open spec fn swap_msg_matches(
    r: Result<CosmosMsg, SwapError>,
    v: Result<CosmosMsgV, SwapError>,
) -> bool {
    match (r, v) {
        (Ok(m), Ok(mv)) => m@ == mv,
        (Err(e), Err(ev)) => e == ev,
        _ => false,
    }
}

/// A contract-token offer is swapped at its full amount: the message is the
/// same whatever the tax collaborator answered.
pub proof fn lemma_cw20_swap_ignores_tax(
    offer: AssetV,
    pair_contract: Seq<char>,
    max_spread: Option<Decimal>,
    to: Option<Seq<char>>,
    tax1: u128,
    tax2: u128,
)
    requires
        offer.info is Cw20,
    ensures
        spec_swap_msg(offer, pair_contract, max_spread, to, tax1) == spec_swap_msg(
            offer,
            pair_contract,
            max_spread,
            to,
            tax2,
        ),
{
}

impl Asset {
    /// Builds the outbound pool instruction for this offered asset.
    /// `queried_tax` is the transfer tax the collaborator computed for this
    /// asset's amount; it is read only for a native offer, where a tax
    /// above the amount is an [`SwapError::ArithmeticUnderflow`].
    pub fn into_swap_msg(
        self,
        pair_contract: &String,
        max_spread: Option<Decimal>,
        to: Option<String>,
        queried_tax: u128,
    ) -> (r: Result<CosmosMsg, SwapError>)
        ensures
            swap_msg_matches(
                r,
                spec_swap_msg(self@, pair_contract@, max_spread, opt_str_view(to), queried_tax),
            ),
    {
        match self.info {
            AssetInfo::Native { denom } => {
                if queried_tax <= self.amount {
                    let amount = self.amount - queried_tax;
                    let ghost denom_view = denom@;
                    let payload = SwapPayload {
                        offer_asset: Asset {
                            info: AssetInfo::Native { denom: denom.clone() },
                            amount,
                        },
                        belief_price: None,
                        max_spread,
                        to,
                    };
                    let msg = encode_pair_swap(&payload);
                    let mut funds: Vec<Coin> = Vec::new();
                    funds.push(Coin { denom, amount });
                    proof {
                        assert(funds@.map_values(|c: Coin| c@) =~= seq![
                            CoinV { denom: denom_view, amount },
                        ]);
                    }
                    Ok(CosmosMsg::WasmExecute { contract_addr: pair_contract.clone(), funds, msg })
                } else {
                    Err(SwapError::ArithmeticUnderflow)
                }
            },
            AssetInfo::Cw20 { contract_addr } => {
                let payload = SwapPayload {
                    offer_asset: Asset {
                        info: AssetInfo::Cw20 { contract_addr: contract_addr.clone() },
                        amount: self.amount,
                    },
                    belief_price: None,
                    max_spread,
                    to,
                };
                let inner = encode_pair_swap(&payload);
                let msg = encode_cw20_send(pair_contract, self.amount, &inner);
                let funds: Vec<Coin> = Vec::new();
                proof {
                    assert(funds@.map_values(|c: Coin| c@) =~= Seq::<CoinV>::empty());
                }
                Ok(CosmosMsg::WasmExecute { contract_addr, funds, msg })
            },
        }
    }
}

/// Builds the outbound pool instruction for an offered asset; the free-
/// function form of [`Asset::into_swap_msg`], with the same contract.
pub fn asset_into_swap_msg(
    pair_contract: &String,
    offer_asset: Asset,
    max_spread: Option<Decimal>,
    to: Option<String>,
    queried_tax: u128,
) -> (r: Result<CosmosMsg, SwapError>)
    ensures
        swap_msg_matches(
            r,
            spec_swap_msg(
                offer_asset@,
                pair_contract@,
                max_spread,
                opt_str_view(to),
                queried_tax,
            ),
        ),
{
    offer_asset.into_swap_msg(pair_contract, max_spread, to, queried_tax)
}

} // verus!
