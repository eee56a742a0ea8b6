//! The sale controller itself: the manager identity, the single sale
//! configuration, the mint counter, and the purchase processor.

use vstd::prelude::*;
use vstd::string::StringExecFns;

use crate::api::RoyaltyInfo;
use crate::api::TalisExecMsg;
use crate::api::royalty_like;
use crate::error::ContractError;
use crate::error::PaymentError;
use crate::numeral::dec_str;
use crate::numeral::u128_to_dec_string;
use crate::numeral::usize_to_dec_string;

verus! {

/// One unit of the fee fraction's fixed-point scale: a fraction is stored as
/// an integer count of units of 10^-18, so `FEE_SCALE` stands for 1.0.
pub const FEE_SCALE: u128 = 1_000_000_000_000_000_000;

/// A concrete amount of one denomination.
#[derive(Debug, Clone)]
pub struct Coin {
    pub denom: String,
    pub amount: u128,
}

/// One sellable item type: the base metadata URI of its tokens and its
/// flat per-token price.
#[derive(Debug, Clone)]
pub struct NFT {
    pub metadata: String,
    pub price: Coin,
}

/// The frozen parameter set of one sale window. `fee_partner_fee` is the
/// partner's fraction of each payment in units of 10^-18 (see [`FEE_SCALE`]);
/// `start` and `end` bound the half-open active window `[start, end)`.
#[derive(Debug, Clone)]
pub struct ContractConfig {
    pub withdrawal_address: String,
    pub fee_partner_fee: u128,
    pub nfts: Vec<NFT>,
    pub cw_collection: String,
    pub start: u64,
    pub end: u64,
    pub royalty: RoyaltyInfo,
}

/// The whole persistent state of the controller: the manager identity set
/// at instantiation, at most one sale configuration, and the mint counter
/// that is created and destroyed together with the configuration.
#[derive(Debug)]
pub struct NftMintContract {
    pub manager: Option<String>,
    pub config: Option<ContractConfig>,
    pub count: Option<u128>,
}

impl NftMintContract {
    /// The configured fee fraction never exceeds 1.0.
    pub open spec fn wf(&self) -> bool {
        match self.config {
            Some(cfg) => cfg.fee_partner_fee <= FEE_SCALE,
            None => true,
        }
    }

    /// A fresh controller holding no state at all.
    pub fn new() -> (r: Self)
        ensures
            r.manager is None,
            r.config is None,
            r.count is None,
            r.wf(),
    {
        NftMintContract { manager: None, config: None, count: None }
    }
}

/// The sale window covers `now`: it has started and has not yet ended.
pub open spec fn spec_active(cfg: ContractConfig, now: u64) -> bool {
    cfg.start <= now && now < cfg.end
}

/// The outcome of holding attached funds against a required denomination:
/// either the single accepted non-zero amount, or the reason of rejection.
pub enum PaymentCheck {
    Accepted(u128),
    RejectedNoFunds,
    RejectedMultipleDenoms,
    RejectedMissingDenom,
}

/// How attached funds are judged: there must be exactly one coin, its amount
/// must be non-zero, and its denomination must be the required one.
pub open spec fn spec_payment(funds: Seq<Coin>, denom: Seq<char>) -> PaymentCheck {
    if funds.len() == 0 {
        PaymentCheck::RejectedNoFunds
    } else if funds.len() > 1 {
        PaymentCheck::RejectedMultipleDenoms
    } else if funds[0].amount == 0 {
        PaymentCheck::RejectedNoFunds
    } else if funds[0].denom@ != denom {
        PaymentCheck::RejectedMissingDenom
    } else {
        PaymentCheck::Accepted(funds[0].amount)
    }
}

/// Judges the attached funds against the required denomination and returns
/// the single paid amount, or the payment error the caller sees.
pub fn validate_payment(funds: &Vec<Coin>, denom: &String) -> (r: Result<u128, PaymentError>)
    ensures
        match spec_payment(funds@, denom@) {
            PaymentCheck::Accepted(pay) => r == Ok::<u128, PaymentError>(pay),
            PaymentCheck::RejectedNoFunds => r == Err::<u128, PaymentError>(
                PaymentError::NoFunds,
            ),
            PaymentCheck::RejectedMultipleDenoms => r == Err::<u128, PaymentError>(
                PaymentError::MultipleDenoms,
            ),
            PaymentCheck::RejectedMissingDenom => (r matches Err(PaymentError::MissingDenom(d))
                && d@ == denom@),
        },
{
    if funds.len() == 0 {
        Err(PaymentError::NoFunds)
    } else if funds.len() > 1 {
        Err(PaymentError::MultipleDenoms)
    } else {
        let coin = &funds[0];
        if coin.amount == 0 {
            Err(PaymentError::NoFunds)
        } else if !(coin.denom == *denom) {
            Err(PaymentError::MissingDenom(denom.clone()))
        } else {
            Ok(coin.amount)
        }
    }
}

/// One requested transfer of value: `amount` units of `denom` to
/// `to_address`. Executing it is the ledger's business, not this crate's.
#[derive(Debug)]
pub struct TransferInstruction {
    pub to_address: String,
    pub denom: String,
    pub amount: u128,
}

/// One requested token creation, addressed to the collection issuer at
/// `contract_addr`, with no funds attached.
#[derive(Debug)]
pub struct MintInstruction {
    pub contract_addr: String,
    pub msg: TalisExecMsg,
    pub funds: Vec<Coin>,
}

/// One audit attribute: a key and a value recorded for external indexing.
#[derive(Debug)]
pub struct Attribute {
    pub key: String,
    pub value: String,
}

/// What a successful request hands back: audit attributes, the mint
/// instructions, and the transfer instructions. A consumer emits the mint
/// instructions first, then the transfers, in list order.
#[derive(Debug)]
pub struct Response {
    pub attributes: Vec<Attribute>,
    pub mints: Vec<MintInstruction>,
    pub transfers: Vec<TransferInstruction>,
}

/// The attribute carries exactly this key and value.
pub open spec fn attr_is(a: Attribute, key: Seq<char>, value: Seq<char>) -> bool {
    a.key@ == key && a.value@ == value
}

/// The response carries no instructions and the single audit attribute
/// `action = name`.
pub open spec fn plain_response(resp: Response, name: Seq<char>) -> bool {
    &&& resp.attributes@.len() == 1
    &&& attr_is(resp.attributes@[0], "action"@, name)
    &&& resp.mints@.len() == 0
    &&& resp.transfers@.len() == 0
}

fn action_response(name: &'static str) -> (resp: Response)
    ensures
        plain_response(resp, name@),
{
    let mut attributes: Vec<Attribute> = Vec::new();
    attributes.push(
        Attribute { key: String::from_str("action"), value: String::from_str(name) },
    );
    Response { attributes, mints: Vec::new(), transfers: Vec::new() }
}

impl NftMintContract {
    /// Records the caller as the manager. Run exactly once per deployment,
    /// before any other call; the platform enforces the once.
    pub fn instantiate(&mut self, sender: String) -> (r: Result<Response, ContractError>)
        ensures
            final(self).manager == Some(sender),
            final(self).config == old(self).config,
            final(self).count == old(self).count,
            r matches Ok(resp) && plain_response(resp, "instantiate"@),
            old(self).wf() ==> final(self).wf(),
    {
        self.manager = Some(sender);
        Ok(action_response("instantiate"))
    }

    /// Starts a sale: freezes `config` and resets the mint counter to zero,
    /// both together or neither. Only the manager may start one, and only
    /// while no configuration exists.
    pub fn start(&mut self, sender: &String, config: ContractConfig) -> (r: Result<
        Response,
        ContractError,
    >)
        requires
            config.fee_partner_fee <= FEE_SCALE,
        ensures
            old(self).manager is None ==> r == Err::<Response, ContractError>(
                ContractError::NotFound,
            ),
            (old(self).manager matches Some(m) && m@ != sender@) ==> r == Err::<
                Response,
                ContractError,
            >(ContractError::Unauthorized),
            (old(self).manager matches Some(m) && m@ == sender@ && old(self).config is Some)
                ==> r == Err::<Response, ContractError>(ContractError::ConfigAlreadyExists),
            (old(self).manager matches Some(m) && m@ == sender@ && old(self).config is None) ==> {
                &&& r matches Ok(resp) && plain_response(resp, "start"@)
                &&& final(self).config == Some(config)
                &&& final(self).count == Some(0u128)
            },
            r is Err ==> *final(self) == *old(self),
            final(self).manager == old(self).manager,
            old(self).wf() ==> final(self).wf(),
    {
        match &self.manager {
            None => Err(ContractError::NotFound),
            Some(m) => {
                if !(*sender == *m) {
                    Err(ContractError::Unauthorized)
                } else if self.config.is_some() {
                    Err(ContractError::ConfigAlreadyExists)
                } else {
                    self.count = Some(0);
                    self.config = Some(config);
                    Ok(action_response("start"))
                }
            },
        }
    }

    /// Ends the running sale now: shortens `end` to `now`, so no later
    /// purchase can succeed. Only the manager may stop a sale, and a sale
    /// whose window already lies in the past cannot be stopped again.
    pub fn stop(&mut self, sender: &String, now: u64) -> (r: Result<Response, ContractError>)
        ensures
            old(self).manager is None ==> r == Err::<Response, ContractError>(
                ContractError::NotFound,
            ),
            (old(self).manager matches Some(m) && m@ != sender@) ==> r == Err::<
                Response,
                ContractError,
            >(ContractError::Unauthorized),
            (old(self).manager matches Some(m) && m@ == sender@ && old(self).config is None)
                ==> r == Err::<Response, ContractError>(ContractError::NotFound),
            (old(self).manager matches Some(m) && m@ == sender@) ==> (old(
                self,
            ).config matches Some(c) ==> (c.end < now ==> r == Err::<Response, ContractError>(
                ContractError::SaleNoActive,
            ))),
            (old(self).manager matches Some(m) && m@ == sender@) ==> (old(
                self,
            ).config matches Some(c) ==> (now <= c.end ==> {
                &&& r matches Ok(resp) && plain_response(resp, "stop"@)
                &&& final(self).config == Some((ContractConfig { end: now, ..c }))
                &&& final(self).count == old(self).count
            })),
            r is Err ==> *final(self) == *old(self),
            final(self).manager == old(self).manager,
            old(self).wf() ==> final(self).wf(),
    {
        match &self.manager {
            None => Err(ContractError::NotFound),
            Some(m) => {
                if !(*sender == *m) {
                    return Err(ContractError::Unauthorized);
                }
                match &mut self.config {
                    None => Err(ContractError::NotFound),
                    Some(cfg) => {
                        if cfg.end < now {
                            return Err(ContractError::SaleNoActive);
                        }
                        cfg.end = now;
                        Ok(action_response("stop"))
                    },
                }
            },
        }
    }

    /// Processes one purchase: `amount` tokens of the item at `nft_type`,
    /// paid for by the attached `funds`, bought by `sender` at time `now`,
    /// with the partner fee going to `partner` when one is given. Either
    /// every check passes — the window covers `now`, the index is valid, the
    /// payment is exactly the item price times `amount` in the item's
    /// denomination — and the counter advances by `amount` while the full
    /// instruction bundle is returned, or the call fails and the state is
    /// untouched.
    pub fn mint(
        &mut self,
        sender: &String,
        now: u64,
        funds: &Vec<Coin>,
        nft_type: usize,
        amount: u128,
        partner: Option<String>,
    ) -> (r: Result<Response, ContractError>)
        requires
            old(self).wf(),
            mint_fits(*old(self), now, funds@, nft_type as int, amount),
        ensures
            old(self).config is None ==> r == Err::<Response, ContractError>(
                ContractError::NotFound,
            ),
            old(self).config matches Some(c) ==> {
                let check = spec_payment(funds@, c.nfts@[nft_type as int].price.denom@);
                let price = c.nfts@[nft_type as int].price.amount;
                &&& (!spec_active(c, now) ==> r == Err::<Response, ContractError>(
                    ContractError::SaleNoActive,
                ))
                &&& ((spec_active(c, now) && nft_type as int >= c.nfts@.len()) ==> r == Err::<
                    Response,
                    ContractError,
                >(ContractError::InvalidParam))
                &&& ((spec_active(c, now) && (nft_type as int) < c.nfts@.len()) ==> {
                    &&& (check is RejectedNoFunds ==> r == Err::<Response, ContractError>(
                        ContractError::PaymentError(PaymentError::NoFunds),
                    ))
                    &&& (check is RejectedMultipleDenoms ==> r == Err::<Response, ContractError>(
                        ContractError::PaymentError(PaymentError::MultipleDenoms),
                    ))
                    &&& (check is RejectedMissingDenom ==> (r matches Err(
                        ContractError::PaymentError(PaymentError::MissingDenom(d)),
                    ) && d@ == c.nfts@[nft_type as int].price.denom@))
                    &&& (check matches PaymentCheck::Accepted(pay) ==> {
                        &&& (pay != price * amount ==> r == Err::<Response, ContractError>(
                            ContractError::PaymentError(PaymentError::NoFunds),
                        ))
                        &&& (pay == price * amount ==> {
                            &&& (old(self).count is None ==> r == Err::<Response, ContractError>(
                                ContractError::NotFound,
                            ))
                            &&& (old(self).count matches Some(c0) ==> {
                                &&& r matches Ok(resp) && mint_ok_response(
                                    resp,
                                    c,
                                    sender@,
                                    nft_type as int,
                                    amount,
                                    resolved_partner(partner, c),
                                    c0,
                                    pay,
                                )
                                &&& final(self).count == Some((c0 + amount) as u128)
                            })
                        })
                    })
                })
            },
            r is Err ==> *final(self) == *old(self),
            final(self).manager == old(self).manager,
            final(self).config == old(self).config,
            final(self).wf(),
    {
        let count_opt = self.count;
        match &self.config {
            None => Err(ContractError::NotFound),
            Some(cfg) => {
                if !(cfg.start <= now) {
                    return Err(ContractError::SaleNoActive);
                }
                if !(now < cfg.end) {
                    return Err(ContractError::SaleNoActive);
                }
                if nft_type >= cfg.nfts.len() {
                    return Err(ContractError::InvalidParam);
                }
                let nft = &cfg.nfts[nft_type];
                let pay = match validate_payment(funds, &nft.price.denom) {
                    Ok(p) => p,
                    Err(e) => {
                        return Err(ContractError::PaymentError(e));
                    },
                };
                let expected = nft.price.amount * amount;
                if pay != expected {
                    return Err(ContractError::PaymentError(PaymentError::NoFunds));
                }
                let count0 = match count_opt {
                    Some(v) => v,
                    None => {
                        return Err(ContractError::NotFound);
                    },
                };
                let fee = decimal_mul_floor(pay, cfg.fee_partner_fee);
                proof {
                    lemma_fee_conservation(pay, cfg.fee_partner_fee);
                }
                let partner_addr: String = match partner {
                    Some(p) => p,
                    None => cfg.withdrawal_address.clone(),
                };

                let mut transfers: Vec<TransferInstruction> = Vec::new();
                transfers.push(
                    TransferInstruction {
                        to_address: partner_addr.clone(),
                        denom: nft.price.denom.clone(),
                        amount: fee,
                    },
                );
                transfers.push(
                    TransferInstruction {
                        to_address: cfg.withdrawal_address.clone(),
                        denom: nft.price.denom.clone(),
                        amount: pay - fee,
                    },
                );

                let mut mints: Vec<MintInstruction> = Vec::new();
                let mut i: u128 = 0;
                while i < amount
                    invariant
                        0 <= i <= amount,
                        count0 + amount <= u128::MAX,
                        mints@.len() == i as int,
                        forall|j: int|
                            0 <= j < i as int ==> mint_is(
                                mints@[j],
                                *cfg,
                                nft_type as int,
                                sender@,
                                count0 + j,
                            ),
                        (nft_type as int) < cfg.nfts@.len(),
                        nft == cfg.nfts@[nft_type as int],
                    decreases amount - i,
                {
                    let index = count0 + i;
                    let num = u128_to_dec_string(index);
                    let mut uri = String::from_str(nft.metadata.as_str());
                    uri.append("#");
                    uri.append(num.as_str());
                    proof {
                        reveal_strlit("#");
                        assert(uri@ =~= nft.metadata@ + seq!['#'] + dec_str(index as nat));
                    }
                    mints.push(
                        MintInstruction {
                            contract_addr: cfg.cw_collection.clone(),
                            msg: TalisExecMsg::Mint {
                                max_supply: None,
                                metadata_uri: uri,
                                owner: sender.clone(),
                                royalty: cfg.royalty.clone(),
                            },
                            funds: Vec::new(),
                        },
                    );
                    i = i + 1;
                }

                let mut attributes: Vec<Attribute> = Vec::new();
                attributes.push(
                    Attribute { key: String::from_str("action"), value: String::from_str("mint") },
                );
                attributes.push(
                    Attribute { key: String::from_str("address"), value: sender.clone() },
                );
                attributes.push(
                    Attribute {
                        key: String::from_str("nft_type"),
                        value: usize_to_dec_string(nft_type),
                    },
                );
                attributes.push(
                    Attribute { key: String::from_str("amount"), value: u128_to_dec_string(amount) },
                );
                attributes.push(
                    Attribute { key: String::from_str("partner"), value: partner_addr },
                );
                attributes.push(
                    Attribute {
                        key: String::from_str("partner_fee"),
                        value: u128_to_dec_string(fee),
                    },
                );

                self.count = Some(count0 + amount);
                Ok(Response { attributes, mints, transfers })
            },
        }
    }
}

/// The partner's cut of a payment: the floor of `pay` times the fraction
/// that `atomics` units of 10^-18 stand for.
pub open spec fn spec_partner_fee(pay: u128, atomics: u128) -> int {
    (pay * atomics) / (FEE_SCALE as int)
}

/// Relies on `cosmwasm_std::Uint128::mul_floor` applied to a
/// `cosmwasm_std::Decimal` built from `atomics` units of 10^-18: the product
/// `pay * atomics` is taken at full width, divided by 10^18, and rounded
/// down. With `atomics` at most 10^18 the result never exceeds `pay`, so the
/// call cannot overflow.
#[verifier::external_body]
fn decimal_mul_floor(pay: u128, atomics: u128) -> (r: u128)
    requires
        atomics <= FEE_SCALE,
    ensures
        r == spec_partner_fee(pay, atomics),
{
    cosmwasm_std::Uint128::new(pay)
        .mul_floor(cosmwasm_std::Decimal::new(cosmwasm_std::Uint128::new(atomics)))
        .u128()
}

/// The transfer instruction moves exactly `amount` units of `denom` to `to`.
pub open spec fn transfer_is(t: TransferInstruction, to: Seq<char>, denom: Seq<char>, amount: int) -> bool {
    t.to_address@ == to && t.denom@ == denom && t.amount == amount
}

/// The mint instruction creates, for the buyer `sender`, the token of the
/// item `nft_type` whose metadata URI is the item's base URI followed by
/// `#` and the decimal token index, carries the sale's royalty snapshot,
/// sets no supply cap, and attaches no funds.
pub open spec fn mint_is(
    m: MintInstruction,
    c: ContractConfig,
    nft_type: int,
    sender: Seq<char>,
    index: int,
) -> bool {
    &&& m.contract_addr@ == c.cw_collection@
    &&& m.funds@.len() == 0
    &&& m.msg matches TalisExecMsg::Mint { max_supply, metadata_uri, owner, royalty }
        && max_supply is None
        && metadata_uri@ == c.nfts@[nft_type].metadata@ + seq!['#'] + dec_str(index as nat)
        && owner@ == sender
        && royalty_like(c.royalty, royalty)
}

/// The address the partner fee goes to: the supplied partner identity, or
/// the configured withdrawal address when none was given.
pub open spec fn resolved_partner(partner: Option<String>, c: ContractConfig) -> Seq<char> {
    match partner {
        Some(p) => p@,
        None => c.withdrawal_address@,
    }
}

/// Everything a successful purchase must hand back, given the configuration,
/// the buyer, the item index, the quantity, the resolved partner address,
/// the counter before the purchase, and the validated payment `pay`:
/// two transfers that exactly exhaust `pay`, one mint instruction per index
/// in `[count0, count0 + amount)`, and the six audit attributes.
pub open spec fn mint_ok_response(
    resp: Response,
    c: ContractConfig,
    sender: Seq<char>,
    nft_type: int,
    amount: u128,
    partner_addr: Seq<char>,
    count0: u128,
    pay: u128,
) -> bool {
    let fee = spec_partner_fee(pay, c.fee_partner_fee);
    &&& resp.transfers@.len() == 2
    &&& transfer_is(resp.transfers@[0], partner_addr, c.nfts@[nft_type].price.denom@, fee)
    &&& transfer_is(
        resp.transfers@[1],
        c.withdrawal_address@,
        c.nfts@[nft_type].price.denom@,
        pay - fee,
    )
    &&& resp.mints@.len() == amount as int
    &&& forall|i: int|
        0 <= i < amount as int ==> mint_is(resp.mints@[i], c, nft_type, sender, count0 + i)
    &&& resp.attributes@.len() == 6
    &&& attr_is(resp.attributes@[0], "action"@, "mint"@)
    &&& attr_is(resp.attributes@[1], "address"@, sender)
    &&& attr_is(resp.attributes@[2], "nft_type"@, dec_str(nft_type as nat))
    &&& attr_is(resp.attributes@[3], "amount"@, dec_str(amount as nat))
    &&& attr_is(resp.attributes@[4], "partner"@, partner_addr)
    &&& attr_is(resp.attributes@[5], "partner_fee"@, dec_str(fee as nat))
}

/// The machine limits a purchase must respect: on the inputs where all
/// preconditions would pass, the total price and the advanced counter must
/// fit in 128 bits. Callers outside the crate check this before calling and
/// fail their request where it does not hold.
pub open spec fn mint_fits(
    s: NftMintContract,
    now: u64,
    funds: Seq<Coin>,
    nft_type: int,
    amount: u128,
) -> bool {
    s.config matches Some(c) ==> ((spec_active(c, now) && 0 <= nft_type < c.nfts@.len()) ==> (
    spec_payment(funds, c.nfts@[nft_type].price.denom@) matches PaymentCheck::Accepted(pay) ==> (
    c.nfts@[nft_type].price.amount * amount <= u128::MAX && (pay == c.nfts@[nft_type].price.amount
        * amount ==> (s.count matches Some(c0) ==> c0 + amount <= u128::MAX)))))
}

/// The token indices a successful purchase mints: the contiguous half-open
/// range `[count0, count0 + amount)`, in ascending order. Each index also
/// names the token through the `#index` suffix of its metadata URI.
pub open spec fn minted_indices(count0: u128, amount: u128) -> Seq<int> {
    Seq::new(amount as nat, |i: int| count0 + i)
}

/// Counter contiguity: a purchase of `a1` tokens at counter `c0` advances
/// the counter to `c0 + a1`, and a following purchase of `a2` tokens picks
/// up exactly there, so together they mint the indices of the single
/// contiguous range `[c0, c0 + a1 + a2)` with no gap and no repeat. Starting
/// from the fresh counter `c0 == 0`, any chain of successful purchases
/// therefore mints exactly `[0, total)`.
pub proof fn lemma_minted_indices_contiguous(c0: u128, a1: u128, a2: u128)
    requires
        c0 + a1 + a2 <= u128::MAX,
    ensures
        minted_indices(c0, a1) + minted_indices((c0 + a1) as u128, a2) == minted_indices(
            c0,
            (a1 + a2) as u128,
        ),
{
    assert(minted_indices(c0, a1) + minted_indices((c0 + a1) as u128, a2) =~= minted_indices(
        c0,
        (a1 + a2) as u128,
    ));
}

/// Stop semantics: once a stop at time `now` has shortened the window's end
/// to `now`, no purchase at `now` or any later time finds the sale active.
pub proof fn lemma_stop_deactivates(c: ContractConfig, now: u64, later: u64)
    requires
        now <= later,
    ensures
        !spec_active(ContractConfig { end: now, ..c }, later),
{
}

/// Fee conservation: the partner fee is the floor of `pay` times the
/// fraction, it never exceeds the payment, and the partner fee plus the
/// remainder sent to the withdrawal address exactly exhaust the payment.
pub proof fn lemma_fee_conservation(pay: u128, atomics: u128)
    requires
        atomics <= FEE_SCALE,
    ensures
        0 <= spec_partner_fee(pay, atomics) <= pay,
        spec_partner_fee(pay, atomics) + (pay - spec_partner_fee(pay, atomics)) == pay,
{
    assert(0 <= spec_partner_fee(pay, atomics) <= pay) by (nonlinear_arith)
        requires
            atomics <= FEE_SCALE,
            FEE_SCALE == 1_000_000_000_000_000_000u128,
    ;
}

} // verus!
