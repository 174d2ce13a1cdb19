use vstd::prelude::*;

use crate::error::{from_ledger, ledger_error, ErrorCode, LedgerError};
use crate::settlement::{checked_sale_total, flip_fee, flip_payout, flip_split, sale_total, BPS_DENOMINATOR};
use crate::stage::Stage;

verus! {

/// An identity on the ledger: a party or an account.
pub type PartyId = u64;

/// What a record holds in custody.
#[derive(Clone, Copy, Debug, PartialEq, Eq, Structural)]
pub enum AssetKind {
    /// The ledger's native currency.
    Native,
    /// A fungible token of the given mint.
    Fungible { mint: u64 },
    /// A non-fungible token of the given mint.
    NonFungible { mint: u64 },
}

/// Which party a binary-outcome settlement pays.
#[derive(Clone, Copy, Debug, PartialEq, Eq, Structural)]
pub enum Winner {
    Owner,
    Counterparty,
}

/// The outcome a fairness oracle has published: nothing until its fulfilment
/// flag is set to one; then the owner on an even outcome byte, the counterparty
/// on an odd one.
pub open spec fn oracle_winner(fulfilled: u8, outcome: u8) -> Option<Winner> {
    if fulfilled != 1 {
        None
    } else if outcome % 2 == 0 {
        Some(Winner::Owner)
    } else {
        Some(Winner::Counterparty)
    }
}

/// Reads the winner from the two bytes a fairness oracle publishes.
pub fn winner_from_oracle(fulfilled: u8, outcome: u8) -> (r: Option<Winner>)
    ensures
        r == oracle_winner(fulfilled, outcome),
{
    if fulfilled != 1 {
        None
    } else if outcome % 2 == 0 {
        Some(Winner::Owner)
    } else {
        Some(Winner::Counterparty)
    }
}

/// How a record releases what it holds.
#[derive(Clone, Copy, Debug, PartialEq, Eq, Structural)]
pub enum Policy {
    /// Funds leave only by explicit withdrawal or cancellation.
    Refundable,
    /// Two equal stakes; the winner takes the pool less a fee in basis points.
    Flip { fee_bps: u64, fee_collector: PartyId },
    /// The custodied units are sold whole at `unit_price` each, paid in `price_asset`.
    Sale { unit_price: u64, price_asset: AssetKind },
}

/// One movement of value that the ledger must perform.
#[derive(Clone, Copy, Debug, PartialEq, Eq, Structural)]
pub struct Transfer {
    pub from: PartyId,
    pub to: PartyId,
    pub asset: AssetKind,
    pub amount: u64,
}

/// One custody agreement.
///
/// `custody` is the ledger account that holds the custodied asset and that only
/// the engine directs. `deposited` and `released` count what has entered and
/// left custody over the record's life; their difference is always the balance.
/// They are wide enough never to limit a deposit: should the count of deposits
/// ever reach the top of a `u128`, both counts restart from the balance.
#[derive(Clone, Copy, Debug, PartialEq, Eq, Structural)]
pub struct EscrowRecord {
    pub owner: PartyId,
    pub custody: PartyId,
    pub counterparty: Option<PartyId>,
    pub asset: AssetKind,
    pub policy: Policy,
    pub custodied_amount: u64,
    pub deposited: u128,
    pub released: u128,
    pub stage: Stage,
}

/// The outcome of an accepted operation: the record to adopt and the transfers,
/// in order, that the ledger must all complete before it is adopted, and whether
/// the emptied custody account is then to be closed.
pub struct Step {
    pub record: EscrowRecord,
    pub transfers: Vec<Transfer>,
    pub close_custody: bool,
}

/// A policy with any sale price cleared.
pub open spec fn cleared_policy(p: Policy) -> Policy {
    match p {
        Policy::Sale { price_asset, .. } => Policy::Sale { unit_price: 0, price_asset },
        _ => p,
    }
}

/// A fee rate is at most the whole.
pub open spec fn policy_valid(p: Policy) -> bool {
    match p {
        Policy::Flip { fee_bps, .. } => fee_bps <= 10000,
        _ => true,
    }
}

impl EscrowRecord {
    /// The record's invariant: what is held is exactly what came in less what
    /// went out; an uninitialized record has seen nothing; a funded record holds
    /// something; a final record holds
    /// nothing; a matched record has a counterparty.
    pub open spec fn wf(self) -> bool {
        &&& policy_valid(self.policy)
        &&& self.released <= self.deposited
        &&& self.custodied_amount == self.deposited - self.released
        &&& self.stage == Stage::Uninitialized ==> self.deposited == 0
        &&& self.stage == Stage::Funded ==> self.custodied_amount > 0
        &&& self.stage.is_terminal() ==> self.custodied_amount == 0
        &&& self.stage == Stage::Matched ==> self.counterparty is Some
        &&& self.stage == Stage::Settled ==> self.counterparty is Some
    }

    /// Tests the invariant on a record that comes from outside, such as storage.
    pub fn check_wf(&self) -> (r: bool)
        ensures
            r == self.wf(),
    {
        let fee_ok = match self.policy {
            Policy::Flip { fee_bps, .. } => fee_bps <= BPS_DENOMINATOR,
            _ => true,
        };
        let matched = self.stage == Stage::Matched || self.stage == Stage::Settled;
        fee_ok && self.released <= self.deposited
            && self.custodied_amount as u128 == self.deposited - self.released
            && (self.stage != Stage::Uninitialized || self.deposited == 0)
            && (self.stage != Stage::Funded || self.custodied_amount > 0)
            && (!(self.stage == Stage::Settled || self.stage == Stage::Cancelled) || self.custodied_amount == 0)
            && (!matched || self.counterparty.is_some())
    }

    /// Why `initialize` refuses to create a record, if it does.
    pub open spec fn initialize_error(policy: Policy) -> Option<ErrorCode> {
        if !policy_valid(policy) {
            Some(ErrorCode::InvalidAmount)
        } else {
            None
        }
    }

    /// A fresh record: nothing held, no counterparty, not yet funded.
    pub open spec fn initial(owner: PartyId, custody: PartyId, asset: AssetKind, policy: Policy) -> EscrowRecord {
        EscrowRecord {
            owner,
            custody,
            counterparty: None,
            asset,
            policy,
            custodied_amount: 0,
            deposited: 0,
            released: 0,
            stage: Stage::Uninitialized,
        }
    }

    /// Creates an empty record owned by `owner`, whose asset `custody` will hold.
    pub fn initialize(owner: PartyId, custody: PartyId, asset: AssetKind, policy: Policy) -> (r: Result<EscrowRecord, ErrorCode>)
        ensures
            r is Ok <==> Self::initialize_error(policy) is None,
            r matches Err(e) ==> Self::initialize_error(policy) == Some(e),
            r matches Ok(rec) ==> rec == Self::initial(owner, custody, asset, policy) && rec.wf(),
    {
        if let Policy::Flip { fee_bps, .. } = policy {
            if fee_bps > BPS_DENOMINATOR {
                return Err(ErrorCode::InvalidAmount);
            }
        }
        Ok(EscrowRecord {
            owner,
            custody,
            counterparty: None,
            asset,
            policy,
            custodied_amount: 0,
            deposited: 0,
            released: 0,
            stage: Stage::Uninitialized,
        })
    }

    // ---------------------------------------------------------------- deposit

    /// Why `deposit` is refused, if it is. Only the owner deposits, and only
    /// before the record is matched or closed. An amount is invalid when it is
    /// zero or when the balance would no longer fit in a `u64`.
    pub open spec fn deposit_error(self, caller: PartyId, amount: u64) -> Option<ErrorCode> {
        if caller != self.owner {
            Some(ErrorCode::Unauthorized)
        } else if !(self.stage == Stage::Uninitialized || self.stage == Stage::Funded
            || self.stage == Stage::PartiallyWithdrawn) {
            Some(ErrorCode::InvalidStage)
        } else if amount == 0 || self.custodied_amount + amount > u64::MAX {
            Some(ErrorCode::InvalidAmount)
        } else {
            None
        }
    }

    /// The counts of deposits and releases once `amount` more has come in: the
    /// deposits grow by `amount`, unless that would pass the top of a `u128`,
    /// in which case the counts restart from the new balance.
    pub open spec fn credit_counts(self, amount: u64) -> (u128, u128) {
        if self.deposited + amount <= u128::MAX {
            ((self.deposited + amount) as u128, self.released)
        } else {
            ((self.custodied_amount + amount) as u128, 0)
        }
    }

    fn credit(&self, amount: u64) -> (r: (u128, u128))
        ensures
            r == self.credit_counts(amount),
    {
        if amount as u128 <= u128::MAX - self.deposited {
            (self.deposited + amount as u128, self.released)
        } else {
            (self.custodied_amount as u128 + amount as u128, 0)
        }
    }

    /// The record after a deposit of `amount`.
    pub open spec fn deposited_record(self, amount: u64) -> EscrowRecord {
        EscrowRecord {
            custodied_amount: (self.custodied_amount + amount) as u64,
            deposited: self.credit_counts(amount).0,
            released: self.credit_counts(amount).1,
            stage: Stage::Funded,
            ..self
        }
    }

    /// Moves `amount` of the record's asset from the owner into custody.
    pub fn deposit(&self, caller: PartyId, amount: u64) -> (r: Result<Step, ErrorCode>)
        requires
            self.wf(),
        ensures
            r is Ok <==> self.deposit_error(caller, amount) is None,
            r matches Err(e) ==> self.deposit_error(caller, amount) == Some(e),
            r matches Ok(step) ==> {
                &&& step.record == self.deposited_record(amount)
                &&& step.record.wf()
                &&& !step.close_custody
                &&& step.transfers@ == seq![
                    Transfer { from: self.owner, to: self.custody, asset: self.asset, amount },
                ]
            },
    {
        if caller != self.owner {
            return Err(ErrorCode::Unauthorized);
        }
        if !(self.stage == Stage::Uninitialized || self.stage == Stage::Funded
            || self.stage == Stage::PartiallyWithdrawn) {
            return Err(ErrorCode::InvalidStage);
        }
        if amount == 0 || amount > u64::MAX - self.custodied_amount {
            return Err(ErrorCode::InvalidAmount);
        }
        let (deposited, released) = self.credit(amount);
        let record = EscrowRecord {
            custodied_amount: self.custodied_amount + amount,
            deposited,
            released,
            stage: Stage::Funded,
            ..*self
        };
        let transfers = vec![Transfer { from: self.owner, to: self.custody, asset: self.asset, amount }];
        Ok(Step { record, transfers, close_custody: false })
    }
    // --------------------------------------------------------------- withdraw

    /// Why `withdraw` is refused, if it is. Only a refundable record pays back
    /// part of its balance, only to its owner, and never more than it holds.
    pub open spec fn withdraw_error(self, caller: PartyId, amount: u64) -> Option<ErrorCode> {
        if caller != self.owner {
            Some(ErrorCode::Unauthorized)
        } else if !(self.policy == Policy::Refundable && (self.stage == Stage::Funded
            || self.stage == Stage::PartiallyWithdrawn)) {
            Some(ErrorCode::InvalidStage)
        } else if amount == 0 {
            Some(ErrorCode::InvalidAmount)
        } else if amount > self.custodied_amount {
            Some(ErrorCode::InsufficientFunds)
        } else {
            None
        }
    }

    /// The record after `amount` is paid back to the owner.
    pub open spec fn withdrawn_record(self, amount: u64) -> EscrowRecord {
        EscrowRecord {
            custodied_amount: (self.custodied_amount - amount) as u64,
            released: (self.released + amount) as u128,
            stage: Stage::PartiallyWithdrawn,
            ..self
        }
    }

    /// Moves `amount` out of custody back to the owner.
    pub fn withdraw(&self, caller: PartyId, amount: u64) -> (r: Result<Step, ErrorCode>)
        requires
            self.wf(),
        ensures
            r is Ok <==> self.withdraw_error(caller, amount) is None,
            r matches Err(e) ==> self.withdraw_error(caller, amount) == Some(e),
            r matches Ok(step) ==> {
                &&& step.record == self.withdrawn_record(amount)
                &&& step.record.wf()
                &&& step.close_custody == (amount == self.custodied_amount)
                &&& step.transfers@ == seq![
                    Transfer { from: self.custody, to: self.owner, asset: self.asset, amount },
                ]
            },
    {
        if caller != self.owner {
            return Err(ErrorCode::Unauthorized);
        }
        if !(self.policy == Policy::Refundable && (self.stage == Stage::Funded
            || self.stage == Stage::PartiallyWithdrawn)) {
            return Err(ErrorCode::InvalidStage);
        }
        if amount == 0 {
            return Err(ErrorCode::InvalidAmount);
        }
        if amount > self.custodied_amount {
            return Err(ErrorCode::InsufficientFunds);
        }
        let record = EscrowRecord {
            custodied_amount: self.custodied_amount - amount,
            released: self.released + amount as u128,
            stage: Stage::PartiallyWithdrawn,
            ..*self
        };
        let transfers = vec![Transfer { from: self.custody, to: self.owner, asset: self.asset, amount }];
        let close_custody = record.custodied_amount == 0;
        Ok(Step { record, transfers, close_custody })
    }

    /// Pays the whole custodied balance back to the owner: a withdrawal of
    /// everything the record holds.
    pub fn with_draw(&self, caller: PartyId) -> (r: Result<Step, ErrorCode>)
        requires
            self.wf(),
        ensures
            r is Ok <==> self.withdraw_error(caller, self.custodied_amount) is None,
            r matches Err(e) ==> self.withdraw_error(caller, self.custodied_amount) == Some(e),
            r matches Ok(step) ==> {
                &&& step.record == self.withdrawn_record(self.custodied_amount)
                &&& step.record.custodied_amount == 0
                &&& step.record.wf()
                &&& step.close_custody
                &&& step.transfers@ == seq![
                    Transfer {
                        from: self.custody,
                        to: self.owner,
                        asset: self.asset,
                        amount: self.custodied_amount,
                    },
                ]
            },
    {
        self.withdraw(caller, self.custodied_amount)
    }

    // ----------------------------------------------------------------- cancel

    /// Whether the owner may still take everything back: before any match, or,
    /// for a sale, while the buyer has not paid.
    pub open spec fn cancellable(self) -> bool {
        self.stage == Stage::Funded || (self.stage == Stage::Matched && self.policy is Sale)
    }

    /// Why `cancel` is refused, if it is.
    pub open spec fn cancel_error(self, caller: PartyId) -> Option<ErrorCode> {
        if caller != self.owner {
            Some(ErrorCode::Unauthorized)
        } else if !self.cancellable() {
            Some(ErrorCode::InvalidStage)
        } else {
            None
        }
    }

    /// The record after cancellation: empty, closed, and with a sale's price
    /// cleared.
    pub open spec fn cancelled_record(self) -> EscrowRecord {
        EscrowRecord {
            policy: cleared_policy(self.policy),
            custodied_amount: 0,
            released: self.deposited,
            stage: Stage::Cancelled,
            ..self
        }
    }

    /// The transfers of a cancellation: everything held goes back to the owner.
    pub open spec fn refund_transfers(self) -> Seq<Transfer> {
        seq![
            Transfer {
                from: self.custody,
                to: self.owner,
                asset: self.asset,
                amount: self.custodied_amount,
            },
        ]
    }

    /// Returns the whole custodied balance to the owner and closes the record.
    pub fn cancel(&self, caller: PartyId) -> (r: Result<Step, ErrorCode>)
        requires
            self.wf(),
        ensures
            r is Ok <==> self.cancel_error(caller) is None,
            r matches Err(e) ==> self.cancel_error(caller) == Some(e),
            r matches Ok(step) ==> {
                &&& step.record == self.cancelled_record()
                &&& step.record.wf()
                &&& !step.close_custody
                &&& step.transfers@ == self.refund_transfers()
            },
    {
        if caller != self.owner {
            return Err(ErrorCode::Unauthorized);
        }
        let is_sale = match self.policy {
            Policy::Sale { .. } => true,
            _ => false,
        };
        if !(self.stage == Stage::Funded || (self.stage == Stage::Matched && is_sale)) {
            return Err(ErrorCode::InvalidStage);
        }
        let policy = match self.policy {
            Policy::Sale { price_asset, .. } => Policy::Sale { unit_price: 0, price_asset },
            other => other,
        };
        let record = EscrowRecord {
            policy,
            custodied_amount: 0,
            released: self.deposited,
            stage: Stage::Cancelled,
            ..*self
        };
        let transfers = vec![
            Transfer { from: self.custody, to: self.owner, asset: self.asset, amount: self.custodied_amount },
        ];
        Ok(Step { record, transfers, close_custody: false })
    }

    // ------------------------------------------------------------- edit_price

    /// Why `edit_price` is refused, if it is. Only the seller edits, only a sale,
    /// and only while it is listed and unmatched.
    pub open spec fn edit_price_error(self, caller: PartyId) -> Option<ErrorCode> {
        if caller != self.owner {
            Some(ErrorCode::Unauthorized)
        } else if !(self.policy is Sale && self.stage == Stage::Funded) {
            Some(ErrorCode::InvalidStage)
        } else {
            None
        }
    }

    /// Sets a new unit price on a listed sale; no value moves.
    pub fn edit_price(&self, caller: PartyId, new_price: u64) -> (r: Result<EscrowRecord, ErrorCode>)
        requires
            self.wf(),
        ensures
            r is Ok <==> self.edit_price_error(caller) is None,
            r matches Err(e) ==> self.edit_price_error(caller) == Some(e),
            r matches Ok(rec) ==> {
                &&& rec == EscrowRecord {
                    policy: Policy::Sale {
                        unit_price: new_price,
                        price_asset: self.policy->price_asset,
                    },
                    ..*self
                }
                &&& rec.wf()
            },
    {
        if caller != self.owner {
            return Err(ErrorCode::Unauthorized);
        }
        match self.policy {
            Policy::Sale { price_asset, .. } => {
                if self.stage != Stage::Funded {
                    return Err(ErrorCode::InvalidStage);
                }
                Ok(EscrowRecord { policy: Policy::Sale { unit_price: new_price, price_asset }, ..*self })
            },
            _ => Err(ErrorCode::InvalidStage),
        }
    }
    // ------------------------------------------------------------------- join

    /// Why `join` is refused, if it is. A settled record refuses everyone as
    /// already settled; otherwise the counterparty is anyone but the owner, and
    /// a refundable record takes none. A flip's matching stake is an invalid
    /// amount when the pooled balance would no longer fit in a `u64`.
    pub open spec fn join_error(self, caller: PartyId) -> Option<ErrorCode> {
        if self.stage == Stage::Settled {
            Some(ErrorCode::AlreadySettled)
        } else if caller == self.owner {
            Some(ErrorCode::Unauthorized)
        } else if self.stage != Stage::Funded || self.policy == Policy::Refundable {
            Some(ErrorCode::InvalidStage)
        } else if self.policy is Flip && self.custodied_amount * 2 > u64::MAX {
            Some(ErrorCode::InvalidAmount)
        } else {
            None
        }
    }

    /// The record once `caller` is matched. In a flip the counterparty puts up
    /// a stake equal to what the owner holds in custody.
    pub open spec fn joined_record(self, caller: PartyId) -> EscrowRecord {
        if self.policy is Flip {
            EscrowRecord {
                counterparty: Some(caller),
                custodied_amount: (self.custodied_amount * 2) as u64,
                deposited: self.credit_counts(self.custodied_amount).0,
                released: self.credit_counts(self.custodied_amount).1,
                stage: Stage::Matched,
                ..self
            }
        } else {
            EscrowRecord { counterparty: Some(caller), stage: Stage::Matched, ..self }
        }
    }

    /// The transfers of a join: the matching stake of a flip, nothing for a sale.
    pub open spec fn join_transfers(self, caller: PartyId) -> Seq<Transfer> {
        if self.policy is Flip {
            seq![
                Transfer {
                    from: caller,
                    to: self.custody,
                    asset: self.asset,
                    amount: self.custodied_amount,
                },
            ]
        } else {
            seq![]
        }
    }

    /// Matches `caller` as the counterparty of a funded record.
    pub fn join(&self, caller: PartyId) -> (r: Result<Step, ErrorCode>)
        requires
            self.wf(),
        ensures
            r is Ok <==> self.join_error(caller) is None,
            r matches Err(e) ==> self.join_error(caller) == Some(e),
            r matches Ok(step) ==> {
                &&& step.record == self.joined_record(caller)
                &&& step.record.wf()
                &&& !step.close_custody
                &&& step.transfers@ == self.join_transfers(caller)
            },
    {
        if self.stage == Stage::Settled {
            return Err(ErrorCode::AlreadySettled);
        }
        if caller == self.owner {
            return Err(ErrorCode::Unauthorized);
        }
        if self.stage != Stage::Funded || self.policy == Policy::Refundable {
            return Err(ErrorCode::InvalidStage);
        }
        match self.policy {
            Policy::Flip { .. } => {
                if self.custodied_amount > u64::MAX - self.custodied_amount {
                    return Err(ErrorCode::InvalidAmount);
                }
                let stake = self.custodied_amount;
                let (deposited, released) = self.credit(stake);
                let record = EscrowRecord {
                    counterparty: Some(caller),
                    custodied_amount: stake + stake,
                    deposited,
                    released,
                    stage: Stage::Matched,
                    ..*self
                };
                let transfers = vec![Transfer { from: caller, to: self.custody, asset: self.asset, amount: stake }];
                Ok(Step { record, transfers, close_custody: false })
            },
            _ => {
                let record = EscrowRecord { counterparty: Some(caller), stage: Stage::Matched, ..*self };
                Ok(Step { record, transfers: Vec::new(), close_custody: false })
            },
        }
    }

    // ----------------------------------------------------------------- settle

    /// Why `settle` is refused, if it is. Only a matched flip or sale settles,
    /// and only once.
    pub open spec fn settle_error(self) -> Option<ErrorCode> {
        if self.stage == Stage::Settled {
            Some(ErrorCode::AlreadySettled)
        } else if self.stage != Stage::Matched || self.policy == Policy::Refundable {
            Some(ErrorCode::InvalidStage)
        } else if self.policy is Sale && sale_total(
            self.policy->unit_price as int,
            self.custodied_amount as int,
        ) > u64::MAX {
            Some(ErrorCode::InvalidAmount)
        } else {
            None
        }
    }

    /// The record after settlement: empty and closed.
    pub open spec fn settled_record(self) -> EscrowRecord {
        EscrowRecord {
            custodied_amount: 0,
            released: self.deposited,
            stage: Stage::Settled,
            ..self
        }
    }

    /// The identity of the party that `w` names.
    pub open spec fn winner_id(self, w: Winner) -> PartyId {
        match w {
            Winner::Owner => self.owner,
            Winner::Counterparty => self.counterparty->0,
        }
    }

    /// The transfers of a settlement. A flip pays the pool less the fee to the
    /// winner, then the fee to the collector. A sale first takes the price from
    /// the buyer to the seller, and only then releases the asset to the buyer.
    pub open spec fn settle_transfers(self, w: Winner) -> Seq<Transfer> {
        match self.policy {
            Policy::Flip { fee_bps, fee_collector } => seq![
                Transfer {
                    from: self.custody,
                    to: self.winner_id(w),
                    asset: self.asset,
                    amount: flip_payout(self.custodied_amount as int, fee_bps as int) as u64,
                },
                Transfer {
                    from: self.custody,
                    to: fee_collector,
                    asset: self.asset,
                    amount: flip_fee(self.custodied_amount as int, fee_bps as int) as u64,
                },
            ],
            Policy::Sale { unit_price, price_asset } => seq![
                Transfer {
                    from: self.counterparty->0,
                    to: self.owner,
                    asset: price_asset,
                    amount: sale_total(unit_price as int, self.custodied_amount as int) as u64,
                },
                Transfer {
                    from: self.custody,
                    to: self.counterparty->0,
                    asset: self.asset,
                    amount: self.custodied_amount,
                },
            ],
            Policy::Refundable => seq![],
        }
    }

    /// Releases a matched record by its policy. `winner` is the outcome of the
    /// fairness oracle; only a flip reads it.
    pub fn settle(&self, winner: Winner) -> (r: Result<Step, ErrorCode>)
        requires
            self.wf(),
        ensures
            r is Ok <==> self.settle_error() is None,
            r matches Err(e) ==> self.settle_error() == Some(e),
            r matches Ok(step) ==> {
                &&& step.record == self.settled_record()
                &&& step.record.wf()
                &&& !step.close_custody
                &&& step.transfers@ == self.settle_transfers(winner)
            },
    {
        if self.stage == Stage::Settled {
            return Err(ErrorCode::AlreadySettled);
        }
        if self.stage != Stage::Matched {
            return Err(ErrorCode::InvalidStage);
        }
        let record = EscrowRecord {
            custodied_amount: 0,
            released: self.deposited,
            stage: Stage::Settled,
            ..*self
        };
        let counterparty = match self.counterparty {
            Some(c) => c,
            None => self.owner,
        };
        match self.policy {
            Policy::Flip { fee_bps, fee_collector } => {
                let (fee, payout) = flip_split(self.custodied_amount, fee_bps);
                let to = match winner {
                    Winner::Owner => self.owner,
                    Winner::Counterparty => counterparty,
                };
                let transfers = vec![
                    Transfer { from: self.custody, to, asset: self.asset, amount: payout },
                    Transfer { from: self.custody, to: fee_collector, asset: self.asset, amount: fee },
                ];
                Ok(Step { record, transfers, close_custody: false })
            },
            Policy::Sale { unit_price, price_asset } => {
                match checked_sale_total(unit_price, self.custodied_amount) {
                    Some(total) => {
                        let transfers = vec![
                            Transfer { from: counterparty, to: self.owner, asset: price_asset, amount: total },
                            Transfer {
                                from: self.custody,
                                to: counterparty,
                                asset: self.asset,
                                amount: self.custodied_amount,
                            },
                        ];
                        Ok(Step { record, transfers, close_custody: false })
                    },
                    None => Err(ErrorCode::InvalidAmount),
                }
            },
            Policy::Refundable => Err(ErrorCode::InvalidStage),
        }
    }

    // ----------------------------------------------------------------- accept

    /// Why `accept` is refused, if it is: the join is refused, or the
    /// settlement of the joined record is.
    pub open spec fn accept_error(self, caller: PartyId) -> Option<ErrorCode> {
        match self.join_error(caller) {
            Some(e) => Some(e),
            None => self.joined_record(caller).settle_error(),
        }
    }

    /// Matches `caller` and settles at once: the counterparty joins a flip and
    /// the winner is paid, or the buyer pays and receives the asset.
    pub fn accept(&self, caller: PartyId, winner: Winner) -> (r: Result<Step, ErrorCode>)
        requires
            self.wf(),
        ensures
            r is Ok <==> self.accept_error(caller) is None,
            r matches Err(e) ==> self.accept_error(caller) == Some(e),
            r matches Ok(step) ==> {
                &&& step.record == self.joined_record(caller).settled_record()
                &&& step.record.wf()
                &&& !step.close_custody
                &&& step.transfers@ == self.join_transfers(caller) + self.joined_record(
                    caller,
                ).settle_transfers(winner)
            },
    {
        let joined = self.join(caller)?;
        let settled = joined.record.settle(winner)?;
        let mut transfers = joined.transfers;
        let mut tail = settled.transfers;
        transfers.append(&mut tail);
        Ok(Step { record: settled.record, transfers, close_custody: false })
    }

    // ----------------------------------------------------------------- commit

    /// Adopts the outcome of an operation once the ledger has run its
    /// transfers. If the ledger refused any of them the record stays as it was,
    /// and a payer short of balance is reported as short of funds.
    pub fn commit(&mut self, step: Step, outcome: Result<(), LedgerError>) -> (r: Result<(), ErrorCode>)
        ensures
            match outcome {
                Ok(()) => r is Ok && *final(self) == step.record,
                Err(e) => r == Err::<(), ErrorCode>(ledger_error(e)) && *final(self) == *old(self),
            },
    {
        match outcome {
            Ok(()) => {
                *self = step.record;
                Ok(())
            },
            Err(e) => Err(from_ledger(e)),
        }
    }
}

/// The total amount that a sequence of transfers moves.
pub open spec fn total_moved(ts: Seq<Transfer>) -> int
    decreases ts.len(),
{
    if ts.len() == 0 {
        0
    } else {
        total_moved(ts.drop_last()) + ts.last().amount
    }
}

/// Conservation: a well-formed record holds exactly what was deposited less what
/// was released, and every operation that is allowed keeps it so. Deposits and
/// joins raise that net by exactly what they bring in, and add it to the count
/// of deposits unless that count would pass the top of a `u128`; withdrawals,
/// cancellations and settlements add exactly what they pay out to the releases.
pub proof fn lemma_custody_conserved(r: EscrowRecord, caller: PartyId, amount: u64)
    requires
        r.wf(),
    ensures
        0 <= r.custodied_amount <= r.deposited - r.released,
        r.deposit_error(caller, amount) is None ==> {
            let n = r.deposited_record(amount);
            &&& n.wf()
            &&& n.deposited - n.released == r.deposited - r.released + amount
            &&& r.deposited + amount <= u128::MAX ==> n.deposited == r.deposited + amount
                && n.released == r.released
        },
        r.withdraw_error(caller, amount) is None ==> {
            let n = r.withdrawn_record(amount);
            n.wf() && n.deposited == r.deposited && n.released == r.released + amount
        },
        r.cancel_error(caller) is None ==> {
            let n = r.cancelled_record();
            n.wf() && n.deposited == r.deposited && n.released == r.released + r.custodied_amount
        },
        r.join_error(caller) is None ==> {
            let n = r.joined_record(caller);
            let stake = total_moved(r.join_transfers(caller));
            &&& n.wf()
            &&& n.deposited - n.released == r.deposited - r.released + stake
            &&& r.deposited + stake <= u128::MAX ==> n.deposited == r.deposited + stake
                && n.released == r.released
        },
        r.settle_error() is None ==> {
            let n = r.settled_record();
            n.wf() && n.deposited == r.deposited && n.released == r.released + r.custodied_amount
        },
        r.accept_error(caller) is None ==> {
            let j = r.joined_record(caller);
            let n = j.settled_record();
            &&& n.wf()
            &&& j.deposited - j.released == r.deposited - r.released + total_moved(r.join_transfers(caller))
            &&& n.released == n.deposited && n.custodied_amount == 0
        },
{
    reveal_with_fuel(total_moved, 2);
}

/// A record settles at most once: once a settlement is allowed and taken, a
/// second settlement, join or acceptance, by anyone, is refused as already
/// settled, so nothing is paid out twice.
pub proof fn lemma_settle_at_most_once(r: EscrowRecord, caller: PartyId)
    requires
        r.wf(),
        r.settle_error() is None,
    ensures
        r.settled_record().settle_error() == Some(ErrorCode::AlreadySettled),
        r.settled_record().accept_error(caller) == Some(ErrorCode::AlreadySettled),
        r.settled_record().join_error(caller) == Some(ErrorCode::AlreadySettled),
{
}

/// A sale takes the buyer's payment before it releases the asset: the first
/// transfer of its settlement is the price, from the buyer to the seller, and
/// the release from custody to the buyer comes second. A ledger that stops at a
/// refused payment therefore never releases the asset, and the record, which
/// `commit` keeps as it was on any refusal, still holds it.
pub proof fn lemma_sale_pays_before_release(r: EscrowRecord, w: Winner)
    requires
        r.wf(),
        r.policy is Sale,
        r.settle_error() is None,
    ensures
        r.settle_transfers(w).len() == 2,
        r.settle_transfers(w)[0] == (Transfer {
            from: r.counterparty->0,
            to: r.owner,
            asset: r.policy->price_asset,
            amount: (r.policy->unit_price * r.custodied_amount) as u64,
        }),
        r.settle_transfers(w)[0].amount == r.policy->unit_price * r.custodied_amount,
        r.settle_transfers(w)[1] == (Transfer {
            from: r.custody,
            to: r.counterparty->0,
            asset: r.asset,
            amount: r.custodied_amount,
        }),
{
}

/// Cancelling a funded record pays its whole balance, and only that, back to the
/// owner, and leaves the record empty and cancelled.
pub proof fn lemma_cancel_refunds_all(r: EscrowRecord)
    requires
        r.wf(),
        r.stage == Stage::Funded,
    ensures
        r.cancel_error(r.owner) is None,
        r.refund_transfers().len() == 1,
        r.refund_transfers()[0].to == r.owner,
        r.refund_transfers()[0].from == r.custody,
        total_moved(r.refund_transfers()) == r.custodied_amount,
        r.cancelled_record().custodied_amount == 0,
        r.cancelled_record().stage == Stage::Cancelled,
        r.cancelled_record().released == r.deposited,
        r.policy is Sale ==> r.cancelled_record().policy->unit_price == 0,
{
    reveal_with_fuel(total_moved, 2);
}

} // verus!
