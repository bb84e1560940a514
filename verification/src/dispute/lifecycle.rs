//! The steps of a dispute's life, each from the record before it to the record
//! after it, and what a settlement pays to whom.

use soroban_sdk::{Address, Symbol};
use vstd::prelude::*;

use crate::dispute::types::{Dispute, DisputeError, DisputeOutcome, DisputeStatus, WHOLE_BPS};
use crate::sdk::same_address;

verus! {

/// An amount due to an address.
pub struct Payout {
    /// Who is paid.
    pub to: Address,
    /// How much.
    pub amount: i128,
}

/// The quotient rounded towards zero.
pub open spec fn rounded_quotient(n: int, d: int) -> int {
    if n >= 0 {
        n / d
    } else {
        -((-n) / d)
    }
}

/// The part of `amount` that `bps` basis points of it make up.
pub open spec fn share_of(amount: int, bps: int) -> int {
    rounded_quotient(amount * bps, WHOLE_BPS as int)
}

/// Whether a number is an `i128`.
pub open spec fn fits(n: int) -> bool {
    i128::MIN <= n <= i128::MAX
}

/// One payout, or none where nothing is due.
pub open spec fn due(to: Address, amount: int) -> Seq<Payout> {
    if amount > 0 {
        seq![Payout { to, amount: amount as i128 }]
    } else {
        Seq::empty()
    }
}

impl Dispute {
    /// A dispute that has just been filed.
    pub open spec fn filed(
        id: Symbol,
        disputer: Address,
        respondent: Address,
        token: Address,
        amount: i128,
        evidence: soroban_sdk::String,
        now: u64,
    ) -> Dispute {
        Dispute {
            id,
            disputer,
            respondent,
            token,
            amount,
            status: DisputeStatus::Open,
            outcome: DisputeOutcome::RefundDisputer,
            split_bps: 0,
            arbitrator: None,
            filed_at: now,
            settled_at: 0,
            disputer_evidence: Some(evidence),
            respondent_evidence: None,
        }
    }

    /// Whether an address is one of the two parties.
    pub open spec fn has_party(self, who: Address) -> bool {
        self.disputer == who || self.respondent == who
    }

    /// The dispute with a party's evidence in place of what that party submitted before.
    pub open spec fn with_evidence(self, party: Address, evidence: soroban_sdk::String) -> Dispute {
        if self.disputer == party {
            Dispute {
                disputer_evidence: Some(evidence),
                status: DisputeStatus::Evidence,
                ..self
            }
        } else {
            Dispute {
                respondent_evidence: Some(evidence),
                status: DisputeStatus::Evidence,
                ..self
            }
        }
    }

    /// The dispute with an arbitrator's decision on record.
    pub open spec fn ruled(
        self,
        arbitrator: Address,
        outcome: DisputeOutcome,
        split_bps: u32,
    ) -> Dispute {
        Dispute {
            status: DisputeStatus::Decided,
            outcome,
            split_bps,
            arbitrator: Some(arbitrator),
            ..self
        }
    }

    /// The dispute with its settlement on record.
    pub open spec fn closed(self, now: u64) -> Dispute {
        Dispute { status: DisputeStatus::Settled, settled_at: now, ..self }
    }

    /// The respondent's part of the locked amount under a split.
    pub open spec fn respondent_share(self) -> int {
        share_of(self.amount as int, self.split_bps as int)
    }

    /// The disputer's part of the locked amount under a split.
    pub open spec fn disputer_share(self) -> int {
        self.amount - self.respondent_share()
    }

    /// Whether the parts of a split can be computed.
    pub open spec fn split_fits(self) -> bool {
        fits(self.amount * self.split_bps) && fits(self.disputer_share())
    }

    /// What the decision pays, in order; none if a split cannot be computed.
    pub open spec fn settlement(self) -> Option<Seq<Payout>> {
        match self.outcome {
            DisputeOutcome::RefundDisputer => Some(
                seq![Payout { to: self.disputer, amount: self.amount }],
            ),
            DisputeOutcome::ReleaseRespondent => Some(
                seq![Payout { to: self.respondent, amount: self.amount }],
            ),
            DisputeOutcome::Split => if self.split_fits() {
                Some(
                    due(self.respondent, self.respondent_share()) + due(
                        self.disputer,
                        self.disputer_share(),
                    ),
                )
            } else {
                None
            },
        }
    }

    /// A dispute filed at the time `now`.
    pub fn file(
        id: Symbol,
        disputer: Address,
        respondent: Address,
        token: Address,
        amount: i128,
        evidence: soroban_sdk::String,
        now: u64,
    ) -> (dispute: Dispute)
        ensures
            dispute == Dispute::filed(id, disputer, respondent, token, amount, evidence, now),
    {
        Dispute {
            id,
            disputer,
            respondent,
            token,
            amount,
            status: DisputeStatus::Open,
            outcome: DisputeOutcome::RefundDisputer,
            split_bps: 0,
            arbitrator: None,
            filed_at: now,
            settled_at: 0,
            disputer_evidence: Some(evidence),
            respondent_evidence: None,
        }
    }

    /// Whether evidence may still be submitted and a decision recorded.
    pub fn is_undecided(&self) -> (undecided: bool)
        ensures
            undecided == self.status.undecided(),
    {
        self.status == DisputeStatus::Open || self.status == DisputeStatus::Evidence
    }

    /// Take a party's evidence. A caller who is both parties submits as the disputer.
    pub fn submit(self, caller: &Address, evidence: soroban_sdk::String) -> (after: Result<
        Dispute,
        DisputeError,
    >)
        ensures
            after == (if !self.has_party(*caller) {
                Err(DisputeError::NotAParty)
            } else if !self.status.undecided() {
                Err(DisputeError::EvidenceClosed)
            } else {
                Ok(self.with_evidence(*caller, evidence))
            }),
    {
        let is_disputer = same_address(&self.disputer, caller);
        if !is_disputer && !same_address(&self.respondent, caller) {
            return Err(DisputeError::NotAParty);
        }
        if !self.is_undecided() {
            return Err(DisputeError::EvidenceClosed);
        }
        let mut after = self;
        if is_disputer {
            after.disputer_evidence = Some(evidence);
        } else {
            after.respondent_evidence = Some(evidence);
        }
        if after.status == DisputeStatus::Open {
            after.status = DisputeStatus::Evidence;
        }
        Ok(after)
    }

    /// Take an arbitrator's decision.
    pub fn rule(self, arbitrator: Address, outcome: DisputeOutcome, split_bps: u32) -> (after: Result<
        Dispute,
        DisputeError,
    >)
        ensures
            after == (if !self.status.undecided() {
                Err(DisputeError::NotDecidable)
            } else {
                Ok(self.ruled(arbitrator, outcome, split_bps))
            }),
    {
        if !self.is_undecided() {
            return Err(DisputeError::NotDecidable);
        }
        let mut after = self;
        after.status = DisputeStatus::Decided;
        after.outcome = outcome;
        after.split_bps = split_bps;
        after.arbitrator = Some(arbitrator);
        Ok(after)
    }

    /// What the decision pays, in order.
    pub fn payouts(&self) -> (payouts: Result<Vec<Payout>, DisputeError>)
        ensures
            match payouts {
                Ok(list) => self.settlement() == Some(list@),
                Err(error) => self.settlement() is None && error == DisputeError::SplitOverflow,
            },
    {
        let mut list: Vec<Payout> = Vec::new();
        match self.outcome {
            DisputeOutcome::RefundDisputer => {
                list.push(Payout { to: self.disputer.clone(), amount: self.amount });
            },
            DisputeOutcome::ReleaseRespondent => {
                list.push(Payout { to: self.respondent.clone(), amount: self.amount });
            },
            DisputeOutcome::Split => {
                let scaled: i128 = match self.amount.checked_mul(self.split_bps as i128) {
                    Some(scaled) => scaled,
                    None => return Err(DisputeError::SplitOverflow),
                };
                let respondent_share: i128 = match scaled.checked_div(WHOLE_BPS as i128) {
                    Some(share) => share,
                    None => return Err(DisputeError::SplitOverflow),
                };
                let disputer_share: i128 = match self.amount.checked_sub(respondent_share) {
                    Some(share) => share,
                    None => return Err(DisputeError::SplitOverflow),
                };
                if respondent_share > 0 {
                    list.push(Payout { to: self.respondent.clone(), amount: respondent_share });
                }
                if disputer_share > 0 {
                    list.push(Payout { to: self.disputer.clone(), amount: disputer_share });
                }
            },
        }
        assert(self.settlement() == Some(list@));
        Ok(list)
    }

    /// The dispute settled at the time `now`.
    pub fn close(self, now: u64) -> (after: Dispute)
        ensures
            after == self.closed(now),
    {
        let mut after = self;
        after.status = DisputeStatus::Settled;
        after.settled_at = now;
        after
    }
}

} // verus!
