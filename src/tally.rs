use crate::types::ProposalState;
use vstd::prelude::*;

verus! {

/// The approving share of the votes cast reaches `threshold` percent:
/// `approved / total × 100 ≥ threshold`, where the share is 0 when no vote
/// was cast.
pub open spec fn reaches_threshold(approved: nat, total: nat, threshold: nat) -> bool {
    if total == 0 {
        threshold == 0
    } else {
        approved * 100 >= threshold * total
    }
}

/// The outcome of a proposal with these counts: `None` while it stays open,
/// else its terminal status.
///
/// A decision is due once the votes cast reach `required` or the expiry has
/// passed. Short of `required` votes it is `Unreachable`; otherwise
/// `Accepted` when the approving share reaches the threshold, `Rejected`
/// when some vote rejected it, and `Expired` when no vote was cast at all.
pub open spec fn decision(
    approved: nat,
    rejected: nat,
    required: nat,
    threshold: nat,
    expired: bool,
) -> Option<ProposalState> {
    let total = approved + rejected;
    if total < required && !expired {
        None
    } else if total < required {
        Some(ProposalState::Unreachable)
    } else if reaches_threshold(approved, total, threshold) {
        Some(ProposalState::Accepted)
    } else if rejected > 0 {
        Some(ProposalState::Rejected)
    } else {
        Some(ProposalState::Expired)
    }
}

/// Whether `approved` of `approved + rejected` votes reach `threshold` percent.
pub fn approval_reaches(approved: u64, rejected: u64, threshold: u64) -> (r: bool)
    ensures
        r == reaches_threshold(approved as nat, (approved + rejected) as nat, threshold as nat),
{
    let total: u128 = approved as u128 + rejected as u128;
    if total == 0 {
        threshold == 0
    } else if threshold > 100 {
        proof {
            let a = approved as int;
            let t = total as int;
            let h = threshold as int;
            assert(a <= t);
            assert(a * 100 <= t * 100) by (nonlinear_arith)
                requires
                    a <= t,
            ;
            assert(t * 100 < h * t) by (nonlinear_arith)
                requires
                    h > 100,
                    t > 0,
            ;
        }
        false
    } else {
        proof {
            let t = total as int;
            let h = threshold as int;
            assert(h * t <= 100 * t) by (nonlinear_arith)
                requires
                    h <= 100,
                    t >= 0,
            ;
        }
        approved as u128 * 100 >= threshold as u128 * total
    }
}

/// The decision for a proposal with these counts; see `decision`.
pub fn decide(approved: u64, rejected: u64, required: u32, threshold: u64, expired: bool) -> (r:
    Option<ProposalState>)
    ensures
        r == decision(
            approved as nat,
            rejected as nat,
            required as nat,
            threshold as nat,
            expired,
        ),
{
    let total: u128 = approved as u128 + rejected as u128;
    if total < required as u128 && !expired {
        None
    } else if total < required as u128 {
        Some(ProposalState::Unreachable)
    } else if approval_reaches(approved, rejected, threshold) {
        Some(ProposalState::Accepted)
    } else if rejected > 0 {
        Some(ProposalState::Rejected)
    } else {
        Some(ProposalState::Expired)
    }
}

} // verus!
