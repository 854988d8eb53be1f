use vstd::prelude::*;

use crate::instructions::{
    release_error, released_from, vote_error, voted, ReleaseFunds, VoteMilestone,
};
use crate::state::{CampaignLedger, ErrorCode, MilestoneStatus};

verus! {

/// A milestone pays out at most once: once a release of milestone `i` has
/// succeeded, any further release of it fails with `MilestoneNotApproved`,
/// whoever signs and whatever the creator's balance.
pub proof fn lemma_release_is_not_repeated(
    before: CampaignLedger,
    after: CampaignLedger,
    milestone_index: u8,
    ctx: ReleaseFunds,
)
    requires
        released_from(before, after, milestone_index),
    ensures
        release_error(ctx, after, milestone_index) == Some(ErrorCode::MilestoneNotApproved),
{
}

/// An investor votes at most once on a milestone: after a successful vote by
/// `ctx.voter` on milestone `i`, another vote of theirs on it is refused, with
/// `MilestoneNotPending` if the first vote approved the milestone and
/// `AlreadyVoted` otherwise.
pub proof fn lemma_vote_is_not_repeated(
    before: CampaignLedger,
    after: CampaignLedger,
    ctx: VoteMilestone,
    milestone_index: u8,
    first: bool,
    second: bool,
    w: u64,
)
    requires
        vote_error(ctx, before, milestone_index, first) is None,
        after.investments@ == before.investments@,
        after.campaign.milestones@.len() == before.campaign.milestones@.len(),
        voted(
            before.campaign.milestones@[milestone_index as int],
            after.campaign.milestones@[milestone_index as int],
            ctx.voter,
            w,
            first,
            before.campaign.raised_amount,
        ),
    ensures
        vote_error(ctx, after, milestone_index, second) == Some(
            if after.campaign.milestones@[milestone_index as int].status
                == MilestoneStatus::Approved {
                ErrorCode::MilestoneNotPending
            } else {
                ErrorCode::AlreadyVoted
            },
        ),
{
    let m = after.campaign.milestones@[milestone_index as int];
    let b = before.campaign.milestones@[milestone_index as int];
    assert(m.voters@[b.voters@.len() as int] == ctx.voter);
}

} // verus!
