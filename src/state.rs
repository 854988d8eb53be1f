use vstd::prelude::*;

use crate::identity::Identity;

verus! {

/// Largest number of characters in a campaign title.
pub const MAX_TITLE_LEN: usize = 100;

/// Largest number of characters in a campaign description.
pub const MAX_DESCRIPTION_LEN: usize = 500;

/// Largest number of characters in a milestone title.
pub const MAX_MILESTONE_TITLE_LEN: usize = 50;

/// Largest number of characters in a milestone description.
pub const MAX_MILESTONE_DESCRIPTION_LEN: usize = 200;

/// Largest number of milestones a campaign may have.
pub const MAX_MILESTONES: usize = 10;

#[derive(Clone, Copy, Debug, PartialEq, Eq, Structural)]
pub enum CampaignStatus {
    Active,
    Completed,
    Cancelled,
    Failed,
}

#[derive(Clone, Copy, Debug, PartialEq, Eq, Structural)]
pub enum MilestoneStatus {
    Pending,
    Approved,
    Released,
    Rejected,
}

/// One tranche of a campaign's funds and the vote that gates it.
#[derive(Clone, Debug)]
pub struct MilestoneData {
    pub title: String,
    pub description: String,
    pub amount: u64,
    pub status: MilestoneStatus,
    pub votes_for: u64,
    pub votes_against: u64,
    pub voters: Vec<Identity>,
}

#[derive(Clone, Debug)]
pub struct Campaign {
    pub creator: Identity,
    pub title: String,
    pub description: String,
    pub goal_amount: u64,
    pub raised_amount: u64,
    pub deadline: i64,
    pub status: CampaignStatus,
    pub created_at: i64,
    pub investor_count: u32,
    pub milestones: Vec<MilestoneData>,
    pub bump: u8,
}

/// The single contribution of one investor to one campaign.
#[derive(Clone, Copy, Debug)]
pub struct Investment {
    pub investor: Identity,
    pub campaign: Identity,
    pub amount: u64,
    pub invested_at: i64,
    pub bump: u8,
}

/// A campaign together with its vault and every investment record made in it.
#[derive(Clone, Debug)]
pub struct CampaignLedger {
    /// Address of the campaign record.
    pub key: Identity,
    pub campaign: Campaign,
    /// Funds held in custody for the campaign.
    pub vault_balance: u64,
    pub investments: Vec<Investment>,
}

#[derive(Clone, Copy, Debug, PartialEq, Eq, Structural)]
pub enum ErrorCode {
    TitleTooLong,
    DescriptionTooLong,
    InvalidAmount,
    InvalidDeadline,
    TooManyMilestones,
    CampaignNotActive,
    CampaignExpired,
    InvalidMilestone,
    MilestoneNotPending,
    AlreadyVoted,
    MilestoneNotApproved,
    Unauthorized,
    /// The investor already holds an investment record in this campaign.
    DuplicateInvestment,
    /// The voter holds no investment record in this campaign.
    NoInvestment,
    /// The paying account holds less than the amount to move.
    InsufficientFunds,
    /// A balance or a total would leave the range of its type.
    ArithmeticOverflow,
}

/// Sum of the amounts of a sequence of investment records.
pub open spec fn investment_total(s: Seq<Investment>) -> int
    decreases s.len(),
{
    if s.len() == 0 {
        0
    } else {
        investment_total(s.drop_last()) + s.last().amount
    }
}

/// What a milestone has paid out: its amount once released, else nothing.
pub open spec fn paid_out(m: MilestoneData) -> int {
    if m.status == MilestoneStatus::Released {
        m.amount as int
    } else {
        0
    }
}

/// Sum of the amounts of the released milestones.
pub open spec fn released_total(s: Seq<MilestoneData>) -> int
    decreases s.len(),
{
    if s.len() == 0 {
        0
    } else {
        released_total(s.drop_last()) + paid_out(s.last())
    }
}

pub open spec fn has_investment(s: Seq<Investment>, who: Identity) -> bool {
    exists|i: int| 0 <= i < s.len() && s[i].investor == who
}

pub open spec fn distinct_investors(s: Seq<Investment>) -> bool {
    forall|i: int, j: int|
        0 <= i < s.len() && 0 <= j < s.len() && i != j ==> s[i].investor != s[j].investor
}

/// The amount that `who` invested: the vote weight of `who`.
pub open spec fn weight_of(s: Seq<Investment>, who: Identity) -> u64 {
    s[choose|i: int| 0 <= i < s.len() && s[i].investor == who].amount
}

pub open spec fn voters_unique(ms: Seq<MilestoneData>) -> bool {
    forall|k: int| 0 <= k < ms.len() ==> (#[trigger] ms[k]).voters@.no_duplicates()
}

/// Every voter recorded on a milestone holds an investment record.
pub open spec fn voters_invested(ms: Seq<MilestoneData>, s: Seq<Investment>) -> bool {
    forall|k: int, v: int|
        0 <= k < ms.len() && 0 <= v < ms[k].voters@.len() ==> has_investment(
            s,
            #[trigger] ms[k].voters@[v],
        )
}

/// A milestone as it stands when a campaign is created.
pub open spec fn fresh_milestone(m: MilestoneData) -> bool {
    &&& m.status == MilestoneStatus::Pending
    &&& m.votes_for == 0
    &&& m.votes_against == 0
    &&& m.voters@.len() == 0
}

impl CampaignLedger {
    /// The raised amount is the sum of the accepted investment records.
    pub open spec fn raised_matches_investments(&self) -> bool {
        self.campaign.raised_amount == investment_total(self.investments@)
    }

    /// The vault holds the raised amount less what released milestones paid out.
    pub open spec fn vault_matches_releases(&self) -> bool {
        self.vault_balance + released_total(self.campaign.milestones@)
            == self.campaign.raised_amount
    }

    /// What every ledger keeps: at most ten milestones, the custody identity
    /// of raised amount, investment records and vault, at most one record per
    /// investor and one vote per investor on each milestone, every voter an
    /// investor, and an investor count that matches the records.
    pub open spec fn wf(&self) -> bool {
        &&& self.campaign.milestones@.len() <= MAX_MILESTONES
        &&& self.raised_matches_investments()
        &&& self.vault_matches_releases()
        &&& voters_unique(self.campaign.milestones@)
        &&& voters_invested(self.campaign.milestones@, self.investments@)
        &&& distinct_investors(self.investments@)
        &&& self.campaign.investor_count == self.investments@.len()
        &&& forall|i: int|
            0 <= i < self.investments@.len() ==> (#[trigger] self.investments@[i]).amount > 0
                && self.investments@[i].campaign == self.key
    }
}

pub proof fn lemma_investment_total_push(s: Seq<Investment>, x: Investment)
    ensures
        investment_total(s.push(x)) == investment_total(s) + x.amount,
{
    assert(s.push(x).drop_last() =~= s);
}

pub proof fn lemma_released_total_update(s: Seq<MilestoneData>, i: int, m: MilestoneData)
    requires
        0 <= i < s.len(),
    ensures
        released_total(s.update(i, m)) == released_total(s) - paid_out(s[i]) + paid_out(m),
    decreases s.len(),
{
    if i == s.len() - 1 {
        assert(s.update(i, m).drop_last() =~= s.drop_last());
    } else {
        lemma_released_total_update(s.drop_last(), i, m);
        assert(s.update(i, m).drop_last() =~= s.drop_last().update(i, m));
    }
}

pub proof fn lemma_released_total_nonneg(s: Seq<MilestoneData>)
    ensures
        released_total(s) >= 0,
    decreases s.len(),
{
    if s.len() > 0 {
        lemma_released_total_nonneg(s.drop_last());
    }
}

pub proof fn lemma_released_total_fresh(s: Seq<MilestoneData>)
    requires
        forall|i: int| 0 <= i < s.len() ==> fresh_milestone(#[trigger] s[i]),
    ensures
        released_total(s) == 0,
    decreases s.len(),
{
    if s.len() > 0 {
        assert(fresh_milestone(s[s.len() - 1]));
        lemma_released_total_fresh(s.drop_last());
    }
}

} // verus!
