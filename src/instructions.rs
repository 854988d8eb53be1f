use vstd::prelude::*;
use vstd::string::*;

use crate::identity::{position_of, Identity};
use crate::state::{
    fresh_milestone, has_investment, lemma_investment_total_push, lemma_released_total_fresh,
    lemma_released_total_nonneg, lemma_released_total_update, voters_unique, weight_of, Campaign,
    CampaignLedger, CampaignStatus, ErrorCode, Investment, MilestoneData, MilestoneStatus,
    MAX_DESCRIPTION_LEN, MAX_MILESTONES, MAX_MILESTONE_DESCRIPTION_LEN, MAX_MILESTONE_TITLE_LEN,
    MAX_TITLE_LEN,
};

verus! {

/// What creating a campaign reads: who signs, the address the campaign record
/// gets, the clock, and the address's bump seed.
#[derive(Clone, Copy, Debug)]
pub struct CreateCampaign {
    pub creator: Identity,
    pub campaign_key: Identity,
    pub now: i64,
    pub bump: u8,
}

/// Why `create_campaign` refuses its inputs, if it does.
pub open spec fn create_error(
    ctx: CreateCampaign,
    title: Seq<char>,
    description: Seq<char>,
    goal_amount: u64,
    deadline: i64,
    milestones: Seq<MilestoneData>,
) -> Option<ErrorCode> {
    if title.len() > MAX_TITLE_LEN {
        Some(ErrorCode::TitleTooLong)
    } else if description.len() > MAX_DESCRIPTION_LEN {
        Some(ErrorCode::DescriptionTooLong)
    } else if goal_amount == 0 {
        Some(ErrorCode::InvalidAmount)
    } else if deadline <= ctx.now {
        Some(ErrorCode::InvalidDeadline)
    } else if milestones.len() > MAX_MILESTONES {
        Some(ErrorCode::TooManyMilestones)
    } else if exists|i: int|
        0 <= i < milestones.len() && (#[trigger] milestones[i]).title@.len()
            > MAX_MILESTONE_TITLE_LEN {
        Some(ErrorCode::TitleTooLong)
    } else if exists|i: int|
        0 <= i < milestones.len() && (#[trigger] milestones[i]).description@.len()
            > MAX_MILESTONE_DESCRIPTION_LEN {
        Some(ErrorCode::DescriptionTooLong)
    } else {
        None
    }
}

/// `m` is the milestone that the request `req` opens: its text and amount,
/// with no vote yet.
pub open spec fn opened_from(m: MilestoneData, req: MilestoneData) -> bool {
    &&& m.title@ == req.title@
    &&& m.description@ == req.description@
    &&& m.amount == req.amount
    &&& fresh_milestone(m)
}

/// Opens a new campaign in status Active, with an empty vault and no
/// investment. Of each requested milestone only its title, description and
/// amount are taken: every milestone starts Pending with no vote.
#[verifier::loop_isolation(false)]
pub fn create_campaign(
    ctx: &CreateCampaign,
    title: String,
    description: String,
    goal_amount: u64,
    deadline: i64,
    milestones: Vec<MilestoneData>,
) -> (r: Result<CampaignLedger, ErrorCode>)
    ensures
        match r {
            Err(e) => create_error(
                *ctx,
                title@,
                description@,
                goal_amount,
                deadline,
                milestones@,
            ) == Some(e),
            Ok(l) => {
                &&& create_error(
                    *ctx,
                    title@,
                    description@,
                    goal_amount,
                    deadline,
                    milestones@,
                ) is None
                &&& l.wf()
                &&& l.key == ctx.campaign_key
                &&& l.campaign.creator == ctx.creator
                &&& l.campaign.title@ == title@
                &&& l.campaign.description@ == description@
                &&& l.campaign.goal_amount == goal_amount
                &&& l.campaign.raised_amount == 0
                &&& l.campaign.deadline == deadline
                &&& l.campaign.status == CampaignStatus::Active
                &&& l.campaign.created_at == ctx.now
                &&& l.campaign.investor_count == 0
                &&& l.campaign.bump == ctx.bump
                &&& l.campaign.milestones@.len() == milestones@.len()
                &&& forall|i: int|
                    0 <= i < milestones@.len() ==> opened_from(
                        #[trigger] l.campaign.milestones@[i],
                        milestones@[i],
                    )
                &&& l.vault_balance == 0
                &&& l.investments@.len() == 0
            },
        },
{
    if title.as_str().unicode_len() > MAX_TITLE_LEN {
        return Err(ErrorCode::TitleTooLong);
    }
    if description.as_str().unicode_len() > MAX_DESCRIPTION_LEN {
        return Err(ErrorCode::DescriptionTooLong);
    }
    if goal_amount == 0 {
        return Err(ErrorCode::InvalidAmount);
    }
    if deadline <= ctx.now {
        return Err(ErrorCode::InvalidDeadline);
    }
    if milestones.len() > MAX_MILESTONES {
        return Err(ErrorCode::TooManyMilestones);
    }
    let mut i: usize = 0;
    while i < milestones.len()
        invariant
            i <= milestones@.len(),
            forall|j: int|
                0 <= j < i ==> (#[trigger] milestones@[j]).title@.len()
                    <= MAX_MILESTONE_TITLE_LEN,
        decreases milestones@.len() - i,
    {
        if milestones[i].title.as_str().unicode_len() > MAX_MILESTONE_TITLE_LEN {
            assert(milestones@[i as int].title@.len() > MAX_MILESTONE_TITLE_LEN);
            return Err(ErrorCode::TitleTooLong);
        }
        i = i + 1;
    }
    let mut i: usize = 0;
    while i < milestones.len()
        invariant
            i <= milestones@.len(),
            forall|j: int|
                0 <= j < milestones@.len() ==> (#[trigger] milestones@[j]).title@.len()
                    <= MAX_MILESTONE_TITLE_LEN,
            forall|j: int|
                0 <= j < i ==> (#[trigger] milestones@[j]).description@.len()
                    <= MAX_MILESTONE_DESCRIPTION_LEN,
        decreases milestones@.len() - i,
    {
        if milestones[i].description.as_str().unicode_len() > MAX_MILESTONE_DESCRIPTION_LEN {
            assert(milestones@[i as int].description@.len() > MAX_MILESTONE_DESCRIPTION_LEN);
            return Err(ErrorCode::DescriptionTooLong);
        }
        i = i + 1;
    }
    let mut opened: Vec<MilestoneData> = Vec::new();
    let mut i: usize = 0;
    while i < milestones.len()
        invariant
            i <= milestones@.len(),
            opened@.len() == i,
            forall|j: int| 0 <= j < i ==> opened_from(#[trigger] opened@[j], milestones@[j]),
        decreases milestones@.len() - i,
    {
        let req = &milestones[i];
        opened.push(
            MilestoneData {
                title: req.title.clone(),
                description: req.description.clone(),
                amount: req.amount,
                status: MilestoneStatus::Pending,
                votes_for: 0,
                votes_against: 0,
                voters: Vec::new(),
            },
        );
        i = i + 1;
    }
    let campaign = Campaign {
        creator: ctx.creator,
        title,
        description,
        goal_amount,
        raised_amount: 0,
        deadline,
        status: CampaignStatus::Active,
        created_at: ctx.now,
        investor_count: 0,
        milestones: opened,
        bump: ctx.bump,
    };
    let ledger = CampaignLedger {
        key: ctx.campaign_key,
        campaign,
        vault_balance: 0,
        investments: Vec::new(),
    };
    proof {
        lemma_released_total_fresh(ledger.campaign.milestones@);
    }
    Ok(ledger)
}

/// Moves `amount` from one balance to another, all or nothing: the paying
/// balance must cover it and the receiving one must not overflow.
pub fn transfer(from: &mut u64, to: &mut u64, amount: u64) -> (r: Result<(), ErrorCode>)
    ensures
        match r {
            Ok(()) => {
                &&& *old(from) >= amount
                &&& *old(to) + amount <= u64::MAX
                &&& *final(from) == *old(from) - amount
                &&& *final(to) == *old(to) + amount
            },
            Err(e) => {
                &&& *final(from) == *old(from)
                &&& *final(to) == *old(to)
                &&& e == (if *old(from) < amount {
                    ErrorCode::InsufficientFunds
                } else {
                    ErrorCode::ArithmeticOverflow
                })
                &&& (*old(from) < amount || *old(to) + amount > u64::MAX)
            },
        },
{
    if *from < amount {
        return Err(ErrorCode::InsufficientFunds);
    }
    if *to > u64::MAX - amount {
        return Err(ErrorCode::ArithmeticOverflow);
    }
    *from = *from - amount;
    *to = *to + amount;
    Ok(())
}

/// What investing reads: who signs and pays, that payer's balance, the clock,
/// and the bump seed of the new investment record's address.
#[derive(Clone, Copy, Debug)]
pub struct Invest {
    pub investor: Identity,
    pub investor_balance: u64,
    pub now: i64,
    pub bump: u8,
}

/// Why `invest` refuses, if it does.
pub open spec fn invest_error(ctx: Invest, l: CampaignLedger, amount: u64) -> Option<ErrorCode> {
    if amount == 0 {
        Some(ErrorCode::InvalidAmount)
    } else if l.campaign.status != CampaignStatus::Active {
        Some(ErrorCode::CampaignNotActive)
    } else if ctx.now >= l.campaign.deadline {
        Some(ErrorCode::CampaignExpired)
    } else if has_investment(l.investments@, ctx.investor) {
        Some(ErrorCode::DuplicateInvestment)
    } else if l.campaign.raised_amount + amount > u64::MAX || l.campaign.investor_count + 1
        > u32::MAX {
        Some(ErrorCode::ArithmeticOverflow)
    } else if ctx.investor_balance < amount {
        Some(ErrorCode::InsufficientFunds)
    } else {
        None
    }
}

/// Records the single investment of `ctx.investor` in the campaign and moves
/// `amount` from the investor into the campaign's vault. On failure nothing
/// changes.
pub fn invest(ctx: &mut Invest, ledger: &mut CampaignLedger, amount: u64) -> (r: Result<
    (),
    ErrorCode,
>)
    requires
        old(ledger).wf(),
    ensures
        final(ledger).wf(),
        match r {
            Err(e) => {
                &&& invest_error(*old(ctx), *old(ledger), amount) == Some(e)
                &&& *final(ctx) == *old(ctx)
                &&& *final(ledger) == *old(ledger)
            },
            Ok(()) => {
                &&& invest_error(*old(ctx), *old(ledger), amount) is None
                &&& *final(ctx) == (Invest {
                    investor_balance: (old(ctx).investor_balance - amount) as u64,
                    ..*old(ctx)
                })
                &&& final(ledger).key == old(ledger).key
                &&& final(ledger).campaign == (Campaign {
                    raised_amount: (old(ledger).campaign.raised_amount + amount) as u64,
                    investor_count: (old(ledger).campaign.investor_count + 1) as u32,
                    ..old(ledger).campaign
                })
                &&& final(ledger).vault_balance == old(ledger).vault_balance + amount
                &&& final(ledger).investments@ == old(ledger).investments@.push(
                    Investment {
                        investor: old(ctx).investor,
                        campaign: old(ledger).key,
                        amount,
                        invested_at: old(ctx).now,
                        bump: old(ctx).bump,
                    },
                )
            },
        },
{
    if amount == 0 {
        return Err(ErrorCode::InvalidAmount);
    }
    if ledger.campaign.status != CampaignStatus::Active {
        return Err(ErrorCode::CampaignNotActive);
    }
    if ctx.now >= ledger.campaign.deadline {
        return Err(ErrorCode::CampaignExpired);
    }
    match find_investment(&ledger.investments, &ctx.investor) {
        Some(_) => {
            return Err(ErrorCode::DuplicateInvestment);
        },
        None => {},
    }
    if ledger.campaign.raised_amount > u64::MAX - amount || ledger.campaign.investor_count
        == u32::MAX {
        return Err(ErrorCode::ArithmeticOverflow);
    }
    proof {
        lemma_released_total_nonneg(ledger.campaign.milestones@);
    }
    match transfer(&mut ctx.investor_balance, &mut ledger.vault_balance, amount) {
        Err(e) => {
            return Err(e);
        },
        Ok(()) => {},
    }
    let record = Investment {
        investor: ctx.investor,
        campaign: ledger.key,
        amount,
        invested_at: ctx.now,
        bump: ctx.bump,
    };
    proof {
        lemma_investment_total_push(ledger.investments@, record);
    }
    ledger.campaign.raised_amount = ledger.campaign.raised_amount + amount;
    ledger.campaign.investor_count = ledger.campaign.investor_count + 1;
    let ghost before = ledger.investments@;
    ledger.investments.push(record);
    proof {
        let ms = ledger.campaign.milestones@;
        assert forall|k: int, v: int|
            0 <= k < ms.len() && 0 <= v < ms[k].voters@.len() implies has_investment(
            ledger.investments@,
            #[trigger] ms[k].voters@[v],
        ) by {
            let who = ms[k].voters@[v];
            let j = choose|j: int| 0 <= j < before.len() && before[j].investor == who;
            assert(ledger.investments@[j] == before[j]);
        }
    }
    Ok(())
}

/// The index of the first investment record of `who`, if there is one.
pub fn find_investment(investments: &Vec<Investment>, who: &Identity) -> (r: Option<usize>)
    ensures
        match r {
            Some(i) => {
                &&& i < investments@.len()
                &&& investments@[i as int].investor == *who
                &&& forall|j: int| 0 <= j < i ==> investments@[j].investor != *who
            },
            None => !has_investment(investments@, *who),
        },
{
    let mut i: usize = 0;
    while i < investments.len()
        invariant
            i <= investments@.len(),
            forall|j: int| 0 <= j < i ==> investments@[j].investor != *who,
        decreases investments@.len() - i,
    {
        if investments[i].investor.same_as(who) {
            return Some(i);
        }
        i = i + 1;
    }
    None
}

/// What voting reads: who signs.
#[derive(Clone, Copy, Debug)]
pub struct VoteMilestone {
    pub voter: Identity,
}

/// Why `vote_milestone` refuses, if it does.
pub open spec fn vote_error(
    ctx: VoteMilestone,
    l: CampaignLedger,
    milestone_index: u8,
    approve: bool,
) -> Option<ErrorCode> {
    let ms = l.campaign.milestones@;
    let m = ms[milestone_index as int];
    let w = weight_of(l.investments@, ctx.voter);
    if milestone_index >= ms.len() {
        Some(ErrorCode::InvalidMilestone)
    } else if m.status != MilestoneStatus::Pending {
        Some(ErrorCode::MilestoneNotPending)
    } else if !has_investment(l.investments@, ctx.voter) {
        Some(ErrorCode::NoInvestment)
    } else if m.voters@.contains(ctx.voter) {
        Some(ErrorCode::AlreadyVoted)
    } else if (approve && m.votes_for + w > u64::MAX) || (!approve && m.votes_against + w
        > u64::MAX) {
        Some(ErrorCode::ArithmeticOverflow)
    } else {
        None
    }
}

/// Whether `votes_for` passes the approval threshold: more than half of the
/// campaign's raised amount, halved with truncation.
pub open spec fn passes_threshold(votes_for: u64, raised_amount: u64) -> bool {
    votes_for > raised_amount / 2
}

/// `after` is milestone `before` once `voter` has cast a vote of weight `w`
/// in a campaign that raised `raised`.
pub open spec fn voted(
    before: MilestoneData,
    after: MilestoneData,
    voter: Identity,
    w: u64,
    approve: bool,
    raised: u64,
) -> bool {
    let votes_for = if approve {
        before.votes_for + w
    } else {
        before.votes_for as int
    };
    let votes_against = if approve {
        before.votes_against as int
    } else {
        before.votes_against + w
    };
    &&& after.title == before.title
    &&& after.description == before.description
    &&& after.amount == before.amount
    &&& after.votes_for == votes_for
    &&& after.votes_against == votes_against
    &&& after.voters@ == before.voters@.push(voter)
    &&& after.status == if passes_threshold(after.votes_for, raised) {
        MilestoneStatus::Approved
    } else {
        MilestoneStatus::Pending
    }
}

/// Casts the vote of `ctx.voter`, weighted by the amount that the voter
/// invested, on a pending milestone; the milestone becomes Approved as soon
/// as its yes-votes pass the threshold. Votes against are tallied and change
/// no status. The campaign's own status is not consulted, so a cancelled
/// campaign can still vote. On failure nothing changes.
pub fn vote_milestone(
    ctx: &VoteMilestone,
    ledger: &mut CampaignLedger,
    milestone_index: u8,
    approve: bool,
) -> (r: Result<(), ErrorCode>)
    requires
        old(ledger).wf(),
    ensures
        final(ledger).wf(),
        match r {
            Err(e) => {
                &&& vote_error(*ctx, *old(ledger), milestone_index, approve) == Some(e)
                &&& *final(ledger) == *old(ledger)
            },
            Ok(()) => {
                &&& vote_error(*ctx, *old(ledger), milestone_index, approve) is None
                &&& final(ledger).key == old(ledger).key
                &&& final(ledger).campaign == (Campaign {
                    milestones: final(ledger).campaign.milestones,
                    ..old(ledger).campaign
                })
                &&& final(ledger).vault_balance == old(ledger).vault_balance
                &&& final(ledger).investments == old(ledger).investments
                &&& final(ledger).campaign.milestones@.len()
                    == old(ledger).campaign.milestones@.len()
                &&& forall|k: int|
                    0 <= k < old(ledger).campaign.milestones@.len() && k != milestone_index
                        ==> #[trigger] final(ledger).campaign.milestones@[k]
                        == old(ledger).campaign.milestones@[k]
                &&& voted(
                    old(ledger).campaign.milestones@[milestone_index as int],
                    final(ledger).campaign.milestones@[milestone_index as int],
                    ctx.voter,
                    weight_of(old(ledger).investments@, ctx.voter),
                    approve,
                    old(ledger).campaign.raised_amount,
                )
            },
        },
{
    let idx = milestone_index as usize;
    if idx >= ledger.campaign.milestones.len() {
        return Err(ErrorCode::InvalidMilestone);
    }
    if ledger.campaign.milestones[idx].status != MilestoneStatus::Pending {
        return Err(ErrorCode::MilestoneNotPending);
    }
    let w: u64 = match find_investment(&ledger.investments, &ctx.voter) {
        None => {
            return Err(ErrorCode::NoInvestment);
        },
        Some(i) => {
            proof {
                let s = ledger.investments@;
                let j = choose|j: int| 0 <= j < s.len() && s[j].investor == ctx.voter;
                assert(s[j].investor == ctx.voter);
                assert(j == i);
            }
            ledger.investments[i].amount
        },
    };
    match position_of(&ledger.campaign.milestones[idx].voters, &ctx.voter) {
        Some(_) => {
            return Err(ErrorCode::AlreadyVoted);
        },
        None => {},
    }
    if approve {
        if ledger.campaign.milestones[idx].votes_for > u64::MAX - w {
            return Err(ErrorCode::ArithmeticOverflow);
        }
    } else {
        if ledger.campaign.milestones[idx].votes_against > u64::MAX - w {
            return Err(ErrorCode::ArithmeticOverflow);
        }
    }
    let ghost before = ledger.campaign.milestones@;
    let raised = ledger.campaign.raised_amount;
    let m = &mut ledger.campaign.milestones[idx];
    if approve {
        m.votes_for = m.votes_for + w;
    } else {
        m.votes_against = m.votes_against + w;
    }
    m.voters.push(ctx.voter);
    if m.votes_for > raised / 2 {
        m.status = MilestoneStatus::Approved;
    }
    proof {
        let after = ledger.campaign.milestones@;
        lemma_released_total_update(before, idx as int, after[idx as int]);
        assert(after =~= before.update(idx as int, after[idx as int]));
        assert(after[idx as int].voters@.no_duplicates());
        assert(voters_unique(after)) by {
            assert forall|k: int| 0 <= k < after.len() implies (
            #[trigger] after[k]).voters@.no_duplicates() by {
                if k != idx {
                    assert(after[k] == before[k]);
                }
            }
        }
    }
    Ok(())
}

/// What releasing reads: who signs, and the balance of the campaign
/// creator's account, which receives the funds.
#[derive(Clone, Copy, Debug)]
pub struct ReleaseFunds {
    pub authority: Identity,
    pub creator_balance: u64,
}

/// Why `release_milestone_funds` refuses, if it does.
pub open spec fn release_error(ctx: ReleaseFunds, l: CampaignLedger, milestone_index: u8) -> Option<
    ErrorCode,
> {
    let ms = l.campaign.milestones@;
    let m = ms[milestone_index as int];
    if milestone_index >= ms.len() {
        Some(ErrorCode::InvalidMilestone)
    } else if m.status != MilestoneStatus::Approved {
        Some(ErrorCode::MilestoneNotApproved)
    } else if l.vault_balance < m.amount {
        Some(ErrorCode::InsufficientFunds)
    } else if ctx.creator_balance + m.amount > u64::MAX {
        Some(ErrorCode::ArithmeticOverflow)
    } else {
        None
    }
}

/// `after` is `before` once milestone `i` has been paid out.
pub open spec fn released_from(
    before: CampaignLedger,
    after: CampaignLedger,
    milestone_index: u8,
) -> bool {
    let i = milestone_index as int;
    let m = before.campaign.milestones@[i];
    &&& 0 <= i < before.campaign.milestones@.len()
    &&& after.key == before.key
    &&& after.campaign == (Campaign { milestones: after.campaign.milestones, ..before.campaign })
    &&& after.campaign.milestones@ == before.campaign.milestones@.update(
        i,
        MilestoneData { status: MilestoneStatus::Released, ..m },
    )
    &&& after.vault_balance == before.vault_balance - m.amount
    &&& after.investments == before.investments
}

/// Pays an approved milestone's amount out of the vault to the campaign's
/// creator and marks the milestone Released. The signer is not required to
/// be the creator: the funds can only go to the creator. The campaign's own
/// status is not consulted. On failure nothing changes.
pub fn release_milestone_funds(
    ctx: &mut ReleaseFunds,
    ledger: &mut CampaignLedger,
    milestone_index: u8,
) -> (r: Result<(), ErrorCode>)
    requires
        old(ledger).wf(),
    ensures
        final(ledger).wf(),
        match r {
            Err(e) => {
                &&& release_error(*old(ctx), *old(ledger), milestone_index) == Some(e)
                &&& *final(ctx) == *old(ctx)
                &&& *final(ledger) == *old(ledger)
            },
            Ok(()) => {
                &&& release_error(*old(ctx), *old(ledger), milestone_index) is None
                &&& released_from(*old(ledger), *final(ledger), milestone_index)
                &&& *final(ctx) == (ReleaseFunds {
                    creator_balance: (old(ctx).creator_balance
                        + old(ledger).campaign.milestones@[milestone_index as int].amount) as u64,
                    ..*old(ctx)
                })
            },
        },
{
    let idx = milestone_index as usize;
    if idx >= ledger.campaign.milestones.len() {
        return Err(ErrorCode::InvalidMilestone);
    }
    if ledger.campaign.milestones[idx].status != MilestoneStatus::Approved {
        return Err(ErrorCode::MilestoneNotApproved);
    }
    let amount = ledger.campaign.milestones[idx].amount;
    match transfer(&mut ledger.vault_balance, &mut ctx.creator_balance, amount) {
        Err(e) => {
            return Err(e);
        },
        Ok(()) => {},
    }
    let ghost before = ledger.campaign.milestones@;
    ledger.campaign.milestones[idx].status = MilestoneStatus::Released;
    proof {
        let after = ledger.campaign.milestones@;
        lemma_released_total_update(before, idx as int, after[idx as int]);
        assert(after =~= before.update(idx as int, after[idx as int]));
        assert(voters_unique(after)) by {
            assert forall|k: int| 0 <= k < after.len() implies (
            #[trigger] after[k]).voters@.no_duplicates() by {
                if k != idx {
                    assert(after[k] == before[k]);
                }
            }
        }
    }
    Ok(())
}

/// What cancelling reads: who signs.
#[derive(Clone, Copy, Debug)]
pub struct CancelCampaign {
    pub creator: Identity,
}

/// Why `cancel_campaign` refuses, if it does.
pub open spec fn cancel_error(ctx: CancelCampaign, l: CampaignLedger) -> Option<ErrorCode> {
    if ctx.creator != l.campaign.creator {
        Some(ErrorCode::Unauthorized)
    } else if l.campaign.status != CampaignStatus::Active {
        Some(ErrorCode::CampaignNotActive)
    } else {
        None
    }
}

/// Moves an active campaign to Cancelled, at its creator's request. No funds
/// move.
pub fn cancel_campaign(ctx: &CancelCampaign, ledger: &mut CampaignLedger) -> (r: Result<
    (),
    ErrorCode,
>)
    requires
        old(ledger).wf(),
    ensures
        final(ledger).wf(),
        match r {
            Err(e) => {
                &&& cancel_error(*ctx, *old(ledger)) == Some(e)
                &&& *final(ledger) == *old(ledger)
            },
            Ok(()) => {
                &&& cancel_error(*ctx, *old(ledger)) is None
                &&& *final(ledger) == (CampaignLedger {
                    campaign: Campaign { status: CampaignStatus::Cancelled, ..old(ledger).campaign },
                    ..*old(ledger)
                })
            },
        },
{
    if !ledger.campaign.creator.same_as(&ctx.creator) {
        return Err(ErrorCode::Unauthorized);
    }
    if ledger.campaign.status != CampaignStatus::Active {
        return Err(ErrorCode::CampaignNotActive);
    }
    ledger.campaign.status = CampaignStatus::Cancelled;
    Ok(())
}

} // verus!
