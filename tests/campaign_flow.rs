use peoplefi::identity::{position_of, Identity};
use peoplefi::instructions::{
    cancel_campaign, create_campaign, invest, release_milestone_funds, transfer, vote_milestone,
    CancelCampaign, CreateCampaign, Invest, ReleaseFunds, VoteMilestone,
};
use peoplefi::state::{CampaignLedger, CampaignStatus, ErrorCode, MilestoneData, MilestoneStatus};

const NOW: i64 = 1_700_000_000;

fn id(b: u8) -> Identity {
    Identity::new([b; 32])
}

fn creator() -> Identity {
    id(1)
}

fn investor_x() -> Identity {
    id(2)
}

fn investor_y() -> Identity {
    id(3)
}

fn request(title: &str, amount: u64) -> MilestoneData {
    MilestoneData {
        title: title.to_string(),
        description: "tranche".to_string(),
        amount,
        status: MilestoneStatus::Pending,
        votes_for: 0,
        votes_against: 0,
        voters: Vec::new(),
    }
}

fn create_ctx() -> CreateCampaign {
    CreateCampaign { creator: creator(), campaign_key: id(9), now: NOW, bump: 254 }
}

fn new_campaign() -> CampaignLedger {
    create_campaign(
        &create_ctx(),
        "Solar farm".to_string(),
        "A community solar farm".to_string(),
        1000,
        NOW + 1000,
        vec![request("build", 500), request("connect", 500)],
    )
    .unwrap()
}

fn investor(who: Identity, balance: u64) -> Invest {
    Invest { investor: who, investor_balance: balance, now: NOW + 10, bump: 250 }
}

/// Campaign of scenario A: X invested 600 and Y 400.
fn funded_campaign() -> CampaignLedger {
    let mut l = new_campaign();
    invest(&mut investor(investor_x(), 10_000), &mut l, 600).unwrap();
    invest(&mut investor(investor_y(), 10_000), &mut l, 400).unwrap();
    l
}

fn sum_investments(l: &CampaignLedger) -> u64 {
    l.investments.iter().map(|i| i.amount).sum()
}

fn sum_released(l: &CampaignLedger) -> u64 {
    l.campaign
        .milestones
        .iter()
        .filter(|m| m.status == MilestoneStatus::Released)
        .map(|m| m.amount)
        .sum()
}

fn assert_invariants(l: &CampaignLedger) {
    assert_eq!(l.campaign.raised_amount, sum_investments(l));
    assert_eq!(l.vault_balance, l.campaign.raised_amount - sum_released(l));
    for m in &l.campaign.milestones {
        for (i, a) in m.voters.iter().enumerate() {
            for b in m.voters.iter().skip(i + 1) {
                assert!(!a.same_as(b));
            }
        }
    }
}

#[test]
fn create_campaign_opens_active_campaign() {
    let l = new_campaign();
    assert_eq!(l.campaign.status, CampaignStatus::Active);
    assert_eq!(l.campaign.raised_amount, 0);
    assert_eq!(l.campaign.investor_count, 0);
    assert_eq!(l.campaign.goal_amount, 1000);
    assert_eq!(l.campaign.deadline, NOW + 1000);
    assert_eq!(l.campaign.created_at, NOW);
    assert_eq!(l.campaign.bump, 254);
    assert!(l.campaign.creator.same_as(&creator()));
    assert!(l.key.same_as(&id(9)));
    assert_eq!(l.vault_balance, 0);
    assert!(l.investments.is_empty());
    assert_eq!(l.campaign.milestones.len(), 2);
    assert_eq!(l.campaign.milestones[1].title, "connect");
    assert_eq!(l.campaign.milestones[1].amount, 500);
}

#[test]
fn create_campaign_resets_requested_votes() {
    let mut req = request("build", 500);
    req.status = MilestoneStatus::Released;
    req.votes_for = 77;
    req.votes_against = 5;
    req.voters = vec![investor_x(), investor_x()];
    let l = create_campaign(&create_ctx(), "t".to_string(), "d".to_string(), 10, NOW + 1, vec![req])
        .unwrap();
    let m = &l.campaign.milestones[0];
    assert_eq!(m.status, MilestoneStatus::Pending);
    assert_eq!(m.votes_for, 0);
    assert_eq!(m.votes_against, 0);
    assert!(m.voters.is_empty());
    assert_eq!(m.amount, 500);
}

#[test]
fn title_of_exactly_max_length_is_accepted() {
    let title = "a".repeat(100);
    let r = create_campaign(&create_ctx(), title, String::new(), 1000, NOW + 1000, Vec::new());
    assert!(r.is_ok());
}

#[test]
fn title_one_over_max_length_is_refused() {
    let title = "a".repeat(101);
    let r = create_campaign(&create_ctx(), title, String::new(), 1000, NOW + 1000, Vec::new());
    assert_eq!(r.unwrap_err(), ErrorCode::TitleTooLong);
}

#[test]
fn title_length_counts_characters() {
    let title = "é".repeat(100);
    let r = create_campaign(&create_ctx(), title, String::new(), 1000, NOW + 1000, Vec::new());
    assert!(r.is_ok());
}

#[test]
fn description_over_max_length_is_refused() {
    let r = create_campaign(&create_ctx(), "t".to_string(), "d".repeat(501), 1000, NOW + 1, vec![]);
    assert_eq!(r.unwrap_err(), ErrorCode::DescriptionTooLong);
    let r = create_campaign(&create_ctx(), "t".to_string(), "d".repeat(500), 1000, NOW + 1, vec![]);
    assert!(r.is_ok());
}

#[test]
fn zero_goal_is_refused() {
    let r = create_campaign(&create_ctx(), "t".to_string(), "d".to_string(), 0, NOW + 1, vec![]);
    assert_eq!(r.unwrap_err(), ErrorCode::InvalidAmount);
}

#[test]
fn deadline_not_in_future_is_refused() {
    let r = create_campaign(&create_ctx(), "t".to_string(), "d".to_string(), 5, NOW, vec![]);
    assert_eq!(r.unwrap_err(), ErrorCode::InvalidDeadline);
    let r = create_campaign(&create_ctx(), "t".to_string(), "d".to_string(), 5, NOW - 1, vec![]);
    assert_eq!(r.unwrap_err(), ErrorCode::InvalidDeadline);
}

#[test]
fn eleven_milestones_are_refused() {
    let ms: Vec<MilestoneData> = (0..11).map(|_| request("m", 1)).collect();
    let r = create_campaign(&create_ctx(), "t".to_string(), "d".to_string(), 5, NOW + 1, ms);
    assert_eq!(r.unwrap_err(), ErrorCode::TooManyMilestones);
    let ms: Vec<MilestoneData> = (0..10).map(|_| request("m", 1)).collect();
    let r = create_campaign(&create_ctx(), "t".to_string(), "d".to_string(), 5, NOW + 1, ms);
    assert_eq!(r.unwrap().campaign.milestones.len(), 10);
}

#[test]
fn long_milestone_texts_are_refused() {
    let long_title = request(&"m".repeat(51), 1);
    let r = create_campaign(&create_ctx(), "t".to_string(), "d".to_string(), 5, NOW + 1, vec![
        request("ok", 1),
        long_title,
    ]);
    assert_eq!(r.unwrap_err(), ErrorCode::TitleTooLong);
    let mut long_desc = request("m", 1);
    long_desc.description = "x".repeat(201);
    let r = create_campaign(&create_ctx(), "t".to_string(), "d".to_string(), 5, NOW + 1, vec![
        long_desc,
    ]);
    assert_eq!(r.unwrap_err(), ErrorCode::DescriptionTooLong);
}

#[test]
fn scenario_two_investors_fill_the_goal() {
    let mut l = new_campaign();
    let mut x = investor(investor_x(), 10_000);
    invest(&mut x, &mut l, 600).unwrap();
    assert_eq!(x.investor_balance, 9_400);
    let mut y = investor(investor_y(), 10_000);
    invest(&mut y, &mut l, 400).unwrap();
    assert_eq!(l.campaign.raised_amount, 1000);
    assert_eq!(l.campaign.investor_count, 2);
    assert_eq!(l.vault_balance, 1000);
    assert_eq!(l.investments.len(), 2);
    let rec = &l.investments[0];
    assert!(rec.investor.same_as(&investor_x()));
    assert!(rec.campaign.same_as(&l.key));
    assert_eq!(rec.amount, 600);
    assert_eq!(rec.invested_at, NOW + 10);
    assert_eq!(rec.bump, 250);
    assert_invariants(&l);
}

#[test]
fn scenario_majority_vote_approves_at_once() {
    let mut l = funded_campaign();
    vote_milestone(&VoteMilestone { voter: investor_x() }, &mut l, 0, true).unwrap();
    let m = &l.campaign.milestones[0];
    assert_eq!(m.votes_for, 600);
    assert_eq!(m.votes_against, 0);
    assert_eq!(m.status, MilestoneStatus::Approved);
    assert_eq!(m.voters.len(), 1);
    assert_eq!(l.campaign.milestones[1].status, MilestoneStatus::Pending);
    assert_invariants(&l);
}

#[test]
fn minority_vote_leaves_milestone_pending() {
    let mut l = funded_campaign();
    vote_milestone(&VoteMilestone { voter: investor_y() }, &mut l, 1, true).unwrap();
    assert_eq!(l.campaign.milestones[1].votes_for, 400);
    assert_eq!(l.campaign.milestones[1].status, MilestoneStatus::Pending);
    vote_milestone(&VoteMilestone { voter: investor_x() }, &mut l, 1, false).unwrap();
    let m = &l.campaign.milestones[1];
    assert_eq!(m.votes_against, 600);
    assert_eq!(m.status, MilestoneStatus::Pending);
    assert_eq!(position_of(&m.voters, &investor_x()), Some(1));
    assert_invariants(&l);
}

#[test]
fn exactly_half_does_not_approve() {
    let mut l = new_campaign();
    invest(&mut investor(investor_x(), 10_000), &mut l, 500).unwrap();
    invest(&mut investor(investor_y(), 10_000), &mut l, 500).unwrap();
    vote_milestone(&VoteMilestone { voter: investor_x() }, &mut l, 0, true).unwrap();
    assert_eq!(l.campaign.milestones[0].status, MilestoneStatus::Pending);
    vote_milestone(&VoteMilestone { voter: investor_y() }, &mut l, 0, true).unwrap();
    assert_eq!(l.campaign.milestones[0].status, MilestoneStatus::Approved);
}

#[test]
fn second_vote_by_same_investor_is_refused() {
    let mut l = funded_campaign();
    vote_milestone(&VoteMilestone { voter: investor_y() }, &mut l, 0, false).unwrap();
    let r = vote_milestone(&VoteMilestone { voter: investor_y() }, &mut l, 0, true);
    assert_eq!(r, Err(ErrorCode::AlreadyVoted));
    assert_eq!(l.campaign.milestones[0].votes_for, 0);
    assert_eq!(l.campaign.milestones[0].voters.len(), 1);
    assert_invariants(&l);
}

#[test]
fn vote_without_investment_is_refused() {
    let mut l = funded_campaign();
    let r = vote_milestone(&VoteMilestone { voter: id(42) }, &mut l, 0, true);
    assert_eq!(r, Err(ErrorCode::NoInvestment));
}

#[test]
fn vote_on_missing_milestone_is_refused() {
    let mut l = funded_campaign();
    let r = vote_milestone(&VoteMilestone { voter: investor_x() }, &mut l, 2, true);
    assert_eq!(r, Err(ErrorCode::InvalidMilestone));
}

#[test]
fn scenario_release_pays_creator_once() {
    let mut l = funded_campaign();
    vote_milestone(&VoteMilestone { voter: investor_x() }, &mut l, 0, true).unwrap();
    let mut ctx = ReleaseFunds { authority: id(77), creator_balance: 20 };
    release_milestone_funds(&mut ctx, &mut l, 0).unwrap();
    assert_eq!(l.vault_balance, 500);
    assert_eq!(ctx.creator_balance, 520);
    assert_eq!(l.campaign.milestones[0].status, MilestoneStatus::Released);
    assert_invariants(&l);
    let r = release_milestone_funds(&mut ctx, &mut l, 0);
    assert_eq!(r, Err(ErrorCode::MilestoneNotApproved));
    assert_eq!(l.vault_balance, 500);
    assert_eq!(ctx.creator_balance, 520);
}

#[test]
fn release_of_pending_or_missing_milestone_is_refused() {
    let mut l = funded_campaign();
    let mut ctx = ReleaseFunds { authority: creator(), creator_balance: 0 };
    assert_eq!(release_milestone_funds(&mut ctx, &mut l, 1), Err(ErrorCode::MilestoneNotApproved));
    assert_eq!(release_milestone_funds(&mut ctx, &mut l, 9), Err(ErrorCode::InvalidMilestone));
}

#[test]
fn release_beyond_vault_is_refused() {
    let mut l = new_campaign();
    invest(&mut investor(investor_x(), 10_000), &mut l, 300).unwrap();
    vote_milestone(&VoteMilestone { voter: investor_x() }, &mut l, 0, true).unwrap();
    let mut ctx = ReleaseFunds { authority: creator(), creator_balance: 0 };
    assert_eq!(release_milestone_funds(&mut ctx, &mut l, 0), Err(ErrorCode::InsufficientFunds));
    assert_eq!(l.vault_balance, 300);
    assert_eq!(l.campaign.milestones[0].status, MilestoneStatus::Approved);
}

#[test]
fn release_overflowing_creator_balance_is_refused() {
    let mut l = funded_campaign();
    vote_milestone(&VoteMilestone { voter: investor_x() }, &mut l, 0, true).unwrap();
    let mut ctx = ReleaseFunds { authority: creator(), creator_balance: u64::MAX - 499 };
    assert_eq!(release_milestone_funds(&mut ctx, &mut l, 0), Err(ErrorCode::ArithmeticOverflow));
    assert_eq!(l.vault_balance, 1000);
}

#[test]
fn scenario_vote_after_approval_is_refused() {
    let mut l = funded_campaign();
    vote_milestone(&VoteMilestone { voter: investor_x() }, &mut l, 0, true).unwrap();
    let r = vote_milestone(&VoteMilestone { voter: investor_y() }, &mut l, 0, true);
    assert_eq!(r, Err(ErrorCode::MilestoneNotPending));
    assert_eq!(l.campaign.milestones[0].votes_for, 600);
    assert_eq!(l.campaign.milestones[0].voters.len(), 1);
}

#[test]
fn scenario_second_investment_is_refused() {
    let mut l = funded_campaign();
    let mut x = investor(investor_x(), 10_000);
    let r = invest(&mut x, &mut l, 50);
    assert_eq!(r, Err(ErrorCode::DuplicateInvestment));
    assert_eq!(l.campaign.raised_amount, 1000);
    assert_eq!(l.campaign.investor_count, 2);
    assert_eq!(l.vault_balance, 1000);
    assert_eq!(x.investor_balance, 10_000);
}

#[test]
fn scenario_investment_after_deadline_is_refused() {
    let mut l = new_campaign();
    let mut late = Invest { investor: investor_x(), investor_balance: 10_000, now: NOW + 1000, bump: 1 };
    assert_eq!(invest(&mut late, &mut l, 100), Err(ErrorCode::CampaignExpired));
    late.now = NOW + 5000;
    assert_eq!(invest(&mut late, &mut l, 100), Err(ErrorCode::CampaignExpired));
    assert_eq!(l.campaign.raised_amount, 0);
    assert_eq!(l.campaign.investor_count, 0);
    assert_eq!(l.vault_balance, 0);
    assert!(l.investments.is_empty());
    assert_eq!(late.investor_balance, 10_000);
}

#[test]
fn zero_investment_is_refused() {
    let mut l = new_campaign();
    assert_eq!(invest(&mut investor(investor_x(), 10), &mut l, 0), Err(ErrorCode::InvalidAmount));
}

#[test]
fn investment_beyond_balance_is_refused() {
    let mut l = new_campaign();
    let mut x = investor(investor_x(), 99);
    assert_eq!(invest(&mut x, &mut l, 100), Err(ErrorCode::InsufficientFunds));
    assert_eq!(x.investor_balance, 99);
    assert_eq!(l.campaign.raised_amount, 0);
    assert!(l.investments.is_empty());
}

#[test]
fn investment_overflowing_raised_amount_is_refused() {
    let mut l = new_campaign();
    invest(&mut investor(investor_x(), u64::MAX), &mut l, u64::MAX - 10).unwrap();
    let r = invest(&mut investor(investor_y(), u64::MAX), &mut l, 11);
    assert_eq!(r, Err(ErrorCode::ArithmeticOverflow));
    assert_eq!(l.campaign.raised_amount, u64::MAX - 10);
}

#[test]
fn investment_in_cancelled_campaign_is_refused() {
    let mut l = new_campaign();
    cancel_campaign(&CancelCampaign { creator: creator() }, &mut l).unwrap();
    let r = invest(&mut investor(investor_x(), 1000), &mut l, 10);
    assert_eq!(r, Err(ErrorCode::CampaignNotActive));
}

#[test]
fn cancel_by_creator_once() {
    let mut l = funded_campaign();
    cancel_campaign(&CancelCampaign { creator: creator() }, &mut l).unwrap();
    assert_eq!(l.campaign.status, CampaignStatus::Cancelled);
    assert_eq!(l.vault_balance, 1000);
    let r = cancel_campaign(&CancelCampaign { creator: creator() }, &mut l);
    assert_eq!(r, Err(ErrorCode::CampaignNotActive));
}

#[test]
fn cancel_by_other_is_refused() {
    let mut l = new_campaign();
    let r = cancel_campaign(&CancelCampaign { creator: investor_x() }, &mut l);
    assert_eq!(r, Err(ErrorCode::Unauthorized));
    assert_eq!(l.campaign.status, CampaignStatus::Active);
}

#[test]
fn transfer_moves_funds_all_or_nothing() {
    let (mut a, mut b) = (100u64, 5u64);
    assert_eq!(transfer(&mut a, &mut b, 40), Ok(()));
    assert_eq!((a, b), (60, 45));
    assert_eq!(transfer(&mut a, &mut b, 61), Err(ErrorCode::InsufficientFunds));
    assert_eq!((a, b), (60, 45));
    let mut full = u64::MAX;
    assert_eq!(transfer(&mut a, &mut full, 1), Err(ErrorCode::ArithmeticOverflow));
    assert_eq!((a, full), (60, u64::MAX));
}

#[test]
fn identities_compare_by_bytes() {
    let mut bytes = [7u8; 32];
    let a = Identity::new(bytes);
    bytes[31] = 8;
    let b = Identity::new(bytes);
    assert!(a.same_as(&a));
    assert!(!a.same_as(&b));
    assert_eq!(position_of(&vec![b, a], &a), Some(1));
    assert_eq!(position_of(&vec![b], &a), None);
}
