//! The staking itself: the state that is kept, and the operations on it.
use vstd::prelude::*;
use vstd::string::*;

use crate::mapping::Mapping;
use crate::staking::model::{
    batch_listing, early_adopter_bonus, is_approved, pending_rewards, quantity_multiplier,
    rewards_and_penalty, slots_rewarded, stake_in_slot, staker_weight, staking_tier_for,
    tier_weight_of, weight_total, lemma_slots_fail_on, lemma_weight_total_grows, Page, StakingView,
};
use crate::staking::types::{
    AdminBatchListingCompleted, AdminTokenDelisted, AdminTokenListed, ContractPaused,
    ContractUnpaused, EarlyAdopterTier, FeeChangeProposed, GovernanceBonusAwarded,
    GovernanceBonusClaimed, OwnershipTransferred, ProjectProposal, ProposalCreated,
    ProposalExecuted, ProposalFeeChanged, ProposalView, RewardsClaimed, StakePosition, Staked,
    StakingError, StakingTier, TradingRewardsContractChanged, TradingRewardsDistributed,
    TradingRewardsDistributionProgress, TradingRewardsFunded, TreasuryAddressChanged, Unstaked,
    Voted, BASIS_POINTS, BRONZE_REWARD_RATE, EARLY_PENALTY_RATE, GOLD_DURATION, GOLD_REWARD_RATE,
    IMPLEMENTATION_BONUS, LARGE_STAKER_MULTIPLIER, LARGE_STAKE_THRESHOLD, MAX_BATCH_LISTING,
    MAX_DISTRIBUTION_BATCH, MAX_DURATION, MAX_PROPOSAL_FEE, MAX_STAKERS,
    MEDIUM_STAKER_MULTIPLIER, MEDIUM_STAKE_THRESHOLD, MIN_DURATION, MIN_PROPOSAL_POWER, MIN_STAKE,
    MIN_VOTES_FOR_BONUS, PLATINUM_DURATION, PLATINUM_REWARD_RATE, PROPOSAL_BONUS, PROPOSAL_FEE,
    SILVER_DURATION, SILVER_REWARD_RATE, SMALL_STAKER_MULTIPLIER, TOP_1000_BONUS,
    TOP_1000_DURATION, TOP_1000_PLACES, TOP_100_BONUS, TOP_100_DURATION, TOP_100_PLACES,
    TOP_500_BONUS, TOP_500_DURATION, TOP_500_PLACES, VOTING_BONUS, VOTING_PERIOD,
    WHALE_STAKER_MULTIPLIER, WHALE_STAKE_THRESHOLD, YEAR_IN_BLOCKS,
};
use crate::types::{AccountId, Balance, Env, Timestamp};

verus! {

/// The staking.
#[derive(Clone, Debug)]
pub struct StakingContract {
    owner: AccountId,
    treasury_address: AccountId,
    paused: bool,
    locked: bool,
    total_staked: Balance,
    total_rewards_distributed: Balance,
    active_stakers: u32,
    stakes: Mapping<AccountId, StakePosition>,
    staker_addresses: Mapping<u32, AccountId>,
    staker_index: u32,
    proposals: Mapping<u32, ProjectProposal>,
    next_proposal_id: u32,
    user_votes: Mapping<(u32, AccountId), bool>,
    approved_projects: Mapping<AccountId, bool>,
    trading_rewards_pool: Balance,
    trading_rewards_contract: Option<AccountId>,
    tier_multipliers: Mapping<StakingTier, u32>,
    governance_bonuses: Mapping<AccountId, Balance>,
    early_adopter_counts: Mapping<EarlyAdopterTier, u32>,
    total_trading_rewards_distributed: Balance,
    current_proposal_fee: Balance,
}

/// A table of proposals with each proposal's texts as sequences of
/// characters.
pub open spec fn proposals_view(proposals: Map<u32, ProjectProposal>) -> Map<u32, ProposalView> {
    Map::new(|id: u32| proposals.dom().contains(id), |id: u32| proposals[id]@)
}

/// Entering a proposal in a table enters its view in the table's view.
proof fn lemma_proposals_insert(proposals: Map<u32, ProjectProposal>, id: u32, proposal:
    ProjectProposal)
    ensures
        proposals_view(proposals.insert(id, proposal)) == proposals_view(proposals).insert(
            id,
            proposal@,
        ),
{
    assert(proposals_view(proposals.insert(id, proposal)) =~= proposals_view(proposals).insert(
        id,
        proposal@,
    ));
}

/// The tokens of a batch, without the reasons for listing them.
pub open spec fn tokens_of(batch: Seq<(AccountId, String)>) -> Seq<AccountId> {
    batch.map_values(|entry: (AccountId, String)| entry.0)
}

/// The ten digits.
pub open spec fn digits() -> Seq<char> {
    seq!['0', '1', '2', '3', '4', '5', '6', '7', '8', '9']
}

/// A number in decimal digits, without leading zeros.
pub open spec fn decimal(n: nat) -> Seq<char>
    decreases n,
{
    if n < 10 {
        seq![digits()[n as int]]
    } else {
        decimal(n / 10).push(digits()[(n % 10) as int])
    }
}

/// The name of every proposal to change the proposal fee.
pub open spec fn fee_change_name() -> Seq<char> {
    "MUDANCA_TAXA_PROPOSTA"@
}

/// The description of a proposal to change the proposal fee to `new_fee`:
/// the fee in whole units, and the proposer's justification.
pub open spec fn fee_change_description(new_fee: Balance, justification: Seq<char>) -> Seq<char> {
    "Alterar taxa de proposta para "@ + decimal((new_fee / 100_000_000) as nat)
        + " LUNES. Justificativa: "@ + justification
}

/// One decimal digit as text.
fn digit_text(digit: u128) -> (r: &'static str)
    requires
        digit < 10,
    ensures
        r@ == seq![digits()[digit as int]],
{
    proof {
        reveal_strlit("0");
        reveal_strlit("1");
        reveal_strlit("2");
        reveal_strlit("3");
        reveal_strlit("4");
        reveal_strlit("5");
        reveal_strlit("6");
        reveal_strlit("7");
        reveal_strlit("8");
        reveal_strlit("9");
    }
    let r = if digit == 0 {
        "0"
    } else if digit == 1 {
        "1"
    } else if digit == 2 {
        "2"
    } else if digit == 3 {
        "3"
    } else if digit == 4 {
        "4"
    } else if digit == 5 {
        "5"
    } else if digit == 6 {
        "6"
    } else if digit == 7 {
        "7"
    } else if digit == 8 {
        "8"
    } else {
        "9"
    };
    assert(r@ =~= seq![digits()[digit as int]]);
    r
}

/// A number in decimal digits.
pub fn decimal_string(n: u128) -> (r: String)
    ensures
        r@ == decimal(n as nat),
    decreases n,
{
    if n < 10 {
        digit_text(n).to_owned()
    } else {
        let mut text = decimal_string(n / 10);
        text.append(digit_text(n % 10));
        assert(text@ =~= decimal(n as nat));
        text
    }
}

/// A copy of a proposal.
fn copy_of(proposal: &ProjectProposal) -> (r: ProjectProposal)
    ensures
        r@ == proposal@,
{
    ProjectProposal {
        id: proposal.id,
        name: proposal.name.clone(),
        description: proposal.description.clone(),
        token_address: proposal.token_address,
        proposer: proposal.proposer,
        votes_for: proposal.votes_for,
        votes_against: proposal.votes_against,
        voting_deadline: proposal.voting_deadline,
        executed: proposal.executed,
        active: proposal.active,
        fee: proposal.fee,
        fee_refunded: proposal.fee_refunded,
        new_fee_amount: proposal.new_fee_amount,
    }
}

impl View for StakingContract {
    type V = StakingView;

    closed spec fn view(&self) -> StakingView {
        StakingView {
            owner: self.owner,
            treasury_address: self.treasury_address,
            paused: self.paused,
            locked: self.locked,
            total_staked: self.total_staked,
            total_rewards_distributed: self.total_rewards_distributed,
            active_stakers: self.active_stakers,
            stakes: self.stakes@,
            staker_addresses: self.staker_addresses@,
            staker_index: self.staker_index,
            proposals: proposals_view(self.proposals@),
            next_proposal_id: self.next_proposal_id,
            user_votes: self.user_votes@,
            approved_projects: self.approved_projects@,
            trading_rewards_pool: self.trading_rewards_pool,
            trading_rewards_contract: self.trading_rewards_contract,
            tier_multipliers: self.tier_multipliers@,
            governance_bonuses: self.governance_bonuses@,
            early_adopter_counts: self.early_adopter_counts@,
            total_trading_rewards_distributed: self.total_trading_rewards_distributed,
            current_proposal_fee: self.current_proposal_fee,
        }
    }
}

impl StakingContract {
    /// The tables are in order.
    pub closed spec fn wf(&self) -> bool {
        &&& self.stakes.wf()
        &&& self.staker_addresses.wf()
        &&& self.proposals.wf()
        &&& self.user_votes.wf()
        &&& self.approved_projects.wf()
        &&& self.tier_multipliers.wf()
        &&& self.governance_bonuses.wf()
        &&& self.early_adopter_counts.wf()
    }

    /// This staking with the guard held or free.
    pub closed spec fn guard_set(self, held: bool) -> Self {
        StakingContract { locked: held, ..self }
    }

    /// A staking owned by the caller, without stakes or proposals.
    pub fn new(env: &Env, treasury_address: AccountId) -> (r: Self)
        ensures
            r.wf(),
            r@ == StakingView::initial(env.caller, treasury_address),
    {
        let mut contract = StakingContract {
            owner: env.caller,
            treasury_address,
            paused: false,
            locked: false,
            total_staked: 0,
            total_rewards_distributed: 0,
            active_stakers: 0,
            stakes: Mapping::new(),
            staker_addresses: Mapping::new(),
            staker_index: 0,
            proposals: Mapping::new(),
            next_proposal_id: 1,
            user_votes: Mapping::new(),
            approved_projects: Mapping::new(),
            trading_rewards_pool: 0,
            trading_rewards_contract: None,
            tier_multipliers: Mapping::new(),
            governance_bonuses: Mapping::new(),
            early_adopter_counts: Mapping::new(),
            total_trading_rewards_distributed: 0,
            current_proposal_fee: PROPOSAL_FEE,
        };
        contract.tier_multipliers.insert(StakingTier::Bronze, BRONZE_REWARD_RATE);
        contract.tier_multipliers.insert(StakingTier::Silver, SILVER_REWARD_RATE);
        contract.tier_multipliers.insert(StakingTier::Gold, GOLD_REWARD_RATE);
        contract.tier_multipliers.insert(StakingTier::Platinum, PLATINUM_REWARD_RATE);
        contract.early_adopter_counts.insert(EarlyAdopterTier::Regular, 0);
        contract.early_adopter_counts.insert(EarlyAdopterTier::Top1000, 0);
        contract.early_adopter_counts.insert(EarlyAdopterTier::Top500, 0);
        contract.early_adopter_counts.insert(EarlyAdopterTier::Top100, 0);
        proof {
            assert(proposals_view(contract.proposals@) =~= Map::<u32, ProposalView>::empty());
        }
        contract
    }

    /// Names another treasury. Only the owner may do so.
    pub fn set_treasury_address(&mut self, env: &Env, new_treasury: AccountId) -> (r: Result<
        TreasuryAddressChanged,
        StakingError,
    >)
        ensures
            final(self).wf() == old(self).wf(),
            match old(self)@.set_treasury_address(*env, new_treasury) {
                Ok((state, event)) => r == Ok::<TreasuryAddressChanged, StakingError>(event)
                    && final(self)@ == state,
                Err(e) => r == Err::<TreasuryAddressChanged, StakingError>(e) && *final(self)
                    == *old(self),
            },
    {
        match self.ensure_owner(env) {
            Err(e) => {
                return Err(e);
            },
            Ok(_) => {},
        }
        if new_treasury.is_zero() {
            return Err(StakingError::ZeroAddress);
        }
        let old_treasury = self.treasury_address;
        self.treasury_address = new_treasury;
        Ok(
            TreasuryAddressChanged {
                old_treasury,
                new_treasury,
                admin: env.caller,
                timestamp: env.block_timestamp,
            },
        )
    }

    /// The treasury.
    pub fn treasury_address(&self) -> (r: AccountId)
        ensures
            r == self@.treasury_address,
    {
        self.treasury_address
    }

    /// The owner.
    pub fn owner(&self) -> (r: AccountId)
        ensures
            r == self@.owner,
    {
        self.owner
    }

    /// Whether the staking is paused.
    pub fn is_paused(&self) -> (r: bool)
        ensures
            r == self@.paused,
    {
        self.paused
    }

    /// The stake of `account`.
    pub fn get_stake(&self, account: AccountId) -> (r: Option<StakePosition>)
        requires
            self.wf(),
        ensures
            r == self@.stake_of(account),
    {
        match self.stakes.get(&account) {
            Some(stake) => Some(*stake),
            None => None,
        }
    }

    /// The rewards that the active stake of `account` has earned since they
    /// were last taken.
    pub fn get_pending_rewards(&self, env: &Env, account: AccountId) -> (r: Result<
        Balance,
        StakingError,
    >)
        requires
            self.wf(),
        ensures
            r == (match self@.stake_of(account) {
                None => Err::<Balance, StakingError>(StakingError::NoActiveStake),
                Some(stake) => if !stake.active {
                    Err::<Balance, StakingError>(StakingError::NoActiveStake)
                } else {
                    pending_rewards(self@.rate_of(stake.tier), stake, env.block_timestamp)
                },
            }),
    {
        let stake = match self.get_stake(account) {
            Some(stake) => stake,
            None => {
                return Err(StakingError::NoActiveStake);
            },
        };
        if !stake.active {
            return Err(StakingError::NoActiveStake);
        }
        self.calculate_pending_rewards(&stake, env.block_timestamp)
    }

    /// The weight of the vote of `account`: its stake while it is active.
    pub fn get_voting_power(&self, account: AccountId) -> (r: Result<Balance, StakingError>)
        requires
            self.wf(),
        ensures
            r == Ok::<Balance, StakingError>(self@.voting_power(account)),
    {
        match self.stakes.get(&account) {
            Some(stake) => if stake.active {
                Ok(stake.amount)
            } else {
                Ok(0)
            },
            None => Ok(0),
        }
    }

    /// The proposal with the number `proposal_id`.
    pub fn get_proposal(&self, proposal_id: u32) -> (r: Option<ProjectProposal>)
        requires
            self.wf(),
        ensures
            match r {
                Some(proposal) => self@.proposal(proposal_id) == Some(proposal@),
                None => self@.proposal(proposal_id) is None,
            },
    {
        match self.proposals.get(&proposal_id) {
            Some(proposal) => Some(copy_of(proposal)),
            None => None,
        }
    }

    /// Whether the token of a project is listed.
    pub fn is_project_approved(&self, token_address: AccountId) -> (r: bool)
        requires
            self.wf(),
        ensures
            r == is_approved(self@.approved_projects, token_address),
    {
        match self.approved_projects.get(&token_address) {
            Some(approved) => *approved,
            None => false,
        }
    }

    /// How many proposals were made, how many stakers can vote, and nothing
    /// for the number of listed tokens, which is not counted here.
    pub fn get_listing_stats(&self) -> (r: (u32, u32, u32))
        ensures
            r == (
                if self@.next_proposal_id == 0 {
                    0u32
                } else {
                    (self@.next_proposal_id - 1) as u32
                },
                self@.active_stakers,
                0u32,
            ),
    {
        let made: u32 = if self.next_proposal_id == 0 {
            0
        } else {
            self.next_proposal_id - 1
        };
        (made, self.active_stakers, 0u32)
    }

    /// The fee of a proposal.
    pub fn get_current_proposal_fee(&self) -> (r: Balance)
        ensures
            r == self@.current_proposal_fee,
    {
        self.current_proposal_fee
    }

    /// All that is staked, all rewards that were paid, and the number of
    /// active stakers.
    pub fn get_stats(&self) -> (r: (Balance, Balance, u32))
        ensures
            r == (self@.total_staked, self@.total_rewards_distributed, self@.active_stakers),
    {
        (self.total_staked, self.total_rewards_distributed, self.active_stakers)
    }

    /// The stakers' pool of trading rewards.
    pub fn trading_rewards_pool(&self) -> (r: Balance)
        ensures
            r == self@.trading_rewards_pool,
    {
        self.trading_rewards_pool
    }

    /// The bonuses that `staker` can take.
    pub fn governance_bonus_of(&self, staker: AccountId) -> (r: Balance)
        requires
            self.wf(),
        ensures
            r == self@.bonus_of(staker),
    {
        match self.governance_bonuses.get(&staker) {
            Some(bonus) => *bonus,
            None => 0,
        }
    }

    /// Pauses the staking. Only the owner may do so.
    pub fn pause(&mut self, env: &Env) -> (r: Result<ContractPaused, StakingError>)
        ensures
            final(self).wf() == old(self).wf(),
            env.caller == old(self)@.owner ==> r == Ok::<ContractPaused, StakingError>(
                ContractPaused { admin: env.caller, timestamp: env.block_timestamp },
            ) && final(self)@ == (StakingView { paused: true, ..old(self)@ }),
            env.caller != old(self)@.owner ==> r == Err::<ContractPaused, StakingError>(
                StakingError::AccessDenied,
            ) && *final(self) == *old(self),
    {
        match self.ensure_owner(env) {
            Err(e) => {
                return Err(e);
            },
            Ok(_) => {},
        }
        self.paused = true;
        Ok(ContractPaused { admin: env.caller, timestamp: env.block_timestamp })
    }

    /// Ends the pause. Only the owner may do so.
    pub fn unpause(&mut self, env: &Env) -> (r: Result<ContractUnpaused, StakingError>)
        ensures
            final(self).wf() == old(self).wf(),
            env.caller == old(self)@.owner ==> r == Ok::<ContractUnpaused, StakingError>(
                ContractUnpaused { admin: env.caller, timestamp: env.block_timestamp },
            ) && final(self)@ == (StakingView { paused: false, ..old(self)@ }),
            env.caller != old(self)@.owner ==> r == Err::<ContractUnpaused, StakingError>(
                StakingError::AccessDenied,
            ) && *final(self) == *old(self),
    {
        match self.ensure_owner(env) {
            Err(e) => {
                return Err(e);
            },
            Ok(_) => {},
        }
        self.paused = false;
        Ok(ContractUnpaused { admin: env.caller, timestamp: env.block_timestamp })
    }

    /// Hands the staking to another owner. Only the owner may do so.
    pub fn transfer_ownership(&mut self, env: &Env, new_owner: AccountId) -> (r: Result<
        OwnershipTransferred,
        StakingError,
    >)
        ensures
            final(self).wf() == old(self).wf(),
            match old(self)@.transfer_ownership(*env, new_owner) {
                Ok((state, event)) => r == Ok::<OwnershipTransferred, StakingError>(event)
                    && final(self)@ == state,
                Err(e) => r == Err::<OwnershipTransferred, StakingError>(e) && *final(self)
                    == *old(self),
            },
    {
        match self.ensure_owner(env) {
            Err(e) => {
                return Err(e);
            },
            Ok(_) => {},
        }
        if new_owner.is_zero() {
            return Err(StakingError::ZeroAddress);
        }
        let old_owner = self.owner;
        self.owner = new_owner;
        Ok(OwnershipTransferred { old_owner, new_owner, timestamp: env.block_timestamp })
    }

    /// Names the contract of the trading rewards, which may fund the
    /// stakers' pool. Only the owner may do so.
    pub fn set_trading_rewards_contract(&mut self, env: &Env, contract_address: AccountId) -> (r:
        Result<TradingRewardsContractChanged, StakingError>)
        ensures
            final(self).wf() == old(self).wf(),
            match old(self)@.set_trading_rewards_contract(*env, contract_address) {
                Ok((state, event)) => r == Ok::<TradingRewardsContractChanged, StakingError>(
                    event,
                ) && final(self)@ == state,
                Err(e) => r == Err::<TradingRewardsContractChanged, StakingError>(e) && *final(self) == *old(self),
            },
    {
        match self.ensure_owner(env) {
            Err(e) => {
                return Err(e);
            },
            Ok(_) => {},
        }
        if contract_address.is_zero() {
            return Err(StakingError::ZeroAddress);
        }
        let old_contract = self.trading_rewards_contract;
        self.trading_rewards_contract = Some(contract_address);
        Ok(
            TradingRewardsContractChanged {
                old_contract,
                new_contract: contract_address,
                admin: env.caller,
                timestamp: env.block_timestamp,
            },
        )
    }

    /// Adds the value that came with the call to the stakers' pool of
    /// trading rewards. Only the contract of the trading rewards may do so.
    pub fn fund_staking_rewards(&mut self, env: &Env) -> (r: Result<
        TradingRewardsFunded,
        StakingError,
    >)
        ensures
            final(self).wf() == old(self).wf(),
            match old(self)@.fund_staking_rewards(*env) {
                Ok((state, event)) => r == Ok::<TradingRewardsFunded, StakingError>(event)
                    && final(self)@ == state,
                Err(e) => r == Err::<TradingRewardsFunded, StakingError>(e) && *final(self)
                    == *old(self),
            },
    {
        match self.ensure_not_paused() {
            Err(e) => {
                return Err(e);
            },
            Ok(_) => {},
        }
        let caller = env.caller;
        let authorized = match self.trading_rewards_contract {
            Some(contract) => contract == caller,
            None => false,
        };
        if !authorized {
            return Err(StakingError::AccessDenied);
        }
        let amount = env.transferred_value;
        if amount == 0 {
            return Err(StakingError::ZeroAmount);
        }
        match self.trading_rewards_pool.checked_add(amount) {
            Some(pool) => {
                self.trading_rewards_pool = pool;
                Ok(TradingRewardsFunded { amount, timestamp: env.block_timestamp })
            },
            None => Err(StakingError::Overflow),
        }
    }

    /// Lets only the owner pass.
    pub fn ensure_owner(&self, env: &Env) -> (r: Result<(), StakingError>)
        ensures
            r == (if env.caller != self@.owner {
                Err::<(), StakingError>(StakingError::AccessDenied)
            } else {
                Ok::<(), StakingError>(())
            }),
    {
        if env.caller != self.owner {
            return Err(StakingError::AccessDenied);
        }
        Ok(())
    }

    /// Lets nobody pass during a pause.
    pub fn ensure_not_paused(&self) -> (r: Result<(), StakingError>)
        ensures
            r == (if self@.paused {
                Err::<(), StakingError>(StakingError::ContractPaused)
            } else {
                Ok::<(), StakingError>(())
            }),
    {
        if self.paused {
            return Err(StakingError::ContractPaused);
        }
        Ok(())
    }

    /// Takes the guard, unless an operation holds it.
    pub fn acquire_lock(&mut self) -> (r: Result<(), StakingError>)
        ensures
            final(self).wf() == old(self).wf(),
            !old(self)@.locked ==> r is Ok && *final(self) == old(self).guard_set(true),
            old(self)@.locked ==> r == Err::<(), StakingError>(StakingError::Reentrancy) && *final(self) == *old(self),
            final(self)@ == (StakingView { locked: true, ..old(self)@ }),
    {
        if self.locked {
            return Err(StakingError::Reentrancy);
        }
        self.locked = true;
        Ok(())
    }

    /// Gives the guard back, whoever held it.
    pub fn release_lock(&mut self)
        ensures
            final(self).wf() == old(self).wf(),
            *final(self) == old(self).guard_set(false),
            final(self)@ == (StakingView { locked: false, ..old(self)@ }),
    {
        self.locked = false;
    }

    /// The yearly reward of a tier, in basis points.
    fn rate_of(&self, tier: StakingTier) -> (r: u32)
        requires
            self.wf(),
        ensures
            r == self@.rate_of(tier),
    {
        match self.tier_multipliers.get(&tier) {
            Some(rate) => *rate,
            None => BRONZE_REWARD_RATE,
        }
    }

    /// The rewards that a stake has earned since they were last taken.
    pub fn calculate_pending_rewards(&self, stake: &StakePosition, current_time: Timestamp) -> (r:
        Result<Balance, StakingError>)
        requires
            self.wf(),
        ensures
            r == pending_rewards(self@.rate_of(stake.tier), *stake, current_time),
    {
        let time_staked: u64 = match current_time.checked_sub(stake.last_claim) {
            Some(time) => time,
            None => {
                return Err(StakingError::Overflow);
            },
        };
        let base_rate = self.rate_of(stake.tier);
        let quantity = self.get_quantity_multiplier(stake.amount);
        let early_bonus = self.get_early_adopter_bonus(stake, current_time);
        let rated = match stake.amount.checked_mul(base_rate as u128) {
            Some(rated) => rated,
            None => {
                return Err(StakingError::Overflow);
            },
        };
        let timed = match rated.checked_mul(time_staked as u128) {
            Some(timed) => timed,
            None => {
                return Err(StakingError::Overflow);
            },
        };
        let base_rewards: u128 = timed / (BASIS_POINTS as u128) / (YEAR_IN_BLOCKS as u128);
        let sized: u128 = match base_rewards.checked_mul(quantity as u128) {
            Some(scaled) => scaled / (BASIS_POINTS as u128),
            None => {
                return Err(StakingError::Overflow);
            },
        };
        match sized.checked_mul((BASIS_POINTS + early_bonus) as u128) {
            Some(scaled) => Ok(scaled / (BASIS_POINTS as u128)),
            None => Err(StakingError::Overflow),
        }
    }

    /// The tier of a stake of the given duration.
    pub fn calculate_staking_tier(&self, duration: u64) -> (r: StakingTier)
        ensures
            r == staking_tier_for(duration),
    {
        if duration >= PLATINUM_DURATION {
            StakingTier::Platinum
        } else if duration >= GOLD_DURATION {
            StakingTier::Gold
        } else if duration >= SILVER_DURATION {
            StakingTier::Silver
        } else {
            StakingTier::Bronze
        }
    }

    /// How many stakers an early tier has taken.
    fn early_count(&self, tier: EarlyAdopterTier) -> (r: u32)
        requires
            self.wf(),
        ensures
            r == self@.early_count(tier),
    {
        match self.early_adopter_counts.get(&tier) {
            Some(count) => *count,
            None => 0,
        }
    }

    /// Gives the next staker its early tier, which takes one of the tier's
    /// places.
    pub fn determine_early_adopter_tier(&mut self) -> (r: EarlyAdopterTier)
        requires
            old(self).wf(),
        ensures
            final(self).wf(),
            r == old(self)@.next_early_tier(),
            final(self)@ == (StakingView {
                early_adopter_counts: old(self)@.early_counts_after(),
                ..old(self)@
            }),
    {
        let top_100_count = self.early_count(EarlyAdopterTier::Top100);
        let top_500_count = self.early_count(EarlyAdopterTier::Top500);
        let top_1000_count = self.early_count(EarlyAdopterTier::Top1000);
        if top_100_count < TOP_100_PLACES {
            self.early_adopter_counts.insert(EarlyAdopterTier::Top100, top_100_count + 1);
            EarlyAdopterTier::Top100
        } else if top_500_count < TOP_500_PLACES {
            self.early_adopter_counts.insert(EarlyAdopterTier::Top500, top_500_count + 1);
            EarlyAdopterTier::Top500
        } else if top_1000_count < TOP_1000_PLACES {
            self.early_adopter_counts.insert(EarlyAdopterTier::Top1000, top_1000_count + 1);
            EarlyAdopterTier::Top1000
        } else {
            EarlyAdopterTier::Regular
        }
    }

    /// The multiplier of a stake by its size, in basis points.
    pub fn get_quantity_multiplier(&self, amount: Balance) -> (r: u32)
        ensures
            r == quantity_multiplier(amount),
    {
        if amount >= WHALE_STAKE_THRESHOLD {
            WHALE_STAKER_MULTIPLIER
        } else if amount >= LARGE_STAKE_THRESHOLD {
            LARGE_STAKER_MULTIPLIER
        } else if amount >= MEDIUM_STAKE_THRESHOLD {
            MEDIUM_STAKER_MULTIPLIER
        } else {
            SMALL_STAKER_MULTIPLIER
        }
    }

    /// The bonus of an early staker, in basis points, while it lasts.
    pub fn get_early_adopter_bonus(&self, stake: &StakePosition, current_time: Timestamp) -> (r:
        u32)
        ensures
            r == early_adopter_bonus(*stake, current_time),
    {
        let time_since_start: u64 = match current_time.checked_sub(stake.start_time) {
            Some(time) => time,
            None => 0,
        };
        match stake.early_adopter_tier {
            EarlyAdopterTier::Top100 => {
                if time_since_start <= TOP_100_DURATION {
                    TOP_100_BONUS
                } else {
                    0
                }
            },
            EarlyAdopterTier::Top500 => {
                if time_since_start <= TOP_500_DURATION {
                    TOP_500_BONUS
                } else {
                    0
                }
            },
            EarlyAdopterTier::Top1000 => {
                if time_since_start <= TOP_1000_DURATION {
                    TOP_1000_BONUS
                } else {
                    0
                }
            },
            EarlyAdopterTier::Regular => 0,
        }
    }

    /// The weight of a stake in the distribution of trading rewards.
    pub fn calculate_staker_weight(&self, stake: &StakePosition) -> (r: Balance)
        ensures
            r == staker_weight(*stake),
    {
        let tier_multiplier: u32 = match stake.tier {
            StakingTier::Bronze => 100,
            StakingTier::Silver => 120,
            StakingTier::Gold => 150,
            StakingTier::Platinum => 200,
        };
        let quantity = self.get_quantity_multiplier(stake.amount);
        let tiered: u128 = match stake.amount.checked_mul(tier_multiplier as u128) {
            Some(tiered) => tiered,
            None => 0,
        };
        let sized: u128 = match tiered.checked_mul(quantity as u128) {
            Some(sized) => sized,
            None => 0,
        };
        proof {
            assert(stake.amount * tier_weight_of(stake.tier) >= 0) by (nonlinear_arith)
                requires
                    stake.amount >= 0,
                    tier_weight_of(stake.tier) >= 0,
            ;
            if stake.amount * tier_weight_of(stake.tier) > u128::MAX {
                assert(stake.amount * tier_weight_of(stake.tier) * quantity_multiplier(
                    stake.amount,
                ) > u128::MAX) by (nonlinear_arith)
                    requires
                        stake.amount * tier_weight_of(stake.tier) > u128::MAX,
                        quantity_multiplier(stake.amount) >= 1,
                ;
            }
        }
        sized / 10000
    }

    /// The rewards of a stake and the penalty for ending it now.
    pub fn calculate_rewards_and_penalty(&self, stake: &StakePosition, current_time: Timestamp)
        -> (r: Result<(Balance, Balance), StakingError>)
        requires
            self.wf(),
        ensures
            r == rewards_and_penalty(self@.rate_of(stake.tier), *stake, current_time),
    {
        let rewards = match self.calculate_pending_rewards(stake, current_time) {
            Ok(rewards) => rewards,
            Err(e) => {
                return Err(e);
            },
        };
        let time_staked: u64 = match current_time.checked_sub(stake.start_time) {
            Some(time) => time,
            None => {
                return Err(StakingError::Overflow);
            },
        };
        let penalty: Balance = if time_staked < stake.duration {
            match stake.amount.checked_mul(EARLY_PENALTY_RATE as u128) {
                Some(scaled) => scaled / (BASIS_POINTS as u128),
                None => {
                    return Err(StakingError::Overflow);
                },
            }
        } else {
            0
        };
        Ok((rewards, penalty))
    }
}

impl StakingContract {
    /// The caller stakes the value that came with the call for `duration`
    /// blocks. A refusal changes nothing.
    pub fn stake(&mut self, env: &Env, duration: u64) -> (r: Result<Staked, StakingError>)
        requires
            old(self).wf(),
        ensures
            final(self).wf(),
            match old(self)@.stake(*env, duration) {
                Ok((state, event)) => r == Ok::<Staked, StakingError>(event) && final(self)@
                    == state,
                Err(e) => r == Err::<Staked, StakingError>(e) && *final(self) == *old(self),
            },
    {
        match self.ensure_not_paused() {
            Err(e) => {
                return Err(e);
            },
            Ok(_) => {},
        }
        match self.acquire_lock() {
            Err(e) => {
                return Err(e);
            },
            Ok(_) => {},
        }
        let caller = env.caller;
        let amount = env.transferred_value;
        let current_time = env.block_timestamp;
        if amount < MIN_STAKE {
            self.release_lock();
            return Err(StakingError::MinimumStakeNotMet);
        }
        if duration < MIN_DURATION || duration > MAX_DURATION {
            self.release_lock();
            return Err(StakingError::InvalidDuration);
        }
        if self.active_stakers >= MAX_STAKERS {
            self.release_lock();
            return Err(StakingError::MaxStakersReached);
        }
        let has_active = match self.stakes.get(&caller) {
            Some(existing_stake) => existing_stake.active,
            None => false,
        };
        if has_active {
            self.release_lock();
            return Err(StakingError::NoActiveStake);
        }
        let staker_index = match self.staker_index.checked_add(1) {
            Some(index) => index,
            None => {
                self.release_lock();
                return Err(StakingError::Overflow);
            },
        };
        let total_staked = match self.total_staked.checked_add(amount) {
            Some(total) => total,
            None => {
                self.release_lock();
                return Err(StakingError::Overflow);
            },
        };
        let tier = self.calculate_staking_tier(duration);
        let early_adopter_tier = self.determine_early_adopter_tier();
        let stake_position = StakePosition {
            amount,
            start_time: current_time,
            duration,
            last_claim: current_time,
            pending_rewards: 0,
            active: true,
            tier,
            early_adopter_tier,
            governance_participation: 0,
        };
        self.stakes.insert(caller, stake_position);
        self.staker_addresses.insert(self.staker_index, caller);
        self.staker_index = staker_index;
        self.active_stakers = self.active_stakers + 1;
        self.total_staked = total_staked;
        self.release_lock();
        Ok(Staked { staker: caller, amount, duration, timestamp: current_time })
    }

    /// The caller ends its stake. Answers what the host is to pay the
    /// caller: the stake and its rewards, less the penalty. A refusal changes
    /// nothing.
    pub fn unstake(&mut self, env: &Env) -> (r: Result<(Balance, Unstaked), StakingError>)
        requires
            old(self).wf(),
        ensures
            final(self).wf(),
            match old(self)@.unstake(*env) {
                Ok((state, out)) => r == Ok::<(Balance, Unstaked), StakingError>(out) && final(self)@ == state,
                Err(e) => r == Err::<(Balance, Unstaked), StakingError>(e) && *final(self) == *old(self),
            },
    {
        match self.ensure_not_paused() {
            Err(e) => {
                return Err(e);
            },
            Ok(_) => {},
        }
        match self.acquire_lock() {
            Err(e) => {
                return Err(e);
            },
            Ok(_) => {},
        }
        let caller = env.caller;
        let current_time = env.block_timestamp;
        let mut stake = match self.get_stake(caller) {
            Some(stake) => stake,
            None => {
                self.release_lock();
                return Err(StakingError::NoActiveStake);
            },
        };
        if !stake.active {
            self.release_lock();
            return Err(StakingError::NoActiveStake);
        }
        let (rewards, penalty) = match self.calculate_rewards_and_penalty(&stake, current_time) {
            Ok(amounts) => amounts,
            Err(e) => {
                self.release_lock();
                return Err(e);
            },
        };
        let with_rewards = stake.amount.checked_add(rewards);
        let active_stakers = self.active_stakers.checked_sub(1);
        let total_staked = self.total_staked.checked_sub(stake.amount);
        let total_rewards = self.total_rewards_distributed.checked_add(rewards);
        let (total_amount, active_stakers, total_staked, total_rewards) = match (
            with_rewards,
            active_stakers,
            total_staked,
            total_rewards,
        ) {
            (Some(with_rewards), Some(active_stakers), Some(total_staked), Some(total_rewards)) => {
                match with_rewards.checked_sub(penalty) {
                    Some(total_amount) => (
                        total_amount,
                        active_stakers,
                        total_staked,
                        total_rewards,
                    ),
                    None => {
                        self.release_lock();
                        return Err(StakingError::Overflow);
                    },
                }
            },
            _ => {
                self.release_lock();
                return Err(StakingError::Overflow);
            },
        };
        stake.active = false;
        self.stakes.insert(caller, stake);
        self.active_stakers = active_stakers;
        self.total_staked = total_staked;
        self.total_rewards_distributed = total_rewards;
        self.release_lock();
        Ok(
            (
                total_amount,
                Unstaked {
                    staker: caller,
                    amount: stake.amount,
                    rewards,
                    penalty,
                    timestamp: current_time,
                },
            ),
        )
    }

    /// The caller takes the rewards that its stake has earned since they were
    /// last taken. Answers what the host is to pay the caller, if anything. A
    /// refusal changes nothing.
    pub fn claim_rewards(&mut self, env: &Env) -> (r: Result<
        Option<(Balance, RewardsClaimed)>,
        StakingError,
    >)
        requires
            old(self).wf(),
        ensures
            final(self).wf(),
            match old(self)@.claim_rewards(*env) {
                Ok((state, out)) => r == Ok::<Option<(Balance, RewardsClaimed)>, StakingError>(
                    out,
                ) && final(self)@ == state,
                Err(e) => r == Err::<Option<(Balance, RewardsClaimed)>, StakingError>(e) && *final(self) == *old(self),
            },
    {
        match self.ensure_not_paused() {
            Err(e) => {
                return Err(e);
            },
            Ok(_) => {},
        }
        match self.acquire_lock() {
            Err(e) => {
                return Err(e);
            },
            Ok(_) => {},
        }
        let caller = env.caller;
        let current_time = env.block_timestamp;
        let mut stake = match self.get_stake(caller) {
            Some(stake) => stake,
            None => {
                self.release_lock();
                return Err(StakingError::NoActiveStake);
            },
        };
        if !stake.active {
            self.release_lock();
            return Err(StakingError::NoActiveStake);
        }
        let rewards = match self.calculate_pending_rewards(&stake, current_time) {
            Ok(rewards) => rewards,
            Err(e) => {
                self.release_lock();
                return Err(e);
            },
        };
        if rewards == 0 {
            self.release_lock();
            return Ok(None);
        }
        let total_rewards = match self.total_rewards_distributed.checked_add(rewards) {
            Some(total) => total,
            None => {
                self.release_lock();
                return Err(StakingError::Overflow);
            },
        };
        stake.last_claim = current_time;
        stake.pending_rewards = 0;
        self.stakes.insert(caller, stake);
        self.total_rewards_distributed = total_rewards;
        self.release_lock();
        Ok(Some((rewards, RewardsClaimed { staker: caller, amount: rewards, timestamp: current_time })))
    }

    /// What stands in the way of a proposal by the caller.
    fn check_proposer(&self, env: &Env) -> (r: Option<StakingError>)
        requires
            self.wf(),
        ensures
            r == self@.proposal_error(*env),
    {
        if env.transferred_value < self.current_proposal_fee {
            return Some(StakingError::InsufficientFee);
        }
        let voting_power = match self.get_voting_power(env.caller) {
            Ok(power) => power,
            Err(e) => {
                return Some(e);
            },
        };
        if voting_power < MIN_PROPOSAL_POWER {
            return Some(StakingError::InsufficientVotingPower);
        }
        if self.next_proposal_id == u32::MAX {
            return Some(StakingError::Overflow);
        }
        None
    }

    /// The caller proposes to list the token of a project, for the fee that
    /// came with the call. Answers the number of the proposal. A refusal
    /// changes nothing.
    pub fn create_proposal(
        &mut self,
        env: &Env,
        name: String,
        description: String,
        token_address: AccountId,
    ) -> (r: Result<(u32, ProposalCreated), StakingError>)
        requires
            old(self).wf(),
        ensures
            final(self).wf(),
            match old(self)@.create_proposal(*env, name@, description@, token_address) {
                Ok(state) => final(self)@ == state && r is Ok && r->Ok_0.0 == old(self)@
                    .next_proposal_id && r->Ok_0.1.proposal_id == old(self)@.next_proposal_id
                    && r->Ok_0.1.proposer == env.caller && r->Ok_0.1.project_name@ == name@
                    && r->Ok_0.1.token_address == token_address && r->Ok_0.1.voting_deadline
                    == StakingView::deadline_from(env.block_timestamp),
                Err(e) => r == Err::<(u32, ProposalCreated), StakingError>(e) && *final(self)
                    == *old(self),
            },
    {
        match self.ensure_not_paused() {
            Err(e) => {
                return Err(e);
            },
            Ok(_) => {},
        }
        let caller = env.caller;
        let current_time = env.block_timestamp;
        let fee = env.transferred_value;
        if token_address.is_zero() {
            return Err(StakingError::ZeroAddress);
        }
        match self.check_proposer(env) {
            Some(e) => {
                return Err(e);
            },
            None => {},
        }
        let proposal_id = self.next_proposal_id;
        let voting_deadline = current_time.saturating_add(VOTING_PERIOD);
        let proposal = ProjectProposal {
            id: proposal_id,
            name: name.clone(),
            description,
            token_address,
            proposer: caller,
            votes_for: 0,
            votes_against: 0,
            voting_deadline,
            executed: false,
            active: true,
            fee,
            fee_refunded: false,
            new_fee_amount: None,
        };
        proof {
            lemma_proposals_insert(self.proposals@, proposal_id, proposal);
        }
        self.proposals.insert(proposal_id, proposal);
        self.next_proposal_id = proposal_id + 1;
        Ok(
            (
                proposal_id,
                ProposalCreated {
                    proposal_id,
                    proposer: caller,
                    project_name: name,
                    token_address,
                    voting_deadline,
                },
            ),
        )
    }

    /// The caller votes on a proposal with the weight of its stake. A
    /// refusal changes nothing.
    pub fn vote(&mut self, env: &Env, proposal_id: u32, in_favor: bool) -> (r: Result<
        Voted,
        StakingError,
    >)
        requires
            old(self).wf(),
        ensures
            final(self).wf(),
            match old(self)@.vote(*env, proposal_id, in_favor) {
                Ok((state, event)) => r == Ok::<Voted, StakingError>(event) && final(self)@
                    == state,
                Err(e) => r == Err::<Voted, StakingError>(e) && *final(self) == *old(self),
            },
    {
        match self.ensure_not_paused() {
            Err(e) => {
                return Err(e);
            },
            Ok(_) => {},
        }
        let caller = env.caller;
        let current_time = env.block_timestamp;
        let mut proposal = match self.proposals.get(&proposal_id) {
            Some(proposal) => copy_of(proposal),
            None => {
                return Err(StakingError::InvalidProposal);
            },
        };
        if !proposal.active {
            return Err(StakingError::InvalidProposal);
        }
        if current_time > proposal.voting_deadline {
            return Err(StakingError::VotingPeriodExpired);
        }
        let voted = match self.user_votes.get(&(proposal_id, caller)) {
            Some(voted) => *voted,
            None => false,
        };
        if voted {
            return Err(StakingError::AlreadyVoted);
        }
        let vote_power = match self.get_voting_power(caller) {
            Ok(power) => power,
            Err(e) => {
                return Err(e);
            },
        };
        if vote_power == 0 {
            return Err(StakingError::InsufficientVotingPower);
        }
        if in_favor {
            proposal.votes_for = match proposal.votes_for.checked_add(vote_power) {
                Some(votes) => votes,
                None => {
                    return Err(StakingError::Overflow);
                },
            };
        } else {
            proposal.votes_against = match proposal.votes_against.checked_add(vote_power) {
                Some(votes) => votes,
                None => {
                    return Err(StakingError::Overflow);
                },
            };
        }
        proof {
            lemma_proposals_insert(self.proposals@, proposal_id, proposal);
        }
        self.proposals.insert(proposal_id, proposal);
        self.user_votes.insert((proposal_id, caller), true);
        Ok(Voted { proposal_id, voter: caller, vote_power, in_favor, timestamp: current_time })
    }

    /// Carries out a proposal whose vote has ended. A refusal changes
    /// nothing.
    pub fn execute_proposal(&mut self, env: &Env, proposal_id: u32) -> (r: Result<
        (Option<ProposalFeeChanged>, ProposalExecuted),
        StakingError,
    >)
        requires
            old(self).wf(),
        ensures
            final(self).wf(),
            match old(self)@.execute_proposal(*env, proposal_id) {
                Ok((state, out)) => r == Ok::<
                    (Option<ProposalFeeChanged>, ProposalExecuted),
                    StakingError,
                >(out) && final(self)@ == state,
                Err(e) => r == Err::<(Option<ProposalFeeChanged>, ProposalExecuted), StakingError>(
                    e,
                ) && *final(self) == *old(self),
            },
    {
        let current_time = env.block_timestamp;
        let mut proposal = match self.proposals.get(&proposal_id) {
            Some(proposal) => copy_of(proposal),
            None => {
                return Err(StakingError::InvalidProposal);
            },
        };
        if !proposal.active || proposal.executed {
            return Err(StakingError::InvalidProposal);
        }
        if current_time < proposal.voting_deadline {
            return Err(StakingError::VotingPeriodExpired);
        }
        let approved = proposal.votes_for > proposal.votes_against;
        let mut changed: Option<ProposalFeeChanged> = None;
        if approved {
            match proposal.new_fee_amount {
                Some(new_fee) => {
                    match self.execute_fee_change(env, proposal_id, new_fee) {
                        Ok(event) => {
                            changed = Some(event);
                        },
                        Err(e) => {
                            return Err(e);
                        },
                    }
                },
                None => {
                    self.approved_projects.insert(proposal.token_address, true);
                },
            }
            proposal.fee_refunded = true;
        } else {
            if !proposal.fee_refunded {
                let staking_share: Balance = proposal.fee / 10;
                self.trading_rewards_pool = self.trading_rewards_pool.saturating_add(
                    staking_share,
                );
                proposal.fee_refunded = true;
            }
        }
        proposal.executed = true;
        proposal.active = false;
        let event = ProposalExecuted {
            proposal_id,
            approved,
            votes_for: proposal.votes_for,
            votes_against: proposal.votes_against,
            timestamp: current_time,
        };
        proof {
            lemma_proposals_insert(self.proposals@, proposal_id, proposal);
        }
        self.proposals.insert(proposal_id, proposal);
        Ok((changed, event))
    }

    /// Sets the proposal fee to `new_fee`, which must be positive and within
    /// the largest fee.
    pub fn execute_fee_change(&mut self, env: &Env, proposal_id: u32, new_fee: Balance) -> (r:
        Result<ProposalFeeChanged, StakingError>)
        ensures
            final(self).wf() == old(self).wf(),
            match old(self)@.execute_fee_change(*env, proposal_id, new_fee) {
                Ok((state, event)) => r == Ok::<ProposalFeeChanged, StakingError>(event) && final(self)@ == state,
                Err(e) => r == Err::<ProposalFeeChanged, StakingError>(e) && *final(self) == *old(self),
            },
    {
        if new_fee == 0 || new_fee > MAX_PROPOSAL_FEE {
            return Err(StakingError::InvalidAmount);
        }
        let old_fee = self.current_proposal_fee;
        self.current_proposal_fee = new_fee;
        Ok(
            ProposalFeeChanged {
                proposal_id,
                old_fee,
                new_fee,
                changed_by: env.caller,
                timestamp: env.block_timestamp,
            },
        )
    }

    /// Lists a token without a vote. Only the owner may do so.
    pub fn admin_list_token(&mut self, env: &Env, token_address: AccountId, reason: String) -> (r:
        Result<AdminTokenListed, StakingError>)
        requires
            old(self).wf(),
        ensures
            final(self).wf(),
            match old(self)@.admin_list_token(*env, token_address) {
                Ok(state) => final(self)@ == state && r is Ok && r->Ok_0.token_address
                    == token_address && r->Ok_0.admin == env.caller && r->Ok_0.reason@ == reason@
                    && r->Ok_0.timestamp == env.block_timestamp,
                Err(e) => r == Err::<AdminTokenListed, StakingError>(e) && *final(self) == *old(self),
            },
    {
        match self.ensure_owner(env) {
            Err(e) => {
                return Err(e);
            },
            Ok(_) => {},
        }
        if token_address.is_zero() {
            return Err(StakingError::ZeroAddress);
        }
        if self.is_project_approved(token_address) {
            return Err(StakingError::AlreadyListed);
        }
        self.approved_projects.insert(token_address, true);
        Ok(
            AdminTokenListed {
                token_address,
                admin: env.caller,
                reason,
                timestamp: env.block_timestamp,
            },
        )
    }

    /// Takes a token off the list. Only the owner may do so.
    pub fn admin_delist_token(&mut self, env: &Env, token_address: AccountId, reason: String) -> (r:
        Result<AdminTokenDelisted, StakingError>)
        requires
            old(self).wf(),
        ensures
            final(self).wf(),
            match old(self)@.admin_delist_token(*env, token_address) {
                Ok(state) => final(self)@ == state && r is Ok && r->Ok_0.token_address
                    == token_address && r->Ok_0.admin == env.caller && r->Ok_0.reason@ == reason@
                    && r->Ok_0.timestamp == env.block_timestamp,
                Err(e) => r == Err::<AdminTokenDelisted, StakingError>(e) && *final(self) == *old(self),
            },
    {
        match self.ensure_owner(env) {
            Err(e) => {
                return Err(e);
            },
            Ok(_) => {},
        }
        if !self.is_project_approved(token_address) {
            return Err(StakingError::TokenNotListed);
        }
        self.approved_projects.remove(&token_address);
        Ok(
            AdminTokenDelisted {
                token_address,
                admin: env.caller,
                reason,
                timestamp: env.block_timestamp,
            },
        )
    }

    /// The caller proposes another proposal fee, for the fee that came with
    /// the call. Answers the number of the proposal. A refusal changes
    /// nothing.
    pub fn propose_fee_change(&mut self, env: &Env, new_fee: Balance, justification: String) -> (r:
        Result<(u32, FeeChangeProposed), StakingError>)
        requires
            old(self).wf(),
        ensures
            final(self).wf(),
            match old(self)@.propose_fee_change(
                *env,
                new_fee,
                fee_change_name(),
                fee_change_description(new_fee, justification@),
            ) {
                Ok(state) => final(self)@ == state && r is Ok && r->Ok_0.0 == old(self)@
                    .next_proposal_id && r->Ok_0.1.proposal_id == old(self)@.next_proposal_id
                    && r->Ok_0.1.proposer == env.caller && r->Ok_0.1.current_fee == old(self)@
                    .current_proposal_fee && r->Ok_0.1.proposed_fee == new_fee
                    && r->Ok_0.1.justification@ == justification@ && r->Ok_0.1.voting_deadline
                    == StakingView::deadline_from(env.block_timestamp),
                Err(e) => r == Err::<(u32, FeeChangeProposed), StakingError>(e) && *final(self)
                    == *old(self),
            },
    {
        match self.ensure_not_paused() {
            Err(e) => {
                return Err(e);
            },
            Ok(_) => {},
        }
        let caller = env.caller;
        let current_time = env.block_timestamp;
        let fee = env.transferred_value;
        if new_fee == 0 || new_fee > MAX_PROPOSAL_FEE {
            return Err(StakingError::InvalidAmount);
        }
        match self.check_proposer(env) {
            Some(e) => {
                return Err(e);
            },
            None => {},
        }
        let proposal_id = self.next_proposal_id;
        let voting_deadline = current_time.saturating_add(VOTING_PERIOD);
        let mut description = "Alterar taxa de proposta para ".to_owned();
        let units = decimal_string(new_fee / 100_000_000);
        description.append(units.as_str());
        description.append(" LUNES. Justificativa: ");
        description.append(justification.as_str());
        let proposal = ProjectProposal {
            id: proposal_id,
            name: "MUDANCA_TAXA_PROPOSTA".to_owned(),
            description,
            token_address: AccountId::zero(),
            proposer: caller,
            votes_for: 0,
            votes_against: 0,
            voting_deadline,
            executed: false,
            active: true,
            fee,
            fee_refunded: false,
            new_fee_amount: Some(new_fee),
        };
        proof {
            lemma_proposals_insert(self.proposals@, proposal_id, proposal);
        }
        let current_fee = self.current_proposal_fee;
        self.proposals.insert(proposal_id, proposal);
        self.next_proposal_id = proposal_id + 1;
        Ok(
            (
                proposal_id,
                FeeChangeProposed {
                    proposal_id,
                    proposer: caller,
                    current_fee,
                    proposed_fee: new_fee,
                    justification,
                    voting_deadline,
                },
            ),
        )
    }

    /// Records that `voter` took part in a vote. Only the owner may do so.
    pub fn record_vote_participation(&mut self, env: &Env, voter: AccountId) -> (r: Result<
        Option<GovernanceBonusAwarded>,
        StakingError,
    >)
        requires
            old(self).wf(),
        ensures
            final(self).wf(),
            match old(self)@.record_vote_participation(*env, voter) {
                Ok((state, event)) => r == Ok::<Option<GovernanceBonusAwarded>, StakingError>(
                    event,
                ) && final(self)@ == state,
                Err(e) => r == Err::<Option<GovernanceBonusAwarded>, StakingError>(e) && *final(self) == *old(self),
            },
    {
        match self.ensure_owner(env) {
            Err(e) => {
                return Err(e);
            },
            Ok(_) => {},
        }
        let mut stake = match self.get_stake(voter) {
            Some(stake) => stake,
            None => {
                return Ok(None);
            },
        };
        if !stake.active {
            return Ok(None);
        }
        stake.governance_participation = match stake.governance_participation.checked_add(1) {
            Some(count) => count,
            None => {
                return Err(StakingError::Overflow);
            },
        };
        if stake.governance_participation % MIN_VOTES_FOR_BONUS == 0 {
            let bonus = VOTING_BONUS;
            let current_bonus = self.governance_bonus_of(voter);
            let total_bonus = match current_bonus.checked_add(bonus) {
                Some(total) => total,
                None => {
                    return Err(StakingError::Overflow);
                },
            };
            self.stakes.insert(voter, stake);
            self.governance_bonuses.insert(voter, total_bonus);
            Ok(
                Some(
                    GovernanceBonusAwarded {
                        staker: voter,
                        bonus_type: 1,
                        amount: bonus,
                        timestamp: env.block_timestamp,
                    },
                ),
            )
        } else {
            self.stakes.insert(voter, stake);
            Ok(None)
        }
    }

    /// Awards `bonus` of the given type to `staker`.
    fn award(&mut self, env: &Env, staker: AccountId, bonus_type: u8, bonus: Balance) -> (r:
        Result<GovernanceBonusAwarded, StakingError>)
        requires
            old(self).wf(),
        ensures
            final(self).wf(),
            match old(self)@.reward_proposal(*env, staker, bonus_type, bonus) {
                Ok((state, event)) => r == Ok::<GovernanceBonusAwarded, StakingError>(event)
                    && final(self)@ == state,
                Err(e) => r == Err::<GovernanceBonusAwarded, StakingError>(e) && *final(self)
                    == *old(self),
            },
    {
        match self.ensure_owner(env) {
            Err(e) => {
                return Err(e);
            },
            Ok(_) => {},
        }
        let current_bonus = self.governance_bonus_of(staker);
        let total_bonus = match current_bonus.checked_add(bonus) {
            Some(total) => total,
            None => {
                return Err(StakingError::Overflow);
            },
        };
        self.governance_bonuses.insert(staker, total_bonus);
        Ok(
            GovernanceBonusAwarded {
                staker,
                bonus_type,
                amount: bonus,
                timestamp: env.block_timestamp,
            },
        )
    }

    /// Awards the bonus for a proposal that was approved. Only the owner may
    /// do so.
    pub fn reward_approved_proposal(&mut self, env: &Env, proposer: AccountId) -> (r: Result<
        GovernanceBonusAwarded,
        StakingError,
    >)
        requires
            old(self).wf(),
        ensures
            final(self).wf(),
            match old(self)@.reward_proposal(*env, proposer, 2, PROPOSAL_BONUS) {
                Ok((state, event)) => r == Ok::<GovernanceBonusAwarded, StakingError>(event)
                    && final(self)@ == state,
                Err(e) => r == Err::<GovernanceBonusAwarded, StakingError>(e) && *final(self)
                    == *old(self),
            },
    {
        self.award(env, proposer, 2, PROPOSAL_BONUS)
    }

    /// Awards the bonus for a proposal that was implemented. Only the owner
    /// may do so.
    pub fn reward_implemented_proposal(&mut self, env: &Env, proposer: AccountId) -> (r: Result<
        GovernanceBonusAwarded,
        StakingError,
    >)
        requires
            old(self).wf(),
        ensures
            final(self).wf(),
            match old(self)@.reward_proposal(*env, proposer, 3, IMPLEMENTATION_BONUS) {
                Ok((state, event)) => r == Ok::<GovernanceBonusAwarded, StakingError>(event)
                    && final(self)@ == state,
                Err(e) => r == Err::<GovernanceBonusAwarded, StakingError>(e) && *final(self)
                    == *old(self),
            },
    {
        self.award(env, proposer, 3, IMPLEMENTATION_BONUS)
    }

    /// The caller takes its bonuses. Answers what the host is to pay the
    /// caller. A refusal changes nothing.
    pub fn claim_governance_bonus(&mut self, env: &Env) -> (r: Result<
        (Balance, GovernanceBonusClaimed),
        StakingError,
    >)
        requires
            old(self).wf(),
        ensures
            final(self).wf(),
            match old(self)@.claim_governance_bonus(*env) {
                Ok((state, out)) => r == Ok::<(Balance, GovernanceBonusClaimed), StakingError>(out)
                    && final(self)@ == state,
                Err(e) => r == Err::<(Balance, GovernanceBonusClaimed), StakingError>(e) && *final(self) == *old(self),
            },
    {
        match self.ensure_not_paused() {
            Err(e) => {
                return Err(e);
            },
            Ok(_) => {},
        }
        match self.acquire_lock() {
            Err(e) => {
                return Err(e);
            },
            Ok(_) => {},
        }
        let caller = env.caller;
        let bonus = self.governance_bonus_of(caller);
        if bonus == 0 {
            self.release_lock();
            return Err(StakingError::NoRewardsToClaim);
        }
        self.governance_bonuses.remove(&caller);
        self.release_lock();
        Ok(
            (
                bonus,
                GovernanceBonusClaimed {
                    staker: caller,
                    amount: bonus,
                    timestamp: env.block_timestamp,
                },
            ),
        )
    }
}

impl StakingContract {
    /// Lists the tokens of a batch without a vote, fifty at most; the zero
    /// account and tokens that are listed already are passed over. Answers
    /// how many were listed, with the announcement of each and of the batch.
    /// Only the owner may do so.
    pub fn admin_batch_list_tokens(&mut self, env: &Env, tokens: Vec<(AccountId, String)>) -> (r:
        Result<(u32, Vec<AdminTokenListed>, AdminBatchListingCompleted), StakingError>)
        requires
            old(self).wf(),
        ensures
            final(self).wf(),
            env.caller != old(self)@.owner ==> r == Err::<
                (u32, Vec<AdminTokenListed>, AdminBatchListingCompleted),
                StakingError,
            >(StakingError::AccessDenied) && *final(self) == *old(self),
            env.caller == old(self)@.owner && tokens@.len() > MAX_BATCH_LISTING ==> r == Err::<
                (u32, Vec<AdminTokenListed>, AdminBatchListingCompleted),
                StakingError,
            >(StakingError::TooManyTokens) && *final(self) == *old(self),
            env.caller == old(self)@.owner && tokens@.len() <= MAX_BATCH_LISTING ==> r is Ok && ({
                let (approved, listed) = batch_listing(
                    old(self)@.approved_projects,
                    tokens_of(tokens@),
                    tokens@.len(),
                );
                let (count, events, done) = r->Ok_0;
                &&& final(self)@ == (StakingView { approved_projects: approved, ..old(self)@ })
                &&& count == listed.len()
                &&& events@.len() == listed.len()
                &&& forall|j: int|
                    0 <= j < listed.len() ==> (#[trigger] events@[j]).token_address
                        == tokens@[listed[j]].0 && events@[j].reason@ == tokens@[listed[j]].1@
                        && events@[j].admin == env.caller && events@[j].timestamp
                        == env.block_timestamp
                &&& done == (AdminBatchListingCompleted {
                    admin: env.caller,
                    tokens_listed: count,
                    timestamp: env.block_timestamp,
                })
            }),
    {
        match self.ensure_owner(env) {
            Err(e) => {
                return Err(e);
            },
            Ok(_) => {},
        }
        if tokens.len() > MAX_BATCH_LISTING {
            return Err(StakingError::TooManyTokens);
        }
        let ghost before = self@;
        let ghost addresses = tokens_of(tokens@);
        let ghost mut listed: Seq<int> = Seq::empty();
        let mut listed_count: u32 = 0;
        let mut events: Vec<AdminTokenListed> = Vec::new();
        let mut i: usize = 0;
        while i < tokens.len()
            invariant
                i <= tokens@.len() <= MAX_BATCH_LISTING,
                self.wf(),
                addresses == tokens_of(tokens@),
                self@ == (StakingView { approved_projects: self@.approved_projects, ..before }),
                batch_listing(before.approved_projects, addresses, i as nat) == (
                    self@.approved_projects,
                    listed,
                ),
                listed.len() == listed_count,
                listed.len() <= i,
                events@.len() == listed.len(),
                forall|j: int|
                    0 <= j < listed.len() ==> 0 <= #[trigger] listed[j] < i && events@[j].token_address
                        == tokens@[listed[j]].0 && events@[j].reason@ == tokens@[listed[j]].1@
                        && events@[j].admin == env.caller && events@[j].timestamp
                        == env.block_timestamp,
            decreases tokens@.len() - i,
        {
            let token_address = tokens[i].0;
            assert(addresses[i as int] == token_address);
            if !token_address.is_zero() && !self.is_project_approved(token_address) {
                self.approved_projects.insert(token_address, true);
                let event = AdminTokenListed {
                    token_address,
                    admin: env.caller,
                    reason: tokens[i].1.clone(),
                    timestamp: env.block_timestamp,
                };
                let ghost events_before = events@;
                let ghost listed_before = listed;
                events.push(event);
                listed_count = listed_count + 1;
                proof {
                    listed = listed.push(i as int);
                    assert forall|j: int| 0 <= j < listed.len() implies 0 <= #[trigger] listed[j]
                        <= i && events@[j].token_address == tokens@[listed[j]].0
                        && events@[j].reason@ == tokens@[listed[j]].1@ && events@[j].admin
                        == env.caller && events@[j].timestamp == env.block_timestamp by {
                        if j < listed_before.len() {
                            assert(listed[j] == listed_before[j]);
                            assert(events@[j] == events_before[j]);
                        } else {
                            assert(listed[j] == i);
                            assert(events@[j] == event);
                        }
                    }
                }
            }
            i += 1;
        }
        let done = AdminBatchListingCompleted {
            admin: env.caller,
            tokens_listed: listed_count,
            timestamp: env.block_timestamp,
        };
        Ok((listed_count, events, done))
    }

    /// The weights of all active stakes, added up.
    pub fn calculate_total_staker_weight(&self) -> (r: Result<Balance, StakingError>)
        requires
            self.wf(),
        ensures
            r == (if weight_total(
                self@.stakes,
                self@.staker_addresses,
                self@.staker_index as nat,
            ) > u128::MAX {
                Err::<Balance, StakingError>(StakingError::Overflow)
            } else {
                Ok::<Balance, StakingError>(
                    weight_total(
                        self@.stakes,
                        self@.staker_addresses,
                        self@.staker_index as nat,
                    ) as u128,
                )
            }),
    {
        let mut total_weight: u128 = 0;
        let mut i: u32 = 0;
        while i < self.staker_index
            invariant
                self.wf(),
                i <= self.staker_index,
                total_weight == weight_total(self@.stakes, self@.staker_addresses, i as nat),
            decreases self.staker_index - i,
        {
            let weight: Balance = match self.active_stake_in_slot(&self.stakes, i) {
                Some((_, stake)) => self.calculate_staker_weight(&stake),
                None => 0,
            };
            total_weight = match total_weight.checked_add(weight) {
                Some(total) => total,
                None => {
                    proof {
                        lemma_weight_total_grows(
                            self@.stakes,
                            self@.staker_addresses,
                            (i + 1) as nat,
                            self@.staker_index as nat,
                        );
                    }
                    return Err(StakingError::Overflow);
                },
            };
            i += 1;
        }
        Ok(total_weight)
    }

    /// The active stake in a slot, with its staker, in a table of stakes.
    fn active_stake_in_slot(&self, stakes: &Mapping<AccountId, StakePosition>, slot: u32) -> (r:
        Option<(AccountId, StakePosition)>)
        requires
            self.wf(),
            stakes.wf(),
        ensures
            r == stake_in_slot(stakes@, self@.staker_addresses, slot),
    {
        match self.staker_addresses.get(&slot) {
            Some(staker) => match stakes.get(staker) {
                Some(stake) => if stake.active {
                    Some((*staker, *stake))
                } else {
                    None
                },
                None => None,
            },
            None => None,
        }
    }

    /// Shares the stakers' pool of trading rewards out over all slots at
    /// once, a hundred at most. Only the owner may do so.
    pub fn distribute_trading_rewards(&mut self, env: &Env) -> (r: Result<
        (Option<TradingRewardsDistributed>, Option<TradingRewardsDistributionProgress>),
        StakingError,
    >)
        requires
            old(self).wf(),
        ensures
            final(self).wf(),
            match old(self)@.distribute_trading_rewards_paginated(*env, None, None) {
                Ok((state, out)) => r == Ok::<
                    (Option<TradingRewardsDistributed>, Option<TradingRewardsDistributionProgress>),
                    StakingError,
                >((out.1, out.2)) && final(self)@ == state,
                Err(e) => r == Err::<
                    (Option<TradingRewardsDistributed>, Option<TradingRewardsDistributionProgress>),
                    StakingError,
                >(e) && *final(self) == *old(self),
            },
    {
        match self.distribute_trading_rewards_paginated(env, None, None) {
            Ok((_, distributed, progress)) => Ok((distributed, progress)),
            Err(e) => Err(e),
        }
    }

    /// Shares the stakers' pool of trading rewards out over one page of
    /// slots, from `start_index` on and `batch_size` of them, a hundred at
    /// most. Answers how many slots were processed, whether the distribution
    /// is complete, and where the next page begins. Only the owner may do so.
    /// A refusal changes nothing.
    #[verifier::loop_isolation(false)]
    #[verifier::rlimit(40)]
    pub fn distribute_trading_rewards_paginated(
        &mut self,
        env: &Env,
        start_index: Option<u32>,
        batch_size: Option<u32>,
    ) -> (r: Result<
        (Page, Option<TradingRewardsDistributed>, Option<TradingRewardsDistributionProgress>),
        StakingError,
    >)
        requires
            old(self).wf(),
        ensures
            final(self).wf(),
            match old(self)@.distribute_trading_rewards_paginated(*env, start_index, batch_size) {
                Ok((state, out)) => r == Ok::<
                    (
                        Page,
                        Option<TradingRewardsDistributed>,
                        Option<TradingRewardsDistributionProgress>,
                    ),
                    StakingError,
                >(out) && final(self)@ == state,
                Err(e) => r == Err::<
                    (
                        Page,
                        Option<TradingRewardsDistributed>,
                        Option<TradingRewardsDistributionProgress>,
                    ),
                    StakingError,
                >(e) && *final(self) == *old(self),
            },
    {
        match self.ensure_owner(env) {
            Err(e) => {
                return Err(e);
            },
            Ok(_) => {},
        }
        match self.ensure_not_paused() {
            Err(e) => {
                return Err(e);
            },
            Ok(_) => {},
        }
        match self.acquire_lock() {
            Err(e) => {
                return Err(e);
            },
            Ok(_) => {},
        }
        if self.trading_rewards_pool == 0 {
            self.release_lock();
            return Ok(((0, true, None), None, None));
        }
        let total_weight = match self.calculate_total_staker_weight() {
            Ok(weight) => weight,
            Err(e) => {
                self.release_lock();
                return Err(e);
            },
        };
        if total_weight == 0 {
            self.release_lock();
            return Ok(((0, true, None), None, None));
        }
        let amount_to_distribute = self.trading_rewards_pool;
        let start: u32 = match start_index {
            Some(start) => start,
            None => 0,
        };
        let max_batch: u32 = match batch_size {
            Some(size) => if size < MAX_DISTRIBUTION_BATCH {
                size
            } else {
                MAX_DISTRIBUTION_BATCH
            },
            None => MAX_DISTRIBUTION_BATCH,
        };
        let end: u32 = match start.checked_add(max_batch) {
            Some(sum) => if sum < self.staker_index {
                sum
            } else {
                self.staker_index
            },
            None => {
                self.release_lock();
                return Err(StakingError::Overflow);
            },
        };
        let ghost held = *self;
        let ghost before = old(self)@;
        let mut working = self.stakes.duplicate();
        let mut distributed_count: u32 = 0;
        let mut processed_count: u32 = 0;
        let mut i: u32 = start;
        while i < end
            invariant
                *self == held,
                held == old(self).guard_set(true),
                !old(self)@.locked,
                self.wf(),
                working.wf(),
                total_weight > 0,
                start <= i,
                start < end ==> i <= end,
                start >= end ==> i == start,
                processed_count == i - start,
                distributed_count <= processed_count,
                slots_rewarded(
                    before.stakes,
                    before.staker_addresses,
                    amount_to_distribute,
                    total_weight,
                    start as nat,
                    i as nat,
                ) == Some((working@, distributed_count as nat)),
                before == old(self)@,
                before.stakes == self@.stakes,
                before.staker_addresses == self@.staker_addresses,
            decreases end - i,
        {
            processed_count = processed_count + 1;
            match self.active_stake_in_slot(&working, i) {
                Some((staker, stake)) => {
                    let weight = self.calculate_staker_weight(&stake);
                    let reward: Balance = match amount_to_distribute.checked_mul(weight) {
                        Some(scaled) => scaled / total_weight,
                        None => {
                            proof {
                                lemma_slots_fail_on(
                                    before.stakes,
                                    before.staker_addresses,
                                    amount_to_distribute,
                                    total_weight,
                                    start as nat,
                                    (i + 1) as nat,
                                    end as nat,
                                );
                            }
                            self.release_lock();
                            return Err(StakingError::Overflow);
                        },
                    };
                    if reward > 0 {
                        let pending = match stake.pending_rewards.checked_add(reward) {
                            Some(pending) => pending,
                            None => {
                                proof {
                                    lemma_slots_fail_on(
                                        before.stakes,
                                        before.staker_addresses,
                                        amount_to_distribute,
                                        total_weight,
                                        start as nat,
                                        (i + 1) as nat,
                                        end as nat,
                                    );
                                }
                                self.release_lock();
                                return Err(StakingError::Overflow);
                            },
                        };
                        let mut rewarded = stake;
                        rewarded.pending_rewards = pending;
                        working.insert(staker, rewarded);
                        distributed_count = distributed_count + 1;
                    }
                },
                None => {},
            }
            i += 1;
        }
        let is_complete = end >= self.staker_index;
        let next_index = if is_complete {
            None
        } else {
            Some(end)
        };
        let mut distributed: Option<TradingRewardsDistributed> = None;
        let mut progress: Option<TradingRewardsDistributionProgress> = None;
        if is_complete {
            let total = match self.total_trading_rewards_distributed.checked_add(
                amount_to_distribute,
            ) {
                Some(total) => total,
                None => {
                    self.release_lock();
                    return Err(StakingError::Overflow);
                },
            };
            self.total_trading_rewards_distributed = total;
            self.trading_rewards_pool = 0;
            distributed = Some(
                TradingRewardsDistributed {
                    total_amount: amount_to_distribute,
                    stakers_count: distributed_count,
                    timestamp: env.block_timestamp,
                },
            );
        } else if start == 0 {
            progress = Some(
                TradingRewardsDistributionProgress {
                    processed_stakers: processed_count,
                    rewards_distributed: distributed_count,
                    start_index: start,
                    end_index: end,
                    is_complete: false,
                    timestamp: env.block_timestamp,
                },
            );
        }
        self.stakes = working;
        self.release_lock();
        proof {
            assert(slots_rewarded(
                before.stakes,
                before.staker_addresses,
                amount_to_distribute,
                total_weight,
                start as nat,
                end as nat,
            ) == Some((self@.stakes, distributed_count as nat)));
        }
        Ok(((processed_count, is_complete, next_index), distributed, progress))
    }
}

} // verus!
