//! Quorum parameters handed to the registry coordinator's initializer.

use vstd::prelude::*;
use crate::address::Address;

verus! {

/// Limits on the operators of one quorum.
#[derive(Clone, Copy, Debug, PartialEq, Eq, Structural)]
pub struct OperatorSetParam {
    /// The most operators the quorum admits.
    pub max_operator_count: u32,
    /// Basis points of an operator's stake that a newcomer must exceed to
    /// replace that operator.
    pub kick_bips_of_operator_stake: u16,
    /// Basis points of the total stake below which an operator can be
    /// replaced.
    pub kick_bips_of_total_stake: u16,
}

/// One strategy of a quorum and the weight of a stake held in it.
#[derive(Clone, Copy, Debug)]
pub struct StrategyParam {
    pub strategy: Address,
    pub multiplier: u64,
}

/// What every quorum of a deployment is seeded with.
#[derive(Clone, Copy, Debug, PartialEq, Eq, Structural)]
pub struct QuorumSettings {
    pub operator_set: OperatorSetParam,
    pub minimum_stake: u64,
    pub multiplier: u64,
}

/// The three parallel lists of the coordinator's initializer, one row for
/// each quorum.
#[derive(Debug)]
pub struct QuorumConfig {
    pub operator_set_params: Vec<OperatorSetParam>,
    pub minimum_stakes: Vec<u64>,
    pub strategy_params: Vec<Vec<StrategyParam>>,
}

/// Why no quorum table was built.
#[derive(Clone, Copy, Debug, PartialEq, Eq, Structural)]
pub enum QuorumError {
    /// A multiplier must be positive.
    ZeroMultiplier,
}

/// The parameter list that binds every strategy with one multiplier.
pub open spec fn seeded_row(strategies: Seq<Address>, multiplier: u64) -> Seq<StrategyParam> {
    Seq::new(
        strategies.len(),
        |k: int| (StrategyParam { strategy: strategies[k], multiplier: multiplier }),
    )
}

impl QuorumConfig {
    /// The table that `count` quorums get from `settings` over `strategies`:
    /// every quorum has the same limits and minimum stake, and lists every
    /// strategy, in order, with the same multiplier.
    pub open spec fn seeded(
        &self,
        count: nat,
        strategies: Seq<Address>,
        settings: QuorumSettings,
    ) -> bool {
        &&& self.operator_set_params@ == Seq::new(count, |j: int| settings.operator_set)
        &&& self.minimum_stakes@ == Seq::new(count, |j: int| settings.minimum_stake)
        &&& self.strategy_params@.len() == count
        &&& forall|j: int|
            0 <= j < count ==> (#[trigger] self.strategy_params@[j])@ == seeded_row(
                strategies,
                settings.multiplier,
            )
    }

    /// The lists have one row for each quorum, and every multiplier is
    /// positive.
    pub open spec fn well_formed(&self) -> bool {
        &&& self.operator_set_params@.len() == self.strategy_params@.len()
        &&& self.minimum_stakes@.len() == self.strategy_params@.len()
        &&& forall|j: int, k: int|
            0 <= j < self.strategy_params@.len() && 0 <= k < self.strategy_params@[j]@.len()
                ==> (#[trigger] self.strategy_params@[j]@[k]).multiplier > 0
    }

    /// The number of quorums.
    pub fn quorum_count(&self) -> (result: usize)
        ensures
            result == self.strategy_params@.len(),
    {
        self.strategy_params.len()
    }
}

/// Builds the parameter list of one quorum.
pub fn seed_row(strategies: &Vec<Address>, multiplier: u64) -> (result: Vec<StrategyParam>)
    ensures
        result@ == seeded_row(strategies@, multiplier),
{
    let mut row: Vec<StrategyParam> = Vec::new();
    let mut k: usize = 0;
    while k < strategies.len()
        invariant
            k <= strategies@.len(),
            row@ == seeded_row(strategies@.subrange(0, k as int), multiplier),
        decreases strategies@.len() - k,
    {
        row.push(StrategyParam { strategy: strategies[k], multiplier: multiplier });
        assert(row@ =~= seeded_row(strategies@.subrange(0, k + 1), multiplier));
        k = k + 1;
    }
    assert(strategies@.subrange(0, k as int) =~= strategies@);
    row
}

/// Builds the quorum table for `count` quorums over the given strategies.
/// Fails exactly when the multiplier is zero.
pub fn build_quorum_config(count: usize, strategies: &Vec<Address>, settings: QuorumSettings) -> (result:
    Result<QuorumConfig, QuorumError>)
    ensures
        settings.multiplier == 0 ==> result is Err && result->Err_0 == QuorumError::ZeroMultiplier,
        settings.multiplier != 0 ==> result is Ok && result->Ok_0.seeded(
            count as nat,
            strategies@,
            settings,
        ) && result->Ok_0.well_formed(),
{
    if settings.multiplier == 0 {
        return Err(QuorumError::ZeroMultiplier);
    }
    let mut config = QuorumConfig {
        operator_set_params: Vec::new(),
        minimum_stakes: Vec::new(),
        strategy_params: Vec::new(),
    };
    let mut j: usize = 0;
    assert(config.operator_set_params@ =~= Seq::new(0nat, |i: int| settings.operator_set));
    assert(config.minimum_stakes@ =~= Seq::new(0nat, |i: int| settings.minimum_stake));
    while j < count
        invariant
            j <= count,
            settings.multiplier != 0,
            config.seeded(j as nat, strategies@, settings),
        decreases count - j,
    {
        let row = seed_row(strategies, settings.multiplier);
        config.operator_set_params.push(settings.operator_set);
        config.minimum_stakes.push(settings.minimum_stake);
        config.strategy_params.push(row);
        assert(config.operator_set_params@ =~= Seq::new(
            (j + 1) as nat,
            |i: int| settings.operator_set,
        ));
        assert(config.minimum_stakes@ =~= Seq::new((j + 1) as nat, |i: int| settings.minimum_stake));
        j = j + 1;
    }
    Ok(config)
}

/// A seeded table has one row for each quorum, and every row has one entry
/// for each strategy.
pub proof fn seeded_table_has_the_configured_shape(
    config: QuorumConfig,
    count: nat,
    strategies: Seq<Address>,
    settings: QuorumSettings,
)
    requires
        config.seeded(count, strategies, settings),
    ensures
        config.operator_set_params@.len() == count,
        config.minimum_stakes@.len() == count,
        config.strategy_params@.len() == count,
        forall|j: int|
            0 <= j < count ==> (#[trigger] config.strategy_params@[j])@.len() == strategies.len(),
        forall|j: int, k: int|
            0 <= j < count && 0 <= k < strategies.len() ==> (
            #[trigger] config.strategy_params@[j]@[k]).strategy == strategies[k],
{
}

} // verus!
