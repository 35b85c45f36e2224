//! The deployment as a state machine. The driver asks for the next action,
//! performs it on the chain, and reports the outcome; the pipeline decides
//! whether to go on, and keeps the table of resolved addresses.

use vstd::prelude::*;
use crate::address::Address;
use crate::plan::{
    consumed_by, consumes, has_single_initializers, initialized_before, initializes_once,
    is_ordered, plan_ordered, produced_before, produced_before_grows,
    produced_before_is_monotonic, produced_by, produced_rows, produces, runs_initializer_before,
    step_ready, Step,
};
use crate::proxy::{ProxyBinding, ProxyState};
use crate::quorum::{build_quorum_config, QuorumConfig, QuorumError, QuorumSettings};
use crate::record::ContractAddresses;
use crate::topology::{
    contract_at, every_row_has_a_contract, index_is_injective, Contract, CONTRACT_COUNT,
};

verus! {

/// What a deployment is configured with.
#[derive(Clone, Copy, Debug)]
pub struct Settings {
    /// The account that deploys and owns the contracts.
    pub operator: Address,
    /// The account that aggregates task responses.
    pub aggregator: Address,
    /// The account that submits tasks.
    pub task_generator: Address,
    /// The number of blocks within which a task may be answered.
    pub response_window: u32,
    /// The number of quorums that the registry coordinator starts with.
    pub quorum_count: usize,
    /// What each quorum is seeded with.
    pub quorum: QuorumSettings,
}

/// Where a deployment stands.
#[derive(Clone, Copy, Debug, PartialEq, Eq, Structural)]
pub enum Status {
    /// Steps are left.
    Running,
    /// Every step was confirmed.
    Completed,
    /// A step failed; nothing more will be done.
    Aborted,
}

/// What the chain answered to an action.
#[derive(Clone, Copy, Debug)]
pub enum Outcome {
    /// The receipt reports success and a created contract.
    Created(Address),
    /// The receipt reports success and no created contract.
    Succeeded,
    /// The receipt reports failure.
    Reverted,
}

/// Why a deployment did not start or stopped. The number is the index of
/// the step that failed.
#[derive(Clone, Copy, Debug, PartialEq, Eq, Structural)]
pub enum PipelineError {
    /// The operator is the zero address.
    InvalidOperator,
    /// A step of the plan takes an address that no earlier step produces.
    OutOfOrder,
    /// The plan runs the initializer of a proxy twice.
    RepeatedInitializer,
    /// The deployment is finished or aborted.
    NotRunning,
    /// The transaction of the step failed.
    Reverted(usize),
    /// The receipt does not fit the step: a created contract where none is
    /// made, or none where one is.
    UnexpectedOutcome(usize),
    /// The created address is zero, the operator's, or already taken.
    InvalidAddress(usize),
    /// The step creates a contract that already has an address.
    DuplicateContract(usize),
}

/// What the driver is to do next, with every address resolved.
#[derive(Debug)]
pub struct Action {
    /// The index of the step in the plan.
    pub index: usize,
    /// The step.
    pub step: Step,
    /// The addresses of the contracts that the step consumes, in that order.
    pub inputs: Vec<Address>,
    /// The response window, where the step creates the task manager's code.
    pub response_window: Option<u32>,
}

/// A deployment in progress.
#[derive(Debug)]
pub struct Pipeline {
    pub plan: Vec<Step>,
    pub position: usize,
    pub table: Vec<Option<Address>>,
    pub whitelist: Vec<Address>,
    pub status: Status,
    pub settings: Settings,
}

/// The step that creates the code of the task manager.
pub open spec fn creates_task_manager(step: Step) -> bool {
    step == (Step::Deploy { contract: Contract::TaskManagerImplementation })
}

/// The code that the step makes `proxy` forward to, if the step binds or
/// upgrades that proxy.
pub open spec fn binds(step: Step, proxy: Contract) -> Option<Contract> {
    match step {
        Step::BindProxy { proxy: bound, implementation, .. } => if bound == proxy {
            Some(implementation)
        } else {
            None
        },
        Step::Upgrade { proxy: bound, implementation, .. } => if bound == proxy {
            Some(implementation)
        } else {
            None
        },
        _ => None,
    }
}

/// What a step that binds or upgrades `proxy` settles: the implementation,
/// the admin, and whether the implementation is only a placeholder.
pub open spec fn binding_by(step: Step, proxy: Contract) -> Option<(Contract, Contract, bool)> {
    match step {
        Step::BindProxy { proxy: bound, implementation, admin, initialize } => if bound == proxy {
            Some((implementation, admin, !initialize))
        } else {
            None
        },
        Step::Upgrade { proxy: bound, implementation, admin, .. } => if bound == proxy {
            Some((implementation, admin, false))
        } else {
            None
        },
        _ => None,
    }
}

/// What the last of the first `n` steps that bound or upgraded `proxy`
/// settled.
pub open spec fn binding_after(plan: Seq<Step>, n: int, proxy: Contract) -> Option<
    (Contract, Contract, bool),
>
    decreases n,
{
    if n <= 0 || n > plan.len() {
        None
    } else {
        match binding_by(plan[n - 1], proxy) {
            Some(parts) => Some(parts),
            None => binding_after(plan, n - 1, proxy),
        }
    }
}

/// The code that `proxy` forwards to after the first `n` steps of the plan:
/// the implementation named by the last of them that bound or upgraded it.
pub open spec fn implementation_after(plan: Seq<Step>, n: int, proxy: Contract) -> Option<Contract>
    decreases n,
{
    if n <= 0 || n > plan.len() {
        None
    } else {
        match binds(plan[n - 1], proxy) {
            Some(code) => Some(code),
            None => implementation_after(plan, n - 1, proxy),
        }
    }
}

impl Pipeline {
    /// The invariant of a deployment: the plan is ordered; the table holds an
    /// address for exactly the contracts that the confirmed steps produced;
    /// no address in it is zero or the operator's, and no two are the same.
    pub open spec fn wf(&self) -> bool {
        &&& plan_ordered(self.plan@)
        &&& self.table@.len() == CONTRACT_COUNT
        &&& self.position <= self.plan@.len()
        &&& (self.status is Running ==> self.position < self.plan@.len())
        &&& (self.status is Completed ==> self.position == self.plan@.len())
        &&& !self.settings.operator.is_zero_spec()
        &&& forall|i: int|
            0 <= i < CONTRACT_COUNT && (#[trigger] self.table@[i]) is Some ==> !self.table@[i]->0.is_zero_spec()
                && self.table@[i]->0@ != self.settings.operator@
        &&& forall|i: int, j: int|
            0 <= i < j < CONTRACT_COUNT && (#[trigger] self.table@[i]) is Some && (
            #[trigger] self.table@[j]) is Some ==> self.table@[i]->0@ != self.table@[j]->0@
        &&& forall|c: Contract| #[trigger]
            self.table@[c.index_spec()] is Some <==> produced_before(
                self.plan@,
                self.position as int,
                c,
            )
    }

    /// The step that is due. Meaningful while the deployment runs.
    pub open spec fn due(&self) -> Step {
        self.plan@[self.position as int]
    }

    /// The address of a contract, once a step has produced it.
    pub open spec fn address_of(&self, contract: Contract) -> Option<Address> {
        self.table@[contract.index_spec()]
    }

    /// Whether a created address may enter the table: it is not zero, not the
    /// operator's, and not in the table.
    pub open spec fn fresh(&self, address: Address) -> bool {
        &&& !address.is_zero_spec()
        &&& address@ != self.settings.operator@
        &&& forall|i: int|
            0 <= i < self.table@.len() && (#[trigger] self.table@[i]) is Some ==> self.table@[i]->0@
                != address@
    }

    /// What an outcome leads to: `Ok` where the step is confirmed, else the
    /// error that stops the deployment.
    pub open spec fn judge(&self, outcome: Outcome) -> Result<(), PipelineError> {
        if !(self.status is Running) {
            Err(PipelineError::NotRunning)
        } else {
            match outcome {
                Outcome::Reverted => Err(PipelineError::Reverted(self.position)),
                Outcome::Succeeded => if produces(self.due()) is Some {
                    Err(PipelineError::UnexpectedOutcome(self.position))
                } else {
                    Ok(())
                },
                Outcome::Created(address) => match produces(self.due()) {
                    None => Err(PipelineError::UnexpectedOutcome(self.position)),
                    Some(made) => if self.address_of(made) is Some {
                        Err(PipelineError::DuplicateContract(self.position))
                    } else if !self.fresh(address) {
                        Err(PipelineError::InvalidAddress(self.position))
                    } else {
                        Ok(())
                    },
                },
            }
        }
    }

    /// The table after the due step is confirmed with `outcome`.
    pub open spec fn table_after(&self, outcome: Outcome) -> Seq<Option<Address>> {
        match (produces(self.due()), outcome) {
            (Some(made), Outcome::Created(address)) => self.table@.update(
                made.index_spec(),
                Some(address),
            ),
            _ => self.table@,
        }
    }

    /// The whitelisted strategies after the due step is confirmed.
    pub open spec fn whitelist_after(&self) -> Seq<Address> {
        match self.due() {
            Step::Whitelist { manager, strategy } => self.whitelist@.push(
                self.address_of(strategy)->0,
            ),
            _ => self.whitelist@,
        }
    }

    /// Starts a deployment that follows `plan`. Refuses a zero operator, a
    /// plan in which a step takes an address before a step produces it, and
    /// a plan that runs an initializer twice.
    pub fn new(plan: Vec<Step>, settings: Settings) -> (result: Result<Pipeline, PipelineError>)
        ensures
            settings.operator.is_zero_spec() ==> result is Err && result->Err_0
                == PipelineError::InvalidOperator,
            !settings.operator.is_zero_spec() && !plan_ordered(plan@) ==> result is Err
                && result->Err_0 == PipelineError::OutOfOrder,
            !settings.operator.is_zero_spec() && plan_ordered(plan@) && !initializes_once(plan@)
                ==> result is Err && result->Err_0 == PipelineError::RepeatedInitializer,
            !settings.operator.is_zero_spec() && plan_ordered(plan@) && initializes_once(plan@)
                ==> result is Ok && ({
                let p = result->Ok_0;
                &&& p.wf()
                &&& p.plan == plan
                &&& p.settings == settings
                &&& p.position == 0
                &&& p.whitelist@.len() == 0
                &&& forall|i: int| 0 <= i < CONTRACT_COUNT ==> p.table@[i] is None
                &&& p.status == (if plan@.len() == 0 {
                    Status::Completed
                } else {
                    Status::Running
                })
            }),
    {
        if settings.operator.is_zero() {
            return Err(PipelineError::InvalidOperator);
        }
        if !is_ordered(&plan) {
            return Err(PipelineError::OutOfOrder);
        }
        if !has_single_initializers(&plan) {
            return Err(PipelineError::RepeatedInitializer);
        }
        let mut table: Vec<Option<Address>> = Vec::new();
        let mut n: usize = 0;
        while n < CONTRACT_COUNT
            invariant
                n <= CONTRACT_COUNT,
                table@.len() == n,
                forall|r: int| 0 <= r < n ==> table@[r] is None,
            decreases CONTRACT_COUNT - n,
        {
            table.push(None);
            n = n + 1;
        }
        let status = if plan.len() == 0 {
            Status::Completed
        } else {
            Status::Running
        };
        Ok(Pipeline { plan, position: 0, table, whitelist: Vec::new(), status, settings })
    }

    /// Checks the invariant of a deployment, for a caller that built or
    /// changed the value by hand.
    pub fn is_well_formed(&self) -> (result: bool)
        ensures
            result == self.wf(),
    {
        if self.table.len() != CONTRACT_COUNT || self.position > self.plan.len() {
            return false;
        }
        match self.status {
            Status::Running => {
                if self.position >= self.plan.len() {
                    return false;
                }
            },
            Status::Completed => {
                if self.position != self.plan.len() {
                    return false;
                }
            },
            Status::Aborted => {},
        }
        if self.settings.operator.is_zero() || !is_ordered(&self.plan) {
            return false;
        }
        let made = produced_rows(&self.plan, self.position);
        let mut i: usize = 0;
        while i < CONTRACT_COUNT
            invariant
                i <= CONTRACT_COUNT,
                self.table@.len() == CONTRACT_COUNT,
                made@.len() == CONTRACT_COUNT,
                forall|c: Contract| #[trigger]
                    made@[c.index_spec()] <==> produced_before(
                        self.plan@,
                        self.position as int,
                        c,
                    ),
                forall|r: int| 0 <= r < i ==> made@[r] == (#[trigger] self.table@[r]) is Some,
                forall|r: int|
                    0 <= r < i && (#[trigger] self.table@[r]) is Some ==> !self.table@[r]->0.is_zero_spec()
                        && self.table@[r]->0@ != self.settings.operator@,
                forall|r: int, q: int|
                    0 <= r < i && r < q < CONTRACT_COUNT && (#[trigger] self.table@[r]) is Some && (
                    #[trigger] self.table@[q]) is Some ==> self.table@[r]->0@
                        != self.table@[q]->0@,
            decreases CONTRACT_COUNT - i,
        {
            if made[i] != self.table[i].is_some() {
                proof {
                    every_row_has_a_contract(i as int);
                    assert(self.table@[contract_at(i as int).index_spec()] is Some
                        != produced_before(
                        self.plan@,
                        self.position as int,
                        contract_at(i as int),
                    ));
                }
                return false;
            }
            match self.table[i] {
                Some(held) => {
                    if held.is_zero() || held == self.settings.operator {
                        return false;
                    }
                    let mut j: usize = i + 1;
                    while j < CONTRACT_COUNT
                        invariant
                            i < j <= CONTRACT_COUNT,
                            self.table@.len() == CONTRACT_COUNT,
                            self.table@[i as int] == Some(held),
                            forall|q: int|
                                i < q < j && (#[trigger] self.table@[q]) is Some ==> held@
                                    != self.table@[q]->0@,
                        decreases CONTRACT_COUNT - j,
                    {
                        match self.table[j] {
                            Some(other) => {
                                if held == other {
                                    return false;
                                }
                            },
                            None => {},
                        }
                        j = j + 1;
                    }
                },
                None => {},
            }
            i = i + 1;
        }
        true
    }

    /// Tells whether an address is already in the table.
    pub fn is_taken(&self, address: &Address) -> (result: bool)
        ensures
            result == exists|i: int|
                0 <= i < self.table@.len() && (#[trigger] self.table@[i]) is Some
                    && self.table@[i]->0@ == address@,
    {
        let mut i: usize = 0;
        while i < self.table.len()
            invariant
                i <= self.table@.len(),
                forall|r: int|
                    0 <= r < i && (#[trigger] self.table@[r]) is Some ==> self.table@[r]->0@
                        != address@,
            decreases self.table@.len() - i,
        {
            match &self.table[i] {
                Some(held) => {
                    if *held == *address {
                        return true;
                    }
                },
                None => {},
            }
            i = i + 1;
        }
        false
    }

    /// The action that is due: the step with the address of everything it
    /// consumes. While the deployment runs there always is one, because the
    /// plan is ordered.
    pub fn next_action(&self) -> (result: Result<Action, PipelineError>)
        requires
            self.wf(),
        ensures
            !(self.status is Running) ==> result is Err && result->Err_0
                == PipelineError::NotRunning,
            self.status is Running ==> result is Ok && ({
                let action = result->Ok_0;
                &&& action.index == self.position
                &&& action.step == self.due()
                &&& action.inputs@.len() == consumes(self.due()).len()
                &&& forall|k: int|
                    0 <= k < action.inputs@.len() ==> Some(#[trigger] action.inputs@[k])
                        == self.address_of(consumes(self.due())[k])
                &&& action.response_window == (if creates_task_manager(self.due()) {
                    Some(self.settings.response_window)
                } else {
                    None
                })
            }),
    {
        match self.status {
            Status::Running => {},
            _ => {
                return Err(PipelineError::NotRunning);
            },
        }
        let step = self.plan[self.position];
        let needed = consumed_by(step);
        let mut inputs: Vec<Address> = Vec::new();
        let mut k: usize = 0;
        while k < needed.len()
            invariant
                self.wf(),
                self.status is Running,
                k <= needed@.len(),
                needed@ == consumes(self.due()),
                inputs@.len() == k,
                forall|m: int|
                    0 <= m < k ==> Some(#[trigger] inputs@[m]) == self.address_of(needed@[m]),
            decreases needed@.len() - k,
        {
            let contract = needed[k];
            assert(step_ready(self.plan@, self.position as int));
            assert(produced_before(
                self.plan@,
                self.position as int,
                consumes(self.plan@[self.position as int])[k as int],
            ));
            let address = self.table[contract.index()].unwrap();
            inputs.push(address);
            k = k + 1;
        }
        let response_window = match step {
            Step::Deploy { contract: Contract::TaskManagerImplementation } => Some(
                self.settings.response_window,
            ),
            _ => None,
        };
        Ok(Action { index: self.position, step, inputs, response_window })
    }

    /// Takes the chain's answer to the due action. A confirmed step moves the
    /// deployment on and, where it created a contract, enters the address in
    /// the table; anything else aborts the deployment for good.
    pub fn advance(&mut self, outcome: Outcome) -> (result: Result<(), PipelineError>)
        requires
            old(self).wf(),
        ensures
            final(self).wf(),
            final(self).plan == old(self).plan,
            final(self).settings == old(self).settings,
            result == old(self).judge(outcome),
            result is Ok ==> {
                &&& final(self).position == old(self).position + 1
                &&& final(self).table@ == old(self).table_after(outcome)
                &&& final(self).whitelist@ == old(self).whitelist_after()
                &&& final(self).status == (if old(self).position + 1 == old(self).plan@.len() {
                    Status::Completed
                } else {
                    Status::Running
                })
            },
            result is Err ==> {
                &&& final(self).position == old(self).position
                &&& final(self).table == old(self).table
                &&& final(self).whitelist == old(self).whitelist
                &&& final(self).status == (if old(self).status is Running {
                    Status::Aborted
                } else {
                    old(self).status
                })
            },
    {
        match self.status {
            Status::Running => {},
            _ => {
                return Err(PipelineError::NotRunning);
            },
        }
        let step = self.plan[self.position];
        let made = produced_by(step);
        let verdict: Result<(), PipelineError> = match outcome {
            Outcome::Reverted => Err(PipelineError::Reverted(self.position)),
            Outcome::Succeeded => match made {
                Some(_) => Err(PipelineError::UnexpectedOutcome(self.position)),
                None => Ok(()),
            },
            Outcome::Created(address) => match made {
                None => Err(PipelineError::UnexpectedOutcome(self.position)),
                Some(contract) => {
                    if self.table[contract.index()].is_some() {
                        Err(PipelineError::DuplicateContract(self.position))
                    } else if address.is_zero() || address == self.settings.operator
                        || self.is_taken(&address) {
                        Err(PipelineError::InvalidAddress(self.position))
                    } else {
                        Ok(())
                    }
                },
            },
        };
        if verdict.is_err() {
            self.status = Status::Aborted;
            return verdict;
        }
        match step {
            Step::Whitelist { manager, strategy } => {
                assert(step_ready(self.plan@, self.position as int));
                assert(consumes(step)[1] == strategy);
                assert(produced_before(self.plan@, self.position as int, consumes(step)[1]));
                let listed = self.table[strategy.index()].unwrap();
                self.whitelist.push(listed);
            },
            _ => {},
        }
        match (made, outcome) {
            (Some(contract), Outcome::Created(address)) => {
                self.table.set(contract.index(), Some(address));
            },
            _ => {},
        }
        proof {
            assert forall|c: Contract| #[trigger]
                self.table@[c.index_spec()] is Some <==> produced_before(
                    self.plan@,
                    self.position + 1,
                    c,
                ) by {
                produced_before_grows(self.plan@, self.position as int, c);
                if produces(step) is Some && c.index_spec() == produces(step)->0.index_spec() {
                    index_is_injective(c, produces(step)->0);
                }
            }
        }
        let total = self.plan.len();
        self.position = self.position + 1;
        if self.position == total {
            self.status = Status::Completed;
        }
        Ok(())
    }

    /// The address of a contract, if a confirmed step has produced it.
    pub fn resolve(&self, contract: Contract) -> (result: Option<Address>)
        requires
            self.wf(),
        ensures
            result == self.address_of(contract),
            result is Some <==> produced_before(self.plan@, self.position as int, contract),
    {
        self.table[contract.index()]
    }

    /// The address of the code that `proxy` forwards to now: the
    /// implementation of the last confirmed step that bound or upgraded it.
    /// `None` while no confirmed step has bound the proxy.
    pub fn implementation_of(&self, proxy: Contract) -> (result: Option<Address>)
        requires
            self.wf(),
        ensures
            result == (match implementation_after(self.plan@, self.position as int, proxy) {
                Some(code) => self.address_of(code),
                None => None,
            }),
    {
        let mut n: usize = self.position;
        while n > 0
            invariant
                self.wf(),
                n <= self.position,
                implementation_after(self.plan@, self.position as int, proxy)
                    == implementation_after(self.plan@, n as int, proxy),
            decreases n,
        {
            match self.plan[n - 1] {
                Step::BindProxy { proxy: bound, implementation, .. } => {
                    if bound == proxy {
                        return self.table[implementation.index()];
                    }
                },
                Step::Upgrade { proxy: bound, implementation, .. } => {
                    if bound == proxy {
                        return self.table[implementation.index()];
                    }
                },
                _ => {},
            }
            n = n - 1;
        }
        None
    }

    /// The binding of `proxy` as the confirmed steps leave it: its address,
    /// the address of the code it forwards to, the address of its admin, and
    /// whether its initializer has run. `None` while no confirmed step has
    /// bound the proxy.
    pub fn binding_of(&self, proxy: Contract) -> (result: Option<ProxyBinding>)
        requires
            self.wf(),
        ensures
            match binding_after(self.plan@, self.position as int, proxy) {
                None => result is None,
                Some(parts) => result is Some && {
                    let binding = result->0;
                    &&& Some(binding.proxy) == self.address_of(proxy)
                    &&& Some(binding.implementation) == self.address_of(parts.0)
                    &&& Some(binding.admin) == self.address_of(parts.1)
                    &&& binding.state == (if parts.2 {
                        ProxyState::PlaceholderBound
                    } else {
                        ProxyState::ImplementationBound {
                            initialized: initialized_before(
                                self.plan@,
                                self.position as int,
                                proxy,
                            ),
                        }
                    })
                },
            },
    {
        let mut n: usize = self.position;
        while n > 0
            invariant
                self.wf(),
                n <= self.position,
                binding_after(self.plan@, self.position as int, proxy) == binding_after(
                    self.plan@,
                    n as int,
                    proxy,
                ),
            decreases n,
        {
            let step = self.plan[n - 1];
            let found: Option<(Contract, Contract, bool)> = match step {
                Step::BindProxy { proxy: bound, implementation, admin, initialize } => {
                    if bound == proxy {
                        Some((implementation, admin, !initialize))
                    } else {
                        None
                    }
                },
                Step::Upgrade { proxy: bound, implementation, admin, .. } => {
                    if bound == proxy {
                        Some((implementation, admin, false))
                    } else {
                        None
                    }
                },
                _ => None,
            };
            match found {
                Some((code, admin, placeholder)) => {
                    proof {
                        let at = n - 1;
                        let here = self.position as int;
                        assert(step_ready(self.plan@, at));
                        match step {
                            Step::BindProxy { .. } => {
                                assert(consumes(step)[0] == code && consumes(step)[1] == admin);
                                assert(produced_before(self.plan@, at, consumes(step)[0]));
                                assert(produced_before(self.plan@, at, consumes(step)[1]));
                                assert(produces(self.plan@[at]) == Some(proxy));
                                assert(produced_before(self.plan@, here, proxy));
                            },
                            _ => {
                                assert(consumes(step)[0] == admin && consumes(step)[1] == proxy
                                    && consumes(step)[2] == code);
                                assert(produced_before(self.plan@, at, consumes(step)[0]));
                                assert(produced_before(self.plan@, at, consumes(step)[1]));
                                assert(produced_before(self.plan@, at, consumes(step)[2]));
                                produced_before_is_monotonic(self.plan@, at, here, proxy);
                            },
                        }
                        produced_before_is_monotonic(self.plan@, at, here, code);
                        produced_before_is_monotonic(self.plan@, at, here, admin);
                    }
                    let state = if placeholder {
                        ProxyState::PlaceholderBound
                    } else {
                        ProxyState::ImplementationBound {
                            initialized: runs_initializer_before(&self.plan, self.position, proxy),
                        }
                    };
                    return Some(
                        ProxyBinding {
                            state,
                            proxy: self.table[proxy.index()].unwrap(),
                            implementation: self.table[code.index()].unwrap(),
                            admin: self.table[admin.index()].unwrap(),
                        },
                    );
                },
                None => {},
            }
            n = n - 1;
        }
        None
    }

    /// The quorum table for the registry coordinator's initializer: the
    /// configured number of quorums, each over every strategy whitelisted so
    /// far.
    pub fn coordinator_quorums(&self) -> (result: Result<QuorumConfig, QuorumError>)
        ensures
            self.settings.quorum.multiplier == 0 ==> result is Err && result->Err_0
                == QuorumError::ZeroMultiplier,
            self.settings.quorum.multiplier != 0 ==> result is Ok && result->Ok_0.seeded(
                self.settings.quorum_count as nat,
                self.whitelist@,
                self.settings.quorum,
            ) && result->Ok_0.well_formed(),
    {
        build_quorum_config(self.settings.quorum_count, &self.whitelist, self.settings.quorum)
    }

    /// Whether the deployment is complete and has an address for each of the
    /// five contracts of the record.
    pub open spec fn reportable(&self) -> bool {
        &&& self.status is Completed
        &&& self.address_of(Contract::ServiceManager) is Some
        &&& self.address_of(Contract::RegistryCoordinator) is Some
        &&& self.address_of(Contract::OperatorStateRetriever) is Some
        &&& self.address_of(Contract::DelegationManager) is Some
        &&& self.address_of(Contract::AvsDirectory) is Some
    }

    /// The record of a completed deployment. There is none while steps are
    /// left, after a failure, or where the plan made none of the contracts
    /// that the record names.
    pub fn record(&self) -> (result: Option<ContractAddresses>)
        requires
            self.wf(),
        ensures
            result is Some <==> self.reportable(),
            result is Some ==> {
                let r = result->0;
                &&& r.sound()
                &&& Some(r.service_manager) == self.address_of(Contract::ServiceManager)
                &&& Some(r.registry_coordinator) == self.address_of(Contract::RegistryCoordinator)
                &&& Some(r.operator_state_retriever) == self.address_of(
                    Contract::OperatorStateRetriever,
                )
                &&& Some(r.delegation_manager) == self.address_of(Contract::DelegationManager)
                &&& Some(r.avs_directory) == self.address_of(Contract::AvsDirectory)
                &&& r.operator == self.settings.operator
            },
    {
        match self.status {
            Status::Completed => {},
            _ => {
                return None;
            },
        }
        let service_manager = self.table[Contract::ServiceManager.index()];
        let registry_coordinator = self.table[Contract::RegistryCoordinator.index()];
        let operator_state_retriever = self.table[Contract::OperatorStateRetriever.index()];
        let delegation_manager = self.table[Contract::DelegationManager.index()];
        let avs_directory = self.table[Contract::AvsDirectory.index()];
        match (
            service_manager,
            registry_coordinator,
            operator_state_retriever,
            delegation_manager,
            avs_directory,
        ) {
            (Some(a), Some(b), Some(c), Some(d), Some(e)) => {
                let r = ContractAddresses {
                    service_manager: a,
                    registry_coordinator: b,
                    operator_state_retriever: c,
                    delegation_manager: d,
                    avs_directory: e,
                    operator: self.settings.operator,
                };
                Some(r)
            },
            _ => None,
        }
    }
}

/// No upgrade is skipped or reordered: after `n` steps a proxy forwards to
/// the implementation of step `i`, where `i` is the last of them that bound
/// or upgraded it.
pub proof fn last_binding_decides(plan: Seq<Step>, n: int, i: int, proxy: Contract)
    requires
        0 <= i < n <= plan.len(),
        binds(plan[i], proxy) is Some,
        forall|j: int| i < j < n ==> binds(#[trigger] plan[j], proxy) is None,
    ensures
        implementation_after(plan, n, proxy) == binds(plan[i], proxy),
    decreases n,
{
    if n - 1 > i {
        last_binding_decides(plan, n - 1, i, proxy);
    }
}

/// The binding of a proxy names the implementation that the proxy forwards
/// to.
pub proof fn binding_names_the_implementation(plan: Seq<Step>, n: int, proxy: Contract)
    ensures
        binding_after(plan, n, proxy) is Some <==> implementation_after(plan, n, proxy) is Some,
        binding_after(plan, n, proxy) is Some ==> ({
            let parts = binding_after(plan, n, proxy)->0;
            Some(parts.0) == implementation_after(plan, n, proxy)
        }),
    decreases n,
{
    if 0 < n <= plan.len() {
        binding_names_the_implementation(plan, n - 1, proxy);
    }
}

/// A confirmed binding or upgrade takes effect at once: the proxy then
/// forwards to the step's implementation, and that implementation has an
/// address, the one it had before the step.
pub proof fn confirmed_upgrade_takes_effect(
    before: Pipeline,
    after: Pipeline,
    outcome: Outcome,
    proxy: Contract,
)
    requires
        before.wf(),
        before.judge(outcome) is Ok,
        binds(before.due(), proxy) is Some,
        after.plan == before.plan,
        after.position == before.position + 1,
        after.table@ == before.table_after(outcome),
    ensures
        implementation_after(after.plan@, after.position as int, proxy) == binds(
            before.due(),
            proxy,
        ),
        after.address_of(binds(before.due(), proxy)->0) is Some,
        after.address_of(binds(before.due(), proxy)->0) == before.address_of(
            binds(before.due(), proxy)->0,
        ),
{
    let step = before.due();
    let code = binds(step, proxy)->0;
    assert(step_ready(before.plan@, before.position as int));
    match step {
        Step::BindProxy { proxy: bound, implementation, admin, initialize } => {
            assert(consumes(step)[0] == code);
            assert(produced_before(before.plan@, before.position as int, consumes(step)[0]));
            assert(before.address_of(bound) is None);
        },
        Step::Upgrade { proxy: bound, implementation, admin, initialize } => {
            assert(consumes(step)[2] == code);
            assert(produced_before(before.plan@, before.position as int, consumes(step)[2]));
        },
        _ => {},
    }
}

/// Two deployments that follow one plan and stand at one step are due the
/// same step and have resolved the same contracts, whatever addresses their
/// chains gave: the shape of the topology does not depend on the addresses.
pub proof fn shape_is_independent_of_addresses(a: Pipeline, b: Pipeline)
    requires
        a.wf(),
        b.wf(),
        a.plan@ == b.plan@,
        a.position == b.position,
    ensures
        a.due() == b.due(),
        forall|c: Contract| a.address_of(c) is Some <==> b.address_of(c) is Some,
        forall|proxy: Contract|
            implementation_after(a.plan@, a.position as int, proxy) == implementation_after(
                b.plan@,
                b.position as int,
                proxy,
            ),
{
    assert forall|c: Contract| a.address_of(c) is Some <==> b.address_of(c) is Some by {
        assert(a.table@[c.index_spec()] is Some <==> produced_before(
            a.plan@,
            a.position as int,
            c,
        ));
        assert(b.table@[c.index_spec()] is Some <==> produced_before(
            b.plan@,
            b.position as int,
            c,
        ));
    }
}

/// While a deployment runs, everything that the due step consumes has an
/// address.
pub proof fn due_step_is_resolved(p: Pipeline, k: int)
    requires
        p.wf(),
        p.status is Running,
        0 <= k < consumes(p.due()).len(),
    ensures
        p.address_of(consumes(p.due())[k]) is Some,
{
    assert(step_ready(p.plan@, p.position as int));
    assert(produced_before(p.plan@, p.position as int, consumes(p.due())[k]));
}

} // verus!
