//! The reference topology: its plan and the values it is configured with.

use vstd::prelude::*;
use crate::address::Address;
use crate::pipeline::{
    binds, implementation_after, last_binding_decides, Pipeline, PipelineError, Settings,
};
use crate::plan::{
    consumes, initialized_before, initializes, initializes_once, plan_ordered, produces,
    step_ready, Step,
};
use crate::quorum::{OperatorSetParam, QuorumSettings};
use crate::task_generator::TaskGenerator;
use crate::topology::{Contract, CONTRACT_COUNT};

verus! {

/// The number of blocks within which a task may be answered.
pub const TASK_RESPONSE_WINDOW_BLOCK: u32 = 10;

/// The number of quorums of the reference topology.
pub const QUORUM_COUNT: usize = 1;

/// The most operators a quorum admits.
pub const MAX_OPERATOR_COUNT: u32 = 10000;

/// Basis points of an operator's stake that a newcomer must exceed.
pub const KICK_BIPS_OF_OPERATOR_STAKE: u16 = 15000;

/// Basis points of the total stake below which an operator can be replaced.
pub const KICK_BIPS_OF_TOTAL_STAKE: u16 = 100;

/// The two limits that the strategy's initializer is called with.
pub const STRATEGY_LIMITS: (u64, u64) = (1, 100);

/// The bytes of the account that aggregates task responses and of the account
/// that generates tasks: the last of the node's development accounts.
pub open spec fn service_account_bytes() -> Seq<u8> {
    seq![
        0xa0u8, 0xEe, 0x7A, 0x14, 0x2d, 0x26, 0x7C, 0x1f, 0x36, 0x71, 0x4E, 0x4a, 0x8F, 0x75, 0x61,
        0x2F, 0x20, 0xa7, 0x97, 0x20,
    ]
}

/// The account that aggregates task responses and generates tasks.
pub fn service_account() -> (result: Address)
    ensures
        result@ == service_account_bytes(),
        !result.is_zero_spec(),
{
    let result = Address::from_bytes(
        [
            0xa0u8, 0xEe, 0x7A, 0x14, 0x2d, 0x26, 0x7C, 0x1f, 0x36, 0x71, 0x4E, 0x4a, 0x8F, 0x75,
            0x61, 0x2F, 0x20, 0xa7, 0x97, 0x20,
        ],
    );
    assert(result@ =~= service_account_bytes());
    assert(result.bytes@[0] == 0xa0u8);
    result
}

/// What every quorum of the reference topology is seeded with: no minimum
/// stake, and every strategy with multiplier 1.
pub open spec fn reference_quorum() -> QuorumSettings {
    QuorumSettings {
        operator_set: OperatorSetParam {
            max_operator_count: 10000,
            kick_bips_of_operator_stake: 15000,
            kick_bips_of_total_stake: 100,
        },
        minimum_stake: 0,
        multiplier: 1,
    }
}

/// The settings of the reference topology for the given deploying account.
pub fn reference_settings(operator: Address) -> (result: Settings)
    ensures
        result.operator == operator,
        result.aggregator@ == service_account_bytes(),
        result.task_generator@ == service_account_bytes(),
        result.response_window == 10,
        result.quorum_count == 1,
        result.quorum == reference_quorum(),
{
    Settings {
        operator,
        aggregator: service_account(),
        task_generator: service_account(),
        response_window: TASK_RESPONSE_WINDOW_BLOCK,
        quorum_count: QUORUM_COUNT,
        quorum: QuorumSettings {
            operator_set: OperatorSetParam {
                max_operator_count: MAX_OPERATOR_COUNT,
                kick_bips_of_operator_stake: KICK_BIPS_OF_OPERATOR_STAKE,
                kick_bips_of_total_stake: KICK_BIPS_OF_TOTAL_STAKE,
            },
            minimum_stake: 0,
            multiplier: 1,
        },
    }
}

/// The steps of the reference topology: the primitives and the strategy;
/// a placeholder proxy for every contract of a reference cycle; the
/// contracts that stand behind no proxy; then each implementation with its
/// upgrade, the task manager last.
pub open spec fn reference_steps() -> Seq<Step> {
    seq![
        (Step::Deploy { contract: Contract::StrategyManagerInterface }),
        (Step::Deploy { contract: Contract::StrategyProxyAdmin }),
        (Step::Deploy { contract: Contract::PauserRegistry }),
        (Step::Deploy { contract: Contract::BaseStrategy }),
        (Step::Deploy { contract: Contract::MockToken }),
        (Step::BindProxy { proxy: Contract::StrategyProxy, implementation: Contract::BaseStrategy, admin: Contract::StrategyProxyAdmin, initialize: true }),
        (Step::Whitelist { manager: Contract::StrategyManagerInterface, strategy: Contract::StrategyProxy }),
        (Step::Deploy { contract: Contract::ServiceProxyAdmin }),
        (Step::Deploy { contract: Contract::EmptyContract }),
        (Step::BindProxy { proxy: Contract::ServiceManager, implementation: Contract::EmptyContract, admin: Contract::ServiceProxyAdmin, initialize: false }),
        (Step::BindProxy { proxy: Contract::TaskManager, implementation: Contract::EmptyContract, admin: Contract::ServiceProxyAdmin, initialize: false }),
        (Step::BindProxy { proxy: Contract::RegistryCoordinator, implementation: Contract::EmptyContract, admin: Contract::ServiceProxyAdmin, initialize: false }),
        (Step::BindProxy { proxy: Contract::BlsApkRegistry, implementation: Contract::EmptyContract, admin: Contract::ServiceProxyAdmin, initialize: false }),
        (Step::BindProxy { proxy: Contract::IndexRegistry, implementation: Contract::EmptyContract, admin: Contract::ServiceProxyAdmin, initialize: false }),
        (Step::BindProxy { proxy: Contract::StakeRegistry, implementation: Contract::EmptyContract, admin: Contract::ServiceProxyAdmin, initialize: false }),
        (Step::BindProxy { proxy: Contract::StrategyManager, implementation: Contract::EmptyContract, admin: Contract::ServiceProxyAdmin, initialize: false }),
        (Step::BindProxy { proxy: Contract::DelegationManager, implementation: Contract::EmptyContract, admin: Contract::ServiceProxyAdmin, initialize: false }),
        (Step::Deploy { contract: Contract::OperatorStateRetriever }),
        (Step::Deploy { contract: Contract::DepositStub }),
        (Step::Deploy { contract: Contract::BeaconStub }),
        (Step::Deploy { contract: Contract::EigenPodManager }),
        (Step::Deploy { contract: Contract::AvsDirectory }),
        (Step::Deploy { contract: Contract::StrategyManagerImplementation }),
        (Step::Upgrade { proxy: Contract::StrategyManager, implementation: Contract::StrategyManagerImplementation, admin: Contract::ServiceProxyAdmin, initialize: false }),
        (Step::Initialize { proxy: Contract::StrategyManager }),
        (Step::Deploy { contract: Contract::DelegationManagerImplementation }),
        (Step::Upgrade { proxy: Contract::DelegationManager, implementation: Contract::DelegationManagerImplementation, admin: Contract::ServiceProxyAdmin, initialize: false }),
        (Step::Deploy { contract: Contract::StakeRegistryImplementation }),
        (Step::Upgrade { proxy: Contract::StakeRegistry, implementation: Contract::StakeRegistryImplementation, admin: Contract::ServiceProxyAdmin, initialize: false }),
        (Step::Deploy { contract: Contract::BlsApkRegistryImplementation }),
        (Step::Upgrade { proxy: Contract::BlsApkRegistry, implementation: Contract::BlsApkRegistryImplementation, admin: Contract::ServiceProxyAdmin, initialize: false }),
        (Step::Deploy { contract: Contract::IndexRegistryImplementation }),
        (Step::Upgrade { proxy: Contract::IndexRegistry, implementation: Contract::IndexRegistryImplementation, admin: Contract::ServiceProxyAdmin, initialize: false }),
        (Step::Deploy { contract: Contract::RegistryCoordinatorImplementation }),
        (Step::Upgrade { proxy: Contract::RegistryCoordinator, implementation: Contract::RegistryCoordinatorImplementation, admin: Contract::ServiceProxyAdmin, initialize: false }),
        (Step::Initialize { proxy: Contract::RegistryCoordinator }),
        (Step::Deploy { contract: Contract::ServiceManagerImplementation }),
        (Step::Upgrade { proxy: Contract::ServiceManager, implementation: Contract::ServiceManagerImplementation, admin: Contract::ServiceProxyAdmin, initialize: false }),
        (Step::Deploy { contract: Contract::TaskManagerImplementation }),
        (Step::Upgrade { proxy: Contract::TaskManager, implementation: Contract::TaskManagerImplementation, admin: Contract::ServiceProxyAdmin, initialize: true }),
    ]
}

/// The reference plan is ordered: no step takes an address before a step
/// has produced it.
#[verifier::rlimit(60)]
pub proof fn reference_plan_is_ordered()
    ensures
        plan_ordered(reference_steps()),
{
    let p = reference_steps();
    assert(p.len() == 40);
    assert(step_ready(p, 0)) by {
        assert(consumes(p[0]).len() == 0);
    }
    assert(step_ready(p, 1)) by {
        assert(consumes(p[1]).len() == 0);
    }
    assert(step_ready(p, 2)) by {
        assert(consumes(p[2]).len() == 0);
    }
    assert(step_ready(p, 3)) by {
        assert(consumes(p[3]).len() == 0);
    }
    assert(step_ready(p, 4)) by {
        assert(consumes(p[4]).len() == 0);
    }
    assert(step_ready(p, 5)) by {
        assert(consumes(p[5]).len() == 4);
        assert(consumes(p[5])[0] == Contract::BaseStrategy && produces(p[3]) == Some(Contract::BaseStrategy));
        assert(consumes(p[5])[1] == Contract::StrategyProxyAdmin && produces(p[1]) == Some(Contract::StrategyProxyAdmin));
        assert(consumes(p[5])[2] == Contract::MockToken && produces(p[4]) == Some(Contract::MockToken));
        assert(consumes(p[5])[3] == Contract::PauserRegistry && produces(p[2]) == Some(Contract::PauserRegistry));
    }
    assert(step_ready(p, 6)) by {
        assert(consumes(p[6]).len() == 2);
        assert(consumes(p[6])[0] == Contract::StrategyManagerInterface && produces(p[0]) == Some(Contract::StrategyManagerInterface));
        assert(consumes(p[6])[1] == Contract::StrategyProxy && produces(p[5]) == Some(Contract::StrategyProxy));
    }
    assert(step_ready(p, 7)) by {
        assert(consumes(p[7]).len() == 0);
    }
    assert(step_ready(p, 8)) by {
        assert(consumes(p[8]).len() == 0);
    }
    assert(step_ready(p, 9)) by {
        assert(consumes(p[9]).len() == 2);
        assert(consumes(p[9])[0] == Contract::EmptyContract && produces(p[8]) == Some(Contract::EmptyContract));
        assert(consumes(p[9])[1] == Contract::ServiceProxyAdmin && produces(p[7]) == Some(Contract::ServiceProxyAdmin));
    }
    assert(step_ready(p, 10)) by {
        assert(consumes(p[10]).len() == 2);
        assert(consumes(p[10])[0] == Contract::EmptyContract && produces(p[8]) == Some(Contract::EmptyContract));
        assert(consumes(p[10])[1] == Contract::ServiceProxyAdmin && produces(p[7]) == Some(Contract::ServiceProxyAdmin));
    }
    assert(step_ready(p, 11)) by {
        assert(consumes(p[11]).len() == 2);
        assert(consumes(p[11])[0] == Contract::EmptyContract && produces(p[8]) == Some(Contract::EmptyContract));
        assert(consumes(p[11])[1] == Contract::ServiceProxyAdmin && produces(p[7]) == Some(Contract::ServiceProxyAdmin));
    }
    assert(step_ready(p, 12)) by {
        assert(consumes(p[12]).len() == 2);
        assert(consumes(p[12])[0] == Contract::EmptyContract && produces(p[8]) == Some(Contract::EmptyContract));
        assert(consumes(p[12])[1] == Contract::ServiceProxyAdmin && produces(p[7]) == Some(Contract::ServiceProxyAdmin));
    }
    assert(step_ready(p, 13)) by {
        assert(consumes(p[13]).len() == 2);
        assert(consumes(p[13])[0] == Contract::EmptyContract && produces(p[8]) == Some(Contract::EmptyContract));
        assert(consumes(p[13])[1] == Contract::ServiceProxyAdmin && produces(p[7]) == Some(Contract::ServiceProxyAdmin));
    }
    assert(step_ready(p, 14)) by {
        assert(consumes(p[14]).len() == 2);
        assert(consumes(p[14])[0] == Contract::EmptyContract && produces(p[8]) == Some(Contract::EmptyContract));
        assert(consumes(p[14])[1] == Contract::ServiceProxyAdmin && produces(p[7]) == Some(Contract::ServiceProxyAdmin));
    }
    assert(step_ready(p, 15)) by {
        assert(consumes(p[15]).len() == 2);
        assert(consumes(p[15])[0] == Contract::EmptyContract && produces(p[8]) == Some(Contract::EmptyContract));
        assert(consumes(p[15])[1] == Contract::ServiceProxyAdmin && produces(p[7]) == Some(Contract::ServiceProxyAdmin));
    }
    assert(step_ready(p, 16)) by {
        assert(consumes(p[16]).len() == 2);
        assert(consumes(p[16])[0] == Contract::EmptyContract && produces(p[8]) == Some(Contract::EmptyContract));
        assert(consumes(p[16])[1] == Contract::ServiceProxyAdmin && produces(p[7]) == Some(Contract::ServiceProxyAdmin));
    }
    assert(step_ready(p, 17)) by {
        assert(consumes(p[17]).len() == 0);
    }
    assert(step_ready(p, 18)) by {
        assert(consumes(p[18]).len() == 0);
    }
    assert(step_ready(p, 19)) by {
        assert(consumes(p[19]).len() == 0);
    }
    assert(step_ready(p, 20)) by {
        assert(consumes(p[20]).len() == 4);
        assert(consumes(p[20])[0] == Contract::DepositStub && produces(p[18]) == Some(Contract::DepositStub));
        assert(consumes(p[20])[1] == Contract::BeaconStub && produces(p[19]) == Some(Contract::BeaconStub));
        assert(consumes(p[20])[2] == Contract::StrategyManager && produces(p[15]) == Some(Contract::StrategyManager));
        assert(consumes(p[20])[3] == Contract::DelegationManager && produces(p[16]) == Some(Contract::DelegationManager));
    }
    assert(step_ready(p, 21)) by {
        assert(consumes(p[21]).len() == 1);
        assert(consumes(p[21])[0] == Contract::DelegationManager && produces(p[16]) == Some(Contract::DelegationManager));
    }
    assert(step_ready(p, 22)) by {
        assert(consumes(p[22]).len() == 2);
        assert(consumes(p[22])[0] == Contract::DelegationManager && produces(p[16]) == Some(Contract::DelegationManager));
        assert(consumes(p[22])[1] == Contract::EigenPodManager && produces(p[20]) == Some(Contract::EigenPodManager));
    }
    assert(step_ready(p, 23)) by {
        assert(consumes(p[23]).len() == 3);
        assert(consumes(p[23])[0] == Contract::ServiceProxyAdmin && produces(p[7]) == Some(Contract::ServiceProxyAdmin));
        assert(consumes(p[23])[1] == Contract::StrategyManager && produces(p[15]) == Some(Contract::StrategyManager));
        assert(consumes(p[23])[2] == Contract::StrategyManagerImplementation && produces(p[22]) == Some(Contract::StrategyManagerImplementation));
    }
    assert(step_ready(p, 24)) by {
        assert(consumes(p[24]).len() == 2);
        assert(consumes(p[24])[0] == Contract::StrategyManager && produces(p[15]) == Some(Contract::StrategyManager));
        assert(consumes(p[24])[1] == Contract::PauserRegistry && produces(p[2]) == Some(Contract::PauserRegistry));
    }
    assert(step_ready(p, 25)) by {
        assert(consumes(p[25]).len() == 2);
        assert(consumes(p[25])[0] == Contract::StrategyManager && produces(p[15]) == Some(Contract::StrategyManager));
        assert(consumes(p[25])[1] == Contract::EigenPodManager && produces(p[20]) == Some(Contract::EigenPodManager));
    }
    assert(step_ready(p, 26)) by {
        assert(consumes(p[26]).len() == 3);
        assert(consumes(p[26])[0] == Contract::ServiceProxyAdmin && produces(p[7]) == Some(Contract::ServiceProxyAdmin));
        assert(consumes(p[26])[1] == Contract::DelegationManager && produces(p[16]) == Some(Contract::DelegationManager));
        assert(consumes(p[26])[2] == Contract::DelegationManagerImplementation && produces(p[25]) == Some(Contract::DelegationManagerImplementation));
    }
    assert(step_ready(p, 27)) by {
        assert(consumes(p[27]).len() == 2);
        assert(consumes(p[27])[0] == Contract::RegistryCoordinator && produces(p[11]) == Some(Contract::RegistryCoordinator));
        assert(consumes(p[27])[1] == Contract::DelegationManager && produces(p[16]) == Some(Contract::DelegationManager));
    }
    assert(step_ready(p, 28)) by {
        assert(consumes(p[28]).len() == 3);
        assert(consumes(p[28])[0] == Contract::ServiceProxyAdmin && produces(p[7]) == Some(Contract::ServiceProxyAdmin));
        assert(consumes(p[28])[1] == Contract::StakeRegistry && produces(p[14]) == Some(Contract::StakeRegistry));
        assert(consumes(p[28])[2] == Contract::StakeRegistryImplementation && produces(p[27]) == Some(Contract::StakeRegistryImplementation));
    }
    assert(step_ready(p, 29)) by {
        assert(consumes(p[29]).len() == 1);
        assert(consumes(p[29])[0] == Contract::RegistryCoordinator && produces(p[11]) == Some(Contract::RegistryCoordinator));
    }
    assert(step_ready(p, 30)) by {
        assert(consumes(p[30]).len() == 3);
        assert(consumes(p[30])[0] == Contract::ServiceProxyAdmin && produces(p[7]) == Some(Contract::ServiceProxyAdmin));
        assert(consumes(p[30])[1] == Contract::BlsApkRegistry && produces(p[12]) == Some(Contract::BlsApkRegistry));
        assert(consumes(p[30])[2] == Contract::BlsApkRegistryImplementation && produces(p[29]) == Some(Contract::BlsApkRegistryImplementation));
    }
    assert(step_ready(p, 31)) by {
        assert(consumes(p[31]).len() == 1);
        assert(consumes(p[31])[0] == Contract::RegistryCoordinator && produces(p[11]) == Some(Contract::RegistryCoordinator));
    }
    assert(step_ready(p, 32)) by {
        assert(consumes(p[32]).len() == 3);
        assert(consumes(p[32])[0] == Contract::ServiceProxyAdmin && produces(p[7]) == Some(Contract::ServiceProxyAdmin));
        assert(consumes(p[32])[1] == Contract::IndexRegistry && produces(p[13]) == Some(Contract::IndexRegistry));
        assert(consumes(p[32])[2] == Contract::IndexRegistryImplementation && produces(p[31]) == Some(Contract::IndexRegistryImplementation));
    }
    assert(step_ready(p, 33)) by {
        assert(consumes(p[33]).len() == 4);
        assert(consumes(p[33])[0] == Contract::ServiceManager && produces(p[9]) == Some(Contract::ServiceManager));
        assert(consumes(p[33])[1] == Contract::StakeRegistry && produces(p[14]) == Some(Contract::StakeRegistry));
        assert(consumes(p[33])[2] == Contract::BlsApkRegistry && produces(p[12]) == Some(Contract::BlsApkRegistry));
        assert(consumes(p[33])[3] == Contract::IndexRegistry && produces(p[13]) == Some(Contract::IndexRegistry));
    }
    assert(step_ready(p, 34)) by {
        assert(consumes(p[34]).len() == 3);
        assert(consumes(p[34])[0] == Contract::ServiceProxyAdmin && produces(p[7]) == Some(Contract::ServiceProxyAdmin));
        assert(consumes(p[34])[1] == Contract::RegistryCoordinator && produces(p[11]) == Some(Contract::RegistryCoordinator));
        assert(consumes(p[34])[2] == Contract::RegistryCoordinatorImplementation && produces(p[33]) == Some(Contract::RegistryCoordinatorImplementation));
    }
    assert(step_ready(p, 35)) by {
        assert(consumes(p[35]).len() == 2);
        assert(consumes(p[35])[0] == Contract::RegistryCoordinator && produces(p[11]) == Some(Contract::RegistryCoordinator));
        assert(consumes(p[35])[1] == Contract::PauserRegistry && produces(p[2]) == Some(Contract::PauserRegistry));
    }
    assert(step_ready(p, 36)) by {
        assert(consumes(p[36]).len() == 4);
        assert(consumes(p[36])[0] == Contract::AvsDirectory && produces(p[21]) == Some(Contract::AvsDirectory));
        assert(consumes(p[36])[1] == Contract::RegistryCoordinator && produces(p[11]) == Some(Contract::RegistryCoordinator));
        assert(consumes(p[36])[2] == Contract::StakeRegistry && produces(p[14]) == Some(Contract::StakeRegistry));
        assert(consumes(p[36])[3] == Contract::TaskManager && produces(p[10]) == Some(Contract::TaskManager));
    }
    assert(step_ready(p, 37)) by {
        assert(consumes(p[37]).len() == 3);
        assert(consumes(p[37])[0] == Contract::ServiceProxyAdmin && produces(p[7]) == Some(Contract::ServiceProxyAdmin));
        assert(consumes(p[37])[1] == Contract::ServiceManager && produces(p[9]) == Some(Contract::ServiceManager));
        assert(consumes(p[37])[2] == Contract::ServiceManagerImplementation && produces(p[36]) == Some(Contract::ServiceManagerImplementation));
    }
    assert(step_ready(p, 38)) by {
        assert(consumes(p[38]).len() == 1);
        assert(consumes(p[38])[0] == Contract::RegistryCoordinator && produces(p[11]) == Some(Contract::RegistryCoordinator));
    }
    assert(step_ready(p, 39)) by {
        assert(consumes(p[39]).len() == 4);
        assert(consumes(p[39])[0] == Contract::ServiceProxyAdmin && produces(p[7]) == Some(Contract::ServiceProxyAdmin));
        assert(consumes(p[39])[1] == Contract::TaskManager && produces(p[10]) == Some(Contract::TaskManager));
        assert(consumes(p[39])[2] == Contract::TaskManagerImplementation && produces(p[38]) == Some(Contract::TaskManagerImplementation));
        assert(consumes(p[39])[3] == Contract::PauserRegistry && produces(p[2]) == Some(Contract::PauserRegistry));
    }
}

/// The reference plan runs the initializer of no proxy twice.
#[verifier::rlimit(60)]
pub proof fn reference_plan_initializes_once()
    ensures
        initializes_once(reference_steps()),
{
    let p = reference_steps();
    assert(p.len() == 40);
    assert(initializes(p[0]) is None);
    assert(initializes(p[1]) is None);
    assert(initializes(p[2]) is None);
    assert(initializes(p[3]) is None);
    assert(initializes(p[4]) is None);
    assert(initializes(p[5]) == Some(Contract::StrategyProxy));
    assert(!initialized_before(p, 5, Contract::StrategyProxy)) by {
        assert forall|j: int| 0 <= j < 5 implies initializes(#[trigger] p[j]) != Some(
            Contract::StrategyProxy,
        ) by {}
    }
    assert(initializes(p[6]) is None);
    assert(initializes(p[7]) is None);
    assert(initializes(p[8]) is None);
    assert(initializes(p[9]) is None);
    assert(initializes(p[10]) is None);
    assert(initializes(p[11]) is None);
    assert(initializes(p[12]) is None);
    assert(initializes(p[13]) is None);
    assert(initializes(p[14]) is None);
    assert(initializes(p[15]) is None);
    assert(initializes(p[16]) is None);
    assert(initializes(p[17]) is None);
    assert(initializes(p[18]) is None);
    assert(initializes(p[19]) is None);
    assert(initializes(p[20]) is None);
    assert(initializes(p[21]) is None);
    assert(initializes(p[22]) is None);
    assert(initializes(p[23]) is None);
    assert(initializes(p[24]) == Some(Contract::StrategyManager));
    assert(!initialized_before(p, 24, Contract::StrategyManager)) by {
        assert forall|j: int| 0 <= j < 24 implies initializes(#[trigger] p[j]) != Some(
            Contract::StrategyManager,
        ) by {}
    }
    assert(initializes(p[25]) is None);
    assert(initializes(p[26]) is None);
    assert(initializes(p[27]) is None);
    assert(initializes(p[28]) is None);
    assert(initializes(p[29]) is None);
    assert(initializes(p[30]) is None);
    assert(initializes(p[31]) is None);
    assert(initializes(p[32]) is None);
    assert(initializes(p[33]) is None);
    assert(initializes(p[34]) is None);
    assert(initializes(p[35]) == Some(Contract::RegistryCoordinator));
    assert(!initialized_before(p, 35, Contract::RegistryCoordinator)) by {
        assert forall|j: int| 0 <= j < 35 implies initializes(#[trigger] p[j]) != Some(
            Contract::RegistryCoordinator,
        ) by {}
    }
    assert(initializes(p[36]) is None);
    assert(initializes(p[37]) is None);
    assert(initializes(p[38]) is None);
    assert(initializes(p[39]) == Some(Contract::TaskManager));
    assert(!initialized_before(p, 39, Contract::TaskManager)) by {
        assert forall|j: int| 0 <= j < 39 implies initializes(#[trigger] p[j]) != Some(
            Contract::TaskManager,
        ) by {}
    }
}

/// At the end of the reference plan every proxy forwards to its own
/// implementation, and the strategy to its template.
#[verifier::rlimit(60)]
pub proof fn reference_proxies_end_on_their_implementations()
    ensures
        implementation_after(reference_steps(), 40, Contract::StrategyProxy) == Some(
            Contract::BaseStrategy,
        ),
        implementation_after(reference_steps(), 40, Contract::ServiceManager) == Some(
            Contract::ServiceManagerImplementation,
        ),
        implementation_after(reference_steps(), 40, Contract::TaskManager) == Some(
            Contract::TaskManagerImplementation,
        ),
        implementation_after(reference_steps(), 40, Contract::RegistryCoordinator) == Some(
            Contract::RegistryCoordinatorImplementation,
        ),
        implementation_after(reference_steps(), 40, Contract::BlsApkRegistry) == Some(
            Contract::BlsApkRegistryImplementation,
        ),
        implementation_after(reference_steps(), 40, Contract::IndexRegistry) == Some(
            Contract::IndexRegistryImplementation,
        ),
        implementation_after(reference_steps(), 40, Contract::StakeRegistry) == Some(
            Contract::StakeRegistryImplementation,
        ),
        implementation_after(reference_steps(), 40, Contract::StrategyManager) == Some(
            Contract::StrategyManagerImplementation,
        ),
        implementation_after(reference_steps(), 40, Contract::DelegationManager) == Some(
            Contract::DelegationManagerImplementation,
        ),
{
    let p = reference_steps();
    assert(p.len() == 40);
    assert(binds(p[5], Contract::StrategyProxy) == Some(Contract::BaseStrategy));
    assert forall|j: int| 5 < j < 40 implies binds(#[trigger] p[j], Contract::StrategyProxy) is None by {}
    last_binding_decides(p, 40, 5, Contract::StrategyProxy);
    assert(binds(p[37], Contract::ServiceManager) == Some(Contract::ServiceManagerImplementation));
    assert forall|j: int| 37 < j < 40 implies binds(#[trigger] p[j], Contract::ServiceManager) is None by {}
    last_binding_decides(p, 40, 37, Contract::ServiceManager);
    assert(binds(p[39], Contract::TaskManager) == Some(Contract::TaskManagerImplementation));
    last_binding_decides(p, 40, 39, Contract::TaskManager);
    assert(binds(p[34], Contract::RegistryCoordinator) == Some(Contract::RegistryCoordinatorImplementation));
    assert forall|j: int| 34 < j < 40 implies binds(#[trigger] p[j], Contract::RegistryCoordinator) is None by {}
    last_binding_decides(p, 40, 34, Contract::RegistryCoordinator);
    assert(binds(p[30], Contract::BlsApkRegistry) == Some(Contract::BlsApkRegistryImplementation));
    assert forall|j: int| 30 < j < 40 implies binds(#[trigger] p[j], Contract::BlsApkRegistry) is None by {}
    last_binding_decides(p, 40, 30, Contract::BlsApkRegistry);
    assert(binds(p[32], Contract::IndexRegistry) == Some(Contract::IndexRegistryImplementation));
    assert forall|j: int| 32 < j < 40 implies binds(#[trigger] p[j], Contract::IndexRegistry) is None by {}
    last_binding_decides(p, 40, 32, Contract::IndexRegistry);
    assert(binds(p[28], Contract::StakeRegistry) == Some(Contract::StakeRegistryImplementation));
    assert forall|j: int| 28 < j < 40 implies binds(#[trigger] p[j], Contract::StakeRegistry) is None by {}
    last_binding_decides(p, 40, 28, Contract::StakeRegistry);
    assert(binds(p[23], Contract::StrategyManager) == Some(Contract::StrategyManagerImplementation));
    assert forall|j: int| 23 < j < 40 implies binds(#[trigger] p[j], Contract::StrategyManager) is None by {}
    last_binding_decides(p, 40, 23, Contract::StrategyManager);
    assert(binds(p[26], Contract::DelegationManager) == Some(Contract::DelegationManagerImplementation));
    assert forall|j: int| 26 < j < 40 implies binds(#[trigger] p[j], Contract::DelegationManager) is None by {}
    last_binding_decides(p, 40, 26, Contract::DelegationManager);
}

/// A completed deployment of the reference topology has its record: the
/// plan produces each of the five contracts that the record names.
pub proof fn completed_reference_deployment_reports(p: Pipeline)
    requires
        p.wf(),
        p.plan@ == reference_steps(),
        p.status is Completed,
    ensures
        p.reportable(),
{
    assert(p.plan@.len() == 40);
    assert(produces(p.plan@[9]) == Some(Contract::ServiceManager));
    assert(produces(p.plan@[11]) == Some(Contract::RegistryCoordinator));
    assert(produces(p.plan@[17]) == Some(Contract::OperatorStateRetriever));
    assert(produces(p.plan@[16]) == Some(Contract::DelegationManager));
    assert(produces(p.plan@[21]) == Some(Contract::AvsDirectory));
}

/// Builds the plan of the reference topology.
pub fn reference_plan() -> (result: Vec<Step>)
    ensures
        result@ == reference_steps(),
{
    let mut plan: Vec<Step> = Vec::new();
    plan.push(Step::Deploy { contract: Contract::StrategyManagerInterface });
    plan.push(Step::Deploy { contract: Contract::StrategyProxyAdmin });
    plan.push(Step::Deploy { contract: Contract::PauserRegistry });
    plan.push(Step::Deploy { contract: Contract::BaseStrategy });
    plan.push(Step::Deploy { contract: Contract::MockToken });
    plan.push(Step::BindProxy { proxy: Contract::StrategyProxy, implementation: Contract::BaseStrategy, admin: Contract::StrategyProxyAdmin, initialize: true });
    plan.push(Step::Whitelist { manager: Contract::StrategyManagerInterface, strategy: Contract::StrategyProxy });
    plan.push(Step::Deploy { contract: Contract::ServiceProxyAdmin });
    plan.push(Step::Deploy { contract: Contract::EmptyContract });
    plan.push(Step::BindProxy { proxy: Contract::ServiceManager, implementation: Contract::EmptyContract, admin: Contract::ServiceProxyAdmin, initialize: false });
    plan.push(Step::BindProxy { proxy: Contract::TaskManager, implementation: Contract::EmptyContract, admin: Contract::ServiceProxyAdmin, initialize: false });
    plan.push(Step::BindProxy { proxy: Contract::RegistryCoordinator, implementation: Contract::EmptyContract, admin: Contract::ServiceProxyAdmin, initialize: false });
    plan.push(Step::BindProxy { proxy: Contract::BlsApkRegistry, implementation: Contract::EmptyContract, admin: Contract::ServiceProxyAdmin, initialize: false });
    plan.push(Step::BindProxy { proxy: Contract::IndexRegistry, implementation: Contract::EmptyContract, admin: Contract::ServiceProxyAdmin, initialize: false });
    plan.push(Step::BindProxy { proxy: Contract::StakeRegistry, implementation: Contract::EmptyContract, admin: Contract::ServiceProxyAdmin, initialize: false });
    plan.push(Step::BindProxy { proxy: Contract::StrategyManager, implementation: Contract::EmptyContract, admin: Contract::ServiceProxyAdmin, initialize: false });
    plan.push(Step::BindProxy { proxy: Contract::DelegationManager, implementation: Contract::EmptyContract, admin: Contract::ServiceProxyAdmin, initialize: false });
    plan.push(Step::Deploy { contract: Contract::OperatorStateRetriever });
    plan.push(Step::Deploy { contract: Contract::DepositStub });
    plan.push(Step::Deploy { contract: Contract::BeaconStub });
    plan.push(Step::Deploy { contract: Contract::EigenPodManager });
    plan.push(Step::Deploy { contract: Contract::AvsDirectory });
    plan.push(Step::Deploy { contract: Contract::StrategyManagerImplementation });
    plan.push(Step::Upgrade { proxy: Contract::StrategyManager, implementation: Contract::StrategyManagerImplementation, admin: Contract::ServiceProxyAdmin, initialize: false });
    plan.push(Step::Initialize { proxy: Contract::StrategyManager });
    plan.push(Step::Deploy { contract: Contract::DelegationManagerImplementation });
    plan.push(Step::Upgrade { proxy: Contract::DelegationManager, implementation: Contract::DelegationManagerImplementation, admin: Contract::ServiceProxyAdmin, initialize: false });
    plan.push(Step::Deploy { contract: Contract::StakeRegistryImplementation });
    plan.push(Step::Upgrade { proxy: Contract::StakeRegistry, implementation: Contract::StakeRegistryImplementation, admin: Contract::ServiceProxyAdmin, initialize: false });
    plan.push(Step::Deploy { contract: Contract::BlsApkRegistryImplementation });
    plan.push(Step::Upgrade { proxy: Contract::BlsApkRegistry, implementation: Contract::BlsApkRegistryImplementation, admin: Contract::ServiceProxyAdmin, initialize: false });
    plan.push(Step::Deploy { contract: Contract::IndexRegistryImplementation });
    plan.push(Step::Upgrade { proxy: Contract::IndexRegistry, implementation: Contract::IndexRegistryImplementation, admin: Contract::ServiceProxyAdmin, initialize: false });
    plan.push(Step::Deploy { contract: Contract::RegistryCoordinatorImplementation });
    plan.push(Step::Upgrade { proxy: Contract::RegistryCoordinator, implementation: Contract::RegistryCoordinatorImplementation, admin: Contract::ServiceProxyAdmin, initialize: false });
    plan.push(Step::Initialize { proxy: Contract::RegistryCoordinator });
    plan.push(Step::Deploy { contract: Contract::ServiceManagerImplementation });
    plan.push(Step::Upgrade { proxy: Contract::ServiceManager, implementation: Contract::ServiceManagerImplementation, admin: Contract::ServiceProxyAdmin, initialize: false });
    plan.push(Step::Deploy { contract: Contract::TaskManagerImplementation });
    plan.push(Step::Upgrade { proxy: Contract::TaskManager, implementation: Contract::TaskManagerImplementation, admin: Contract::ServiceProxyAdmin, initialize: true });
    assert(plan@ =~= reference_steps());
    plan
}

/// Starts a deployment of the reference topology by `operator`. Fails only
/// for the zero address.
pub fn reference_pipeline(operator: Address) -> (result: Result<Pipeline, PipelineError>)
    ensures
        operator.is_zero_spec() ==> result is Err && result->Err_0
            == PipelineError::InvalidOperator,
        !operator.is_zero_spec() ==> result is Ok && ({
            let p = result->Ok_0;
            &&& p.wf()
            &&& p.plan@ == reference_steps()
            &&& p.settings.operator == operator
            &&& p.settings.aggregator@ == service_account_bytes()
            &&& p.settings.task_generator@ == service_account_bytes()
            &&& p.settings.response_window == 10
            &&& p.settings.quorum_count == 1
            &&& p.settings.quorum == reference_quorum()
            &&& p.position == 0
            &&& p.status is Running
            &&& p.whitelist@.len() == 0
            &&& forall|i: int| 0 <= i < CONTRACT_COUNT ==> p.table@[i] is None
        }),
{
    proof {
        reference_plan_is_ordered();
        reference_plan_initializes_once();
    }
    Pipeline::new(reference_plan(), reference_settings(operator))
}

/// The task generator of the reference topology: every five seconds a task
/// to square 2, with quota 100 and one zero byte, from the service account.
pub fn reference_generator() -> (result: TaskGenerator)
    ensures
        result.consistent(),
        result.phase is MineBefore,
        result.iterations == 0 && result.blocks_mined == 0 && result.tasks_submitted == 0,
        result.operand == 2,
        result.quota == 100,
        result.payload@ == seq![0u8],
        result.interval_millis == 5000,
        result.sender@ == service_account_bytes(),
{
    let payload: Vec<u8> = vec![0u8];
    assert(payload@ =~= seq![0u8]);
    TaskGenerator::new(2, 100, payload, 5000, service_account())
}

} // verus!
