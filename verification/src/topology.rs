//! The contracts of the topology and the edges between them: whose address
//! each constructor and each initializer takes.

use vstd::prelude::*;

verus! {

/// How many contracts the topology names.
pub const CONTRACT_COUNT: usize = 29;

/// The identity of a contract, fixed before any address is known.
#[derive(Clone, Copy, Debug, PartialEq, Eq, Structural)]
pub enum Contract {
    /// Admin of the strategy proxy.
    StrategyProxyAdmin,
    /// Registry of the accounts that may pause.
    PauserRegistry,
    /// The token that the strategy holds.
    MockToken,
    /// Template that the strategy proxy forwards to.
    BaseStrategy,
    /// The contract that keeps the deposit whitelist.
    StrategyManagerInterface,
    /// The strategy: a proxy bound to the template at creation.
    StrategyProxy,
    /// Admin of every proxy of the service.
    ServiceProxyAdmin,
    /// The placeholder implementation: it does nothing.
    EmptyContract,
    /// Proxy of the service manager.
    ServiceManager,
    /// Proxy of the task manager.
    TaskManager,
    /// Proxy of the registry coordinator.
    RegistryCoordinator,
    /// Proxy of the BLS public-key registry.
    BlsApkRegistry,
    /// Proxy of the operator-index registry.
    IndexRegistry,
    /// Proxy of the stake registry.
    StakeRegistry,
    /// Proxy of the strategy manager.
    StrategyManager,
    /// Proxy of the delegation manager.
    DelegationManager,
    /// Stub of the deposit contract.
    DepositStub,
    /// Stub of the beacon.
    BeaconStub,
    /// Reader of operator state.
    OperatorStateRetriever,
    /// Directory of services; built on the delegation manager.
    AvsDirectory,
    /// Pod manager that the staking layer refers to.
    EigenPodManager,
    /// The code that the proxy `StrategyManager` is upgraded to.
    StrategyManagerImplementation,
    /// The code that the proxy `DelegationManager` is upgraded to.
    DelegationManagerImplementation,
    /// The code that the proxy `StakeRegistry` is upgraded to.
    StakeRegistryImplementation,
    /// The code that the proxy `BlsApkRegistry` is upgraded to.
    BlsApkRegistryImplementation,
    /// The code that the proxy `IndexRegistry` is upgraded to.
    IndexRegistryImplementation,
    /// The code that the proxy `RegistryCoordinator` is upgraded to.
    RegistryCoordinatorImplementation,
    /// The code that the proxy `ServiceManager` is upgraded to.
    ServiceManagerImplementation,
    /// The code that the proxy `TaskManager` is upgraded to.
    TaskManagerImplementation,
}

impl Contract {
    /// The contract's row in an address table.
    pub open spec fn index_spec(self) -> int {
        match self {
            Contract::StrategyProxyAdmin => 0,
            Contract::PauserRegistry => 1,
            Contract::MockToken => 2,
            Contract::BaseStrategy => 3,
            Contract::StrategyManagerInterface => 4,
            Contract::StrategyProxy => 5,
            Contract::ServiceProxyAdmin => 6,
            Contract::EmptyContract => 7,
            Contract::ServiceManager => 8,
            Contract::TaskManager => 9,
            Contract::RegistryCoordinator => 10,
            Contract::BlsApkRegistry => 11,
            Contract::IndexRegistry => 12,
            Contract::StakeRegistry => 13,
            Contract::StrategyManager => 14,
            Contract::DelegationManager => 15,
            Contract::DepositStub => 16,
            Contract::BeaconStub => 17,
            Contract::OperatorStateRetriever => 18,
            Contract::AvsDirectory => 19,
            Contract::EigenPodManager => 20,
            Contract::StrategyManagerImplementation => 21,
            Contract::DelegationManagerImplementation => 22,
            Contract::StakeRegistryImplementation => 23,
            Contract::BlsApkRegistryImplementation => 24,
            Contract::IndexRegistryImplementation => 25,
            Contract::RegistryCoordinatorImplementation => 26,
            Contract::ServiceManagerImplementation => 27,
            Contract::TaskManagerImplementation => 28,
        }
    }

    /// The contract's row in an address table.
    pub fn index(self) -> (result: usize)
        ensures
            result == self.index_spec(),
            result < CONTRACT_COUNT,
    {
        match self {
            Contract::StrategyProxyAdmin => 0,
            Contract::PauserRegistry => 1,
            Contract::MockToken => 2,
            Contract::BaseStrategy => 3,
            Contract::StrategyManagerInterface => 4,
            Contract::StrategyProxy => 5,
            Contract::ServiceProxyAdmin => 6,
            Contract::EmptyContract => 7,
            Contract::ServiceManager => 8,
            Contract::TaskManager => 9,
            Contract::RegistryCoordinator => 10,
            Contract::BlsApkRegistry => 11,
            Contract::IndexRegistry => 12,
            Contract::StakeRegistry => 13,
            Contract::StrategyManager => 14,
            Contract::DelegationManager => 15,
            Contract::DepositStub => 16,
            Contract::BeaconStub => 17,
            Contract::OperatorStateRetriever => 18,
            Contract::AvsDirectory => 19,
            Contract::EigenPodManager => 20,
            Contract::StrategyManagerImplementation => 21,
            Contract::DelegationManagerImplementation => 22,
            Contract::StakeRegistryImplementation => 23,
            Contract::BlsApkRegistryImplementation => 24,
            Contract::IndexRegistryImplementation => 25,
            Contract::RegistryCoordinatorImplementation => 26,
            Contract::ServiceManagerImplementation => 27,
            Contract::TaskManagerImplementation => 28,
        }
    }
}

/// The contracts whose addresses the constructor of `contract` takes, in the
/// order of its parameters.
pub open spec fn constructor_inputs(contract: Contract) -> Seq<Contract> {
    match contract {
        Contract::AvsDirectory => seq![Contract::DelegationManager],
        Contract::EigenPodManager => seq![Contract::DepositStub, Contract::BeaconStub, Contract::StrategyManager, Contract::DelegationManager],
        Contract::StrategyManagerImplementation => seq![Contract::DelegationManager, Contract::EigenPodManager],
        Contract::DelegationManagerImplementation => seq![Contract::StrategyManager, Contract::EigenPodManager],
        Contract::StakeRegistryImplementation => seq![Contract::RegistryCoordinator, Contract::DelegationManager],
        Contract::BlsApkRegistryImplementation => seq![Contract::RegistryCoordinator],
        Contract::IndexRegistryImplementation => seq![Contract::RegistryCoordinator],
        Contract::RegistryCoordinatorImplementation => seq![Contract::ServiceManager, Contract::StakeRegistry, Contract::BlsApkRegistry, Contract::IndexRegistry],
        Contract::ServiceManagerImplementation => seq![Contract::AvsDirectory, Contract::RegistryCoordinator, Contract::StakeRegistry, Contract::TaskManager],
        Contract::TaskManagerImplementation => seq![Contract::RegistryCoordinator],
        _ => Seq::empty(),
    }
}

/// The contracts whose addresses the initializer of `proxy` takes.
pub open spec fn initializer_inputs(proxy: Contract) -> Seq<Contract> {
    match proxy {
        Contract::StrategyProxy => seq![Contract::MockToken, Contract::PauserRegistry],
        Contract::StrategyManager => seq![Contract::PauserRegistry],
        Contract::RegistryCoordinator => seq![Contract::PauserRegistry],
        Contract::TaskManager => seq![Contract::PauserRegistry],
        _ => Seq::empty(),
    }
}

/// Lists the contracts that the constructor of `contract` refers to.
pub fn constructor_inputs_of(contract: Contract) -> (result: Vec<Contract>)
    ensures
        result@ == constructor_inputs(contract),
{
    let result = match contract {
        Contract::AvsDirectory => vec![Contract::DelegationManager],
        Contract::EigenPodManager => vec![Contract::DepositStub, Contract::BeaconStub, Contract::StrategyManager, Contract::DelegationManager],
        Contract::StrategyManagerImplementation => vec![Contract::DelegationManager, Contract::EigenPodManager],
        Contract::DelegationManagerImplementation => vec![Contract::StrategyManager, Contract::EigenPodManager],
        Contract::StakeRegistryImplementation => vec![Contract::RegistryCoordinator, Contract::DelegationManager],
        Contract::BlsApkRegistryImplementation => vec![Contract::RegistryCoordinator],
        Contract::IndexRegistryImplementation => vec![Contract::RegistryCoordinator],
        Contract::RegistryCoordinatorImplementation => vec![Contract::ServiceManager, Contract::StakeRegistry, Contract::BlsApkRegistry, Contract::IndexRegistry],
        Contract::ServiceManagerImplementation => vec![Contract::AvsDirectory, Contract::RegistryCoordinator, Contract::StakeRegistry, Contract::TaskManager],
        Contract::TaskManagerImplementation => vec![Contract::RegistryCoordinator],
        _ => Vec::new(),
    };
    assert(result@ =~= constructor_inputs(contract));
    result
}

/// Lists the contracts that the initializer of `proxy` refers to.
pub fn initializer_inputs_of(proxy: Contract) -> (result: Vec<Contract>)
    ensures
        result@ == initializer_inputs(proxy),
{
    let result = match proxy {
        Contract::StrategyProxy => vec![Contract::MockToken, Contract::PauserRegistry],
        Contract::StrategyManager => vec![Contract::PauserRegistry],
        Contract::RegistryCoordinator => vec![Contract::PauserRegistry],
        Contract::TaskManager => vec![Contract::PauserRegistry],
        _ => Vec::new(),
    };
    assert(result@ =~= initializer_inputs(proxy));
    result
}

/// The contract of a row of an address table.
pub open spec fn contract_at(row: int) -> Contract {
    if row == 0 {
        Contract::StrategyProxyAdmin
    } else     if row == 1 {
        Contract::PauserRegistry
    } else     if row == 2 {
        Contract::MockToken
    } else     if row == 3 {
        Contract::BaseStrategy
    } else     if row == 4 {
        Contract::StrategyManagerInterface
    } else     if row == 5 {
        Contract::StrategyProxy
    } else     if row == 6 {
        Contract::ServiceProxyAdmin
    } else     if row == 7 {
        Contract::EmptyContract
    } else     if row == 8 {
        Contract::ServiceManager
    } else     if row == 9 {
        Contract::TaskManager
    } else     if row == 10 {
        Contract::RegistryCoordinator
    } else     if row == 11 {
        Contract::BlsApkRegistry
    } else     if row == 12 {
        Contract::IndexRegistry
    } else     if row == 13 {
        Contract::StakeRegistry
    } else     if row == 14 {
        Contract::StrategyManager
    } else     if row == 15 {
        Contract::DelegationManager
    } else     if row == 16 {
        Contract::DepositStub
    } else     if row == 17 {
        Contract::BeaconStub
    } else     if row == 18 {
        Contract::OperatorStateRetriever
    } else     if row == 19 {
        Contract::AvsDirectory
    } else     if row == 20 {
        Contract::EigenPodManager
    } else     if row == 21 {
        Contract::StrategyManagerImplementation
    } else     if row == 22 {
        Contract::DelegationManagerImplementation
    } else     if row == 23 {
        Contract::StakeRegistryImplementation
    } else     if row == 24 {
        Contract::BlsApkRegistryImplementation
    } else     if row == 25 {
        Contract::IndexRegistryImplementation
    } else     if row == 26 {
        Contract::RegistryCoordinatorImplementation
    } else     if row == 27 {
        Contract::ServiceManagerImplementation
    } else {
        Contract::TaskManagerImplementation
    }
}

/// Every row of an address table belongs to a contract.
pub proof fn every_row_has_a_contract(row: int)
    requires
        0 <= row < CONTRACT_COUNT,
    ensures
        contract_at(row).index_spec() == row,
{
}

/// Two contracts with the same row are the same contract.
pub proof fn index_is_injective(a: Contract, b: Contract)
    requires
        a.index_spec() == b.index_spec(),
    ensures
        a == b,
{
}

} // verus!
