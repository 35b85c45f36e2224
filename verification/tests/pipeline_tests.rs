use squaring_testnet::address::Address;
use squaring_testnet::pipeline::{Outcome, Pipeline, PipelineError, Status};
use squaring_testnet::proxy::ProxyState;
use squaring_testnet::plan::{
    consumed_by, has_single_initializers, initialized_by, is_ordered, produced_by, produced_rows,
    runs_initializer_before, Step,
};
use squaring_testnet::reference::{
    reference_pipeline, reference_plan, reference_settings, service_account,
};
use squaring_testnet::topology::{constructor_inputs_of, initializer_inputs_of, Contract};

fn account(tag: u8) -> Address {
    let mut bytes = [0u8; 20];
    bytes[18] = 0xc0;
    bytes[19] = tag;
    Address::from_bytes(bytes)
}

fn operator() -> Address {
    Address::from_bytes([0xfe; 20])
}

fn confirm(pipeline: &mut Pipeline, tag: u8) -> Result<(), PipelineError> {
    let action = pipeline.next_action().unwrap();
    let outcome = match produced_by(action.step) {
        Some(_) => Outcome::Created(account(tag)),
        None => Outcome::Succeeded,
    };
    pipeline.advance(outcome)
}

fn run_to_completion() -> Pipeline {
    let mut pipeline = reference_pipeline(operator()).unwrap();
    let mut tag = 1u8;
    while pipeline.status == Status::Running {
        confirm(&mut pipeline, tag).unwrap();
        tag += 1;
    }
    pipeline
}

#[test]
fn reference_plan_has_forty_ordered_steps() {
    let plan = reference_plan();
    assert_eq!(plan.len(), 40);
    assert!(is_ordered(&plan));
    assert_eq!(plan[0], Step::Deploy { contract: Contract::StrategyManagerInterface });
    assert_eq!(
        plan[39],
        Step::Upgrade {
            proxy: Contract::TaskManager,
            implementation: Contract::TaskManagerImplementation,
            admin: Contract::ServiceProxyAdmin,
            initialize: true,
        }
    );
}

#[test]
fn a_plan_that_uses_an_address_too_early_is_not_ordered() {
    let plan = vec![
        Step::Deploy { contract: Contract::AvsDirectory },
        Step::Deploy { contract: Contract::DelegationManagerImplementation },
    ];
    assert!(!is_ordered(&plan));
    let result = Pipeline::new(plan, reference_settings(operator()));
    assert_eq!(result.err(), Some(PipelineError::OutOfOrder));
    assert!(is_ordered(&vec![]));
}

#[test]
fn steps_consume_what_their_contracts_refer_to() {
    assert_eq!(
        constructor_inputs_of(Contract::ServiceManagerImplementation),
        vec![
            Contract::AvsDirectory,
            Contract::RegistryCoordinator,
            Contract::StakeRegistry,
            Contract::TaskManager
        ]
    );
    assert_eq!(constructor_inputs_of(Contract::PauserRegistry), vec![]);
    assert_eq!(
        initializer_inputs_of(Contract::StrategyProxy),
        vec![Contract::MockToken, Contract::PauserRegistry]
    );
    assert_eq!(
        consumed_by(Step::Upgrade {
            proxy: Contract::TaskManager,
            implementation: Contract::TaskManagerImplementation,
            admin: Contract::ServiceProxyAdmin,
            initialize: true,
        }),
        vec![
            Contract::ServiceProxyAdmin,
            Contract::TaskManager,
            Contract::TaskManagerImplementation,
            Contract::PauserRegistry
        ]
    );
    assert_eq!(
        consumed_by(Step::Initialize { proxy: Contract::RegistryCoordinator }),
        vec![Contract::RegistryCoordinator, Contract::PauserRegistry]
    );
    assert_eq!(
        produced_by(Step::Deploy { contract: Contract::MockToken }),
        Some(Contract::MockToken)
    );
    assert_eq!(produced_by(Step::Initialize { proxy: Contract::StrategyManager }), None);
}

#[test]
fn a_zero_operator_is_refused() {
    let result = reference_pipeline(Address::zero());
    assert_eq!(result.err(), Some(PipelineError::InvalidOperator));
}

#[test]
fn a_completed_run_reports_distinct_nonzero_addresses() {
    let pipeline = run_to_completion();
    assert_eq!(pipeline.status, Status::Completed);
    assert_eq!(pipeline.position, 40);
    let record = pipeline.record().unwrap();
    assert!(record.is_sound());
    assert!(record.operator == operator());
    assert!(Some(record.service_manager) == pipeline.resolve(Contract::ServiceManager));
    assert!(Some(record.registry_coordinator) == pipeline.resolve(Contract::RegistryCoordinator));
    assert!(
        Some(record.operator_state_retriever)
            == pipeline.resolve(Contract::OperatorStateRetriever)
    );
    assert!(Some(record.delegation_manager) == pipeline.resolve(Contract::DelegationManager));
    assert!(Some(record.avs_directory) == pipeline.resolve(Contract::AvsDirectory));
    assert!(record.service_manager == account(10));
}

#[test]
fn there_is_no_record_before_completion() {
    let mut pipeline = reference_pipeline(operator()).unwrap();
    assert!(pipeline.record().is_none());
    confirm(&mut pipeline, 1).unwrap();
    assert!(pipeline.record().is_none());
}

#[test]
fn every_proxy_ends_on_its_own_implementation() {
    let pipeline = run_to_completion();
    let pairs = [
        (Contract::StrategyProxy, Contract::BaseStrategy),
        (Contract::ServiceManager, Contract::ServiceManagerImplementation),
        (Contract::TaskManager, Contract::TaskManagerImplementation),
        (Contract::RegistryCoordinator, Contract::RegistryCoordinatorImplementation),
        (Contract::BlsApkRegistry, Contract::BlsApkRegistryImplementation),
        (Contract::IndexRegistry, Contract::IndexRegistryImplementation),
        (Contract::StakeRegistry, Contract::StakeRegistryImplementation),
        (Contract::StrategyManager, Contract::StrategyManagerImplementation),
        (Contract::DelegationManager, Contract::DelegationManagerImplementation),
    ];
    for (proxy, code) in pairs {
        let current = pipeline.implementation_of(proxy);
        assert!(current.is_some());
        assert!(current == pipeline.resolve(code));
    }
    assert!(pipeline.implementation_of(Contract::MockToken).is_none());
}

#[test]
fn a_bound_proxy_forwards_to_the_placeholder_until_upgraded() {
    let mut pipeline = reference_pipeline(operator()).unwrap();
    let mut tag = 1u8;
    while pipeline.position < 10 {
        confirm(&mut pipeline, tag).unwrap();
        tag += 1;
    }
    assert!(pipeline.implementation_of(Contract::ServiceManager).is_some());
    assert!(
        pipeline.implementation_of(Contract::ServiceManager)
            == pipeline.resolve(Contract::EmptyContract)
    );
    assert!(pipeline.implementation_of(Contract::TaskManager).is_none());
}

#[test]
fn the_task_manager_is_created_with_the_response_window() {
    let mut pipeline = reference_pipeline(operator()).unwrap();
    let mut tag = 1u8;
    let mut seen = 0;
    while pipeline.status == Status::Running {
        let action = pipeline.next_action().unwrap();
        if action.step == (Step::Deploy { contract: Contract::TaskManagerImplementation }) {
            assert_eq!(action.response_window, Some(10));
            assert_eq!(action.index, 38);
            assert_eq!(action.inputs.len(), 1);
            assert!(Some(action.inputs[0]) == pipeline.resolve(Contract::RegistryCoordinator));
            seen += 1;
        } else {
            assert_eq!(action.response_window, None);
        }
        confirm(&mut pipeline, tag).unwrap();
        tag += 1;
    }
    assert_eq!(seen, 1);
}

#[test]
fn the_coordinator_gets_one_quorum_over_the_whitelisted_strategy() {
    let pipeline = run_to_completion();
    assert_eq!(pipeline.whitelist.len(), 1);
    assert!(Some(pipeline.whitelist[0]) == pipeline.resolve(Contract::StrategyProxy));
    let config = pipeline.coordinator_quorums().unwrap();
    assert_eq!(config.quorum_count(), 1);
    assert_eq!(config.minimum_stakes, vec![0]);
    assert_eq!(config.strategy_params[0].len(), 1);
    assert_eq!(config.strategy_params[0][0].multiplier, 1);
    assert!(config.strategy_params[0][0].strategy == pipeline.whitelist[0]);
    assert_eq!(config.operator_set_params[0].max_operator_count, 10000);
}

#[test]
fn a_reverted_step_aborts_for_good() {
    let mut pipeline = reference_pipeline(operator()).unwrap();
    confirm(&mut pipeline, 1).unwrap();
    assert_eq!(pipeline.advance(Outcome::Reverted), Err(PipelineError::Reverted(1)));
    assert_eq!(pipeline.status, Status::Aborted);
    assert_eq!(pipeline.position, 1);
    assert_eq!(pipeline.advance(Outcome::Succeeded), Err(PipelineError::NotRunning));
    assert_eq!(pipeline.next_action().err(), Some(PipelineError::NotRunning));
    assert!(pipeline.record().is_none());
}

#[test]
fn an_outcome_must_fit_the_step() {
    let mut pipeline = reference_pipeline(operator()).unwrap();
    assert_eq!(pipeline.advance(Outcome::Succeeded), Err(PipelineError::UnexpectedOutcome(0)));
    assert_eq!(pipeline.status, Status::Aborted);
    let mut other = reference_pipeline(operator()).unwrap();
    let mut tag = 1u8;
    while other.position < 6 {
        confirm(&mut other, tag).unwrap();
        tag += 1;
    }
    assert_eq!(
        other.advance(Outcome::Created(account(77))),
        Err(PipelineError::UnexpectedOutcome(6))
    );
}

#[test]
fn a_created_address_must_be_new() {
    let mut zero = reference_pipeline(operator()).unwrap();
    assert_eq!(
        zero.advance(Outcome::Created(Address::zero())),
        Err(PipelineError::InvalidAddress(0))
    );
    let mut own = reference_pipeline(operator()).unwrap();
    assert_eq!(own.advance(Outcome::Created(operator())), Err(PipelineError::InvalidAddress(0)));
    let mut twice = reference_pipeline(operator()).unwrap();
    assert_eq!(twice.advance(Outcome::Created(account(1))), Ok(()));
    assert_eq!(twice.advance(Outcome::Created(account(1))), Err(PipelineError::InvalidAddress(1)));
    assert_eq!(twice.status, Status::Aborted);
}

#[test]
fn a_contract_is_created_once() {
    let plan = vec![
        Step::Deploy { contract: Contract::MockToken },
        Step::Deploy { contract: Contract::MockToken },
    ];
    let mut pipeline = Pipeline::new(plan, reference_settings(operator())).unwrap();
    assert_eq!(pipeline.advance(Outcome::Created(account(1))), Ok(()));
    assert_eq!(
        pipeline.advance(Outcome::Created(account(2))),
        Err(PipelineError::DuplicateContract(1))
    );
}

#[test]
fn an_empty_plan_is_complete_at_once() {
    let pipeline = Pipeline::new(vec![], reference_settings(operator())).unwrap();
    assert_eq!(pipeline.status, Status::Completed);
    assert!(pipeline.record().is_none());
}

#[test]
fn two_chains_give_the_same_shape() {
    let mut first = reference_pipeline(operator()).unwrap();
    let mut second = reference_pipeline(service_account()).unwrap();
    let mut tag = 1u8;
    while first.status == Status::Running {
        let a = first.next_action().unwrap();
        let b = second.next_action().unwrap();
        assert_eq!(a.step, b.step);
        assert_eq!(a.index, b.index);
        assert_eq!(a.inputs.len(), b.inputs.len());
        confirm(&mut first, tag).unwrap();
        confirm(&mut second, 200 - tag).unwrap();
        tag += 1;
    }
    assert_eq!(second.status, Status::Completed);
    assert!(first.record().unwrap().service_manager != second.record().unwrap().service_manager);
}

#[test]
fn reference_settings_hold_the_reference_values() {
    let settings = reference_settings(operator());
    assert_eq!(settings.response_window, 10);
    assert_eq!(settings.quorum_count, 1);
    assert_eq!(settings.quorum.minimum_stake, 0);
    assert_eq!(settings.quorum.multiplier, 1);
    assert_eq!(settings.quorum.operator_set.kick_bips_of_operator_stake, 15000);
    assert_eq!(settings.quorum.operator_set.kick_bips_of_total_stake, 100);
    assert!(settings.aggregator == service_account());
    assert!(settings.task_generator == service_account());
    assert!(settings.operator == operator());
}

#[test]
fn a_plan_that_initializes_twice_is_refused() {
    let plan = vec![
        Step::Deploy { contract: Contract::PauserRegistry },
        Step::Deploy { contract: Contract::EmptyContract },
        Step::Deploy { contract: Contract::ServiceProxyAdmin },
        Step::BindProxy {
            proxy: Contract::StrategyManager,
            implementation: Contract::EmptyContract,
            admin: Contract::ServiceProxyAdmin,
            initialize: false,
        },
        Step::Initialize { proxy: Contract::StrategyManager },
        Step::Initialize { proxy: Contract::StrategyManager },
    ];
    assert!(is_ordered(&plan));
    assert!(!has_single_initializers(&plan));
    let result = Pipeline::new(plan, reference_settings(operator()));
    assert_eq!(result.err(), Some(PipelineError::RepeatedInitializer));
}

#[test]
fn the_reference_plan_runs_each_initializer_once() {
    let plan = reference_plan();
    assert!(has_single_initializers(&plan));
    let count = plan.iter().filter(|step| initialized_by(**step).is_some()).count();
    assert_eq!(count, 4);
    assert_eq!(initialized_by(plan[5]), Some(Contract::StrategyProxy));
    assert_eq!(initialized_by(plan[39]), Some(Contract::TaskManager));
    assert_eq!(initialized_by(plan[0]), None);
    assert_eq!(
        initialized_by(Step::Upgrade {
            proxy: Contract::StakeRegistry,
            implementation: Contract::StakeRegistryImplementation,
            admin: Contract::ServiceProxyAdmin,
            initialize: false,
        }),
        None
    );
}

#[test]
fn is_taken_finds_an_address_in_the_table() {
    let mut pipeline = reference_pipeline(operator()).unwrap();
    assert!(!pipeline.is_taken(&account(1)));
    confirm(&mut pipeline, 1).unwrap();
    assert!(pipeline.is_taken(&account(1)));
    assert!(!pipeline.is_taken(&account(2)));
    assert!(pipeline.resolve(Contract::StrategyManagerInterface) == Some(account(1)));
    assert!(pipeline.resolve(Contract::MockToken).is_none());
}

#[test]
fn contracts_have_distinct_rows() {
    assert_eq!(Contract::StrategyProxyAdmin.index(), 0);
    assert_eq!(Contract::ServiceManager.index(), 8);
    assert_eq!(Contract::TaskManagerImplementation.index(), 28);
}

#[test]
fn a_pipeline_stays_well_formed_and_a_forged_one_is_caught() {
    let mut pipeline = reference_pipeline(operator()).unwrap();
    assert!(pipeline.is_well_formed());
    confirm(&mut pipeline, 1).unwrap();
    confirm(&mut pipeline, 2).unwrap();
    assert!(pipeline.is_well_formed());
    let mut skipped = reference_pipeline(operator()).unwrap();
    skipped.position = 3;
    assert!(!skipped.is_well_formed());
    let mut stray = reference_pipeline(operator()).unwrap();
    stray.table[Contract::MockToken.index()] = Some(account(5));
    assert!(!stray.is_well_formed());
    let mut twin = reference_pipeline(operator()).unwrap();
    confirm(&mut twin, 1).unwrap();
    confirm(&mut twin, 2).unwrap();
    twin.table[Contract::StrategyProxyAdmin.index()] = Some(account(1));
    assert!(!twin.is_well_formed());
    let mut done_early = reference_pipeline(operator()).unwrap();
    done_early.status = Status::Completed;
    assert!(!done_early.is_well_formed());
    let finished = run_to_completion();
    assert!(finished.is_well_formed());
}

#[test]
fn produced_rows_mark_what_a_prefix_creates() {
    let plan = reference_plan();
    let none = produced_rows(&plan, 0);
    assert_eq!(none.len(), 29);
    assert!(none.iter().all(|made| !*made));
    let some = produced_rows(&plan, 6);
    assert!(some[Contract::StrategyManagerInterface.index()]);
    assert!(some[Contract::StrategyProxy.index()]);
    assert!(!some[Contract::ServiceProxyAdmin.index()]);
    let all = produced_rows(&plan, 40);
    assert!(all.iter().all(|made| *made));
    assert_eq!(produced_rows(&plan, 1000), all);
}

#[test]
fn bindings_follow_the_confirmed_steps() {
    let mut pipeline = reference_pipeline(operator()).unwrap();
    assert!(pipeline.binding_of(Contract::TaskManager).is_none());
    let mut tag = 1u8;
    while pipeline.position < 11 {
        confirm(&mut pipeline, tag).unwrap();
        tag += 1;
    }
    let bound = pipeline.binding_of(Contract::TaskManager).unwrap();
    assert_eq!(bound.state, ProxyState::PlaceholderBound);
    assert!(Some(bound.proxy) == pipeline.resolve(Contract::TaskManager));
    assert!(Some(bound.implementation) == pipeline.resolve(Contract::EmptyContract));
    assert!(Some(bound.admin) == pipeline.resolve(Contract::ServiceProxyAdmin));
    let strategy = pipeline.binding_of(Contract::StrategyProxy).unwrap();
    assert_eq!(strategy.state, ProxyState::ImplementationBound { initialized: true });
    assert!(Some(strategy.implementation) == pipeline.resolve(Contract::BaseStrategy));
    assert!(Some(strategy.admin) == pipeline.resolve(Contract::StrategyProxyAdmin));
    while pipeline.position < 24 {
        confirm(&mut pipeline, tag).unwrap();
        tag += 1;
    }
    let upgraded = pipeline.binding_of(Contract::StrategyManager).unwrap();
    assert_eq!(upgraded.state, ProxyState::ImplementationBound { initialized: false });
    assert!(
        Some(upgraded.implementation)
            == pipeline.resolve(Contract::StrategyManagerImplementation)
    );
    confirm(&mut pipeline, tag).unwrap();
    tag += 1;
    let ready = pipeline.binding_of(Contract::StrategyManager).unwrap();
    assert_eq!(ready.state, ProxyState::ImplementationBound { initialized: true });
    while pipeline.status == Status::Running {
        confirm(&mut pipeline, tag).unwrap();
        tag += 1;
    }
    let task_manager = pipeline.binding_of(Contract::TaskManager).unwrap();
    assert_eq!(task_manager.state, ProxyState::ImplementationBound { initialized: true });
    assert!(Some(task_manager.implementation) == pipeline.implementation_of(Contract::TaskManager));
    let stake = pipeline.binding_of(Contract::StakeRegistry).unwrap();
    assert_eq!(stake.state, ProxyState::ImplementationBound { initialized: false });
    assert!(pipeline.binding_of(Contract::MockToken).is_none());
}

#[test]
fn initializers_are_found_in_a_prefix_of_the_plan() {
    let plan = reference_plan();
    assert!(!runs_initializer_before(&plan, 5, Contract::StrategyProxy));
    assert!(runs_initializer_before(&plan, 6, Contract::StrategyProxy));
    assert!(!runs_initializer_before(&plan, 39, Contract::TaskManager));
    assert!(runs_initializer_before(&plan, 40, Contract::TaskManager));
    assert!(runs_initializer_before(&plan, 1000, Contract::RegistryCoordinator));
    assert!(!runs_initializer_before(&plan, 1000, Contract::StakeRegistry));
}
