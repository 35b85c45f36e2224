use squaring_testnet::address::Address;
use squaring_testnet::reference::{reference_generator, service_account};
use squaring_testnet::task_generator::{
    GeneratorAction, GeneratorEvent, Phase, TaskGenerator, ITERATION_LIMIT,
};

#[test]
fn reference_task_has_operand_two_and_quota_hundred() {
    let mut generator = reference_generator();
    generator.advance(GeneratorEvent::Done);
    generator.advance(GeneratorEvent::Done);
    match generator.action() {
        GeneratorAction::SubmitTask { sequence, operand, quota, payload, sender } => {
            assert_eq!(sequence, 0);
            assert_eq!(operand, 2);
            assert_eq!(quota, 100);
            assert_eq!(payload, vec![0u8]);
            assert!(sender == service_account());
        }
        other => panic!("a task was due, not {:?}", other),
    }
}

#[test]
fn an_iteration_mines_pauses_submits_and_mines() {
    let mut generator = reference_generator();
    assert!(matches!(generator.action(), GeneratorAction::MineBlock));
    generator.advance(GeneratorEvent::Done);
    assert!(matches!(generator.action(), GeneratorAction::Pause { millis: 5000 }));
    generator.advance(GeneratorEvent::Done);
    assert!(matches!(generator.action(), GeneratorAction::SubmitTask { .. }));
    generator.advance(GeneratorEvent::Done);
    assert!(matches!(generator.action(), GeneratorAction::MineBlock));
    assert_eq!(generator.phase, Phase::MineAfter);
    generator.advance(GeneratorEvent::Done);
    assert_eq!(generator.phase, Phase::MineBefore);
    assert_eq!(generator.iterations, 1);
    assert_eq!(generator.blocks_mined, 2);
    assert_eq!(generator.tasks_submitted, 1);
}

#[test]
fn iterations_advance_blocks_and_number_the_tasks() {
    let mut generator = reference_generator();
    let mut numbers = Vec::new();
    for _ in 0..5 {
        for _ in 0..4 {
            if let GeneratorAction::SubmitTask { sequence, .. } = generator.action() {
                numbers.push(sequence);
            }
            generator.advance(GeneratorEvent::Done);
        }
    }
    assert_eq!(generator.iterations, 5);
    assert_eq!(generator.blocks_mined, 10);
    assert_eq!(generator.tasks_submitted, 5);
    assert_eq!(numbers, vec![0, 1, 2, 3, 4]);
}

#[test]
fn a_failed_submission_ends_the_loop() {
    let mut generator = reference_generator();
    generator.advance(GeneratorEvent::Done);
    generator.advance(GeneratorEvent::Done);
    generator.advance(GeneratorEvent::Failed);
    assert_eq!(generator.phase, Phase::Stopped);
    assert_eq!(generator.blocks_mined, 1);
    assert_eq!(generator.tasks_submitted, 0);
    assert!(matches!(generator.action(), GeneratorAction::Halt));
    generator.advance(GeneratorEvent::Done);
    assert_eq!(generator.phase, Phase::Stopped);
    assert_eq!(generator.blocks_mined, 1);
}

#[test]
fn the_generator_stops_at_the_iteration_limit() {
    let mut generator = TaskGenerator::new(2, 100, vec![0], 5000, Address::zero());
    generator.iterations = ITERATION_LIMIT - 1;
    generator.blocks_mined = 2 * (ITERATION_LIMIT - 1);
    generator.tasks_submitted = ITERATION_LIMIT - 1;
    for _ in 0..4 {
        generator.advance(GeneratorEvent::Done);
    }
    assert_eq!(generator.phase, Phase::Stopped);
    assert_eq!(generator.iterations, ITERATION_LIMIT);
    assert_eq!(generator.blocks_mined, 2 * ITERATION_LIMIT);
    assert_eq!(generator.tasks_submitted, ITERATION_LIMIT);
}

#[test]
fn counters_that_do_not_fit_the_phase_are_caught() {
    let mut generator = reference_generator();
    assert!(generator.is_consistent());
    generator.advance(GeneratorEvent::Done);
    assert!(generator.is_consistent());
    generator.blocks_mined = 5;
    assert!(!generator.is_consistent());
    let mut late = reference_generator();
    late.iterations = ITERATION_LIMIT + 1;
    assert!(!late.is_consistent());
    let mut stopped = reference_generator();
    stopped.phase = Phase::Stopped;
    assert!(stopped.is_consistent());
    stopped.tasks_submitted = 2;
    assert!(!stopped.is_consistent());
}
