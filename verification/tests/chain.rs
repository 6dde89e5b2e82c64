use corrust_lib::corruptors::chain::CorruptorChain;
use corrust_lib::corruptors::BitOp;
use corrust_lib::corruptors::BitwiseCorruptor;
use corrust_lib::corruptors::Corruptor;
use corrust_lib::corruptors::EngineError;
use corrust_lib::corruptors::Input;
use corrust_lib::corruptors::RandCorruptor;
use corrust_lib::corruptors::RandomSource;
use corrust_lib::corruptors::Strategy;
use corrust_lib::corruptors::TiltCorruptor;

fn chain_on(data: Vec<u8>, start_offset: usize, end_offset: usize) -> CorruptorChain {
    CorruptorChain::new(Input { data, start_offset, end_offset })
}

#[test]
fn a_new_chain_is_clean() {
    let chain = chain_on(vec![4, 5, 6], 1, 2);
    assert_eq!(chain.og_data.data, vec![4, 5, 6]);
    assert_eq!(chain.data.data, vec![4, 5, 6]);
    assert_eq!((chain.og_data.start_offset, chain.og_data.end_offset), (1, 2));
    assert_eq!((chain.data.start_offset, chain.data.end_offset), (1, 2));
    assert_eq!(chain.working(), &vec![4, 5, 6]);
}

#[test]
fn each_application_works_on_what_the_last_one_left() {
    let mut rng = RandomSource::seeded(51);
    let mut chain = chain_on(vec![0x10], 0, 1);
    let up = TiltCorruptor { intensity: 3, tilt: 5 };
    let mask = BitwiseCorruptor { intensity: 1, op: BitOp::OR, rhs: 0x80 };
    let down = TiltCorruptor { intensity: 1, tilt: -1 };
    let done = chain
        .corrupt(&up, &mut rng)
        .and_then(|c| c.corrupt(&mask, &mut rng))
        .and_then(|c| c.corrupt(&down, &mut rng))
        .map(|c| c.data.data.clone());
    assert_eq!(done, Ok(vec![0x9E]));
    assert_eq!(chain.working(), &vec![0x9E]);
}

#[test]
fn the_baseline_is_kept_while_the_working_copy_changes() {
    let mut rng = RandomSource::seeded(52);
    let mut chain = chain_on(vec![1, 1, 1, 1], 0, 4);
    let tilt = TiltCorruptor { intensity: 100, tilt: 1 };
    assert!(chain.corrupt(&tilt, &mut rng).is_ok());
    assert_eq!(chain.og_data.data, vec![1, 1, 1, 1]);
    assert_ne!(chain.data.data, vec![1, 1, 1, 1]);
    assert_eq!((chain.data.start_offset, chain.data.end_offset), (0, 4));
}

#[test]
fn reset_restores_bytes_and_range() {
    let mut rng = RandomSource::seeded(53);
    let mut chain = chain_on(vec![9, 9, 9], 0, 3);
    let random = RandCorruptor { intensity: 50 };
    assert!(chain.corrupt(&random, &mut rng).is_ok());
    chain.data.start_offset = 1;
    chain.data.end_offset = 2;
    chain.reset();
    assert_eq!(chain.data.data, vec![9, 9, 9]);
    assert_eq!((chain.data.start_offset, chain.data.end_offset), (0, 3));
    assert_eq!(chain.og_data.data, vec![9, 9, 9]);
}

#[test]
fn a_refused_application_undoes_nothing_before_it() {
    let mut rng = RandomSource::seeded(54);
    let mut chain = chain_on(vec![0x10, 0x20], 0, 1);
    let tilt = TiltCorruptor { intensity: 1, tilt: 5 };
    assert!(chain.corrupt(&tilt, &mut rng).is_ok());
    chain.data.end_offset = 0;
    assert_eq!(chain.corrupt(&tilt, &mut rng).err(), Some(EngineError::EmptyRange));
    chain.data.end_offset = 3;
    assert_eq!(chain.corrupt(&tilt, &mut rng).err(), Some(EngineError::InvalidRange));
    assert_eq!(chain.working(), &vec![0x15, 0x20]);
    chain.data.end_offset = 2;
    chain.data.start_offset = 1;
    assert!(chain.corrupt(&tilt, &mut rng).is_ok());
    assert_eq!(chain.working(), &vec![0x15, 0x25]);
}

#[test]
fn the_working_range_is_judged_against_the_working_buffer() {
    let mut rng = RandomSource::seeded(55);
    let mut chain = chain_on(vec![1, 2, 3], 0, 3);
    chain.data.data.truncate(2);
    let idle = RandCorruptor { intensity: 0 };
    assert_eq!(chain.corrupt(&idle, &mut rng).err(), Some(EngineError::InvalidRange));
    assert_eq!(chain.working(), &vec![1, 2]);
}

#[test]
fn a_chain_takes_any_strategy_by_reference() {
    let mut rng = RandomSource::seeded(56);
    let mut chain = chain_on(vec![0xF0], 0, 1);
    let strategies: Vec<Box<dyn Corruptor>> = vec![
        Box::new(BitwiseCorruptor { intensity: 1, op: BitOp::NAND, rhs: 0x80 }),
        Box::new(TiltCorruptor { intensity: 2, tilt: 8 }),
        Box::new(Strategy::Bitwise(BitwiseCorruptor { intensity: 1, op: BitOp::AND, rhs: 0xF0 })),
    ];
    for strategy in &strategies {
        assert!(chain.corrupt(strategy.as_ref(), &mut rng).is_ok());
    }
    assert_eq!(chain.working(), &vec![0x80]);
}

#[test]
fn run_applies_the_pipeline_in_order() {
    let mut rng = RandomSource::seeded(57);
    let mut chain = chain_on(vec![0x10], 0, 1);
    let pipeline = [
        Strategy::Tilt(TiltCorruptor { intensity: 1, tilt: 5 }),
        Strategy::Bitwise(BitwiseCorruptor { intensity: 1, op: BitOp::AND, rhs: 0x0F }),
    ];
    assert_eq!(chain.run(&pipeline, &mut rng), Ok(()));
    assert_eq!(chain.working(), &vec![0x05]);
    let reversed = [pipeline[1], pipeline[0]];
    assert_eq!(chain.run(&reversed, &mut rng), Ok(()));
    assert_eq!(chain.working(), &vec![0x05]);
    assert_eq!(chain.og_data.data, vec![0x10]);
}

#[test]
fn run_starts_from_the_baseline_each_time() {
    let mut rng = RandomSource::seeded(58);
    let mut chain = chain_on(vec![0x00], 0, 1);
    let pipeline = [Strategy::Tilt(TiltCorruptor { intensity: 3, tilt: 2 })];
    assert_eq!(chain.run(&pipeline, &mut rng), Ok(()));
    assert_eq!(chain.working(), &vec![6]);
    assert_eq!(chain.run(&pipeline, &mut rng), Ok(()));
    assert_eq!(chain.working(), &vec![6]);
}

#[test]
fn run_of_an_empty_pipeline_is_a_reset() {
    let mut rng = RandomSource::seeded(59);
    let mut chain = chain_on(vec![1, 2, 3], 3, 1);
    chain.data.data = vec![7];
    assert_eq!(chain.run(&[], &mut rng), Ok(()));
    assert_eq!(chain.working(), &vec![1, 2, 3]);
    assert_eq!((chain.data.start_offset, chain.data.end_offset), (3, 1));
}

#[test]
fn run_reports_the_first_refusal_and_leaves_the_chain_clean() {
    let mut rng = RandomSource::seeded(60);
    let mut chain = chain_on(vec![1, 2, 3], 1, 1);
    let pipeline = [
        Strategy::Random(RandCorruptor { intensity: 0 }),
        Strategy::Tilt(TiltCorruptor { intensity: -5, tilt: 3 }),
        Strategy::Bitwise(BitwiseCorruptor { intensity: 2, op: BitOp::OR, rhs: 1 }),
        Strategy::Random(RandCorruptor { intensity: 1 }),
    ];
    assert_eq!(chain.run(&pipeline, &mut rng), Err(EngineError::EmptyRange));
    assert_eq!(chain.working(), &vec![1, 2, 3]);
    assert_eq!(chain.run(&pipeline[..2], &mut rng), Ok(()));
    assert_eq!(chain.working(), &vec![1, 2, 3]);
}

#[test]
fn run_refuses_an_invalid_baseline_range_at_the_first_step() {
    let mut rng = RandomSource::seeded(61);
    let mut chain = chain_on(vec![1, 2, 3], 2, 1);
    let pipeline = [Strategy::Random(RandCorruptor { intensity: 0 })];
    assert_eq!(chain.run(&pipeline, &mut rng), Err(EngineError::InvalidRange));
    assert_eq!(chain.working(), &vec![1, 2, 3]);
}

#[test]
fn run_alters_nothing_outside_the_baseline_range() {
    let mut rng = RandomSource::seeded(62);
    let data: Vec<u8> = (0..100).collect();
    let mut chain = chain_on(data.clone(), 40, 60);
    let pipeline = [
        Strategy::Random(RandCorruptor { intensity: 500 }),
        Strategy::Tilt(TiltCorruptor { intensity: 500, tilt: -7 }),
        Strategy::Bitwise(BitwiseCorruptor { intensity: 500, op: BitOp::NAND, rhs: 0x55 }),
    ];
    assert_eq!(chain.run(&pipeline, &mut rng), Ok(()));
    assert_eq!(&chain.working()[..40], &data[..40]);
    assert_eq!(&chain.working()[60..], &data[60..]);
    assert_ne!(&chain.working()[40..60], &data[40..60]);
}
