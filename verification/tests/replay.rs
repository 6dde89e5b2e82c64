use corrust_lib::corruptors::replay::apply_run;
use corrust_lib::corruptors::BitOp;
use corrust_lib::corruptors::BitwiseCorruptor;
use corrust_lib::corruptors::Draw;
use corrust_lib::corruptors::Input;
use corrust_lib::corruptors::RandCorruptor;
use corrust_lib::corruptors::Strategy;
use corrust_lib::corruptors::TiltCorruptor;

fn hit(offset: usize) -> Draw {
    Draw { offset, value: 0 }
}

#[test]
fn a_run_of_no_draws_changes_nothing() {
    let input = Input { data: vec![1, 2, 3], start_offset: 0, end_offset: 3 };
    let tilt = TiltCorruptor { intensity: 50, tilt: 9 };
    assert_eq!(apply_run(&tilt, &input, &[]), Some(vec![1, 2, 3]));
}

#[test]
fn tilt_adds_up_where_an_offset_is_hit_again() {
    let input = Input { data: vec![10, 20, 250, 40], start_offset: 1, end_offset: 4 };
    let tilt = TiltCorruptor { intensity: 4, tilt: 5 };
    let draws = [hit(2), hit(1), hit(2), hit(2)];
    assert_eq!(apply_run(&tilt, &input, &draws), Some(vec![10, 25, 9, 40]));
}

#[test]
fn negative_tilt_subtracts_where_it_hits() {
    let input = Input { data: vec![2, 2, 2], start_offset: 0, end_offset: 3 };
    let tilt = TiltCorruptor { intensity: 2, tilt: -3 };
    assert_eq!(apply_run(&tilt, &input, &[hit(0), hit(2)]), Some(vec![0xFF, 2, 0xFF]));
}

#[test]
fn random_keeps_the_last_byte_written_to_an_offset() {
    let input = Input { data: vec![0, 0, 0], start_offset: 0, end_offset: 3 };
    let random = RandCorruptor { intensity: 3 };
    let draws = [
        Draw { offset: 1, value: 0xAA },
        Draw { offset: 0, value: 0x55 },
        Draw { offset: 1, value: 0xBB },
    ];
    assert_eq!(apply_run(&random, &input, &draws), Some(vec![0x55, 0xBB, 0]));
}

#[test]
fn random_may_write_the_byte_that_was_there() {
    let input = Input { data: vec![7, 8], start_offset: 0, end_offset: 2 };
    let random = RandCorruptor { intensity: 1 };
    let draws = [Draw { offset: 1, value: 8 }];
    assert_eq!(apply_run(&random, &input, &draws), Some(vec![7, 8]));
}

#[test]
fn bitwise_combines_only_once_however_often_it_hits() {
    let input = Input { data: vec![0xFF, 0xFF, 0xFF], start_offset: 0, end_offset: 3 };
    let and = BitwiseCorruptor { intensity: 3, op: BitOp::AND, rhs: 0x0F };
    assert_eq!(apply_run(&and, &input, &[hit(1), hit(1), hit(1)]), Some(vec![0xFF, 0x0F, 0xFF]));
    let or = BitwiseCorruptor { intensity: 1, op: BitOp::OR, rhs: 0x81 };
    let plain = Input { data: vec![0x10, 0x20], start_offset: 0, end_offset: 2 };
    assert_eq!(apply_run(&or, &plain, &[hit(0)]), Some(vec![0x91, 0x20]));
    let nand = BitwiseCorruptor { intensity: 1, op: BitOp::NAND, rhs: 0xF0 };
    assert_eq!(apply_run(&nand, &plain, &[hit(1), hit(0)]), Some(vec![0x00, 0x00]));
}

#[test]
fn the_number_of_iterations_is_that_of_the_draws() {
    let input = Input { data: vec![0], start_offset: 0, end_offset: 1 };
    let tilt = TiltCorruptor { intensity: 1, tilt: 1 };
    assert_eq!(apply_run(&tilt, &input, &[hit(0), hit(0), hit(0)]), Some(vec![3]));
    let idle = TiltCorruptor { intensity: 0, tilt: 1 };
    assert_eq!(apply_run(&idle, &input, &[hit(0)]), Some(vec![1]));
}

#[test]
fn a_held_strategy_replays_as_itself() {
    let input = Input { data: vec![0x02, 0x02], start_offset: 0, end_offset: 2 };
    let held = Strategy::Tilt(TiltCorruptor { intensity: 1, tilt: -3 });
    assert_eq!(apply_run(&held, &input, &[hit(1)]), Some(vec![0x02, 0xFF]));
}

#[test]
fn a_draw_outside_the_range_is_not_replayed() {
    let input = Input { data: vec![1, 2, 3, 4], start_offset: 1, end_offset: 3 };
    let tilt = TiltCorruptor { intensity: 1, tilt: 1 };
    assert_eq!(apply_run(&tilt, &input, &[hit(0)]), None);
    assert_eq!(apply_run(&tilt, &input, &[hit(3)]), None);
    assert_eq!(apply_run(&tilt, &input, &[hit(1), hit(2), hit(4)]), None);
    assert_eq!(apply_run(&tilt, &input, &[hit(usize::MAX)]), None);
    assert_eq!(apply_run(&tilt, &input, &[hit(1), hit(2)]), Some(vec![1, 3, 4, 4]));
}

#[test]
fn an_invalid_range_is_not_replayed_on() {
    let tilt = TiltCorruptor { intensity: 1, tilt: 1 };
    let reversed = Input { data: vec![1, 2, 3], start_offset: 2, end_offset: 1 };
    let too_long = Input { data: vec![1, 2, 3], start_offset: 0, end_offset: 4 };
    assert_eq!(apply_run(&tilt, &reversed, &[]), None);
    assert_eq!(apply_run(&tilt, &too_long, &[hit(0)]), None);
}

#[test]
fn an_empty_range_replays_only_the_empty_run() {
    let tilt = TiltCorruptor { intensity: 1, tilt: 1 };
    let input = Input { data: vec![1, 2, 3], start_offset: 2, end_offset: 2 };
    assert_eq!(apply_run(&tilt, &input, &[]), Some(vec![1, 2, 3]));
    assert_eq!(apply_run(&tilt, &input, &[hit(2)]), None);
}
