use tft_init::dcs::{PixelFormat, SetAddressMode};
use tft_init::models::ili934x::{
    init_sequence, Tail, DISPLAY_ON_MS, POST_RESET_MS, SLEEP_OUT_MS,
};
use tft_init::options::{ColorOrder, ModelOptions};
use tft_init::sequence::{Action, InitSequence, Run, Step};

fn write(opcode: u8, payload: &[u8]) -> Step {
    Step::Write { opcode, payload: payload.to_vec() }
}

fn short_script() -> Vec<Step> {
    vec![
        Step::Wait { ms: 5 },
        write(0x01, &[]),
        write(0x3A, &[0x55]),
        Step::Wait { ms: 7 },
        write(0x29, &[]),
    ]
}

fn mode() -> SetAddressMode {
    SetAddressMode::from_options(&ModelOptions::new().with_color_order(ColorOrder::Bgr))
}

#[test]
fn settle_times_are_those_of_the_data_sheet() {
    assert_eq!(POST_RESET_MS, 120);
    assert_eq!(SLEEP_OUT_MS, 120);
    assert_eq!(DISPLAY_ON_MS, 50);
}

#[test]
fn steps_come_out_in_the_order_of_the_script() {
    let mut sequence = InitSequence::new(short_script(), mode());
    assert_eq!(sequence.len(), 5);
    for (at, step) in short_script().into_iter().enumerate() {
        assert_eq!(sequence.position(), at);
        assert!(!sequence.is_finished());
        assert_eq!(sequence.pending(), Action::Perform(step));
        sequence = sequence.advance::<u8>(Ok(())).unwrap();
    }
    assert_eq!(sequence.position(), 5);
    assert!(sequence.is_finished());
    assert_eq!(sequence.pending(), Action::Finish(mode()));
    assert_eq!(sequence.address_mode(), mode());
}

#[test]
fn a_cloned_step_is_the_same_step() {
    for step in short_script() {
        assert_eq!(step.clone(), step);
    }
}

#[test]
fn pending_does_not_move_the_bring_up() {
    let sequence = InitSequence::new(short_script(), mode());
    assert_eq!(sequence.pending(), sequence.pending());
    assert_eq!(sequence.position(), 0);
}

#[test]
fn a_finished_bring_up_stays_finished() {
    let mut sequence = InitSequence::new(Vec::new(), mode());
    assert!(sequence.is_finished());
    for _ in 0..3 {
        sequence = sequence.advance::<u8>(Ok(())).unwrap();
        assert!(sequence.is_finished());
        assert_eq!(sequence.position(), 0);
        assert_eq!(sequence.pending(), Action::Finish(mode()));
    }
}

#[test]
fn a_failure_comes_back_as_it_was_reported() {
    let sequence = InitSequence::new(short_script(), mode());
    let sequence = sequence.advance::<&str>(Ok(())).unwrap();
    let moved = sequence.advance(Err("bus stuck"));
    assert_eq!(moved.err(), Some("bus stuck"));
}

#[test]
fn a_failure_ends_a_finished_bring_up_too() {
    let sequence = InitSequence::new(Vec::new(), mode());
    assert_eq!(sequence.advance(Err(3u8)).err(), Some(3u8));
}

#[test]
fn dry_run_without_failure_performs_the_script() {
    let run = InitSequence::new(short_script(), mode()).dry_run(None);
    assert_eq!(run, Run { performed: short_script(), ok: true });
}

#[test]
fn dry_run_stops_with_the_failing_write() {
    let script = short_script();
    let run = |accepted| InitSequence::new(short_script(), mode()).dry_run(Some(accepted));
    assert_eq!(run(0), Run { performed: script[..2].to_vec(), ok: false });
    assert_eq!(run(1), Run { performed: script[..3].to_vec(), ok: false });
    assert_eq!(run(2), Run { performed: script[..5].to_vec(), ok: false });
    assert_eq!(run(3), Run { performed: short_script(), ok: true });
    assert_eq!(run(usize::MAX), Run { performed: short_script(), ok: true });
}

#[test]
fn dry_run_from_the_middle_plays_what_is_left() {
    let sequence = InitSequence::new(short_script(), mode());
    let sequence = sequence.advance::<u8>(Ok(())).unwrap();
    let sequence = sequence.advance::<u8>(Ok(())).unwrap();
    let run = sequence.dry_run(Some(1));
    assert_eq!(run, Run { performed: short_script()[2..].to_vec(), ok: false });
}

#[test]
fn dry_run_of_an_empty_script() {
    let run = InitSequence::new(Vec::new(), mode()).dry_run(Some(0));
    assert_eq!(run, Run { performed: Vec::new(), ok: true });
}

#[test]
fn ili934x_script_has_25_steps_and_22_writes() {
    let options = ModelOptions::default();
    let sequence = init_sequence(&options, PixelFormat::Rgb565, Tail::Fixed);
    assert_eq!(sequence.len(), 25);
    assert_eq!(sequence.address_mode().as_u8(), 0x00);
    let run = sequence.dry_run(None);
    assert!(run.ok);
    let writes = run.performed.iter().filter(|step| matches!(step, Step::Write { .. })).count();
    assert_eq!(writes, 22);
    assert_eq!(run.performed[0], Step::Wait { ms: 120 });
    assert_eq!(run.performed[1], write(0xCF, &[0x00, 0xC3, 0x30]));
    assert_eq!(run.performed[11], write(0x36, &[0x00]));
    assert_eq!(run.performed[12], write(0x3A, &[0x55]));
    assert_eq!(run.performed[20], write(0x21, &[]));
    assert_eq!(run.performed[21], write(0x11, &[]));
    assert_eq!(run.performed[22], Step::Wait { ms: 120 });
    assert_eq!(run.performed[23], write(0x29, &[]));
    assert_eq!(run.performed[24], Step::Wait { ms: 50 });
}

#[test]
fn ili934x_tail_adds_two_writes() {
    let options = ModelOptions::default().with_invert_colors(true);
    let sequence = init_sequence(&options, PixelFormat::Rgb666, Tail::FromOptions);
    assert_eq!(sequence.len(), 27);
    let run = sequence.dry_run(None);
    assert_eq!(run.performed[12], write(0x3A, &[0x66]));
    assert_eq!(run.performed[25], write(0x21, &[]));
    assert_eq!(run.performed[26], write(0x36, &[0x00]));
}

#[test]
fn ili934x_dry_run_counts_the_failing_write() {
    for accepted in 0..22usize {
        let sequence = init_sequence(&ModelOptions::default(), PixelFormat::Rgb565, Tail::Fixed);
        let run = sequence.dry_run(Some(accepted));
        assert!(!run.ok);
        assert!(matches!(run.performed.last(), Some(Step::Write { .. })));
        let writes =
            run.performed.iter().filter(|step| matches!(step, Step::Write { .. })).count();
        assert_eq!(writes, accepted + 1);
    }
    let sequence = init_sequence(&ModelOptions::default(), PixelFormat::Rgb565, Tail::Fixed);
    assert!(sequence.dry_run(Some(22)).ok);
}
