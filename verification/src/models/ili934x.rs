//! Bring-up of the ILI934x controllers (ILI9341, ILI9342C).

use crate::dcs::address_mode_bits;
use crate::dcs::PixelFormat;
use crate::dcs::SetAddressMode;
use crate::dcs::ENTER_INVERT_MODE;
use crate::dcs::EXIT_INVERT_MODE;
use crate::dcs::EXIT_SLEEP_MODE;
use crate::dcs::SET_ADDRESS_MODE;
use crate::dcs::SET_DISPLAY_ON;
use crate::dcs::SET_PIXEL_FORMAT;
use crate::interface::run;
use crate::interface::Delay;
use crate::interface::Interface;
use crate::options::ModelOptions;
use crate::sequence::count_writes;
use crate::sequence::lemma_count_writes_concat;
use crate::sequence::lemma_count_writes_only;
use crate::sequence::lemma_play_stops_at_failure;
use crate::sequence::lemma_play_without_failure;
use crate::sequence::play;
use crate::sequence::script_view;
use crate::sequence::InitSequence;
use crate::sequence::SpecRun;
use crate::sequence::SpecStep;
use crate::sequence::Step;
use vstd::prelude::*;

verus! {

/// Time the controller needs after a reset before it takes commands, in
/// milliseconds.
pub const POST_RESET_MS: u32 = 120;

/// Time the controller needs after it has left sleep mode to reload its
/// factory settings, in milliseconds.
pub const SLEEP_OUT_MS: u32 = 120;

/// Time the controller needs after the display has been switched on, in
/// milliseconds.
pub const DISPLAY_ON_MS: u32 = 50;

/// What a panel wants written after the display is on.
#[derive(Clone, Copy, Debug, PartialEq, Eq, Structural)]
pub enum Tail {
    /// Nothing: inversion and address mode stay as the script set them.
    Fixed,
    /// Color inversion and address mode once more, as the options ask.
    FromOptions,
}

/// A write as a step of a script.
pub open spec fn command(opcode: u8, payload: Seq<u8>) -> SpecStep {
    SpecStep::Write { opcode, payload }
}

/// A wait as a step of a script.
pub open spec fn wait(ms: u32) -> SpecStep {
    SpecStep::Wait { ms }
}

/// Power and driver timing registers.
pub open spec fn power_block() -> Seq<SpecStep> {
    seq![
        // Power control B: ESD protection on.
        command(0xCF, seq![0x00, 0xC3, 0x30]),
        // Power-on sequence control: soft start, DDVDH enhance mode.
        command(0xED, seq![0x64, 0x03, 0x12, 0x81]),
        // Driver timing control A: gate non-overlap, EQ and pre-charge timing.
        command(0xE8, seq![0x85, 0x10, 0x79]),
        // Power control A: core voltage and DDVDH.
        command(0xCB, seq![0x39, 0x2C, 0x00, 0x34, 0x02]),
        // Pump ratio control.
        command(0xF7, seq![0x20]),
        // Driver timing control B: gate driver timing.
        command(0xEA, seq![0x00, 0x00]),
        // Power control 1: GVDD level.
        command(0xC0, seq![0x22]),
        // Power control 2: step-up factor.
        command(0xC1, seq![0x11]),
        // VCOM control 1: VCOMH and VCOML.
        command(0xC5, seq![0x3A, 0x1C]),
        // VCOM control 2: VCOM offset.
        command(0xC7, seq![0xA9]),
    ]
}

/// Memory access control, cleared, and the pixel format of the caller.
pub open spec fn format_block(format: PixelFormat) -> Seq<SpecStep> {
    seq![command(SET_ADDRESS_MODE, seq![0x00]), command(SET_PIXEL_FORMAT, seq![format.encoding()])]
}

/// Frame rate, display function, interface control, the two gamma curves
/// and color inversion.
pub open spec fn panel_block() -> Seq<SpecStep> {
    seq![
        // Frame rate in normal mode: 70 Hz.
        command(0xB1, seq![0x00, 0x1B]),
        // Display function control.
        command(0xB6, seq![0x0A, 0xA2]),
        // Interface control: memory overflow, endianness.
        command(0xF6, seq![0x01, 0x1D]),
        // Three-gamma function off.
        command(0xF2, seq![0x00]),
        // Gamma curve 1.
        command(0x26, seq![0x01]),
        // Positive gamma correction.
        command(
            0xE0,
            seq![0x0F, 0x3F, 0x2F, 0x0C, 0x10, 0x0A, 0x53, 0xD5, 0x40, 0x0A, 0x13, 0x03, 0x08, 0x03, 0x00],
        ),
        // Negative gamma correction.
        command(
            0xE1,
            seq![0x00, 0x00, 0x10, 0x03, 0x0F, 0x05, 0x2C, 0xA2, 0x3F, 0x05, 0x0E, 0x0C, 0x37, 0x3C, 0x0F],
        ),
        command(ENTER_INVERT_MODE, seq![]),
    ]
}

/// Out of sleep and display on, each with the wait it needs.
pub open spec fn wake_block() -> Seq<SpecStep> {
    seq![
        command(EXIT_SLEEP_MODE, seq![]),
        wait(SLEEP_OUT_MS),
        command(SET_DISPLAY_ON, seq![]),
        wait(DISPLAY_ON_MS),
    ]
}

/// What follows the display-on wait.
pub open spec fn tail_block(options: ModelOptions, tail: Tail) -> Seq<SpecStep> {
    match tail {
        Tail::Fixed => seq![],
        Tail::FromOptions => seq![
            command(
                if options.invert_colors {
                    ENTER_INVERT_MODE
                } else {
                    EXIT_INVERT_MODE
                },
                seq![],
            ),
            command(SET_ADDRESS_MODE, seq![address_mode_bits(options) as u8]),
        ],
    }
}

/// The part of the script that all panels of the family share.
pub open spec fn common_script(format: PixelFormat) -> Seq<SpecStep> {
    seq![wait(POST_RESET_MS)] + power_block() + format_block(format) + panel_block()
        + wake_block()
}

/// The whole script of a bring-up.
pub open spec fn script(options: ModelOptions, format: PixelFormat, tail: Tail) -> Seq<SpecStep> {
    common_script(format) + tail_block(options, tail)
}

/// The landmarks of the script: it opens with the post-reset wait, its
/// first write is power control B, and the pixel format, the exit from
/// sleep and display-on follow in this order, each at a fixed place. The
/// tail adds to the common script and changes nothing in it.
pub proof fn lemma_script_landmarks(options: ModelOptions, format: PixelFormat, tail: Tail)
    ensures
        ({
            let steps = script(options, format, tail);
            &&& common_script(format).len() == 25
            &&& steps.len() == 25 + tail_block(options, tail).len()
            &&& steps.take(25) == common_script(format)
            &&& steps[0] == wait(POST_RESET_MS)
            &&& steps[1] == command(0xCF, seq![0x00, 0xC3, 0x30])
            &&& steps[11] == command(SET_ADDRESS_MODE, seq![0x00])
            &&& steps[12] == command(SET_PIXEL_FORMAT, seq![format.encoding()])
            &&& steps[20] == command(ENTER_INVERT_MODE, seq![])
            &&& steps[21] == command(EXIT_SLEEP_MODE, seq![])
            &&& steps[23] == command(SET_DISPLAY_ON, seq![])
        }),
{
    let steps = script(options, format, tail);
    assert(steps.take(25) =~= common_script(format));
}

/// The controller gets the time it needs: the script waits the post-reset
/// time before its first write, and wherever it leaves sleep mode or
/// switches the display on, the very next step is the wait that the
/// controller needs after that command.
pub proof fn lemma_settle_times(options: ModelOptions, format: PixelFormat, tail: Tail)
    ensures
        POST_RESET_MS >= 120,
        SLEEP_OUT_MS >= 120,
        DISPLAY_ON_MS >= 50,
        ({
            let steps = script(options, format, tail);
            &&& steps[0] == wait(POST_RESET_MS)
            &&& forall|i: int|
                0 <= i < steps.len() && #[trigger] steps[i] is Write && steps[i]->opcode
                    == EXIT_SLEEP_MODE ==> i + 1 < steps.len() && steps[i + 1] == wait(
                    SLEEP_OUT_MS,
                )
            &&& forall|i: int|
                0 <= i < steps.len() && #[trigger] steps[i] is Write && steps[i]->opcode
                    == SET_DISPLAY_ON ==> i + 1 < steps.len() && steps[i + 1] == wait(
                    DISPLAY_ON_MS,
                )
        }),
{
    let steps = script(options, format, tail);
    assert(steps.len() == 25 + tail_block(options, tail).len());
    assert forall|i: int|
        0 <= i < steps.len() && #[trigger] steps[i] is Write && (steps[i]->opcode
            == EXIT_SLEEP_MODE || steps[i]->opcode == SET_DISPLAY_ON) implies i == 21 || i
        == 23 by {
        if i >= 25 {
            assert(steps[i] == tail_block(options, tail)[i - 25]);
        }
    }
}

/// The common script holds 22 writes, and the tail from the options adds
/// two.
pub proof fn lemma_script_writes(options: ModelOptions, format: PixelFormat, tail: Tail)
    ensures
        count_writes(common_script(format)) == 22,
        count_writes(script(options, format, tail)) == 22 + tail_block(options, tail).len(),
{
    let reset = seq![wait(POST_RESET_MS)];
    let power = reset + power_block();
    let formatted = power + format_block(format);
    let tuned = formatted + panel_block();
    assert(count_writes(reset) == 0) by {
        reveal_with_fuel(count_writes, 2);
    }
    assert(count_writes(power) == 10) by {
        lemma_count_writes_only(power_block());
        lemma_count_writes_concat(reset, power_block());
    }
    assert(count_writes(formatted) == 12) by {
        lemma_count_writes_only(format_block(format));
        lemma_count_writes_concat(power, format_block(format));
    }
    assert(count_writes(tuned) == 20) by {
        lemma_count_writes_only(panel_block());
        lemma_count_writes_concat(formatted, panel_block());
    }
    assert(count_writes(common_script(format)) == 22) by {
        lemma_wake_block_writes();
        lemma_count_writes_concat(tuned, wake_block());
    }
    lemma_count_writes_only(tail_block(options, tail));
    lemma_count_writes_concat(common_script(format), tail_block(options, tail));
}

/// On a bus that accepts every write the bring-up performs its script,
/// byte for byte and in order, and nothing else, and goes well.
pub proof fn lemma_bring_up_without_failure(
    options: ModelOptions,
    format: PixelFormat,
    tail: Tail,
)
    ensures
        play(script(options, format, tail), 0, None) == (SpecRun {
            performed: script(options, format, tail),
            ok: true,
        }),
{
    let steps = script(options, format, tail);
    lemma_play_without_failure(steps, 0);
    assert(steps.skip(0) =~= steps);
}

/// Fail fast: on a bus that fails one of the writes of the script, the
/// bring-up goes wrong with that write. What it performed is the script up
/// to and including the failing write, and no step follows it.
pub proof fn lemma_bring_up_fails_fast(
    options: ModelOptions,
    format: PixelFormat,
    tail: Tail,
    accepted: nat,
)
    requires
        accepted < 22 + tail_block(options, tail).len(),
    ensures
        ({
            let steps = script(options, format, tail);
            let run = play(steps, 0, Some(accepted));
            &&& !run.ok
            &&& 0 < run.performed.len() <= steps.len()
            &&& run.performed == steps.take(run.performed.len() as int)
            &&& run.performed.last() is Write
            &&& count_writes(run.performed) == accepted + 1
        }),
{
    let steps = script(options, format, tail);
    lemma_script_writes(options, format, tail);
    assert(steps.skip(0) =~= steps);
    lemma_play_stops_at_failure(steps, 0, accepted);
    let run = play(steps, 0, Some(accepted));
    assert(steps.subrange(0, run.performed.len() as int) =~= steps.take(
        run.performed.len() as int,
    ));
}

proof fn lemma_wake_block_writes()
    ensures
        count_writes(wake_block()) == 2,
{
    let sleep = seq![command(EXIT_SLEEP_MODE, seq![]), wait(SLEEP_OUT_MS)];
    let on = seq![command(SET_DISPLAY_ON, seq![]), wait(DISPLAY_ON_MS)];
    assert(wake_block() =~= sleep + on);
    lemma_count_writes_concat(sleep, on);
    assert(count_writes(sleep) == 1) by {
        reveal_with_fuel(count_writes, 3);
    }
    assert(count_writes(on) == 1) by {
        reveal_with_fuel(count_writes, 3);
    }
}

fn push_write(script: &mut Vec<Step>, opcode: u8, payload: Vec<u8>)
    ensures
        script_view(final(script)@) == script_view(old(script)@).push(command(opcode, payload@)),
{
    script.push(Step::Write { opcode, payload });
    assert(script_view(script@) =~= script_view(old(script)@).push(command(opcode, payload@)));
}

fn push_wait(script: &mut Vec<Step>, ms: u32)
    ensures
        script_view(final(script)@) == script_view(old(script)@).push(wait(ms)),
{
    script.push(Step::Wait { ms });
    assert(script_view(script@) =~= script_view(old(script)@).push(wait(ms)));
}

fn push_power_block(script: &mut Vec<Step>)
    ensures
        script_view(final(script)@) == script_view(old(script)@) + power_block(),
{
    push_write(script, 0xCF, vec![0x00, 0xC3, 0x30]);
    push_write(script, 0xED, vec![0x64, 0x03, 0x12, 0x81]);
    push_write(script, 0xE8, vec![0x85, 0x10, 0x79]);
    push_write(script, 0xCB, vec![0x39, 0x2C, 0x00, 0x34, 0x02]);
    push_write(script, 0xF7, vec![0x20]);
    push_write(script, 0xEA, vec![0x00, 0x00]);
    push_write(script, 0xC0, vec![0x22]);
    push_write(script, 0xC1, vec![0x11]);
    push_write(script, 0xC5, vec![0x3A, 0x1C]);
    push_write(script, 0xC7, vec![0xA9]);
    assert(script_view(script@) =~~= script_view(old(script)@) + power_block());
}

fn push_format_block(script: &mut Vec<Step>, format: PixelFormat)
    ensures
        script_view(final(script)@) == script_view(old(script)@) + format_block(format),
{
    push_write(script, SET_ADDRESS_MODE, vec![0x00]);
    push_write(script, SET_PIXEL_FORMAT, vec![format.as_u8()]);
    assert(script_view(script@) =~~= script_view(old(script)@) + format_block(format));
}

fn push_panel_block(script: &mut Vec<Step>)
    ensures
        script_view(final(script)@) == script_view(old(script)@) + panel_block(),
{
    push_write(script, 0xB1, vec![0x00, 0x1B]);
    push_write(script, 0xB6, vec![0x0A, 0xA2]);
    push_write(script, 0xF6, vec![0x01, 0x1D]);
    push_write(script, 0xF2, vec![0x00]);
    push_write(script, 0x26, vec![0x01]);
    push_write(
        script,
        0xE0,
        vec![0x0F, 0x3F, 0x2F, 0x0C, 0x10, 0x0A, 0x53, 0xD5, 0x40, 0x0A, 0x13, 0x03, 0x08, 0x03, 0x00],
    );
    push_write(
        script,
        0xE1,
        vec![0x00, 0x00, 0x10, 0x03, 0x0F, 0x05, 0x2C, 0xA2, 0x3F, 0x05, 0x0E, 0x0C, 0x37, 0x3C, 0x0F],
    );
    push_write(script, ENTER_INVERT_MODE, Vec::new());
    assert(script_view(script@) =~~= script_view(old(script)@) + panel_block());
}

fn push_wake_block(script: &mut Vec<Step>)
    ensures
        script_view(final(script)@) == script_view(old(script)@) + wake_block(),
{
    push_write(script, EXIT_SLEEP_MODE, Vec::new());
    push_wait(script, SLEEP_OUT_MS);
    push_write(script, SET_DISPLAY_ON, Vec::new());
    push_wait(script, DISPLAY_ON_MS);
    assert(script_view(script@) =~~= script_view(old(script)@) + wake_block());
}

fn push_tail_block(script: &mut Vec<Step>, options: &ModelOptions, mode: SetAddressMode, tail: Tail)
    requires
        mode@ == address_mode_bits(*options),
    ensures
        script_view(final(script)@) == script_view(old(script)@) + tail_block(*options, tail),
{
    match tail {
        Tail::Fixed => {},
        Tail::FromOptions => {
            let invert = if options.invert_colors {
                ENTER_INVERT_MODE
            } else {
                EXIT_INVERT_MODE
            };
            push_write(script, invert, Vec::new());
            push_write(script, SET_ADDRESS_MODE, vec![mode.as_u8()]);
        },
    }
    assert(script_view(script@) =~~= script_view(old(script)@) + tail_block(*options, tail));
}

/// The bring-up of a panel of the family, ready to be played: its script is
/// the common script for `pixel_format` followed by the tail that the panel
/// wants, and it yields the address mode that `options` ask for.
pub fn init_sequence(options: &ModelOptions, pixel_format: PixelFormat, tail: Tail) -> (sequence:
    InitSequence)
    ensures
        sequence@.script == script(*options, pixel_format, tail),
        sequence@.cursor == 0,
        sequence@.address_mode@ == address_mode_bits(*options),
{
    let mode = SetAddressMode::from_options(options);
    let mut steps: Vec<Step> = Vec::new();
    push_wait(&mut steps, POST_RESET_MS);
    push_power_block(&mut steps);
    push_format_block(&mut steps, pixel_format);
    push_panel_block(&mut steps);
    push_wake_block(&mut steps);
    assert(script_view(steps@) =~= common_script(pixel_format));
    push_tail_block(&mut steps, options, mode, tail);
    InitSequence::new(steps, mode)
}

/// Common init for all ILI934x controllers and color formats.
///
/// Waits for the controller to settle after reset, writes the power,
/// timing, format and gamma registers, takes the controller out of sleep
/// and switches the display on, and returns the address mode for later
/// frame writes. The first write that fails ends the bring-up: its error is
/// returned as the bus reported it and nothing is written after it.
pub fn init_common<DELAY, DI>(
    di: &mut DI,
    delay: &mut DELAY,
    options: &ModelOptions,
    pixel_format: PixelFormat,
) -> (result: Result<SetAddressMode, DI::Error>) where DELAY: Delay, DI: Interface
    ensures
        result matches Ok(mode) ==> mode@ == address_mode_bits(*options),
{
    run(init_sequence(options, pixel_format, Tail::Fixed), di, delay)
}

} // verus!
