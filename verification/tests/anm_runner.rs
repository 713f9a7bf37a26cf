use std::collections::HashMap;
use touhou_interpreters::th06::anm0::{AnmRunner, Fault, FrameStatus, Need, Supply};
use touhou_interpreters::th06::catalog::Anms;
use touhou_interpreters::th06::format::{Anm0, Call, Instruction, Script, SpriteEntry};
use touhou_interpreters::th06::interpolator::{Formula, Interpolator};
use touhou_interpreters::th06::scalar::Scalar;
use touhou_interpreters::th06::sprite::{Samples, Sprite};

fn s(x: f32) -> Scalar {
    Scalar::from_bits(x.to_bits())
}

fn f(x: Scalar) -> f32 {
    f32::from_bits(x.to_bits())
}

fn call(time: u16, instr: Instruction) -> Call {
    Call { time, instr }
}

fn script(calls: Vec<Call>, interrupts: &[(i32, u32)]) -> Script {
    let mut table = HashMap::new();
    for (id, target) in interrupts {
        table.insert(*id, *target);
    }
    Script::new(calls, table)
}

fn entry(index: u32, x: f32, y: f32, width: f32, height: f32) -> SpriteEntry {
    SpriteEntry { index, x: s(x), y: s(y), width: s(width), height: s(height) }
}

fn file(size: u16, sprites: Vec<SpriteEntry>, scripts: Vec<(u8, Script)>) -> Anm0 {
    let mut table = HashMap::new();
    for (id, script) in scripts {
        table.insert(id, script);
    }
    Anm0::new((size, size), (s(1. / size as f32), s(1. / size as f32)), sprites, table)
}

/// Two files: sprites 0 to 9 in the first, 10 to 19 in the second, each
/// sprite `n` at x = n.
fn catalog_with(scripts: Vec<(u8, Script)>) -> Anms {
    let first: Vec<SpriteEntry> = (0..10).map(|n| entry(n, n as f32, 0., 16., 16.)).collect();
    let second: Vec<SpriteEntry> = (10..20).map(|n| entry(n, n as f32, 1., 32., 32.)).collect();
    Anms::new(vec![file(256, first, scripts), file(128, second, vec![])])
}

fn runner_on(calls: Vec<Call>, interrupts: &[(i32, u32)]) -> AnmRunner {
    AnmRunner {
        sprite: Sprite::new(),
        running: true,
        sprite_index_offset: 0,
        script: script(calls, interrupts),
        instruction_pointer: 0,
        frame: 0,
        waiting: false,
        variables: ([0; 4], [s(0.); 4], [0; 4]),
        timeout: None,
    }
}

fn share(formula: Formula, start_frame: u32, end_frame: u32, frame: u32) -> f32 {
    let t = ((frame as f32 - start_frame as f32) / (end_frame as f32 - start_frame as f32))
        .max(0.)
        .min(1.);
    match formula {
        Formula::Linear => t,
        Formula::Power2 => t * t,
        Formula::InvertPower2 => 1. - (1. - t) * (1. - t),
    }
}

fn along(start: f32, end: f32, t: f32) -> f32 {
    start + (end - start) * t
}

fn eval2(path: &Interpolator<[Scalar; 2]>, frame: u32) -> [Scalar; 2] {
    let t = share(path.formula, path.start_frame, path.end_frame, frame);
    [
        s(along(f(path.start_values[0]), f(path.end_values[0]), t)),
        s(along(f(path.start_values[1]), f(path.end_values[1]), t)),
    ]
}

fn eval3(path: &Interpolator<[Scalar; 3]>, frame: u32) -> [Scalar; 3] {
    let t = share(path.formula, path.start_frame, path.end_frame, frame);
    [
        s(along(f(path.start_values[0]), f(path.end_values[0]), t)),
        s(along(f(path.start_values[1]), f(path.end_values[1]), t)),
        s(along(f(path.start_values[2]), f(path.end_values[2]), t)),
    ]
}

/// The arithmetic of one sprite update, as the caller of the library does it.
fn sample(sprite: &Sprite) -> Samples {
    let frame = sprite.frame + 1;
    let zero3 = [s(0.); 3];
    let rotation = sprite.rotation_interpolator.as_ref().map(|p| eval3(p, frame)).unwrap_or(zero3);
    let color = sprite.color_interpolator.as_ref().map(|p| eval3(p, frame)).unwrap_or(zero3);
    Samples {
        rotations_sum: [
            s(f(sprite.rotations_3d[0]) + f(sprite.rotations_speed_3d[0])),
            s(f(sprite.rotations_3d[1]) + f(sprite.rotations_speed_3d[1])),
            s(f(sprite.rotations_3d[2]) + f(sprite.rotations_speed_3d[2])),
        ],
        rescale_sum: [
            s(f(sprite.rescale[0]) + f(sprite.scale_speed[0])),
            s(f(sprite.rescale[1]) + f(sprite.scale_speed[1])),
        ],
        rotation,
        fade: sprite
            .fade_interpolator
            .as_ref()
            .map(|p| {
                let t = share(p.formula, p.start_frame, p.end_frame, frame);
                s(along(p.start_values as f32, p.end_values as f32, t))
            })
            .unwrap_or(s(0.)),
        scale: sprite.scale_interpolator.as_ref().map(|p| eval2(p, frame)).unwrap_or([s(0.); 2]),
        offset: sprite.offset_interpolator.as_ref().map(|p| eval3(p, frame)).unwrap_or(zero3),
        color,
    }
}

/// A generator of 16-bit draws that a seed determines.
struct Draws {
    seed: u16,
}

impl Draws {
    fn next(&mut self) -> u16 {
        let x = ((self.seed ^ 0x9630) as i32 - 0x6553) as u16;
        self.seed = ((x & 0xc000) >> 14) | (x << 2);
        self.seed
    }
}

/// One whole frame of a runner: the frame is run to its end, whatever it
/// needs is supplied, and the sprite is updated.
fn frame(runner: &mut AnmRunner, anms: &Anms, draws: &mut Draws) -> bool {
    loop {
        match runner.run_frame(anms) {
            Ok(FrameStatus::Stopped) => return false,
            Ok(FrameStatus::Completed(running)) => {
                let samples = sample(&runner.sprite);
                runner.update_sprite(&samples);
                return running;
            }
            Ok(FrameStatus::Jumped) => {}
            Ok(FrameStatus::Needs(Need::Draw)) => {
                assert!(runner.resume(anms, Supply::Draw(draws.next())));
            }
            Ok(FrameStatus::Needs(Need::Sum(a, b))) => {
                assert!(runner.resume(anms, Supply::Sum(s(f(a) + f(b)))));
            }
            Err(fault) => panic!("the runner cannot go on: {:?}", fault),
        }
    }
}

fn waits(n: usize) -> Vec<Call> {
    (0..n).map(|i| call(3 * i as u16, Instruction::Wait)).collect()
}

#[test]
fn interrupt_falls_back_to_the_default_label() {
    let mut runner = runner_on(waits(8), &[(-1, 7), (3, 2)]);
    runner.waiting = true;
    runner.sprite.visible = false;
    assert_eq!(runner.interrupt(99), Ok(true));
    assert_eq!(runner.instruction_pointer, 7);
    assert_eq!(runner.frame, 21);
    assert!(!runner.waiting);
    assert!(runner.sprite.visible);
}

#[test]
fn interrupt_takes_its_own_label_first() {
    let mut runner = runner_on(waits(8), &[(-1, 7), (3, 2)]);
    assert_eq!(runner.interrupt(3), Ok(true));
    assert_eq!(runner.instruction_pointer, 2);
    assert_eq!(runner.frame, 6);
}

#[test]
fn interrupt_without_label_or_default_does_nothing() {
    let mut runner = runner_on(waits(8), &[(3, 2)]);
    runner.waiting = true;
    runner.sprite.visible = false;
    assert_eq!(runner.interrupt(99), Ok(false));
    assert_eq!(runner.instruction_pointer, 0);
    assert_eq!(runner.frame, 0);
    assert!(runner.waiting);
    assert!(!runner.sprite.visible);
}

#[test]
fn interrupt_out_of_the_script_is_a_fault() {
    let mut runner = runner_on(waits(2), &[(3, 2)]);
    assert_eq!(runner.interrupt(3), Err(Fault::JumpOutOfScript));
    assert_eq!(runner.instruction_pointer, 0);
    assert_eq!(runner.frame, 0);
}

#[test]
fn interrupt_reactivates_a_suspended_runner() {
    let anms = catalog_with(vec![]);
    let mut draws = Draws { seed: 0 };
    let mut runner = runner_on(
        vec![
            call(0, Instruction::WaitEx),
            call(10, Instruction::InterruptLabel(1)),
            call(10, Instruction::SetAlpha(7)),
            call(10, Instruction::Wait),
        ],
        &[(1, 1)],
    );
    assert!(frame(&mut runner, &anms, &mut draws));
    assert!(runner.waiting);
    assert!(!runner.sprite.visible);
    assert!(frame(&mut runner, &anms, &mut draws));
    assert_eq!(runner.frame, 0);
    assert_eq!(runner.interrupt(1), Ok(true));
    assert!(runner.sprite.visible);
    assert!(frame(&mut runner, &anms, &mut draws));
    assert_eq!(runner.sprite.color[3], 7);
    assert!(runner.waiting);
    assert_eq!(runner.instruction_pointer, 4);
    assert_eq!(runner.frame, 10);
}

#[test]
fn random_sprite_is_determined_by_the_seed() {
    let anms = catalog_with(vec![]);
    let mut picked = vec![];
    for _ in 0..2 {
        let mut draws = Draws { seed: 0 };
        let mut runner = runner_on(
            vec![call(0, Instruction::LoadRandomSprite(10, 4)), call(0, Instruction::KeepStill)],
            &[],
        );
        assert!(!frame(&mut runner, &anms, &mut draws));
        let x = f(runner.sprite.texcoords[0]);
        assert!((10. ..14.).contains(&x));
        assert_eq!(runner.sprite.layer, 1);
        picked.push(x);
    }
    assert_eq!(picked[0], picked[1]);
}

#[test]
fn random_sprite_adds_the_draw_modulo_the_amplitude() {
    let anms = catalog_with(vec![]);
    for (draw, expected) in [(0u16, 10.), (1, 11.), (3, 13.), (4, 10.), (65535, 13.)] {
        let mut runner = runner_on(vec![call(0, Instruction::LoadRandomSprite(10, 4))], &[]);
        assert_eq!(runner.run_frame(&anms), Ok(FrameStatus::Needs(Need::Draw)));
        assert_eq!(runner.instruction_pointer, 0);
        assert!(runner.resume(&anms, Supply::Draw(draw)));
        assert_eq!(runner.instruction_pointer, 1);
        assert_eq!(f(runner.sprite.texcoords[0]), expected);
        assert!(runner.sprite.changed);
    }
}

#[test]
fn random_sprite_without_amplitude_needs_no_draw() {
    let anms = catalog_with(vec![]);
    let mut runner = runner_on(
        vec![call(0, Instruction::LoadRandomSprite(12, 0)), call(0, Instruction::KeepStill)],
        &[],
    );
    assert_eq!(runner.run_frame(&anms), Ok(FrameStatus::Completed(false)));
    assert_eq!(f(runner.sprite.texcoords[0]), 12.);
}

#[test]
fn random_sprite_number_is_cut_to_a_byte() {
    let anms = catalog_with(vec![]);
    let mut runner = runner_on(vec![call(0, Instruction::LoadRandomSprite(u32::MAX, 300))], &[]);
    runner.sprite_index_offset = u32::MAX;
    assert_eq!(runner.run_frame(&anms), Ok(FrameStatus::Needs(Need::Draw)));
    // (4294967295 + 299 + 4294967295) mod 256 = 41: no such sprite.
    assert!(runner.resume(&anms, Supply::Draw(299)));
    assert!(runner.sprite.anm.is_none());
    assert_eq!(runner.sprite.layer, 2);
    let mut runner = runner_on(vec![call(0, Instruction::LoadRandomSprite(255, 300))], &[]);
    runner.sprite_index_offset = 2;
    assert_eq!(runner.run_frame(&anms), Ok(FrameStatus::Needs(Need::Draw)));
    // (255 + 16 + 2) mod 256 = 17.
    assert!(runner.resume(&anms, Supply::Draw(16)));
    assert_eq!(f(runner.sprite.texcoords[0]), 17.);
}

#[test]
fn resume_takes_only_what_is_awaited() {
    let anms = catalog_with(vec![]);
    let mut runner = runner_on(vec![call(0, Instruction::LoadRandomSprite(10, 4))], &[]);
    assert!(!runner.resume(&anms, Supply::Nothing));
    assert!(!runner.resume(&anms, Supply::Sum(s(1.))));
    assert_eq!(runner.instruction_pointer, 0);
    assert!(runner.sprite.anm.is_none());
    assert!(runner.resume(&anms, Supply::Draw(2)));
    assert!(!runner.resume(&anms, Supply::Draw(2)));

    let mut runner = runner_on(vec![call(0, Instruction::SetAlpha(3))], &[]);
    assert!(!runner.resume(&anms, Supply::Nothing));
    assert!(!runner.resume(&anms, Supply::Draw(2)));
    assert_eq!(runner.sprite.color[3], 255);

    let mut runner = runner_on(vec![call(1, Instruction::LoadRandomSprite(10, 4))], &[]);
    assert!(!runner.resume(&anms, Supply::Draw(2)));
    runner.frame = 1;
    runner.waiting = true;
    assert!(!runner.resume(&anms, Supply::Draw(2)));
    runner.waiting = false;
    runner.running = false;
    assert!(!runner.resume(&anms, Supply::Draw(2)));
    runner.running = true;
    runner.instruction_pointer = 1;
    assert!(!runner.resume(&anms, Supply::Draw(2)));
}

#[test]
fn shift_texture_asks_for_the_sum() {
    let anms = catalog_with(vec![]);
    let mut runner = runner_on(
        vec![
            call(0, Instruction::ShiftTextureX(s(0.25))),
            call(0, Instruction::ShiftTextureY(s(0.5))),
            call(0, Instruction::ShiftTextureX(s(0.25))),
            call(0, Instruction::KeepStill),
        ],
        &[],
    );
    runner.sprite.texoffsets = [s(1.), s(2.)];
    assert_eq!(runner.run_frame(&anms), Ok(FrameStatus::Needs(Need::Sum(s(1.), s(0.25)))));
    assert!(!runner.resume(&anms, Supply::Draw(1)));
    assert!(runner.resume(&anms, Supply::Sum(s(1.25))));
    assert_eq!(runner.run_frame(&anms), Ok(FrameStatus::Needs(Need::Sum(s(2.), s(0.5)))));
    assert!(runner.resume(&anms, Supply::Sum(s(2.5))));
    assert_eq!(runner.run_frame(&anms), Ok(FrameStatus::Needs(Need::Sum(s(1.25), s(0.25)))));
    assert!(runner.resume(&anms, Supply::Sum(s(1.5))));
    assert_eq!(runner.run_frame(&anms), Ok(FrameStatus::Completed(false)));
    assert_eq!(f(runner.sprite.texoffsets[0]), 1.5);
    assert_eq!(f(runner.sprite.texoffsets[1]), 2.5);
}

#[test]
fn fade_keeps_set_color_away() {
    let anms = catalog_with(vec![]);
    let mut draws = Draws { seed: 0 };
    let mut runner = runner_on(
        vec![
            call(0, Instruction::Fade(0, 10)),
            call(0, Instruction::SetColor(1, 2, 3)),
            call(100, Instruction::Delete),
        ],
        &[],
    );
    runner.sprite.color = [200, 100, 50, 255];
    for _ in 0..5 {
        assert!(frame(&mut runner, &anms, &mut draws));
    }
    assert_eq!(runner.sprite.frame, 5);
    assert_eq!(&runner.sprite.color[..3], &[200, 100, 50]);
    assert_eq!(runner.sprite.color[3], 127);
    let fade = runner.sprite.fade_interpolator.unwrap();
    assert_eq!((fade.start_values, fade.start_frame), (255, 0));
    assert_eq!((fade.end_values, fade.end_frame), (0, 10));
    assert_eq!(fade.formula, Formula::Linear);
}

#[test]
fn set_color_takes_blue_green_red_and_keeps_the_opacity() {
    let anms = catalog_with(vec![]);
    let mut runner = runner_on(
        vec![call(0, Instruction::SetColor(1, 2, 3)), call(0, Instruction::KeepStill)],
        &[],
    );
    runner.sprite.color = [200, 100, 50, 99];
    assert_eq!(runner.run_frame(&anms), Ok(FrameStatus::Completed(false)));
    assert_eq!(runner.sprite.color, [3, 2, 1, 99]);
}

#[test]
fn set_color_under_a_fade_changes_no_channel() {
    let anms = catalog_with(vec![]);
    for frames_before in [0u32, 1, 7] {
        let mut runner = runner_on(
            vec![call(0, Instruction::SetColor(1, 2, 3)), call(0, Instruction::KeepStill)],
            &[],
        );
        runner.sprite.frame = frames_before;
        runner.sprite.color = [200, 100, 50, 99];
        runner.sprite.fade_interpolator = Some(Interpolator::new(99, 0, 0, 10, Formula::Linear));
        assert_eq!(runner.run_frame(&anms), Ok(FrameStatus::Completed(false)));
        assert_eq!(runner.sprite.color, [200, 100, 50, 99]);
    }
}

#[test]
fn waiting_releases_on_timeout() {
    let anms = catalog_with(vec![]);
    let mut draws = Draws { seed: 0 };
    let mut runner = runner_on(
        vec![call(0, Instruction::Wait), call(0, Instruction::SetAlpha(9)), call(0, Instruction::Wait)],
        &[],
    );
    runner.timeout = Some(5);
    // The frame that suspends the runner, then the frames that find the
    // sprite at 1, 2, 3 and 4.
    for expected in 1..=5 {
        assert!(frame(&mut runner, &anms, &mut draws));
        assert!(runner.waiting);
        assert_eq!(runner.sprite.frame, expected);
        assert_eq!(runner.sprite.color[3], 255);
    }
    // The frame that finds the sprite at 5 ends the suspension.
    assert!(frame(&mut runner, &anms, &mut draws));
    assert!(!runner.waiting);
    assert_eq!(runner.frame, 0);
    // Execution resumes where it stopped.
    assert!(frame(&mut runner, &anms, &mut draws));
    assert_eq!(runner.sprite.color[3], 9);
    assert!(runner.waiting);
}

#[test]
fn stopped_runner_stays_as_it_is() {
    let anms = catalog_with(vec![]);
    let mut draws = Draws { seed: 0 };
    let mut runner = runner_on(vec![call(0, Instruction::Delete), call(0, Instruction::SetAlpha(1))], &[]);
    assert!(!frame(&mut runner, &anms, &mut draws));
    assert!(runner.sprite.removed);
    assert!(!runner.running);
    let before = format!("{:?}", runner);
    for _ in 0..3 {
        assert_eq!(runner.run_frame(&anms), Ok(FrameStatus::Stopped));
        assert!(!frame(&mut runner, &anms, &mut draws));
        assert_eq!(format!("{:?}", runner), before);
    }
}

#[test]
fn keep_still_stops_and_keeps_the_sprite() {
    let anms = catalog_with(vec![]);
    let mut runner = runner_on(vec![call(0, Instruction::KeepStill), call(0, Instruction::SetAlpha(1))], &[]);
    assert_eq!(runner.run_frame(&anms), Ok(FrameStatus::Completed(false)));
    assert!(!runner.running);
    assert!(!runner.sprite.removed);
    assert_eq!(runner.instruction_pointer, 1);
    assert_eq!(runner.frame, 1);
    assert_eq!(runner.sprite.color[3], 255);
    assert_eq!(runner.run_frame(&anms), Ok(FrameStatus::Stopped));
}

#[test]
fn toggle_mirrored_twice_changes_nothing() {
    let anms = catalog_with(vec![]);
    for times in 0..7usize {
        let mut calls: Vec<Call> = (0..times).map(|_| call(0, Instruction::ToggleMirrored)).collect();
        calls.push(call(0, Instruction::KeepStill));
        for start in [false, true] {
            let mut runner = runner_on(calls.clone(), &[]);
            runner.sprite.mirrored = start;
            assert_eq!(runner.run_frame(&anms), Ok(FrameStatus::Completed(false)));
            assert_eq!(runner.sprite.mirrored, start ^ (times % 2 == 1));
        }
    }
}

#[test]
fn calls_run_when_due_and_not_before() {
    let anms = catalog_with(vec![]);
    let mut runner = runner_on(
        vec![
            call(0, Instruction::SetAlpha(10)),
            call(0, Instruction::SetBlendmodeAlphablend),
            call(2, Instruction::SetAlpha(20)),
            call(2, Instruction::KeepStill),
        ],
        &[],
    );
    runner.sprite.changed = false;
    assert_eq!(runner.run_frame(&anms), Ok(FrameStatus::Completed(true)));
    assert_eq!((runner.instruction_pointer, runner.frame), (2, 1));
    assert_eq!(runner.sprite.color[3], 10);
    assert_eq!(runner.sprite.blendfunc, 1);
    assert!(runner.sprite.changed);
    runner.sprite.changed = false;
    assert_eq!(runner.run_frame(&anms), Ok(FrameStatus::Completed(true)));
    assert_eq!((runner.instruction_pointer, runner.frame), (2, 2));
    assert_eq!(runner.sprite.color[3], 10);
    assert!(!runner.sprite.changed);
    assert_eq!(runner.run_frame(&anms), Ok(FrameStatus::Completed(false)));
    assert_eq!((runner.instruction_pointer, runner.frame), (4, 3));
    assert_eq!(runner.sprite.color[3], 20);
}

#[test]
fn calls_whose_time_has_passed_are_skipped() {
    let anms = catalog_with(vec![]);
    let mut runner = runner_on(
        vec![
            call(0, Instruction::SetAlpha(10)),
            call(1, Instruction::Delete),
            call(5, Instruction::SetAlpha(30)),
            call(6, Instruction::KeepStill),
        ],
        &[],
    );
    runner.frame = 5;
    runner.sprite.changed = false;
    assert_eq!(runner.run_frame(&anms), Ok(FrameStatus::Completed(true)));
    assert_eq!(runner.sprite.color[3], 30);
    assert!(!runner.sprite.removed);
    assert_eq!((runner.instruction_pointer, runner.frame), (3, 6));
}

#[test]
fn run_frame_leaves_the_sprite_update_to_its_caller() {
    let anms = catalog_with(vec![]);
    let mut runner = runner_on(vec![call(9, Instruction::KeepStill)], &[]);
    assert_eq!(runner.run_frame(&anms), Ok(FrameStatus::Completed(true)));
    assert_eq!(runner.sprite.frame, 0);
    assert!(!runner.sprite.corner_relative_placement);
    let samples = sample(&runner.sprite);
    runner.update_sprite(&samples);
    assert_eq!(runner.sprite.frame, 1);
    assert!(runner.sprite.corner_relative_placement);
    assert_eq!(runner.frame, 1);
}

#[test]
fn jump_lands_at_the_time_of_its_target() {
    let anms = catalog_with(vec![]);
    let mut runner = runner_on(
        vec![
            call(0, Instruction::SetAlpha(1)),
            call(3, Instruction::SetAlpha(2)),
            call(5, Instruction::Jump(1)),
        ],
        &[],
    );
    runner.frame = 5;
    runner.instruction_pointer = 2;
    runner.sprite.changed = false;
    assert_eq!(runner.run_frame(&anms), Ok(FrameStatus::Jumped));
    assert_eq!((runner.instruction_pointer, runner.frame), (1, 3));
    assert!(runner.sprite.changed);
    assert_eq!(runner.sprite.color[3], 255);
    assert_eq!(runner.run_frame(&anms), Ok(FrameStatus::Completed(true)));
    assert_eq!(runner.sprite.color[3], 2);
    assert_eq!((runner.instruction_pointer, runner.frame), (2, 4));
}

#[test]
fn jump_out_of_the_script_is_a_fault() {
    let anms = catalog_with(vec![]);
    let mut runner = runner_on(vec![call(0, Instruction::SetAlpha(1)), call(0, Instruction::Jump(2))], &[]);
    assert_eq!(runner.run_frame(&anms), Err(Fault::JumpOutOfScript));
    assert_eq!(runner.sprite.color[3], 1);
    assert_eq!((runner.instruction_pointer, runner.frame), (1, 0));
    assert_eq!(runner.run_frame(&anms), Err(Fault::JumpOutOfScript));
}

#[test]
fn running_off_the_script_is_a_fault() {
    let anms = catalog_with(vec![]);
    let mut runner = runner_on(vec![call(0, Instruction::SetAlpha(1))], &[]);
    assert_eq!(runner.run_frame(&anms), Err(Fault::EndOfScript));
    assert_eq!(runner.sprite.color[3], 1);
    assert_eq!((runner.instruction_pointer, runner.frame), (1, 0));
    let mut runner = runner_on(vec![], &[]);
    assert_eq!(runner.run_frame(&anms), Err(Fault::EndOfScript));
}

#[test]
fn frame_number_that_would_overflow_is_a_fault() {
    let anms = catalog_with(vec![]);
    let mut runner = runner_on(vec![call(65535, Instruction::KeepStill)], &[]);
    runner.frame = 65535;
    assert_eq!(runner.run_frame(&anms), Err(Fault::FrameOverflow));
    assert!(!runner.running);
    assert_eq!(runner.frame, 65535);
    let mut runner = runner_on(vec![call(65535, Instruction::Wait)], &[]);
    runner.frame = 65535;
    assert_eq!(runner.run_frame(&anms), Ok(FrameStatus::Completed(true)));
    assert_eq!(runner.frame, 65535);
}

#[test]
fn path_that_would_end_beyond_the_last_frame_is_a_fault() {
    let anms = catalog_with(vec![]);
    for instr in [
        Instruction::Fade(0, 2),
        Instruction::MoveToLinear(s(0.), s(0.), s(0.), 2),
        Instruction::MoveToDecel(s(0.), s(0.), s(0.), 2),
        Instruction::MoveToAccel(s(0.), s(0.), s(0.), 2),
        Instruction::ScaleIn(s(0.), s(0.), 2),
    ] {
        let mut runner = runner_on(vec![call(0, instr), call(0, Instruction::KeepStill)], &[]);
        runner.sprite.frame = u32::MAX - 1;
        assert_eq!(runner.run_frame(&anms), Err(Fault::FrameOverflow));
        assert_eq!(runner.instruction_pointer, 0);
        runner.sprite.frame = u32::MAX - 2;
        assert_eq!(runner.run_frame(&anms), Ok(FrameStatus::Completed(false)));
    }
}

#[test]
fn paths_start_at_the_sprite_and_last_their_duration() {
    let anms = catalog_with(vec![]);
    let mut runner = runner_on(
        vec![
            call(0, Instruction::MoveToLinear(s(1.), s(2.), s(3.), 10)),
            call(0, Instruction::ScaleIn(s(4.), s(5.), 20)),
            call(0, Instruction::Fade(300, 30)),
            call(0, Instruction::KeepStill),
        ],
        &[],
    );
    runner.sprite.frame = 7;
    runner.sprite.dest_offset = [s(-1.), s(-2.), s(-3.)];
    runner.sprite.rescale = [s(0.5), s(0.25)];
    runner.sprite.color[3] = 40;
    assert_eq!(runner.run_frame(&anms), Ok(FrameStatus::Completed(false)));
    let offset = runner.sprite.offset_interpolator.unwrap();
    assert_eq!(offset.start_values, [s(-1.), s(-2.), s(-3.)]);
    assert_eq!(offset.end_values, [s(1.), s(2.), s(3.)]);
    assert_eq!((offset.start_frame, offset.end_frame, offset.formula), (7, 17, Formula::Linear));
    let scale = runner.sprite.scale_interpolator.unwrap();
    assert_eq!(scale.start_values, [s(0.5), s(0.25)]);
    assert_eq!(scale.end_values, [s(4.), s(5.)]);
    assert_eq!((scale.start_frame, scale.end_frame, scale.formula), (7, 27, Formula::Linear));
    let fade = runner.sprite.fade_interpolator.unwrap();
    assert_eq!((fade.start_values, fade.end_values), (40, 300));
    assert_eq!((fade.start_frame, fade.end_frame, fade.formula), (7, 37, Formula::Linear));
}

#[test]
fn move_to_decel_and_accel_pick_their_formulas() {
    let anms = catalog_with(vec![]);
    for (instr, formula) in [
        (Instruction::MoveToDecel(s(1.), s(2.), s(3.), 4), Formula::InvertPower2),
        (Instruction::MoveToAccel(s(1.), s(2.), s(3.), 4), Formula::Power2),
        (Instruction::MoveToLinear(s(1.), s(2.), s(3.), 4), Formula::Linear),
    ] {
        let mut runner = runner_on(vec![call(0, instr), call(0, Instruction::KeepStill)], &[]);
        assert_eq!(runner.run_frame(&anms), Ok(FrameStatus::Completed(false)));
        assert_eq!(runner.sprite.offset_interpolator.unwrap().formula, formula);
        assert_eq!(runner.sprite.offset_interpolator.unwrap().end_frame, 4);
    }
}

fn after(instr: Instruction, prepare: fn(&mut Sprite)) -> Sprite {
    let anms = catalog_with(vec![]);
    let mut runner = runner_on(vec![call(0, instr), call(0, Instruction::KeepStill)], &[]);
    prepare(&mut runner.sprite);
    runner.sprite.changed = false;
    assert_eq!(runner.run_frame(&anms), Ok(FrameStatus::Completed(false)));
    assert!(runner.sprite.changed);
    runner.sprite
}

#[test]
fn set_alpha_is_cut_to_a_byte() {
    assert_eq!(after(Instruction::SetAlpha(128), |_| {}).color, [255, 255, 255, 128]);
    assert_eq!(after(Instruction::SetAlpha(256), |_| {}).color[3], 0);
    assert_eq!(after(Instruction::SetAlpha(511), |_| {}).color[3], 255);
    assert_eq!(after(Instruction::SetAlpha(u32::MAX), |_| {}).color[3], 255);
}

#[test]
fn set_visible_goes_by_the_lowest_bit() {
    assert!(!after(Instruction::SetVisible(0), |_| {}).visible);
    assert!(after(Instruction::SetVisible(1), |sprite| sprite.visible = false).visible);
    assert!(!after(Instruction::SetVisible(2), |_| {}).visible);
    assert!(after(Instruction::SetVisible(3), |sprite| sprite.visible = false).visible);
    assert!(after(Instruction::SetVisible(u32::MAX), |sprite| sprite.visible = false).visible);
}

#[test]
fn set_allow_offset_and_orientation_take_one_only() {
    assert!(after(Instruction::SetAllowOffset(1), |_| {}).allow_dest_offset);
    assert!(!after(Instruction::SetAllowOffset(0), |sprite| sprite.allow_dest_offset = true).allow_dest_offset);
    assert!(!after(Instruction::SetAllowOffset(2), |sprite| sprite.allow_dest_offset = true).allow_dest_offset);
    assert!(after(Instruction::SetAutomaticOrientation(1), |_| {}).automatic_orientation);
    assert!(
        !after(Instruction::SetAutomaticOrientation(3), |sprite| sprite.automatic_orientation = true)
            .automatic_orientation
    );
}

#[test]
fn blend_modes() {
    assert_eq!(after(Instruction::SetBlendmodeAlphablend, |_| {}).blendfunc, 1);
    assert_eq!(after(Instruction::SetBlendmodeAdd, |sprite| sprite.blendfunc = 1).blendfunc, 0);
}

#[test]
fn scalar_operands_are_stored_as_they_come() {
    assert_eq!(after(Instruction::SetScale(s(2.), s(3.)), |_| {}).rescale, [s(2.), s(3.)]);
    assert_eq!(after(Instruction::SetScaleSpeed(s(0.1), s(0.2)), |_| {}).scale_speed, [s(0.1), s(0.2)]);
    assert_eq!(
        after(Instruction::SetRotations3d(s(1.), s(2.), s(3.)), |_| {}).rotations_3d,
        [s(1.), s(2.), s(3.)]
    );
    assert_eq!(
        after(Instruction::SetRotationsSpeed3d(s(1.), s(2.), s(3.)), |_| {}).rotations_speed_3d,
        [s(1.), s(2.), s(3.)]
    );
    assert_eq!(after(Instruction::Move(s(1.), s(2.), s(3.)), |_| {}).dest_offset, [s(1.), s(2.), s(3.)]);
}

#[test]
fn corner_relative_placement_and_no_ops() {
    assert!(after(Instruction::SetCornerRelativePlacement, |_| {}).corner_relative_placement);
    let mut untouched = Sprite::new();
    untouched.changed = true;
    assert_eq!(format!("{:?}", after(Instruction::InterruptLabel(4), |_| {})), format!("{:?}", untouched));
    assert_eq!(format!("{:?}", after(Instruction::Todo(4), |_| {})), format!("{:?}", untouched));
}

#[test]
fn wait_ex_hides_and_suspends() {
    let anms = catalog_with(vec![]);
    let mut runner = runner_on(vec![call(0, Instruction::WaitEx), call(0, Instruction::SetAlpha(1))], &[]);
    assert_eq!(runner.run_frame(&anms), Ok(FrameStatus::Completed(true)));
    assert!(runner.waiting);
    assert!(!runner.sprite.visible);
    assert_eq!(runner.frame, 0);
    assert_eq!(runner.instruction_pointer, 1);
    assert_eq!(runner.sprite.color[3], 255);
    let mut runner = runner_on(vec![call(0, Instruction::Wait)], &[]);
    assert_eq!(runner.run_frame(&anms), Ok(FrameStatus::Completed(true)));
    assert!(runner.waiting);
    assert!(runner.sprite.visible);
}

#[test]
fn load_sprite_binds_the_file_and_its_rectangle() {
    let anms = catalog_with(vec![]);
    let loaded = after(Instruction::LoadSprite(13), |_| {});
    assert_eq!(loaded.layer, 1);
    assert_eq!(loaded.texcoords, [s(13.), s(1.), s(32.), s(32.)]);
    let binding = loaded.anm.unwrap();
    assert_eq!(binding.ordinal, 1);
    assert_eq!(binding.inv_size, (s(1. / 128.), s(1. / 128.)));
    assert_eq!(anms.len(), 2);
    let loaded = after(Instruction::LoadSprite(256 + 4), |_| {});
    assert_eq!(loaded.layer, 0);
    assert_eq!(loaded.texcoords, [s(4.), s(0.), s(16.), s(16.)]);
}

#[test]
fn new_runs_the_first_frame_with_the_offset() {
    let looping = script(
        vec![
            call(0, Instruction::LoadSprite(1)),
            call(1, Instruction::LoadSprite(1)),
            call(2, Instruction::KeepStill),
        ],
        &[],
    );
    let anms = catalog_with(vec![(4, looping)]);
    let mut draws = Draws { seed: 0 };
    let (mut runner, status) = AnmRunner::new(&anms, 4, Sprite::new(), 2);
    assert_eq!(status, Ok(FrameStatus::Completed(true)));
    assert_eq!(f(runner.sprite.texcoords[0]), 3.);
    assert_eq!(runner.sprite_index_offset, 0);
    assert_eq!((runner.instruction_pointer, runner.frame), (1, 1));
    assert!(runner.running);
    assert!(!runner.waiting);
    assert_eq!(runner.timeout, None);
    assert_eq!(runner.get_sprite().frame, 0);
    let samples = sample(&runner.sprite);
    runner.update_sprite(&samples);
    assert!(frame(&mut runner, &anms, &mut draws));
    assert_eq!(f(runner.sprite.texcoords[0]), 1.);
    assert!(!frame(&mut runner, &anms, &mut draws));
}

#[test]
fn new_reports_where_the_first_frame_needs_help() {
    let random = script(vec![call(0, Instruction::LoadRandomSprite(1, 2))], &[]);
    let anms = catalog_with(vec![(0, random)]);
    let (mut runner, status) = AnmRunner::new(&anms, 0, Sprite::new(), 10);
    assert_eq!(status, Ok(FrameStatus::Needs(Need::Draw)));
    assert_eq!(runner.sprite_index_offset, 10);
    assert!(runner.resume(&anms, Supply::Draw(1)));
    assert_eq!(f(runner.sprite.texcoords[0]), 12.);
}

#[test]
fn anm_runner_runs_fifty_frames() {
    let looping = script(
        vec![
            call(0, Instruction::LoadSprite(0)),
            call(0, Instruction::SetRotationsSpeed3d(s(0.), s(0.), s(0.125))),
            call(4, Instruction::LoadSprite(1)),
            call(8, Instruction::LoadRandomSprite(2, 3)),
            call(8, Instruction::ShiftTextureX(s(0.5))),
            call(12, Instruction::Jump(0)),
        ],
        &[],
    );
    let anms = catalog_with(vec![(1, looping)]);
    let mut draws = Draws { seed: 0 };
    let (mut runner, status) = AnmRunner::new(&anms, 1, Sprite::new(), 0);
    assert_eq!(status, Ok(FrameStatus::Completed(true)));
    let samples = sample(&runner.sprite);
    runner.update_sprite(&samples);
    for _ in 0..50 {
        assert!(frame(&mut runner, &anms, &mut draws));
    }
    assert_eq!(runner.sprite.frame, 51);
    assert_eq!(f(runner.sprite.rotations_3d[2]), 51. * 0.125);
    // The script comes round every twelve frames: four rounds, each with one
    // shift of the texture, and two frames of a fifth.
    assert_eq!(f(runner.sprite.texoffsets[0]), 2.);
    assert_eq!(runner.frame, 3);
    assert_eq!(runner.instruction_pointer, 2);
    assert_eq!(f(runner.sprite.texcoords[0]), 0.);
}
