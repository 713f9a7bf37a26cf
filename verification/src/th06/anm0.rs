//! Animation runner.
//!
//! A runner steps one script against one sprite, a frame at a time. It does
//! the work of a frame as far as it can by itself, and says where it has to
//! be called again or needs a value from outside: a random draw, or the sum
//! of two scalars.

use vstd::prelude::*;
use crate::th06::catalog::{loaded, script_of, Anms};
use crate::th06::format::{Anm0, Call, Instruction, Script, ScriptView};
use crate::th06::interpolator::{Formula, Interpolator};
use crate::th06::scalar::Scalar;
pub use crate::th06::sprite::{Samples, Sprite, Vertex};

verus! {

/// Why a runner cannot go on.
#[derive(Clone, Copy, Debug, PartialEq, Eq, Structural)]
pub enum Fault {
    /// The instruction pointer is outside the script.
    EndOfScript,
    /// A jump or an interrupt leads outside the script.
    JumpOutOfScript,
    /// A frame number would leave the range of its type.
    FrameOverflow,
}

/// A value that an instruction needs and the runner cannot compute.
#[derive(Clone, Copy, Debug, PartialEq, Eq, Structural)]
pub enum Need {
    /// A random draw of 16 bits.
    Draw,
    /// The sum of these two scalars.
    Sum(Scalar, Scalar),
}

/// A value handed to an instruction from outside.
#[derive(Clone, Copy, Debug, PartialEq, Eq, Structural)]
pub enum Supply {
    Nothing,
    /// A random draw.
    Draw(u16),
    /// A sum of two scalars.
    Sum(Scalar),
}

/// How far `run_frame` got.
#[derive(Clone, Copy, Debug, PartialEq, Eq, Structural)]
pub enum FrameStatus {
    /// The runner had stopped before: nothing was done, and the sprite is not
    /// to be updated.
    Stopped,
    /// The frame is done but for the update of the sprite; the flag tells
    /// whether the runner is still running.
    Completed(bool),
    /// A jump was taken; the frame goes on with the next call of `run_frame`.
    Jumped,
    /// The call under the pointer needs this; the frame goes on once
    /// `resume` has been given it.
    Needs(Need),
}

/// The sprite number that a load instruction asks for: the operand, what was
/// drawn on top of it, and the offset of the runner, cut to a byte.
pub open spec fn sprite_number(index: u32, drawn: int, offset: u32) -> u8 {
    ((index + drawn + offset) % 256) as u8
}

/// Whether the instruction ends the script.
pub open spec fn stops(instr: Instruction) -> bool {
    instr is Delete || instr is KeepStill
}

/// Whether the instruction suspends the script.
pub open spec fn suspends(instr: Instruction) -> bool {
    instr is Wait || instr is WaitEx
}

/// What the instruction needs from outside when it meets this sprite.
pub open spec fn need_of(sprite: Sprite, instr: Instruction) -> Option<Need> {
    match instr {
        Instruction::LoadRandomSprite(_, amplitude) => if amplitude > 0 {
            Some(Need::Draw)
        } else {
            None
        },
        Instruction::ShiftTextureX(dx) => Some(Need::Sum(sprite.texoffsets[0], dx)),
        Instruction::ShiftTextureY(dy) => Some(Need::Sum(sprite.texoffsets[1], dy)),
        _ => None,
    }
}

/// Whether what is handed in is what is needed.
pub open spec fn fits(supply: Supply, need: Option<Need>) -> bool {
    match need {
        None => supply is Nothing,
        Some(Need::Draw) => supply is Draw,
        Some(Need::Sum(_, _)) => supply is Sum,
    }
}

/// A path that starts at the frame of the sprite and lasts `duration` frames.
pub open spec fn path<V>(sprite: Sprite, from: V, to: V, duration: u32, formula: Formula)
    -> Interpolator<V> {
    Interpolator {
        start_values: from,
        start_frame: sprite.frame,
        end_values: to,
        end_frame: (sprite.frame + duration) as u32,
        formula,
    }
}

/// The sprite after an instruction, run with a runner's offset and with what
/// it needs from outside.
pub open spec fn sprite_after(
    sprite: Sprite,
    anms: Seq<Anm0>,
    offset: u32,
    instr: Instruction,
    supply: Supply,
) -> Sprite {
    match instr {
        Instruction::Delete => Sprite { removed: true, ..sprite },
        Instruction::LoadSprite(index) => loaded(sprite, anms, sprite_number(index, 0, offset)),
        Instruction::SetScale(sx, sy) => Sprite { rescale: [sx, sy], ..sprite },
        Instruction::SetAlpha(alpha) => Sprite {
            color: [sprite.color[0], sprite.color[1], sprite.color[2], (alpha % 256) as u8],
            ..sprite
        },
        Instruction::SetColor(b, g, r) => if sprite.fade_interpolator is None {
            Sprite { color: [r, g, b, sprite.color[3]], ..sprite }
        } else {
            sprite
        },
        Instruction::Jump(_) => sprite,
        Instruction::ToggleMirrored => Sprite { mirrored: !sprite.mirrored, ..sprite },
        Instruction::SetRotations3d(rx, ry, rz) => Sprite { rotations_3d: [rx, ry, rz], ..sprite },
        Instruction::SetRotationsSpeed3d(srx, sry, srz) => Sprite {
            rotations_speed_3d: [srx, sry, srz],
            ..sprite
        },
        Instruction::SetScaleSpeed(ssx, ssy) => Sprite { scale_speed: [ssx, ssy], ..sprite },
        Instruction::Fade(new_alpha, duration) => Sprite {
            fade_interpolator: Some(
                path(sprite, sprite.color[3] as u32, new_alpha, duration, Formula::Linear),
            ),
            ..sprite
        },
        Instruction::SetBlendmodeAlphablend => Sprite { blendfunc: 1, ..sprite },
        Instruction::SetBlendmodeAdd => Sprite { blendfunc: 0, ..sprite },
        Instruction::KeepStill => sprite,
        Instruction::LoadRandomSprite(min_index, amplitude) => if amplitude > 0 {
            match supply {
                Supply::Draw(draw) => loaded(
                    sprite,
                    anms,
                    sprite_number(min_index, draw as int % amplitude as int, offset),
                ),
                _ => sprite,
            }
        } else {
            loaded(sprite, anms, sprite_number(min_index, 0, offset))
        },
        Instruction::Move(x, y, z) => Sprite { dest_offset: [x, y, z], ..sprite },
        Instruction::MoveToLinear(x, y, z, duration) => Sprite {
            offset_interpolator: Some(
                path(sprite, sprite.dest_offset, [x, y, z], duration, Formula::Linear),
            ),
            ..sprite
        },
        Instruction::MoveToDecel(x, y, z, duration) => Sprite {
            offset_interpolator: Some(
                path(sprite, sprite.dest_offset, [x, y, z], duration, Formula::InvertPower2),
            ),
            ..sprite
        },
        Instruction::MoveToAccel(x, y, z, duration) => Sprite {
            offset_interpolator: Some(
                path(sprite, sprite.dest_offset, [x, y, z], duration, Formula::Power2),
            ),
            ..sprite
        },
        Instruction::Wait => sprite,
        Instruction::InterruptLabel(_) => sprite,
        Instruction::SetCornerRelativePlacement => Sprite {
            corner_relative_placement: true,
            ..sprite
        },
        Instruction::WaitEx => Sprite { visible: false, ..sprite },
        Instruction::SetAllowOffset(value) => Sprite { allow_dest_offset: value == 1, ..sprite },
        Instruction::SetAutomaticOrientation(value) => Sprite {
            automatic_orientation: value == 1,
            ..sprite
        },
        Instruction::ShiftTextureX(_) => match supply {
            Supply::Sum(sum) => Sprite { texoffsets: [sum, sprite.texoffsets[1]], ..sprite },
            _ => sprite,
        },
        Instruction::ShiftTextureY(_) => match supply {
            Supply::Sum(sum) => Sprite { texoffsets: [sprite.texoffsets[0], sum], ..sprite },
            _ => sprite,
        },
        Instruction::SetVisible(visible) => Sprite { visible: visible % 2 == 1, ..sprite },
        Instruction::ScaleIn(sx, sy, duration) => Sprite {
            scale_interpolator: Some(
                path(sprite, sprite.rescale, [sx, sy], duration, Formula::Linear),
            ),
            ..sprite
        },
        Instruction::Todo(_) => sprite,
    }
}

/// Interpreter for `Anm0` instructions to update a `Sprite`.
#[derive(Debug)]
pub struct AnmRunner {
    pub sprite: Sprite,
    pub running: bool,
    /// Added to the number of every sprite that the first frame loads.
    pub sprite_index_offset: u32,
    pub script: Script,
    pub instruction_pointer: usize,
    pub frame: u16,
    pub waiting: bool,
    /// Reserved: no instruction reads or writes them.
    pub variables: ([i32; 4], [Scalar; 4], [i32; 4]),
    /// The frame of the sprite at which a suspended script goes on.
    pub timeout: Option<u32>,
}

/// The state of a runner.
pub struct RunnerView {
    pub sprite: Sprite,
    pub running: bool,
    pub sprite_index_offset: u32,
    pub script: ScriptView,
    pub instruction_pointer: int,
    pub frame: u16,
    pub waiting: bool,
    pub variables: ([i32; 4], [Scalar; 4], [i32; 4]),
    pub timeout: Option<u32>,
}

impl View for AnmRunner {
    type V = RunnerView;

    open spec fn view(&self) -> RunnerView {
        RunnerView {
            sprite: self.sprite,
            running: self.running,
            sprite_index_offset: self.sprite_index_offset,
            script: self.script@,
            instruction_pointer: self.instruction_pointer as int,
            frame: self.frame,
            waiting: self.waiting,
            variables: self.variables,
            timeout: self.timeout,
        }
    }
}

impl RunnerView {
    /// A runner about to run the first frame of a script.
    pub open spec fn fresh(script: ScriptView, sprite: Sprite, sprite_index_offset: u32)
        -> RunnerView {
        RunnerView {
            sprite,
            running: true,
            sprite_index_offset,
            script,
            instruction_pointer: 0,
            frame: 0,
            waiting: false,
            variables: (
                [0i32, 0i32, 0i32, 0i32],
                [Scalar { bits: 0 }, Scalar { bits: 0 }, Scalar { bits: 0 }, Scalar { bits: 0 }],
                [0i32, 0i32, 0i32, 0i32],
            ),
            timeout: None,
        }
    }

    /// Whether the pointer is on a call of the script.
    pub open spec fn in_script(self) -> bool {
        0 <= self.instruction_pointer < self.script.instructions.len()
    }

    /// The call under the pointer.
    pub open spec fn call(self) -> Call {
        self.script.instructions[self.instruction_pointer]
    }

    /// Why the instruction cannot be run, if it cannot: a jump has to lead
    /// into the script, and a path has to end at a frame that is a number.
    pub open spec fn fault_of(self, instr: Instruction) -> Option<Fault> {
        match instr {
            Instruction::Jump(pointer) => if pointer >= self.script.instructions.len() {
                Some(Fault::JumpOutOfScript)
            } else {
                None
            },
            Instruction::Fade(_, duration) | Instruction::MoveToLinear(_, _, _, duration)
            | Instruction::MoveToDecel(_, _, _, duration)
            | Instruction::MoveToAccel(_, _, _, duration)
            | Instruction::ScaleIn(_, _, duration) => if self.sprite.frame + duration > u32::MAX {
                Some(Fault::FrameOverflow)
            } else {
                None
            },
            _ => None,
        }
    }

    /// The runner after an instruction. A jump moves the pointer and sets the
    /// frame to the time of the call it lands on; everything else acts on the
    /// sprite, and may stop or suspend the script.
    pub open spec fn executed(self, anms: Seq<Anm0>, instr: Instruction, supply: Supply)
        -> RunnerView {
        match instr {
            Instruction::Jump(pointer) => RunnerView {
                instruction_pointer: pointer as int,
                frame: self.script.instructions[pointer as int].time,
                ..self
            },
            _ => RunnerView {
                sprite: sprite_after(self.sprite, anms, self.sprite_index_offset, instr, supply),
                running: self.running && !stops(instr),
                waiting: self.waiting || suspends(instr),
                ..self
            },
        }
    }

    /// The runner with the pointer on the next call.
    pub open spec fn advanced(self) -> RunnerView {
        RunnerView { instruction_pointer: self.instruction_pointer + 1, ..self }
    }

    /// The runner with its sprite marked as changed.
    pub open spec fn touched(self) -> RunnerView {
        RunnerView { sprite: Sprite { changed: true, ..self.sprite }, ..self }
    }

    /// The runner after the call under its pointer was carried out with what
    /// it needed.
    pub open spec fn carried_out(self, anms: Seq<Anm0>, supply: Supply) -> RunnerView {
        self.advanced().executed(anms, self.call().instr, supply).touched()
    }

    /// The end of a frame. A runner that is not suspended enters the next
    /// frame; a suspended one goes on if the sprite has reached the timeout.
    /// The offset on sprite numbers ends with the frame.
    pub open spec fn end_frame(self) -> (RunnerView, Result<FrameStatus, Fault>) {
        if !self.waiting {
            if self.frame == u16::MAX {
                (self, Err(Fault::FrameOverflow))
            } else {
                (
                    RunnerView { frame: (self.frame + 1) as u16, sprite_index_offset: 0, ..self },
                    Ok(FrameStatus::Completed(self.running)),
                )
            }
        } else {
            (
                RunnerView {
                    waiting: self.timeout != Some(self.sprite.frame),
                    sprite_index_offset: 0,
                    ..self
                },
                Ok(FrameStatus::Completed(self.running)),
            )
        }
    }

    /// The calls of a frame, from the pointer on: while the runner runs and
    /// is not suspended, a call whose time has passed is skipped, one that is
    /// due is carried out, and one that lies ahead ends the frame. It stops
    /// early after a jump, before an instruction that needs something, and
    /// where it cannot go on.
    pub open spec fn run_calls(self, anms: Seq<Anm0>) -> (RunnerView, Result<FrameStatus, Fault>)
        decreases self.script.instructions.len() - self.instruction_pointer,
    {
        if !self.running || self.waiting {
            self.end_frame()
        } else if !self.in_script() {
            (self, Err(Fault::EndOfScript))
        } else if self.call().time > self.frame {
            self.end_frame()
        } else if self.call().time < self.frame {
            self.advanced().run_calls(anms)
        } else if self.fault_of(self.call().instr) is Some {
            (self, Err(self.fault_of(self.call().instr)->0))
        } else if need_of(self.sprite, self.call().instr) is Some {
            (self, Ok(FrameStatus::Needs(need_of(self.sprite, self.call().instr)->0)))
        } else if self.call().instr is Jump {
            (self.carried_out(anms, Supply::Nothing), Ok(FrameStatus::Jumped))
        } else {
            self.carried_out(anms, Supply::Nothing).run_calls(anms)
        }
    }

    /// One call of `run_frame`: nothing for a runner that has stopped, else
    /// the calls of the frame.
    pub open spec fn run_frame(self, anms: Seq<Anm0>) -> (RunnerView, Result<FrameStatus, Fault>) {
        if !self.running {
            (self, Ok(FrameStatus::Stopped))
        } else {
            self.run_calls(anms)
        }
    }

    /// What the runner waits for: the need of a due call under the pointer of
    /// a runner that runs and is not suspended.
    pub open spec fn awaited(self) -> Option<Need> {
        if self.running && !self.waiting && self.in_script() && self.call().time == self.frame {
            need_of(self.sprite, self.call().instr)
        } else {
            None
        }
    }

    /// One call of `resume`: the awaited call is carried out if the supply
    /// is what it needs, and nothing happens otherwise.
    pub open spec fn resumed(self, anms: Seq<Anm0>, supply: Supply) -> (RunnerView, bool) {
        if self.awaited() is Some && fits(supply, self.awaited()) {
            (self.carried_out(anms, supply), true)
        } else {
            (self, false)
        }
    }

    /// One call of `interrupt`.
    pub open spec fn interrupted(self, interrupt: i32) -> (RunnerView, Result<bool, Fault>) {
        match self.script.landing(interrupt) {
            None => (self, Ok(false)),
            Some(target) => if target >= self.script.instructions.len() {
                (self, Err(Fault::JumpOutOfScript))
            } else {
                (
                    RunnerView {
                        instruction_pointer: target as int,
                        frame: self.script.instructions[target as int].time,
                        waiting: false,
                        sprite: Sprite { visible: true, ..self.sprite },
                        ..self
                    },
                    Ok(true),
                )
            },
        }
    }
}

impl AnmRunner {
    /// Create a new `AnmRunner` for the script numbered `script_id`, which
    /// some file has to hold, and run its first frame as `run_frame` does.
    /// The offset counts for the sprites that this first frame loads.
    pub fn new(anms: &Anms, script_id: u8, sprite: Sprite, sprite_index_offset: u32) -> (r: (
        AnmRunner,
        Result<FrameStatus, Fault>,
    ))
        requires
            script_of(anms@, script_id).is_some(),
        ensures
            (r.0@, r.1) == RunnerView::fresh(
                script_of(anms@, script_id).unwrap(),
                sprite,
                sprite_index_offset,
            ).run_frame(anms@),
    {
        let script = anms.get_script(script_id);
        let zero = Scalar::zero();
        let mut runner = AnmRunner {
            sprite,
            running: true,
            sprite_index_offset,
            script,
            instruction_pointer: 0,
            frame: 0,
            waiting: false,
            variables: ([0, 0, 0, 0], [zero, zero, zero, zero], [0, 0, 0, 0]),
            timeout: None,
        };
        let status = runner.run_frame(anms);
        (runner, status)
    }

    /// The sprite of the runner.
    pub fn get_sprite(&self) -> (r: &Sprite)
        ensures
            *r == self.sprite,
    {
        &self.sprite
    }

    /// Trigger an interrupt: the script goes on at the call that the
    /// interrupt, or else the default one, is bound to, at the time of that
    /// call, no longer suspended and with its sprite shown. Tells whether the
    /// interrupt was bound.
    pub fn interrupt(&mut self, interrupt: i32) -> (r: Result<bool, Fault>)
        ensures
            (final(self)@, r) == old(self)@.interrupted(interrupt),
    {
        let target = match self.script.landing(interrupt) {
            Some(target) => target as usize,
            None => {
                return Ok(false);
            },
        };
        if target >= self.script.instructions.len() {
            return Err(Fault::JumpOutOfScript);
        }
        self.instruction_pointer = target;
        self.frame = self.script.instructions[target].time;
        self.waiting = false;
        self.sprite.visible = true;
        Ok(true)
    }

    fn fault_of(&self, instr: Instruction) -> (r: Option<Fault>)
        ensures
            r == self@.fault_of(instr),
    {
        match instr {
            Instruction::Jump(pointer) => if pointer as usize >= self.script.instructions.len() {
                Some(Fault::JumpOutOfScript)
            } else {
                None
            },
            Instruction::Fade(_, duration) | Instruction::MoveToLinear(_, _, _, duration)
            | Instruction::MoveToDecel(_, _, _, duration)
            | Instruction::MoveToAccel(_, _, _, duration)
            | Instruction::ScaleIn(_, _, duration) => if duration > u32::MAX - self.sprite.frame {
                Some(Fault::FrameOverflow)
            } else {
                None
            },
            _ => None,
        }
    }

    fn need_of(&self, instr: Instruction) -> (r: Option<Need>)
        ensures
            r == need_of(self.sprite, instr),
    {
        match instr {
            Instruction::LoadRandomSprite(_, amplitude) => if amplitude > 0 {
                Some(Need::Draw)
            } else {
                None
            },
            Instruction::ShiftTextureX(dx) => Some(Need::Sum(self.sprite.texoffsets[0], dx)),
            Instruction::ShiftTextureY(dy) => Some(Need::Sum(self.sprite.texoffsets[1], dy)),
            _ => None,
        }
    }

    fn load_sprite(sprite: Sprite, anms: &Anms, offset: u32, index: u32, drawn: u32) -> (r: Sprite)
        ensures
            r == loaded(sprite, anms@, sprite_number(index, drawn as int, offset)),
    {
        let number: u64 = (index as u64 + drawn as u64 + offset as u64) % 256;
        let mut sprite = sprite;
        anms.load_sprite(&mut sprite, number as u8);
        sprite
    }

    fn run_instruction(&mut self, anms: &Anms, instruction: Instruction, supply: Supply)
        requires
            old(self)@.fault_of(instruction) is None,
            fits(supply, need_of(old(self).sprite, instruction)),
        ensures
            final(self)@ == old(self)@.executed(anms@, instruction, supply),
    {
        match instruction {
            Instruction::Jump(pointer) => {
                self.instruction_pointer = pointer as usize;
                self.frame = self.script.instructions[pointer as usize].time;
            },
            _ => {
                self.sprite = Self::run_on_sprite(
                    self.sprite,
                    anms,
                    self.sprite_index_offset,
                    instruction,
                    supply,
                );
                match instruction {
                    Instruction::Delete | Instruction::KeepStill => {
                        self.running = false;
                    },
                    Instruction::Wait | Instruction::WaitEx => {
                        self.waiting = true;
                    },
                    _ => {},
                }
            },
        }
    }

    spec fn lasts(instruction: Instruction) -> u32 {
        match instruction {
            Instruction::Fade(_, duration) | Instruction::MoveToLinear(_, _, _, duration)
            | Instruction::MoveToDecel(_, _, _, duration)
            | Instruction::MoveToAccel(_, _, _, duration)
            | Instruction::ScaleIn(_, _, duration) => duration,
            _ => 0,
        }
    }

    fn run_on_sprite(
        sprite: Sprite,
        anms: &Anms,
        offset: u32,
        instruction: Instruction,
        supply: Supply,
    ) -> (r: Sprite)
        requires
            Self::lasts(instruction) + sprite.frame <= u32::MAX,
        ensures
            r == sprite_after(sprite, anms@, offset, instruction, supply),
    {
        match instruction {
            Instruction::Delete => Sprite { removed: true, ..sprite },
            Instruction::LoadSprite(sprite_index) => Self::load_sprite(
                sprite,
                anms,
                offset,
                sprite_index,
                0,
            ),
            Instruction::SetScale(sx, sy) => Sprite { rescale: [sx, sy], ..sprite },
            Instruction::SetAlpha(alpha) => Sprite {
                color: [sprite.color[0], sprite.color[1], sprite.color[2], (alpha % 256) as u8],
                ..sprite
            },
            Instruction::SetColor(b, g, r) => {
                if sprite.fade_interpolator.is_none() {
                    Sprite { color: [r, g, b, sprite.color[3]], ..sprite }
                } else {
                    sprite
                }
            },
            // The runner moves its pointer; the sprite stays.
            Instruction::Jump(_pointer) => sprite,
            Instruction::ToggleMirrored => Sprite { mirrored: !sprite.mirrored, ..sprite },
            Instruction::SetRotations3d(rx, ry, rz) => Sprite {
                rotations_3d: [rx, ry, rz],
                ..sprite
            },
            Instruction::SetRotationsSpeed3d(srx, sry, srz) => Sprite {
                rotations_speed_3d: [srx, sry, srz],
                ..sprite
            },
            Instruction::SetScaleSpeed(ssx, ssy) => Sprite { scale_speed: [ssx, ssy], ..sprite },
            Instruction::Fade(new_alpha, duration) => Sprite {
                fade_interpolator: Some(
                    Self::path(
                        &sprite,
                        sprite.color[3] as u32,
                        new_alpha,
                        duration,
                        Formula::Linear,
                    ),
                ),
                ..sprite
            },
            Instruction::SetBlendmodeAlphablend => Sprite { blendfunc: 1, ..sprite },
            Instruction::SetBlendmodeAdd => Sprite { blendfunc: 0, ..sprite },
            Instruction::KeepStill => sprite,
            Instruction::LoadRandomSprite(min_index, amplitude) => {
                if amplitude > 0 {
                    match supply {
                        Supply::Draw(draw) => Self::load_sprite(
                            sprite,
                            anms,
                            offset,
                            min_index,
                            draw as u32 % amplitude,
                        ),
                        _ => sprite,
                    }
                } else {
                    Self::load_sprite(sprite, anms, offset, min_index, 0)
                }
            },
            Instruction::Move(x, y, z) => Sprite { dest_offset: [x, y, z], ..sprite },
            Instruction::MoveToLinear(x, y, z, duration) => Sprite {
                offset_interpolator: Some(
                    Self::path(&sprite, sprite.dest_offset, [x, y, z], duration, Formula::Linear),
                ),
                ..sprite
            },
            Instruction::MoveToDecel(x, y, z, duration) => Sprite {
                offset_interpolator: Some(
                    Self::path(
                        &sprite,
                        sprite.dest_offset,
                        [x, y, z],
                        duration,
                        Formula::InvertPower2,
                    ),
                ),
                ..sprite
            },
            Instruction::MoveToAccel(x, y, z, duration) => Sprite {
                offset_interpolator: Some(
                    Self::path(&sprite, sprite.dest_offset, [x, y, z], duration, Formula::Power2),
                ),
                ..sprite
            },
            Instruction::Wait => sprite,
            // There is nothing to do here.
            Instruction::InterruptLabel(_label) => sprite,
            Instruction::SetCornerRelativePlacement => Sprite {
                corner_relative_placement: true,
                ..sprite
            },
            Instruction::WaitEx => Sprite { visible: false, ..sprite },
            Instruction::SetAllowOffset(value) => Sprite { allow_dest_offset: value == 1, ..sprite },
            Instruction::SetAutomaticOrientation(value) => Sprite {
                automatic_orientation: value == 1,
                ..sprite
            },
            Instruction::ShiftTextureX(_dx) => match supply {
                Supply::Sum(sum) => Sprite { texoffsets: [sum, sprite.texoffsets[1]], ..sprite },
                _ => sprite,
            },
            Instruction::ShiftTextureY(_dy) => match supply {
                Supply::Sum(sum) => Sprite { texoffsets: [sprite.texoffsets[0], sum], ..sprite },
                _ => sprite,
            },
            Instruction::SetVisible(visible) => Sprite { visible: visible % 2 == 1, ..sprite },
            Instruction::ScaleIn(sx, sy, duration) => Sprite {
                scale_interpolator: Some(
                    Self::path(&sprite, sprite.rescale, [sx, sy], duration, Formula::Linear),
                ),
                ..sprite
            },
            Instruction::Todo(_todo) => sprite,
        }
    }

    fn path<V>(sprite: &Sprite, from: V, to: V, duration: u32, formula: Formula) -> (r: Interpolator<V>)
        requires
            sprite.frame + duration <= u32::MAX,
        ensures
            r == path(*sprite, from, to, duration, formula),
    {
        Interpolator::new(from, sprite.frame, to, sprite.frame + duration, formula)
    }

    fn carry_out(&mut self, anms: &Anms, instruction: Instruction, supply: Supply)
        requires
            old(self)@.in_script(),
            old(self)@.call().instr == instruction,
            old(self)@.fault_of(instruction) is None,
            fits(supply, need_of(old(self).sprite, instruction)),
        ensures
            final(self)@ == old(self)@.carried_out(anms@, supply),
    {
        assert(self.instruction_pointer < self.script.instructions.len());
        self.instruction_pointer += 1;
        self.run_instruction(anms, instruction, supply);
        let mut sprite = self.sprite;
        sprite.changed = true;
        self.sprite = sprite;
    }

    fn end_frame(&mut self) -> (r: Result<FrameStatus, Fault>)
        ensures
            (final(self)@, r) == old(self)@.end_frame(),
    {
        if !self.waiting {
            if self.frame == u16::MAX {
                return Err(Fault::FrameOverflow);
            }
            self.frame += 1;
        } else {
            match self.timeout {
                Some(timeout) => {
                    if timeout == self.sprite.frame {
                        self.waiting = false;
                    }
                },
                None => {},
            }
        }
        self.sprite_index_offset = 0;
        Ok(FrameStatus::Completed(self.running))
    }

    /// Advance the Anm of a single frame, up to the update of the sprite.
    ///
    /// A runner that has stopped does nothing. Otherwise the calls that are
    /// due are carried out in order, each marking the sprite as changed, until
    /// the script stops or is suspended or the next call lies ahead; then the
    /// frame ends. The run ends early, to be taken up by the next call, after
    /// a jump and before an instruction that needs a value from outside, and
    /// it ends with a fault, changing nothing more, where it cannot go on:
    /// the pointer has left the script, a jump leads out of it, or a frame
    /// number would leave its range.
    pub fn run_frame(&mut self, anms: &Anms) -> (r: Result<FrameStatus, Fault>)
        ensures
            (final(self)@, r) == old(self)@.run_frame(anms@),
    {
        if !self.running {
            return Ok(FrameStatus::Stopped);
        }
        loop
            invariant
                self@.run_calls(anms@) == old(self)@.run_frame(anms@),
            decreases self.script.instructions.len() - self.instruction_pointer,
        {
            if !self.running || self.waiting {
                return self.end_frame();
            }
            if self.instruction_pointer >= self.script.instructions.len() {
                return Err(Fault::EndOfScript);
            }
            let Call { time, instr } = self.script.instructions[self.instruction_pointer];
            if time > self.frame {
                return self.end_frame();
            }
            if time < self.frame {
                self.instruction_pointer += 1;
            } else {
                match self.fault_of(instr) {
                    Some(fault) => {
                        return Err(fault);
                    },
                    None => {},
                }
                match self.need_of(instr) {
                    Some(need) => {
                        return Ok(FrameStatus::Needs(need));
                    },
                    None => {},
                }
                self.carry_out(anms, instr, Supply::Nothing);
                match instr {
                    Instruction::Jump(_) => {
                        return Ok(FrameStatus::Jumped);
                    },
                    _ => {},
                }
            }
        }
    }

    /// Ends a frame that `run_frame` has completed: the sprite is updated
    /// with what `samples` holds for it.
    pub fn update_sprite(&mut self, samples: &Samples)
        requires
            old(self).sprite.frame < u32::MAX,
        ensures
            final(self)@ == (RunnerView {
                sprite: old(self).sprite.updated(*samples),
                ..old(self)@
            }),
    {
        let mut sprite = self.sprite;
        sprite.update(samples);
        self.sprite = sprite;
    }

    /// Hands the runner what the call under its pointer needs, and carries
    /// that call out. Tells whether it did: nothing happens unless the
    /// runner waits for a value of this kind.
    pub fn resume(&mut self, anms: &Anms, supply: Supply) -> (r: bool)
        ensures
            (final(self)@, r) == old(self)@.resumed(anms@, supply),
    {
        if !self.running || self.waiting || self.instruction_pointer
            >= self.script.instructions.len() {
            return false;
        }
        let Call { time, instr } = self.script.instructions[self.instruction_pointer];
        if time != self.frame {
            return false;
        }
        let fitting = match self.need_of(instr) {
            Some(Need::Draw) => match supply {
                Supply::Draw(_) => true,
                _ => false,
            },
            Some(Need::Sum(_, _)) => match supply {
                Supply::Sum(_) => true,
                _ => false,
            },
            None => false,
        };
        if !fitting {
            return false;
        }
        self.carry_out(anms, instr, supply);
        true
    }
}

impl RunnerView {
    /// The runner after `frames` calls of `run_frame`.
    pub open spec fn after_frames(self, anms: Seq<Anm0>, frames: nat) -> RunnerView
        decreases frames,
    {
        if frames == 0 {
            self
        } else {
            self.run_frame(anms).0.after_frames(anms, (frames - 1) as nat)
        }
    }
}

/// The sprite after `times` instructions `ToggleMirrored`.
pub open spec fn toggled(sprite: Sprite, times: nat) -> Sprite
    decreases times,
{
    if times == 0 {
        sprite
    } else {
        toggled(Sprite { mirrored: !sprite.mirrored, ..sprite }, (times - 1) as nat)
    }
}

/// `SetColor` never changes the opacity of a sprite, and while a fade is
/// installed it changes nothing at all: the fade owns the opacity, and the
/// colour is left alone with it.
pub proof fn lemma_set_color_keeps_opacity(
    sprite: Sprite,
    anms: Seq<Anm0>,
    offset: u32,
    b: u8,
    g: u8,
    r: u8,
    supply: Supply,
)
    ensures
        sprite_after(sprite, anms, offset, Instruction::SetColor(b, g, r), supply).color[3]
            == sprite.color[3],
        sprite.fade_interpolator is Some ==> sprite_after(
            sprite,
            anms,
            offset,
            Instruction::SetColor(b, g, r),
            supply,
        ) == sprite,
{
}

/// The same of a runner that carries `SetColor` out: the opacity of its
/// sprite stays, and under a fade the whole colour does.
pub proof fn lemma_runner_set_color(runner: RunnerView, anms: Seq<Anm0>, b: u8, g: u8, r: u8)
    requires
        runner.in_script(),
        runner.call().instr == Instruction::SetColor(b, g, r),
    ensures
        runner.carried_out(anms, Supply::Nothing).sprite.color[3] == runner.sprite.color[3],
        runner.sprite.fade_interpolator is Some ==> runner.carried_out(
            anms,
            Supply::Nothing,
        ).sprite.color == runner.sprite.color,
{
}

/// What `run_frame` says it needs is what the runner then waits for, so the
/// `resume` that brings it is taken; and after a jump the runner still runs,
/// is not suspended, and has its pointer in the script.
pub proof fn lemma_frame_asks_what_resume_takes(runner: RunnerView, anms: Seq<Anm0>)
    ensures
        match runner.run_frame(anms).1 {
            Ok(FrameStatus::Needs(need)) => runner.run_frame(anms).0.awaited() == Some(need),
            Ok(FrameStatus::Jumped) => {
                &&& runner.run_frame(anms).0.running
                &&& !runner.run_frame(anms).0.waiting
                &&& runner.run_frame(anms).0.in_script()
            },
            _ => true,
        },
{
    if runner.running {
        lemma_calls_ask_what_resume_takes(runner, anms);
    }
}

proof fn lemma_calls_ask_what_resume_takes(runner: RunnerView, anms: Seq<Anm0>)
    ensures
        match runner.run_calls(anms).1 {
            Ok(FrameStatus::Needs(need)) => runner.run_calls(anms).0.awaited() == Some(need),
            Ok(FrameStatus::Jumped) => {
                &&& runner.run_calls(anms).0.running
                &&& !runner.run_calls(anms).0.waiting
                &&& runner.run_calls(anms).0.in_script()
            },
            _ => true,
        },
    decreases runner.script.instructions.len() - runner.instruction_pointer,
{
    if runner.running && !runner.waiting && runner.in_script() && runner.call().time
        <= runner.frame {
        let instr = runner.call().instr;
        if runner.call().time < runner.frame {
            lemma_calls_ask_what_resume_takes(runner.advanced(), anms);
        } else if runner.fault_of(instr) is None && need_of(runner.sprite, instr) is None
            && !(instr is Jump) {
            lemma_calls_ask_what_resume_takes(runner.carried_out(anms, Supply::Nothing), anms);
        }
    }
}

/// A frame leaves alone what no instruction writes: the script, the
/// reserved variables and the timeout of the runner are after `run_frame`
/// what they were before, however far the frame got.
pub proof fn lemma_frame_keeps_script(runner: RunnerView, anms: Seq<Anm0>)
    ensures
        runner.run_frame(anms).0.script == runner.script,
        runner.run_frame(anms).0.variables == runner.variables,
        runner.run_frame(anms).0.timeout == runner.timeout,
{
    if runner.running {
        lemma_calls_keep_script(runner, anms);
    }
}

proof fn lemma_calls_keep_script(runner: RunnerView, anms: Seq<Anm0>)
    ensures
        runner.run_calls(anms).0.script == runner.script,
        runner.run_calls(anms).0.variables == runner.variables,
        runner.run_calls(anms).0.timeout == runner.timeout,
    decreases runner.script.instructions.len() - runner.instruction_pointer,
{
    if runner.running && !runner.waiting && runner.in_script() && runner.call().time
        <= runner.frame {
        let instr = runner.call().instr;
        if runner.call().time < runner.frame {
            lemma_calls_keep_script(runner.advanced(), anms);
        } else if runner.fault_of(instr) is None && need_of(runner.sprite, instr) is None
            && !(instr is Jump) {
            lemma_calls_keep_script(runner.carried_out(anms, Supply::Nothing), anms);
        }
    }
}

/// A runner that has stopped stays as it is: every further `run_frame`
/// reports that it has stopped, and the state after any number of them is the
/// state before.
pub proof fn lemma_stopped_runner_stays(runner: RunnerView, anms: Seq<Anm0>, frames: nat)
    requires
        !runner.running,
    ensures
        runner.run_frame(anms) == (runner, Ok::<FrameStatus, Fault>(FrameStatus::Stopped)),
        runner.after_frames(anms, frames) == runner,
    decreases frames,
{
    if frames > 0 {
        lemma_stopped_runner_stays(runner, anms, (frames - 1) as nat);
    }
}

/// One `ToggleMirrored` changes the mirroring of a sprite and nothing else.
pub proof fn lemma_toggle_once(sprite: Sprite, anms: Seq<Anm0>, offset: u32, supply: Supply)
    ensures
        sprite_after(sprite, anms, offset, Instruction::ToggleMirrored, supply) == toggled(
            sprite,
            1,
        ),
        toggled(sprite, 1) == (Sprite { mirrored: !sprite.mirrored, ..sprite }),
{
    reveal_with_fuel(toggled, 2);
}

/// `ToggleMirrored` applied an even number of times leaves the sprite as it
/// was; applied an odd number of times it leaves it mirrored the other way.
pub proof fn lemma_toggle_parity(sprite: Sprite, times: nat)
    ensures
        times % 2 == 0 ==> toggled(sprite, times) == sprite,
        times % 2 == 1 ==> toggled(sprite, times) == (Sprite {
            mirrored: !sprite.mirrored,
            ..sprite
        }),
    decreases times,
{
    if times >= 2 {
        let once = Sprite { mirrored: !sprite.mirrored, ..sprite };
        let twice = Sprite { mirrored: !once.mirrored, ..once };
        assert(twice == sprite);
        assert(toggled(sprite, times) == toggled(once, (times - 1) as nat));
        assert(toggled(once, (times - 1) as nat) == toggled(twice, (times - 2) as nat));
        lemma_toggle_parity(sprite, (times - 2) as nat);
    } else if times == 1 {
        reveal_with_fuel(toggled, 2);
    }
}

} // verus!
