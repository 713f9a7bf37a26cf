//! Animation files as the interpreters consume them: already parsed.
//!
//! One file holds a table of sprites, each a rectangle of its texture, and a
//! table of scripts. A script is a list of timed instructions with a table of
//! interrupt labels.

use vstd::prelude::*;
use std::collections::HashMap;
use crate::th06::scalar::Scalar;

verus! {

/// One instruction of an animation script.
#[derive(Clone, Copy, Debug)]
pub enum Instruction {
    /// Removes the sprite and stops the script.
    Delete,
    /// Loads the sprite with this number.
    LoadSprite(u32),
    /// Sets the scale along both axes.
    SetScale(Scalar, Scalar),
    /// Sets the opacity.
    SetAlpha(u32),
    /// Sets the colour; the operands come as blue, green, red.
    SetColor(u8, u8, u8),
    /// Goes on at the instruction with this index.
    Jump(u32),
    /// Mirrors the sprite, or undoes it.
    ToggleMirrored,
    /// Sets the rotation about the three axes.
    SetRotations3d(Scalar, Scalar, Scalar),
    /// Sets the speed of the rotation about the three axes.
    SetRotationsSpeed3d(Scalar, Scalar, Scalar),
    /// Sets the speed at which the scale grows.
    SetScaleSpeed(Scalar, Scalar),
    /// Fades to this opacity over this many frames.
    Fade(u32, u32),
    /// Blends by adding.
    SetBlendmodeAdd,
    /// Blends by opacity.
    SetBlendmodeAlphablend,
    /// Stops the script and keeps the sprite.
    KeepStill,
    /// Loads a sprite drawn at random: the lowest number, then how many to
    /// draw from.
    LoadRandomSprite(u32, u32),
    /// Sets the offset of the sprite.
    Move(Scalar, Scalar, Scalar),
    /// Moves to this offset over this many frames, at constant speed.
    MoveToLinear(Scalar, Scalar, Scalar, u32),
    /// Moves to this offset over this many frames, slowing down.
    MoveToDecel(Scalar, Scalar, Scalar, u32),
    /// Moves to this offset over this many frames, speeding up.
    MoveToAccel(Scalar, Scalar, Scalar, u32),
    /// Suspends the script.
    Wait,
    /// Marks where an interrupt lands.
    InterruptLabel(i32),
    /// Places the sprite by its corner.
    SetCornerRelativePlacement,
    /// Hides the sprite and suspends the script.
    WaitEx,
    /// Allows the offset, if the operand is 1.
    SetAllowOffset(u32),
    /// Orients the sprite along its movement, if the operand is 1.
    SetAutomaticOrientation(u32),
    /// Shifts the texture along x.
    ShiftTextureX(Scalar),
    /// Shifts the texture along y.
    ShiftTextureY(Scalar),
    /// Shows or hides the sprite, by the lowest bit of the operand.
    SetVisible(u32),
    /// Scales to these factors over this many frames.
    ScaleIn(Scalar, Scalar, u32),
    /// An instruction of unknown meaning.
    Todo(u32),
}

/// An instruction and the frame at which it is due.
#[derive(Clone, Copy, Debug)]
pub struct Call {
    pub time: u16,
    pub instr: Instruction,
}

/// The interrupt that stands for every other one.
pub const DEFAULT_INTERRUPT: i32 = -1;

/// A script: its calls in the order of their times, and for each interrupt the
/// index of the call at which it lands.
#[derive(Debug)]
pub struct Script {
    pub instructions: Vec<Call>,
    pub interrupts: HashMap<i32, u32>,
}

/// What a script holds.
pub struct ScriptView {
    pub instructions: Seq<Call>,
    pub interrupts: Map<i32, u32>,
}

impl View for Script {
    type V = ScriptView;

    open spec fn view(&self) -> ScriptView {
        ScriptView { instructions: self.instructions@, interrupts: self.interrupts@ }
    }
}

impl ScriptView {
    /// Where an interrupt lands: at its own label, else at the default one,
    /// else nowhere.
    pub open spec fn landing(self, interrupt: i32) -> Option<u32> {
        if self.interrupts.contains_key(interrupt) {
            Some(self.interrupts[interrupt])
        } else if self.interrupts.contains_key(DEFAULT_INTERRUPT) {
            Some(self.interrupts[DEFAULT_INTERRUPT])
        } else {
            None
        }
    }
}

impl Script {
    /// A script of these calls and labels.
    pub fn new(instructions: Vec<Call>, interrupts: HashMap<i32, u32>) -> (r: Script)
        ensures
            r.instructions == instructions,
            r.interrupts == interrupts,
    {
        Script { instructions, interrupts }
    }

    /// Where an interrupt lands.
    pub fn landing(&self, interrupt: i32) -> (r: Option<u32>)
        ensures
            r == self@.landing(interrupt),
    {
        match self.interrupts.get(&interrupt) {
            Some(target) => Some(*target),
            None => match self.interrupts.get(&DEFAULT_INTERRUPT) {
                Some(target) => Some(*target),
                None => None,
            },
        }
    }

    /// A copy of the script.
    pub fn duplicate(&self) -> (r: Script)
        ensures
            r@ == self@,
    {
        let mut instructions: Vec<Call> = Vec::new();
        let mut i: usize = 0;
        while i < self.instructions.len()
            invariant
                i <= self.instructions.len(),
                instructions@ == self.instructions@.take(i as int),
            decreases self.instructions.len() - i,
        {
            instructions.push(self.instructions[i]);
            i += 1;
        }
        assert(instructions@ =~= self.instructions@);
        Script { instructions, interrupts: self.interrupts.clone() }
    }
}

/// The difficulty level of a game, as the bit flags of the enemy scripts.
#[derive(Clone, Copy, Debug, PartialEq, Eq, Structural)]
pub struct Rank {
    pub bits: u16,
}

/// A sprite of an animation file: its number and its rectangle in the texture.
#[derive(Clone, Copy, Debug)]
pub struct SpriteEntry {
    pub index: u32,
    pub x: Scalar,
    pub y: Scalar,
    pub width: Scalar,
    pub height: Scalar,
}

/// One animation file.
#[derive(Debug)]
pub struct Anm0 {
    /// Width and height of the texture.
    pub size: (u16, u16),
    /// One over the width, one over the height.
    pub inv_size: (Scalar, Scalar),
    pub sprites: Vec<SpriteEntry>,
    pub scripts: HashMap<u8, Script>,
}

impl Anm0 {
    /// A file of these sprites and scripts.
    pub fn new(
        size: (u16, u16),
        inv_size: (Scalar, Scalar),
        sprites: Vec<SpriteEntry>,
        scripts: HashMap<u8, Script>,
    ) -> (r: Anm0)
        ensures
            r.size == size,
            r.inv_size == inv_size,
            r.sprites == sprites,
            r.scripts == scripts,
    {
        Anm0 { size, inv_size, sprites, scripts }
    }
}

} // verus!
