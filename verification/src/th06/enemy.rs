//! Module providing an Enemy struct, to be changed by the enemy scripts.
//!
//! The game owns its enemies and its animation runners; an enemy names its
//! runner by the position of the runner in the game. Sums, products, sines
//! and cosines of scalars reach an enemy as values that its caller computed.

use vstd::prelude::*;
use std::collections::HashMap;
use crate::th06::anm0::{AnmRunner, Fault, FrameStatus, RunnerView};
use crate::th06::catalog::{script_of, Anms};
use crate::th06::format::Rank;
use crate::th06::interpolator::Interpolator;
use crate::th06::scalar::{lemma_trichotomy, Scalar};
use crate::th06::sprite::Sprite;

verus! {

/// Bits of the lowest speed of a bullet, 0.3.
pub const MIN_BULLET_SPEED_BITS: u32 = 0x3e99_999a;

/// The 2D position of an object in the game.
#[derive(Clone, Copy, Debug)]
pub struct Position {
    pub x: Scalar,
    pub y: Scalar,
}

/// An offset which can be added to a Position.
#[derive(Clone, Copy, Debug)]
pub struct Offset {
    pub dx: Scalar,
    pub dy: Scalar,
}

impl Position {
    /// Create said position.
    pub fn new(x: Scalar, y: Scalar) -> (r: Position)
        ensures
            r == (Position { x, y }),
    {
        Position { x, y }
    }
}

impl Offset {
    /// Create said offset.
    pub fn new(dx: Scalar, dy: Scalar) -> (r: Offset)
        ensures
            r == (Offset { dx, dy }),
    {
        Offset { dx, dy }
    }
}

/// A laser of an enemy.
#[derive(Clone, Copy, Debug)]
pub struct Laser {
    pub placeholder: u32,
}

/// Struct representing the player.
#[derive(Clone, Copy, Debug)]
pub struct Player {
    pub pos: Position,
}

/// Struct representing an enemy bullet.
#[derive(Clone, Copy, Debug)]
pub struct Bullet {
    /// Current position of the bullet.
    pub pos: Position,
    /// Current speed of the bullet.
    pub speed: Scalar,
    /// Current movement of the bullet.
    pub dpos: [Scalar; 3],
    /// Current flags of the bullet.
    pub flags: u32,
    /// Current frame of the bullet.
    pub frame: i32,
    /// Current attributes of the bullet.
    pub attributes: [Scalar; 2],
    /// Current state of the bullet.
    pub state: i8,
}

/// How the difficulty scales what an enemy fires: each pair gives the value
/// at the lowest and at the highest difficulty.
#[derive(Clone, Copy, Debug)]
pub struct DifficultyCoeffs {
    pub speed_a: Scalar,
    pub speed_b: Scalar,
    pub nb_a: i16,
    pub nb_b: i16,
    pub shots_a: i16,
    pub shots_b: i16,
}

impl DifficultyCoeffs {
    /// The coefficients of a new enemy: speed from -0.5 to 0.5, nothing on
    /// the counts.
    pub open spec fn initial() -> DifficultyCoeffs {
        DifficultyCoeffs {
            speed_a: Scalar { bits: 0xbf00_0000 },
            speed_b: Scalar { bits: 0x3f00_0000 },
            nb_a: 0,
            nb_b: 0,
            shots_a: 0,
            shots_b: 0,
        }
    }
}

impl Default for DifficultyCoeffs {
    fn default() -> (r: DifficultyCoeffs)
        ensures
            r == DifficultyCoeffs::initial(),
    {
        DifficultyCoeffs {
            speed_a: Scalar::from_bits(0xbf00_0000),
            speed_b: Scalar::from_bits(0x3f00_0000),
            nb_a: 0,
            nb_b: 0,
            shots_a: 0,
            shots_b: 0,
        }
    }
}

/// What the next bullets of an enemy are made with.
#[derive(Clone, Copy, Debug)]
pub struct BulletAttributes {
    pub anim: i16,
    pub sprite_index_offset: i16,
    pub pos: Position,
    pub launch_angle: Scalar,
    pub angle: Scalar,
    pub speed: Scalar,
    pub speed2: Scalar,
    pub extended_attributes: (i32, i32, i32, i32, Scalar, Scalar, Scalar, Scalar),
    pub bullets_per_shot: i16,
    pub number_of_shots: i16,
    pub bullet_type: i16,
    pub flags: u32,
    /// Which sound to play when the bullet gets fired.
    pub sound: Option<u8>,
}

impl BulletAttributes {
    /// The attributes of a new enemy: all zero, no sound.
    pub open spec fn initial() -> BulletAttributes {
        let zero = Scalar { bits: 0 };
        BulletAttributes {
            anim: 0,
            sprite_index_offset: 0,
            pos: Position { x: zero, y: zero },
            launch_angle: zero,
            angle: zero,
            speed: zero,
            speed2: zero,
            extended_attributes: (0, 0, 0, 0, zero, zero, zero, zero),
            bullets_per_shot: 0,
            number_of_shots: 0,
            bullet_type: 0,
            flags: 0,
            sound: None,
        }
    }
}

/// Where an enemy is heading, as far as its sprite shows it.
#[derive(Clone, Copy, Debug, PartialEq, Eq, Structural)]
pub enum Direction {
    Left,
    Center,
    Right,
}

impl Default for Direction {
    fn default() -> (r: Direction)
        ensures
            r == Direction::Center,
    {
        Direction::Center
    }
}

/// What one update of an enemy takes from arithmetic on its scalars.
#[derive(Clone, Copy, Debug)]
pub struct Step {
    /// Where the movement of this frame leads.
    pub x: Scalar,
    pub y: Scalar,
    /// `speed + acceleration`; an enemy that follows its interpolators does
    /// not use it.
    pub speed: Scalar,
    /// `angle + rotation_speed`; an enemy that follows its interpolators does
    /// not use it.
    pub angle: Scalar,
}

/// What one update of an enemy asks of its caller.
#[derive(Clone, Copy, Debug, PartialEq, Eq, Structural)]
pub struct Events {
    /// The animation to set, if the enemy turned.
    pub anim: Option<u8>,
    /// Whether the enemy fires its bullets.
    pub fire: bool,
}

/// How an enemy moves in a frame.
#[derive(Clone, Copy, Debug)]
pub enum Motion {
    /// By its speed along its angle; speed and angle then grow by the
    /// acceleration and the rotation speed.
    Physical,
    /// From the position that one interpolator gives at this frame, or from
    /// where it is if there is none, by the speed that the other gives, or
    /// by none.
    Interpolated {
        position: Option<Interpolator<[Scalar; 2]>>,
        speed: Option<Interpolator<[Scalar; 1]>>,
        frame: u32,
    },
}

/// The quotient of `a` by a positive `b`, rounded toward zero.
pub open spec fn toward_zero(a: int, b: int) -> int {
    if a >= 0 {
        a / b
    } else {
        -((-a) / b)
    }
}

/// What a count gains at a difficulty: `a` at difficulty 0, `b` at 32, and
/// in proportion between and beyond. The difficulty counts by its low 16 bits.
pub open spec fn scaled(a: i16, b: i16, difficulty: i32) -> int {
    a + toward_zero((b - a) * (difficulty as i16), 32)
}

/// The number of frames between two launches, for the interval that a script
/// asks for: a fifth longer at difficulty 0, a fifth shorter at 32.
pub open spec fn launch_interval(interval: i32, difficulty: i32) -> int {
    let fifth = toward_zero(interval as int, 5);
    interval + fifth + toward_zero(-fifth * 2 * difficulty, 32)
}

/// The launch timer after a frame, and whether the frame fires: with an
/// interval, a timer at 0 fires and starts over from the interval; then the
/// timer goes up by one, modulo the interval.
pub open spec fn launch(interval: u32, timer: u32) -> (u32, bool) {
    if interval == 0 {
        (timer, false)
    } else if timer == 0 {
        (((interval + 1) % interval as int) as u32, true)
    } else {
        (((timer + 1) % interval as int) as u32, false)
    }
}

/// Computes what a count gains at a difficulty.
pub fn scale_count(a: i16, b: i16, difficulty: i32) -> (r: i64)
    ensures
        r == scaled(a, b, difficulty),
        -0x8000_0000 <= r <= 0x8000_0000,
{
    let difficulty: i16 = #[verifier::truncate]
    (difficulty as i16);
    let span: i64 = b as i64 - a as i64;
    assert(-0x8000_0000 <= span * difficulty <= 0x8000_0000) by (nonlinear_arith)
        requires
            -0x1_0000 < span < 0x1_0000,
            -0x8000 <= difficulty < 0x8000,
    ;
    let product: i64 = span * (difficulty as i64);
    a as i64 + product / 32
}

/// Computes the number of frames between two launches at a difficulty.
pub fn scale_launch_interval(interval: i32, difficulty: i32) -> (r: i64)
    ensures
        r == launch_interval(interval, difficulty),
{
    let fifth: i64 = (interval / 5) as i64;
    assert(-0x4000_0000_0000_0000 <= -fifth * 2 * difficulty <= 0x4000_0000_0000_0000)
        by (nonlinear_arith)
        requires
            -0x2000_0000 <= fifth <= 0x2000_0000,
            -0x8000_0000 <= difficulty < 0x8000_0000,
    ;
    interval as i64 + fifth + (-fifth * 2 * (difficulty as i64)) / 32
}

/// The enemy struct, containing everything pertaining to an enemy.
#[derive(Debug)]
pub struct Enemy {
    // Common to all elements in game.
    pub pos: Position,
    pub removed: bool,
    /// The position of the enemy's runner among those of the game.
    pub anmrunner: Option<usize>,
    // Specific to enemy.
    pub z: Scalar,
    pub angle: Scalar,
    pub speed: Scalar,
    pub rotation_speed: Scalar,
    pub acceleration: Scalar,
    pub type_: u32,
    pub bonus_dropped: u32,
    pub die_score: u32,
    pub frame: u32,
    pub life: u32,
    pub death_flags: u32,
    pub current_laser_id: u32,
    pub low_life_trigger: Option<u32>,
    pub timeout: Option<u32>,
    pub remaining_lives: u32,
    pub bullet_launch_interval: u32,
    pub bullet_launch_timer: u32,
    pub death_anim: i32,
    pub direction: Direction,
    /// 0 to move by speed and angle, 1 to follow the interpolators.
    pub update_mode: u32,
    pub visible: bool,
    pub was_visible: bool,
    pub touchable: bool,
    pub collidable: bool,
    pub damageable: bool,
    pub boss: bool,
    pub automatic_orientation: bool,
    pub delay_attack: bool,
    pub mirror: bool,
    pub difficulty_coeffs: DifficultyCoeffs,
    pub bullet_attributes: BulletAttributes,
    pub bullet_offset: Offset,
    /// The animations for the end of a move to the left, the end of a move to
    /// the right, a move to the left and a move to the right.
    pub movement_dependant_sprites: Option<(u8, u8, u8, u8)>,
    pub screen_box: Option<(Scalar, Scalar, Scalar, Scalar)>,
    pub death_callback: Option<i32>,
    pub boss_callback: Option<i32>,
    pub low_life_callback: Option<i32>,
    pub timeout_callback: Option<i32>,
    pub laser_by_id: HashMap<u32, Laser>,
    pub interpolator: Option<Interpolator<[Scalar; 2]>>,
    pub speed_interpolator: Option<Interpolator<[Scalar; 1]>>,
    pub hitbox_half_size: [Scalar; 2],
}

/// God struct of our game.
#[derive(Debug)]
pub struct Game {
    pub enemies: Vec<Enemy>,
    pub anmrunners: Vec<AnmRunner>,
    pub bullets: Vec<Bullet>,
    pub player: Player,
    pub rank: Rank,
    pub difficulty: i32,
}

/// What `Game::run_frame` met.
#[derive(Clone, Copy, Debug)]
pub enum Progress {
    /// No runner was left to run.
    Done,
    /// This runner ran, and got this far.
    Ran(usize, Result<FrameStatus, Fault>),
}

/// The position of the first runner at or after `from` that has not stopped,
/// or the number of runners.
pub open spec fn next_running(runners: Seq<AnmRunner>, from: int) -> int
    decreases runners.len() - from,
{
    if from < 0 || from >= runners.len() {
        runners.len() as int
    } else if runners[from].running {
        from
    } else {
        next_running(runners, from + 1)
    }
}

/// The sprites of the enemies from `from` on that have a runner, in the order
/// of the enemies, each with the position of its enemy.
pub open spec fn sprites_from(enemies: Seq<Enemy>, runners: Seq<AnmRunner>, from: int) -> Seq<
    (Scalar, Scalar, Scalar, Sprite),
>
    decreases enemies.len() - from,
{
    if from < 0 || from >= enemies.len() {
        Seq::empty()
    } else {
        let enemy = enemies[from];
        let rest = sprites_from(enemies, runners, from + 1);
        match enemy.anmrunner {
            Some(runner) => if runner < runners.len() {
                seq![(enemy.pos.x, enemy.pos.y, enemy.z, runners[runner as int].sprite)] + rest
            } else {
                rest
            },
            None => rest,
        }
    }
}

impl Game {
    /// Create said god struct: no enemy, no runner, no bullet, the player at
    /// (192, 384), difficulty 0.
    pub fn new(rank: Rank) -> (r: Game)
        ensures
            r.enemies@.len() == 0,
            r.anmrunners@.len() == 0,
            r.bullets@.len() == 0,
            r.player.pos == (Position {
                x: Scalar { bits: 0x4340_0000 },
                y: Scalar { bits: 0x43c0_0000 },
            }),
            r.rank == rank,
            r.difficulty == 0,
    {
        Game {
            enemies: Vec::new(),
            anmrunners: Vec::new(),
            bullets: Vec::new(),
            player: Player {
                pos: Position { x: Scalar::from_bits(0x4340_0000), y: Scalar::from_bits(0x43c0_0000) },
            },
            rank,
            difficulty: 0,
        }
    }

    /// Run the simulation for a single frame, from the runner at `from` on:
    /// the runners take their turn in the order in which they were added.
    /// Those that have stopped are passed over; the first that has not runs
    /// its frame as far as `AnmRunner::run_frame` takes it, and is reported
    /// with how far it got.
    pub fn run_frame(&mut self, anms: &Anms, from: usize) -> (r: Progress)
        ensures
            final(self).enemies == old(self).enemies,
            final(self).bullets == old(self).bullets,
            final(self).player == old(self).player,
            final(self).rank == old(self).rank,
            final(self).difficulty == old(self).difficulty,
            final(self).anmrunners@.len() == old(self).anmrunners@.len(),
            match r {
                Progress::Done => {
                    &&& next_running(old(self).anmrunners@, from as int) == old(
                        self,
                    ).anmrunners@.len()
                    &&& final(self).anmrunners@ == old(self).anmrunners@
                },
                Progress::Ran(at, status) => {
                    &&& at == next_running(old(self).anmrunners@, from as int)
                    &&& at < old(self).anmrunners@.len()
                    &&& (final(self).anmrunners@[at as int]@, status) == old(
                        self,
                    ).anmrunners@[at as int]@.run_frame(anms@)
                    &&& forall|j: int|
                        0 <= j < old(self).anmrunners@.len() && j != at
                            ==> final(self).anmrunners@[j] == old(self).anmrunners@[j]
                },
            },
    {
        let mut at: usize = from;
        while at < self.anmrunners.len()
            invariant
                *self == *old(self),
                next_running(self.anmrunners@, from as int) == next_running(
                    self.anmrunners@,
                    at as int,
                ),
            decreases self.anmrunners.len() - at,
        {
            if self.anmrunners[at].running {
                let status = self.anmrunners[at].run_frame(anms);
                return Progress::Ran(at, status);
            }
            at += 1;
        }
        Progress::Done
    }

    /// Returns a list of all sprites currently being displayed on screen:
    /// for each enemy that has a runner, in the order of the enemies, where
    /// the enemy is and the sprite of its runner.
    pub fn get_sprites(&self) -> (r: Vec<(Scalar, Scalar, Scalar, Sprite)>)
        ensures
            r@ == sprites_from(self.enemies@, self.anmrunners@, 0),
    {
        let mut sprites: Vec<(Scalar, Scalar, Scalar, Sprite)> = Vec::new();
        let mut i: usize = 0;
        while i < self.enemies.len()
            invariant
                i <= self.enemies.len(),
                sprites@ + sprites_from(self.enemies@, self.anmrunners@, i as int)
                    == sprites_from(self.enemies@, self.anmrunners@, 0),
            decreases self.enemies.len() - i,
        {
            let enemy = &self.enemies[i];
            let ghost before = sprites@;
            match enemy.anmrunner {
                Some(runner) => {
                    if runner < self.anmrunners.len() {
                        sprites.push(
                            (enemy.pos.x, enemy.pos.y, enemy.z, self.anmrunners[runner].sprite),
                        );
                        assert(sprites@ + sprites_from(
                            self.enemies@,
                            self.anmrunners@,
                            i as int + 1,
                        ) =~= before + sprites_from(self.enemies@, self.anmrunners@, i as int));
                    }
                },
                None => {},
            }
            i += 1;
        }
        assert(sprites@ + Seq::<(Scalar, Scalar, Scalar, Sprite)>::empty() =~= sprites@);
        sprites
    }

    /// The player.
    pub fn get_player(&self) -> (r: Player)
        ensures
            r == self.player,
    {
        self.player
    }
}

impl Enemy {
    /// Whether this is the enemy that `new` makes of these values: visible,
    /// touchable, collidable and damageable, heading nowhere, moving by speed
    /// and angle, with a life of at least 0 (a negative one counts as 1),
    /// without a runner, and zero or empty in everything else.
    pub open spec fn is_new(
        self,
        pos: Position,
        life: i16,
        bonus_dropped: i16,
        die_score: u32,
        mirror: bool,
    ) -> bool {
        let zero = Scalar { bits: 0 };
        &&& self.pos == pos
        &&& !self.removed
        &&& self.anmrunner is None
        &&& self.z == zero
        &&& self.angle == zero
        &&& self.speed == zero
        &&& self.rotation_speed == zero
        &&& self.acceleration == zero
        &&& self.type_ == 0
        &&& self.bonus_dropped == bonus_dropped as u32
        &&& self.die_score == die_score
        &&& self.frame == 0
        &&& self.life == (if life < 0 {
            1u32
        } else {
            life as u32
        })
        &&& self.death_flags == 0
        &&& self.current_laser_id == 0
        &&& self.low_life_trigger is None
        &&& self.timeout is None
        &&& self.remaining_lives == 0
        &&& self.bullet_launch_interval == 0
        &&& self.bullet_launch_timer == 0
        &&& self.death_anim == 0
        &&& self.direction == Direction::Center
        &&& self.update_mode == 0
        &&& self.visible
        &&& !self.was_visible
        &&& self.touchable
        &&& self.collidable
        &&& self.damageable
        &&& !self.boss
        &&& !self.automatic_orientation
        &&& !self.delay_attack
        &&& self.mirror == mirror
        &&& self.difficulty_coeffs == DifficultyCoeffs::initial()
        &&& self.bullet_attributes == BulletAttributes::initial()
        &&& self.bullet_offset == (Offset { dx: zero, dy: zero })
        &&& self.movement_dependant_sprites is None
        &&& self.screen_box is None
        &&& self.death_callback is None
        &&& self.boss_callback is None
        &&& self.low_life_callback is None
        &&& self.timeout_callback is None
        &&& self.laser_by_id@ == Map::<u32, Laser>::empty()
        &&& self.interpolator is None
        &&& self.speed_interpolator is None
        &&& self.hitbox_half_size == [zero, zero]
    }

    /// Create a new enemy and add it to the game, behind the enemies that the
    /// game has. Returns its position among them.
    pub fn new(
        pos: Position,
        life: i16,
        bonus_dropped: i16,
        die_score: u32,
        mirror: bool,
        game: &mut Game,
    ) -> (r: usize)
        ensures
            r == old(game).enemies@.len(),
            final(game).enemies@.len() == r + 1,
            final(game).enemies@[r as int].is_new(pos, life, bonus_dropped, die_score, mirror),
            forall|j: int| 0 <= j < r ==> final(game).enemies@[j] == old(game).enemies@[j],
            final(game).anmrunners == old(game).anmrunners,
            final(game).bullets == old(game).bullets,
            final(game).player == old(game).player,
            final(game).rank == old(game).rank,
            final(game).difficulty == old(game).difficulty,
    {
        let zero = Scalar::zero();
        let enemy = Enemy {
            pos,
            removed: false,
            anmrunner: None,
            z: zero,
            angle: zero,
            speed: zero,
            rotation_speed: zero,
            acceleration: zero,
            type_: 0,
            // A negative bonus keeps its bits.
            bonus_dropped: #[verifier::truncate]
            (bonus_dropped as u32),
            die_score,
            frame: 0,
            life: if life < 0 {
                1
            } else {
                life as u32
            },
            death_flags: 0,
            current_laser_id: 0,
            low_life_trigger: None,
            timeout: None,
            remaining_lives: 0,
            bullet_launch_interval: 0,
            bullet_launch_timer: 0,
            death_anim: 0,
            direction: Direction::default(),
            update_mode: 0,
            visible: true,
            was_visible: false,
            touchable: true,
            collidable: true,
            damageable: true,
            boss: false,
            automatic_orientation: false,
            delay_attack: false,
            mirror,
            difficulty_coeffs: DifficultyCoeffs::default(),
            bullet_attributes: BulletAttributes {
                anim: 0,
                sprite_index_offset: 0,
                pos: Position { x: zero, y: zero },
                launch_angle: zero,
                angle: zero,
                speed: zero,
                speed2: zero,
                extended_attributes: (0, 0, 0, 0, zero, zero, zero, zero),
                bullets_per_shot: 0,
                number_of_shots: 0,
                bullet_type: 0,
                flags: 0,
                sound: None,
            },
            bullet_offset: Offset { dx: zero, dy: zero },
            movement_dependant_sprites: None,
            screen_box: None,
            death_callback: None,
            boss_callback: None,
            low_life_callback: None,
            timeout_callback: None,
            laser_by_id: HashMap::new(),
            interpolator: None,
            speed_interpolator: None,
            hitbox_half_size: [zero, zero],
        };
        let at = game.enemies.len();
        game.enemies.push(enemy);
        at
    }

    /// Sets the animation to the one indexed by index in the files: a runner
    /// for that script, which some file has to hold, with a new sprite, is
    /// added behind the runners given and becomes the runner of the enemy.
    /// Its first frame is run as `AnmRunner::new` runs it; how far that got is
    /// returned.
    pub fn set_anim(&mut self, runners: &mut Vec<AnmRunner>, anms: &Anms, index: u8) -> (r: Result<
        FrameStatus,
        Fault,
    >)
        requires
            script_of(anms@, index).is_some(),
        ensures
            *final(self) == (Enemy { anmrunner: Some(old(runners)@.len() as usize), ..*old(self) }),
            final(runners)@.len() == old(runners)@.len() + 1,
            forall|j: int| 0 <= j < old(runners)@.len() ==> final(runners)@[j] == old(runners)@[j],
            (final(runners)@[old(runners)@.len() as int]@, r) == RunnerView::fresh(
                script_of(anms@, index).unwrap(),
                Sprite::sized(Scalar { bits: 0 }, Scalar { bits: 0 }),
                0,
            ).run_frame(anms@),
    {
        let sprite = Sprite::new();
        let (anmrunner, status) = AnmRunner::new(anms, index, sprite, 0);
        self.anmrunner = Some(runners.len());
        runners.push(anmrunner);
        status
    }

    /// The sprites of the enemy: that of its runner, if it has one among
    /// those given.
    pub fn get_sprites(&self, runners: &Vec<AnmRunner>) -> (r: Vec<Sprite>)
        ensures
            r@ == (match self.anmrunner {
                Some(runner) => if runner < runners@.len() {
                    seq![runners@[runner as int].sprite]
                } else {
                    Seq::empty()
                },
                None => Seq::empty(),
            }),
    {
        let mut sprites: Vec<Sprite> = Vec::new();
        match self.anmrunner {
            Some(runner) => {
                if runner < runners.len() {
                    sprites.push(runners[runner].sprite);
                    assert(sprites@ =~= seq![runners@[runner as int].sprite]);
                }
            },
            None => {},
        }
        sprites
    }

    /// Sets the current position of the enemy.
    pub fn set_pos(&mut self, x: Scalar, y: Scalar, z: Scalar)
        ensures
            *final(self) == (Enemy { pos: Position { x, y }, z, ..*old(self) }),
    {
        self.pos = Position { x, y };
        self.z = z;
    }

    /// Sets the hitbox around the enemy, from half its width and half its
    /// height.
    pub fn set_hitbox(&mut self, half_width: Scalar, half_height: Scalar)
        ensures
            *final(self) == (Enemy { hitbox_half_size: [half_width, half_height], ..*old(self) }),
    {
        self.hitbox_half_size = [half_width, half_height];
    }
}

impl Enemy {
    /// The attributes that `set_bullet_attributes` leaves.
    pub open spec fn bullet_set(
        self,
        difficulty: i32,
        anim: i16,
        sprite_index_offset: i16,
        bullets_per_shot: i16,
        number_of_shots: i16,
        pos: Position,
        speed: Scalar,
        speed2: Scalar,
        launch_angle: Scalar,
        angle: Scalar,
        flags: u32,
    ) -> BulletAttributes {
        let coeffs = self.difficulty_coeffs;
        let bullets = bullets_per_shot + scaled(coeffs.nb_a, coeffs.nb_b, difficulty);
        let shots = number_of_shots + scaled(coeffs.shots_a, coeffs.shots_b, difficulty);
        let slowest = Scalar { bits: MIN_BULLET_SPEED_BITS };
        BulletAttributes {
            anim,
            bullet_type: 0,
            sprite_index_offset,
            bullets_per_shot: if bullets < 1 {
                1i16
            } else {
                bullets as i16
            },
            number_of_shots: if shots < 1 {
                1i16
            } else {
                shots as i16
            },
            pos,
            speed: if speed.below(slowest) {
                slowest
            } else {
                speed
            },
            speed2: if speed2.below(slowest) {
                slowest
            } else {
                speed2
            },
            launch_angle,
            angle,
            flags,
            ..self.bullet_attributes
        }
    }

    /// Defines the attributes for the next bullet fired, and tells whether to
    /// fire it now: that is so unless `delay_attack` is set.
    ///
    /// The difficulty adds to the two counts what `scaled` says of the
    /// enemy's coefficients; each count is at least 1 and has to fit its
    /// type. The caller has done the arithmetic on scalars: `pos` is the
    /// position of the enemy moved by its bullet offset, `speed` and `speed2`
    /// have the share of the difficulty in them (all of it and half of it),
    /// and `launch_angle` is the angle of the direction (0, launch angle).
    /// Neither speed ends up below 0.3. The opcode does not count: the
    /// bullets are always of type 0.
    pub fn set_bullet_attributes(
        &mut self,
        difficulty: i32,
        opcode: u16,
        anim: i16,
        sprite_index_offset: i16,
        bullets_per_shot: i16,
        number_of_shots: i16,
        pos: Position,
        speed: Scalar,
        speed2: Scalar,
        launch_angle: Scalar,
        angle: Scalar,
        flags: u32,
    ) -> (fire: bool)
        requires
            bullets_per_shot + scaled(
                old(self).difficulty_coeffs.nb_a,
                old(self).difficulty_coeffs.nb_b,
                difficulty,
            ) <= i16::MAX,
            number_of_shots + scaled(
                old(self).difficulty_coeffs.shots_a,
                old(self).difficulty_coeffs.shots_b,
                difficulty,
            ) <= i16::MAX,
        ensures
            fire == !old(self).delay_attack,
            *final(self) == (Enemy {
                bullet_attributes: old(self).bullet_set(
                    difficulty,
                    anim,
                    sprite_index_offset,
                    bullets_per_shot,
                    number_of_shots,
                    pos,
                    speed,
                    speed2,
                    launch_angle,
                    angle,
                    flags,
                ),
                ..*old(self)
            }),
    {
        // Get the coeffs for the current difficulty.
        let coeffs = self.difficulty_coeffs;
        let coeff_nb = scale_count(coeffs.nb_a, coeffs.nb_b, difficulty);
        let coeff_shots = scale_count(coeffs.shots_a, coeffs.shots_b, difficulty);
        let slowest = Scalar::from_bits(MIN_BULLET_SPEED_BITS);

        let bullets: i64 = bullets_per_shot as i64 + coeff_nb;
        let shots: i64 = number_of_shots as i64 + coeff_shots;

        let mut bullet = self.bullet_attributes;
        bullet.anim = anim;
        bullet.bullet_type = 0;
        bullet.sprite_index_offset = sprite_index_offset;
        bullet.bullets_per_shot = if bullets < 1 {
            1
        } else {
            bullets as i16
        };
        bullet.number_of_shots = if shots < 1 {
            1
        } else {
            shots as i16
        };
        bullet.pos = pos;
        bullet.speed = if speed.is_below(slowest) {
            slowest
        } else {
            speed
        };
        bullet.speed2 = if speed2.is_below(slowest) {
            slowest
        } else {
            speed2
        };
        bullet.launch_angle = launch_angle;
        bullet.angle = angle;
        bullet.flags = flags;
        self.bullet_attributes = bullet;

        !self.delay_attack
    }

    /// Sets the bullet launch interval, scaled by the difficulty as
    /// `launch_interval` says, and starts the timer at `rand_start` modulo
    /// that interval, if there is one. An interval below zero counts by its
    /// bits; the scaled interval has to fit 32 bits with a sign.
    pub fn set_bullet_launch_interval(&mut self, difficulty: i32, rand_start: u32, interval: i32)
        requires
            i32::MIN <= launch_interval(interval, difficulty) <= i32::MAX,
        ensures
            *final(self) == (Enemy {
                bullet_launch_interval: (launch_interval(interval, difficulty) as i32) as u32,
                bullet_launch_timer: if (launch_interval(interval, difficulty) as i32) as u32 > 0 {
                    rand_start % ((launch_interval(interval, difficulty) as i32) as u32)
                } else {
                    old(self).bullet_launch_timer
                },
                ..*old(self)
            }),
    {
        let scaled_interval: i32 = scale_launch_interval(interval, difficulty) as i32;
        self.bullet_launch_interval = #[verifier::truncate]
        (scaled_interval as u32);
        if self.bullet_launch_interval > 0 {
            self.bullet_launch_timer = rand_start % self.bullet_launch_interval;
        }
    }

    /// How the enemy moves in the frame that the next update runs.
    pub fn motion(&self) -> (r: Motion)
        ensures
            r == (if self.update_mode == 1 {
                Motion::Interpolated {
                    position: self.interpolator,
                    speed: self.speed_interpolator,
                    frame: self.frame,
                }
            } else {
                Motion::Physical
            }),
    {
        if self.update_mode == 1 {
            Motion::Interpolated {
                position: self.interpolator,
                speed: self.speed_interpolator,
                frame: self.frame,
            }
        } else {
            Motion::Physical
        }
    }

    /// Where an enemy that moves to `x` is heading after the move, and the
    /// animation that shows it, if its heading changed. Only an enemy with
    /// animations for its movement turns: to the left when `x` is left of
    /// where it is, to the right when `x` is right of it, and back to the
    /// centre when `x` is where it is, with the animation that ends the move
    /// it was in.
    pub open spec fn turned(self, x: Scalar) -> (Direction, Option<u8>) {
        match self.movement_dependant_sprites {
            None => (self.direction, None),
            Some((end_left, end_right, left, right)) => if x.below(self.pos.x) && self.direction
                != Direction::Left {
                (Direction::Left, Some(left))
            } else if self.pos.x.below(x) && self.direction != Direction::Right {
                (Direction::Right, Some(right))
            } else if x.equals(self.pos.x) && self.direction != Direction::Center {
                (
                    Direction::Center,
                    Some(
                        if self.direction == Direction::Left {
                            end_left
                        } else {
                            end_right
                        },
                    ),
                )
            } else {
                (self.direction, None)
            },
        }
    }

    /// The enemy after one update that took `step`, and what the update asks
    /// for.
    pub open spec fn updated(self, step: Step) -> (Enemy, Events) {
        let physical = self.update_mode != 1;
        let turn = self.turned(step.x);
        let shot = launch(self.bullet_launch_interval, self.bullet_launch_timer);
        (
            Enemy {
                speed: if physical {
                    step.speed
                } else {
                    self.speed
                },
                angle: if physical {
                    step.angle
                } else {
                    self.angle
                },
                direction: turn.0,
                pos: Position { x: step.x, y: step.y },
                bullet_launch_timer: shot.0,
                frame: (self.frame + 1) as u32,
                ..self
            },
            Events { anim: turn.1, fire: shot.1 },
        )
    }

    /// Run all interpolators and such, and update internal variables once per
    /// frame: the enemy moves to where `step` says, turns if it has
    /// animations for that, and counts down to its next launch.
    pub fn update(&mut self, step: &Step) -> (r: Events)
        requires
            old(self).frame < u32::MAX,
        ensures
            (*final(self), r) == old(self).updated(*step),
    {
        let (direction, anim) = self.turn(step.x);
        let (timer, fire) = Self::tick(self.bullet_launch_interval, self.bullet_launch_timer);

        let physical = self.update_mode != 1;
        self.speed = if physical {
            step.speed
        } else {
            self.speed
        };
        self.angle = if physical {
            step.angle
        } else {
            self.angle
        };
        self.direction = direction;
        self.pos = Position { x: step.x, y: step.y };
        self.bullet_launch_timer = timer;
        self.frame += 1;
        Events { anim, fire }
    }

    fn turn(&self, x: Scalar) -> (r: (Direction, Option<u8>))
        ensures
            r == self.turned(x),
    {
        match self.movement_dependant_sprites {
            Some((end_left, end_right, left, right)) => {
                if x.is_below(self.pos.x) && self.direction != Direction::Left {
                    (Direction::Left, Some(left))
                } else if self.pos.x.is_below(x) && self.direction != Direction::Right {
                    (Direction::Right, Some(right))
                } else if x.is_equal(self.pos.x) && self.direction != Direction::Center {
                    let anim = if self.direction == Direction::Left {
                        end_left
                    } else {
                        end_right
                    };
                    (Direction::Center, Some(anim))
                } else {
                    (self.direction, None)
                }
            },
            None => (self.direction, None),
        }
    }

    fn tick(interval: u32, timer: u32) -> (r: (u32, bool))
        ensures
            r == launch(interval, timer),
    {
        if interval != 0 {
            let mut fire = false;
            let mut timer: u64 = timer as u64;
            if timer == 0 {
                fire = true;
                timer = interval as u64;
            }
            timer += 1;
            timer %= interval as u64;
            (timer as u32, fire)
        } else {
            (timer, false)
        }
    }
}

/// An enemy with animations for its movement heads where it goes: after a
/// move to the left it heads left, after a move to the right it heads right,
/// and after no move it heads to the centre; and it asks for an animation
/// exactly when its heading changed. Where its place or the place it moves
/// to is no number, its heading stays.
pub proof fn lemma_heading_follows_the_move(enemy: Enemy, x: Scalar)
    requires
        enemy.movement_dependant_sprites is Some,
    ensures
        x.below(enemy.pos.x) ==> enemy.turned(x).0 == Direction::Left,
        enemy.pos.x.below(x) ==> enemy.turned(x).0 == Direction::Right,
        x.equals(enemy.pos.x) ==> enemy.turned(x).0 == Direction::Center,
        x.is_nan() || enemy.pos.x.is_nan() ==> enemy.turned(x).0 == enemy.direction,
        enemy.turned(x).1 is Some <==> enemy.turned(x).0 != enemy.direction,
{
    lemma_trichotomy(x, enemy.pos.x);
}

} // verus!
