//! The visual state of one element on screen.

use vstd::prelude::*;
use crate::th06::interpolator::Interpolator;
use crate::th06::scalar::{Scalar, ONE_BITS};

verus! {

/// One corner of a sprite, as the renderer takes it.
#[derive(Clone, Copy, Debug)]
pub struct Vertex {
    /// Position in the world.
    pub pos: [i16; 3],
    /// Ordinal of the animation file that holds the texture.
    pub layer: u16,
    /// Position in the texture.
    pub uv: [Scalar; 2],
    /// Red, green, blue, opacity.
    pub color: [u8; 4],
}

/// The animation file that a sprite draws its texture from.
#[derive(Clone, Copy, Debug)]
pub struct AnmBinding {
    /// Ordinal of the file in its catalog.
    pub ordinal: u16,
    /// One over the width and one over the height of its texture.
    pub inv_size: (Scalar, Scalar),
}

/// What one update of a sprite takes from arithmetic on its scalars. Each
/// value is computed from the sprite as it is before the update, and each
/// interpolator is evaluated at the frame that the update enters. A value
/// that the update does not use may be anything.
#[derive(Clone, Copy, Debug)]
pub struct Samples {
    /// `rotations_3d + rotations_speed_3d`, axis by axis.
    pub rotations_sum: [Scalar; 3],
    /// `rescale + scale_speed`, axis by axis.
    pub rescale_sum: [Scalar; 2],
    /// The rotation interpolator.
    pub rotation: [Scalar; 3],
    /// The fade interpolator.
    pub fade: Scalar,
    /// The scale interpolator.
    pub scale: [Scalar; 2],
    /// The offset interpolator.
    pub offset: [Scalar; 3],
    /// The colour interpolator.
    pub color: [Scalar; 3],
}

/// How the angle of a sprite enters its rotation about the z axis.
#[derive(Clone, Copy, Debug, PartialEq, Eq, Structural)]
pub enum Turn {
    /// A quarter turn less the angle is added.
    Automatic,
    /// The angle is added.
    Forced,
    /// Nothing is added.
    Plain,
}

/// One step in the shaping of the quad of a sprite.
#[derive(Clone, Copy, Debug, PartialEq, Eq)]
pub enum Transform {
    /// Scales along x and along y.
    Scale2d(Scalar, Scalar),
    /// Mirrors along x.
    Flip,
    /// Rotates about the x axis by this angle.
    RotateX(Scalar),
    /// Rotates about the y axis by this angle.
    RotateY(Scalar),
    /// Rotates about the z axis by this angle.
    RotateZ(Scalar),
    /// Moves by this vector.
    Translate([Scalar; 3]),
    /// Moves along x and y by half of these.
    TranslateHalf(Scalar, Scalar),
}

/// The steps with one more, if it applies.
pub open spec fn extended(steps: Seq<Transform>, applies: bool, step: Transform) -> Seq<
    Transform,
> {
    if applies {
        steps.push(step)
    } else {
        steps
    }
}

/// A quad that was computed for a sprite: its four corners in the world, and
/// the edges of its texture rectangle.
#[derive(Clone, Copy, Debug)]
pub struct Quad {
    pub corners: [[Scalar; 3]; 4],
    pub left: Scalar,
    pub right: Scalar,
    pub bottom: Scalar,
    pub top: Scalar,
}

/// Base visual element.
#[derive(Clone, Copy, Debug)]
pub struct Sprite {
    /// 1 to blend by opacity, 0 to blend by adding.
    pub blendfunc: u32,
    /// Updates since the sprite was made.
    pub frame: u32,
    /// Width to draw at; the texture rectangle decides unless it is above zero.
    pub width_override: Scalar,
    /// Height to draw at; the texture rectangle decides unless it is above zero.
    pub height_override: Scalar,
    pub angle: Scalar,
    pub removed: bool,
    /// Set by whatever changes the sprite; the renderer clears it.
    pub changed: bool,
    pub visible: bool,
    pub force_rotation: bool,
    pub automatic_orientation: bool,
    pub allow_dest_offset: bool,
    pub mirrored: bool,
    pub corner_relative_placement: bool,
    pub scale_interpolator: Option<Interpolator<[Scalar; 2]>>,
    /// From one opacity to another; while it is there it owns the opacity.
    pub fade_interpolator: Option<Interpolator<u32>>,
    pub offset_interpolator: Option<Interpolator<[Scalar; 3]>>,
    pub rotation_interpolator: Option<Interpolator<[Scalar; 3]>>,
    pub color_interpolator: Option<Interpolator<[Scalar; 3]>>,
    pub anm: Option<AnmBinding>,
    pub dest_offset: [Scalar; 3],
    /// The texture rectangle: x, y, width, height.
    pub texcoords: [Scalar; 4],
    pub texoffsets: [Scalar; 2],
    pub rescale: [Scalar; 2],
    pub scale_speed: [Scalar; 2],
    pub rotations_3d: [Scalar; 3],
    pub rotations_speed_3d: [Scalar; 3],
    /// Red, green, blue, opacity.
    pub color: [u8; 4],
    pub layer: u16,
}

impl Sprite {
    /// The sprite that `with_size` makes.
    pub open spec fn sized(width_override: Scalar, height_override: Scalar) -> Sprite {
        let zero = Scalar { bits: 0 };
        let one = Scalar { bits: ONE_BITS };
        Sprite {
            blendfunc: 0,
            frame: 0,
            width_override,
            height_override,
            angle: zero,
            removed: false,
            changed: true,
            visible: true,
            force_rotation: false,
            automatic_orientation: false,
            allow_dest_offset: false,
            mirrored: false,
            corner_relative_placement: false,
            scale_interpolator: None,
            fade_interpolator: None,
            offset_interpolator: None,
            rotation_interpolator: None,
            color_interpolator: None,
            anm: None,
            dest_offset: [zero, zero, zero],
            texcoords: [zero, zero, zero, zero],
            texoffsets: [zero, zero],
            rescale: [one, one],
            scale_speed: [zero, zero],
            rotations_3d: [zero, zero, zero],
            rotations_speed_3d: [zero, zero, zero],
            color: [255u8, 255u8, 255u8, 255u8],
            layer: 0,
        }
    }

    /// Create a new sprite.
    pub fn new() -> (r: Sprite)
        ensures
            r == Sprite::sized(Scalar { bits: 0 }, Scalar { bits: 0 }),
    {
        Sprite::with_size(Scalar::zero(), Scalar::zero())
    }

    /// Create a new sprite overriding its size.
    pub fn with_size(width_override: Scalar, height_override: Scalar) -> (r: Sprite)
        ensures
            r == Sprite::sized(width_override, height_override),
    {
        let zero = Scalar::zero();
        let one = Scalar::one();
        Sprite {
            blendfunc: 0,
            frame: 0,
            width_override,
            height_override,
            angle: zero,
            removed: false,
            changed: true,
            visible: true,
            force_rotation: false,
            automatic_orientation: false,
            allow_dest_offset: false,
            mirrored: false,
            corner_relative_placement: false,
            scale_interpolator: None,
            fade_interpolator: None,
            offset_interpolator: None,
            rotation_interpolator: None,
            color_interpolator: None,
            anm: None,
            dest_offset: [zero, zero, zero],
            texcoords: [zero, zero, zero, zero],
            texoffsets: [zero, zero],
            rescale: [one, one],
            scale_speed: [zero, zero],
            rotations_3d: [zero, zero, zero],
            rotations_speed_3d: [zero, zero, zero],
            color: [255, 255, 255, 255],
            layer: 0,
        }
    }

    /// Whether the sprite rotates by its speed: some axis has a speed other
    /// than zero.
    pub open spec fn spins(self) -> bool {
        self.rotations_speed_3d[0].nonzero() || self.rotations_speed_3d[1].nonzero()
            || self.rotations_speed_3d[2].nonzero()
    }

    /// Whether the scale of the sprite grows by its speed.
    pub open spec fn grows(self) -> bool {
        self.scale_speed[0].nonzero() || self.scale_speed[1].nonzero()
    }

    /// How the angle of the sprite enters its rotation about z: orienting
    /// along the movement goes before a forced rotation.
    pub open spec fn turning(self) -> Turn {
        if self.automatic_orientation {
            Turn::Automatic
        } else if self.force_rotation {
            Turn::Forced
        } else {
            Turn::Plain
        }
    }

    /// Says how the angle of the sprite enters its rotation about z.
    pub fn turn(&self) -> (r: Turn)
        ensures
            r == self.turning(),
    {
        if self.automatic_orientation {
            Turn::Automatic
        } else if self.force_rotation {
            Turn::Forced
        } else {
            Turn::Plain
        }
    }

    /// The steps that shape the unit quad into the quad of the sprite at the
    /// place `at`, in order. `scaled` is the size of the texture rectangle
    /// times the scale, and `turned` the rotation about z with what `turning`
    /// asks of the angle added.
    ///
    /// The quad gets its size: each override that is above zero, else the
    /// scaled size. It is flipped if the sprite is mirrored. It is rotated
    /// about x, y and z, each only by an angle other than zero, and about x
    /// and z by the negated angle. It is moved by the offset of the sprite if
    /// that is allowed, by half its size if it is placed by its corner, and
    /// at last to its place.
    pub open spec fn shaping(self, scaled: [Scalar; 2], turned: Scalar, at: [Scalar; 3]) -> Seq<
        Transform,
    > {
        let width = if self.width_override.positive() {
            self.width_override
        } else {
            scaled[0]
        };
        let height = if self.height_override.positive() {
            self.height_override
        } else {
            scaled[1]
        };
        let rx = self.rotations_3d[0];
        let ry = self.rotations_3d[1];
        let rz = if self.turning() is Plain {
            self.rotations_3d[2]
        } else {
            turned
        };
        let sized = seq![Transform::Scale2d(width, height)];
        let flipped = extended(sized, self.mirrored, Transform::Flip);
        let about_x = extended(flipped, rx.nonzero(), Transform::RotateX(rx.negated()));
        let about_y = extended(about_x, ry.nonzero(), Transform::RotateY(ry));
        let about_z = extended(about_y, rz.nonzero(), Transform::RotateZ(rz.negated()));
        let offset = extended(about_z, self.allow_dest_offset, Transform::Translate(self.dest_offset));
        let cornered = extended(
            offset,
            self.corner_relative_placement,
            Transform::TranslateHalf(width, height),
        );
        cornered.push(Transform::Translate(at))
    }

    fn push_if(steps: &mut Vec<Transform>, applies: bool, step: Transform)
        ensures
            final(steps)@ == extended(old(steps)@, applies, step),
    {
        if applies {
            steps.push(step);
        }
    }

    /// Lists the steps that shape the unit quad into the quad of the sprite.
    pub fn transforms(&self, scaled: [Scalar; 2], turned: Scalar, at: [Scalar; 3]) -> (r: Vec<
        Transform,
    >)
        ensures
            r@ == self.shaping(scaled, turned, at),
    {
        let width = if self.width_override.is_positive() {
            self.width_override
        } else {
            scaled[0]
        };
        let height = if self.height_override.is_positive() {
            self.height_override
        } else {
            scaled[1]
        };
        let rx = self.rotations_3d[0];
        let ry = self.rotations_3d[1];
        let rz = match self.turn() {
            Turn::Plain => self.rotations_3d[2],
            _ => turned,
        };
        let mut steps: Vec<Transform> = Vec::new();
        steps.push(Transform::Scale2d(width, height));
        assert(steps@ =~= seq![Transform::Scale2d(width, height)]);
        Self::push_if(&mut steps, self.mirrored, Transform::Flip);
        Self::push_if(&mut steps, rx.is_nonzero(), Transform::RotateX(rx.negate()));
        Self::push_if(&mut steps, ry.is_nonzero(), Transform::RotateY(ry));
        Self::push_if(&mut steps, rz.is_nonzero(), Transform::RotateZ(rz.negate()));
        Self::push_if(&mut steps, self.allow_dest_offset, Transform::Translate(self.dest_offset));
        Self::push_if(
            &mut steps,
            self.corner_relative_placement,
            Transform::TranslateHalf(width, height),
        );
        steps.push(Transform::Translate(at));
        steps
    }

    /// The vertex of the sprite at this corner and this place in the texture:
    /// the corner is cut to integers.
    pub open spec fn vertex(self, corner: [Scalar; 3], u: Scalar, v: Scalar) -> Vertex {
        Vertex {
            pos: [corner[0].as_short(), corner[1].as_short(), corner[2].as_short()],
            layer: self.layer,
            uv: [u, v],
            color: self.color,
        }
    }

    fn vertex_at(&self, corner: [Scalar; 3], u: Scalar, v: Scalar) -> (r: Vertex)
        ensures
            r == self.vertex(corner, u, v),
    {
        Vertex {
            pos: [corner[0].to_i16(), corner[1].to_i16(), corner[2].to_i16()],
            layer: self.layer,
            uv: [u, v],
            color: self.color,
        }
    }

    /// Writes the four vertices of the sprite from a quad computed for it. The
    /// corners, cut to integers, go round the texture rectangle from left
    /// bottom by right bottom and right top to left top; all four share the
    /// colour and the layer of the sprite.
    pub fn fill_vertices(&self, vertices: &mut [Vertex; 4], quad: &Quad)
        ensures
            final(vertices)[0] == self.vertex(quad.corners[0], quad.left, quad.bottom),
            final(vertices)[1] == self.vertex(quad.corners[1], quad.right, quad.bottom),
            final(vertices)[2] == self.vertex(quad.corners[2], quad.right, quad.top),
            final(vertices)[3] == self.vertex(quad.corners[3], quad.left, quad.top),
    {
        vertices[0] = self.vertex_at(quad.corners[0], quad.left, quad.bottom);
        vertices[1] = self.vertex_at(quad.corners[1], quad.right, quad.bottom);
        vertices[2] = self.vertex_at(quad.corners[2], quad.right, quad.top);
        vertices[3] = self.vertex_at(quad.corners[3], quad.left, quad.top);
    }

    /// The sprite after one update that took `samples`.
    pub open spec fn updated(self, samples: Samples) -> Sprite {
        Sprite {
            frame: (self.frame + 1) as u32,
            corner_relative_placement: true,
            rotations_3d: if self.spins() {
                samples.rotations_sum
            } else if self.rotation_interpolator is Some {
                samples.rotation
            } else {
                self.rotations_3d
            },
            rescale: if self.scale_interpolator is Some {
                samples.scale
            } else if self.grows() {
                samples.rescale_sum
            } else {
                self.rescale
            },
            dest_offset: if self.offset_interpolator is Some {
                samples.offset
            } else {
                self.dest_offset
            },
            color: if self.color_interpolator is Some {
                [
                    samples.color[0].as_byte(),
                    samples.color[1].as_byte(),
                    samples.color[2].as_byte(),
                    if self.fade_interpolator is Some {
                        samples.fade.as_byte()
                    } else {
                        self.color[3]
                    },
                ]
            } else {
                [
                    self.color[0],
                    self.color[1],
                    self.color[2],
                    if self.fade_interpolator is Some {
                        samples.fade.as_byte()
                    } else {
                        self.color[3]
                    },
                ]
            },
            changed: self.changed || self.spins() || self.rotation_interpolator is Some
                || self.grows() || self.fade_interpolator is Some
                || self.scale_interpolator is Some || self.offset_interpolator is Some
                || self.color_interpolator is Some,
            ..self
        }
    }

    /// Update sprite values from the interpolators: one frame passes. The
    /// rotation grows by its speed if it has one, and follows its
    /// interpolator otherwise; the scale grows by its speed; then opacity,
    /// scale, offset and colour follow their interpolators, opacity and
    /// colour cut to bytes. The colour interpolator leaves the opacity alone. The sprite is placed by its
    /// corner from now on, and is marked as changed by any of these.
    pub fn update(&mut self, samples: &Samples)
        requires
            old(self).frame < u32::MAX,
        ensures
            *final(self) == old(self).updated(*samples),
    {
        let spins = self.rotations_speed_3d[0].is_nonzero()
            || self.rotations_speed_3d[1].is_nonzero() || self.rotations_speed_3d[2].is_nonzero();
        let grows = self.scale_speed[0].is_nonzero() || self.scale_speed[1].is_nonzero();
        let turns = self.rotation_interpolator.is_some();
        let fades = self.fade_interpolator.is_some();
        let scales = self.scale_interpolator.is_some();
        let moves = self.offset_interpolator.is_some();
        let tints = self.color_interpolator.is_some();

        let rotations_3d = if spins {
            samples.rotations_sum
        } else if turns {
            samples.rotation
        } else {
            self.rotations_3d
        };
        let rescale = if scales {
            samples.scale
        } else if grows {
            samples.rescale_sum
        } else {
            self.rescale
        };
        let dest_offset = if moves {
            samples.offset
        } else {
            self.dest_offset
        };
        let alpha: u8 = if fades {
            samples.fade.to_u8()
        } else {
            self.color[3]
        };
        let color = if tints {
            [samples.color[0].to_u8(), samples.color[1].to_u8(), samples.color[2].to_u8(), alpha]
        } else {
            [self.color[0], self.color[1], self.color[2], alpha]
        };
        let changed = self.changed || spins || turns || grows || fades || scales || moves || tints;

        self.frame += 1;
        self.corner_relative_placement = true;
        self.rotations_3d = rotations_3d;
        self.rescale = rescale;
        self.dest_offset = dest_offset;
        self.color = color;
        self.changed = changed;
    }
}

} // verus!
