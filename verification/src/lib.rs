//! Frame-stepped interpreters for the animation scripts and the enemies of the
//! sixth Touhou game: the integer and control core, with every scalar carried
//! as the bit pattern of a single-precision number.

pub mod th06;
