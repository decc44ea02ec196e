//! Scales: moving a pitch to the next or previous degree within a key.

use vstd::prelude::*;

use crate::notation::{Accidental, KeySignature, KeySignatureType, NoteName, Octave, Pitch};

verus! {

#[derive(Debug, Clone, Copy, PartialEq, Eq, Structural)]
pub enum ScaleType {
    Basic,
    JazzLike,
}

/// Position (0 to 11) of a pitch's class above the tonic of the key.
pub open spec fn rank(key: KeySignature, p: Pitch) -> int {
    (p.pitch_class() + 12 - key.ext.pitch_class()) % 12
}

/// Halftones from a rank to the next degree of the basic scale: the major
/// scale, or for a minor key its table with the step of three halftones.
pub open spec fn basic_up_step(t: KeySignatureType, r: int) -> int {
    match t {
        KeySignatureType::Maj => if r == 4 || r == 11 {
            1
        } else {
            2
        },
        KeySignatureType::Min => if r == 2 || r == 7 || r == 11 {
            1
        } else if r == 8 {
            3
        } else {
            2
        },
    }
}

/// Halftones from a rank down to the previous degree of the basic scale.
pub open spec fn basic_down_step(t: KeySignatureType, r: int) -> int {
    match t {
        KeySignatureType::Maj => if r == 0 || r == 5 {
            1
        } else {
            2
        },
        KeySignatureType::Min => if r == 0 || r == 3 || r == 8 {
            1
        } else if r == 11 {
            3
        } else {
            2
        },
    }
}

/// Halftones from a rank to the next degree of the jazz-like major scale.
pub open spec fn jazz_up_step(r: int) -> int {
    if r == 2 || r == 9 {
        3
    } else if r == 7 || r == 8 {
        1
    } else {
        2
    }
}

/// Halftones from a rank down to the previous degree of the jazz-like major scale.
pub open spec fn jazz_down_step(r: int) -> int {
    if r == 0 || r == 5 {
        3
    } else if r == 8 || r == 9 {
        1
    } else {
        2
    }
}

/// The pitch `n` halftones (1 to 3) higher: tones first, then a halftone.
pub open spec fn raised(p: Pitch, n: int) -> Pitch {
    if n == 1 {
        p.halftone_up()
    } else if n == 2 {
        p.tone_up()
    } else {
        p.tone_up().halftone_up()
    }
}

/// The pitch `n` halftones (1 to 3) lower: tones first, then a halftone.
pub open spec fn lowered(p: Pitch, n: int) -> Pitch {
    if n == 1 {
        p.halftone_down()
    } else if n == 2 {
        p.tone_down()
    } else {
        p.tone_down().halftone_down()
    }
}

pub open spec fn can_raise(p: Pitch, n: int) -> bool {
    if n == 1 {
        p.can_move_up()
    } else if n == 2 {
        p.can_tone_up()
    } else {
        p.can_tone_up() && p.tone_up().can_move_up()
    }
}

pub open spec fn can_lower(p: Pitch, n: int) -> bool {
    if n == 1 {
        p.can_move_down()
    } else if n == 2 {
        p.can_tone_down()
    } else {
        p.can_tone_down() && p.tone_down().can_move_down()
    }
}

fn raise(pitch: &mut Pitch, n: u8)
    requires
        1 <= n <= 3,
        can_raise(*old(pitch), n as int),
    ensures
        *final(pitch) == raised(*old(pitch), n as int),
        final(pitch).absolute() == old(pitch).absolute() + n,
{
    if n == 1 {
        pitch.move_halftone_up();
    } else if n == 2 {
        pitch.move_tone_up();
    } else {
        pitch.move_tone_up();
        pitch.move_halftone_up();
    }
}

fn lower(pitch: &mut Pitch, n: u8)
    requires
        1 <= n <= 3,
        can_lower(*old(pitch), n as int),
    ensures
        *final(pitch) == lowered(*old(pitch), n as int),
        final(pitch).absolute() == old(pitch).absolute() - n,
{
    if n == 1 {
        pitch.move_halftone_down();
    } else if n == 2 {
        pitch.move_tone_down();
    } else {
        pitch.move_tone_down();
        pitch.move_halftone_down();
    }
}

fn can_move_up(p: &Pitch) -> (r: bool)
    ensures
        r == p.can_move_up(),
{
    !(p.ext.note_name == NoteName::B && p.ext.accidental == Some(Accidental::Sharp) && p.octave
        == Octave::O9)
}

fn can_move_down(p: &Pitch) -> (r: bool)
    ensures
        r == p.can_move_down(),
{
    !(p.ext.note_name == NoteName::C && p.ext.accidental == Some(Accidental::Flat) && p.octave
        == Octave::O0)
}

/// Whether `p` can be raised by `n` halftones within the octave range.
pub fn can_raise_by(p: &Pitch, n: u8) -> (r: bool)
    requires
        1 <= n <= 3,
    ensures
        r == can_raise(*p, n as int),
{
    if !can_move_up(p) {
        return false;
    }
    let mut q = *p;
    q.move_halftone_up();
    if n == 1 {
        return true;
    }
    if !can_move_up(&q) {
        return false;
    }
    if n == 2 {
        return true;
    }
    q.move_halftone_up();
    can_move_up(&q)
}

/// Whether `p` can be lowered by `n` halftones within the octave range.
pub fn can_lower_by(p: &Pitch, n: u8) -> (r: bool)
    requires
        1 <= n <= 3,
    ensures
        r == can_lower(*p, n as int),
{
    if !can_move_down(p) {
        return false;
    }
    let mut q = *p;
    q.move_halftone_down();
    if n == 1 {
        return true;
    }
    if !can_move_down(&q) {
        return false;
    }
    if n == 2 {
        return true;
    }
    q.move_halftone_down();
    can_move_down(&q)
}

fn rank_of(key: &KeySignature, pitch: &Pitch) -> (r: u8)
    ensures
        r == rank(*key, *pitch),
        r < 12,
{
    (pitch.value_halftone() + 12 - key.ext.value_halftone()) % 12
}

/// Moving a pitch up and down by the degrees of a scale.
pub trait Scale {
    /// Whether the scale has step tables for its key.
    spec fn supported(&self) -> bool;

    /// Halftones from `p` to the next degree.
    spec fn up_step(&self, p: Pitch) -> int;

    /// Halftones from `p` down to the previous degree.
    spec fn down_step(&self, p: Pitch) -> int;

    /// Halftones from `p` to the next degree.
    fn up_halftones(&self, p: &Pitch) -> (r: u8)
        requires
            self.supported(),
        ensures
            r == self.up_step(*p),
            1 <= r <= 3,
    ;

    /// Halftones from `p` down to the previous degree.
    fn down_halftones(&self, p: &Pitch) -> (r: u8)
        requires
            self.supported(),
        ensures
            r == self.down_step(*p),
            1 <= r <= 3,
    ;

    /// Move one degree up.
    fn advance(&self, pitch: &mut Pitch)
        requires
            self.supported(),
            can_raise(*old(pitch), self.up_step(*old(pitch))),
        ensures
            *final(pitch) == raised(*old(pitch), self.up_step(*old(pitch))),
    ;

    /// Move one degree down.
    fn recede(&self, pitch: &mut Pitch)
        requires
            self.supported(),
            can_lower(*old(pitch), self.down_step(*old(pitch))),
        ensures
            *final(pitch) == lowered(*old(pitch), self.down_step(*old(pitch))),
    ;
}

/// The major scale, or the minor table for a minor key.
#[derive(Debug, Clone, Copy)]
pub struct BasicScale {
    pub key: KeySignature,
}

impl BasicScale {
    /// Create a new scale with the given key.
    pub fn new(key: KeySignature) -> (r: Self)
        ensures
            r.key == key,
    {
        BasicScale { key }
    }
}

impl Scale for BasicScale {
    open spec fn supported(&self) -> bool {
        true
    }

    open spec fn up_step(&self, p: Pitch) -> int {
        basic_up_step(self.key.signature_type, rank(self.key, p))
    }

    open spec fn down_step(&self, p: Pitch) -> int {
        basic_down_step(self.key.signature_type, rank(self.key, p))
    }

    fn up_halftones(&self, p: &Pitch) -> (r: u8) {
        let r = rank_of(&self.key, p);
        let n: u8 = match self.key.signature_type {
            KeySignatureType::Maj => if r == 4 || r == 11 {
                1
            } else {
                2
            },
            KeySignatureType::Min => if r == 2 || r == 7 || r == 11 {
                1
            } else if r == 8 {
                3
            } else {
                2
            },
        };
        n
    }

    fn advance(&self, pitch: &mut Pitch) {
        let n = self.up_halftones(pitch);
        raise(pitch, n);
    }

    fn down_halftones(&self, p: &Pitch) -> (r: u8) {
        let r = rank_of(&self.key, p);
        let n: u8 = match self.key.signature_type {
            KeySignatureType::Maj => if r == 0 || r == 5 {
                1
            } else {
                2
            },
            KeySignatureType::Min => if r == 0 || r == 3 || r == 8 {
                1
            } else if r == 11 {
                3
            } else {
                2
            },
        };
        n
    }

    fn recede(&self, pitch: &mut Pitch) {
        let n = self.down_halftones(pitch);
        lower(pitch, n);
    }
}

/// A major scale with altered degrees; it has no table for minor keys.
#[derive(Debug, Clone, Copy)]
pub struct JazzLikeScale {
    pub key: KeySignature,
}

impl JazzLikeScale {
    pub fn new(key: KeySignature) -> (r: Self)
        ensures
            r.key == key,
    {
        JazzLikeScale { key }
    }
}

impl Scale for JazzLikeScale {
    open spec fn supported(&self) -> bool {
        self.key.signature_type == KeySignatureType::Maj
    }

    open spec fn up_step(&self, p: Pitch) -> int {
        jazz_up_step(rank(self.key, p))
    }

    open spec fn down_step(&self, p: Pitch) -> int {
        jazz_down_step(rank(self.key, p))
    }

    fn up_halftones(&self, p: &Pitch) -> (r: u8) {
        let r = rank_of(&self.key, p);
        let n: u8 = if r == 2 || r == 9 {
            3
        } else if r == 7 || r == 8 {
            1
        } else {
            2
        };
        n
    }

    fn advance(&self, pitch: &mut Pitch) {
        let n = self.up_halftones(pitch);
        raise(pitch, n);
    }

    fn down_halftones(&self, p: &Pitch) -> (r: u8) {
        let r = rank_of(&self.key, p);
        let n: u8 = if r == 0 || r == 5 {
            3
        } else if r == 8 || r == 9 {
            1
        } else {
            2
        };
        n
    }

    fn recede(&self, pitch: &mut Pitch) {
        let n = self.down_halftones(pitch);
        lower(pitch, n);
    }
}

/// The degrees (ranks) of the basic scale's tables.
pub open spec fn basic_degree(t: KeySignatureType, r: int) -> bool {
    match t {
        KeySignatureType::Maj => r == 0 || r == 2 || r == 4 || r == 5 || r == 7 || r == 9 || r
            == 11,
        KeySignatureType::Min => r == 0 || r == 2 || r == 3 || r == 5 || r == 7 || r == 8 || r
            == 11,
    }
}

/// The degrees (ranks) of the jazz-like major table.
pub open spec fn jazz_degree(r: int) -> bool {
    r == 0 || r == 2 || r == 5 || r == 7 || r == 8 || r == 9
}

proof fn lemma_halftone_up(p: Pitch)
    ensures
        !p.can_move_up() ==> p.absolute() == 120,
        p.can_move_up() ==> p.halftone_up().absolute() == p.absolute() + 1,
        p.absolute() <= 120,
{
}

proof fn lemma_halftone_down(p: Pitch)
    ensures
        !p.can_move_down() ==> p.absolute() == -1,
        p.can_move_down() ==> p.halftone_down().absolute() == p.absolute() - 1,
        p.absolute() >= -1,
{
}

/// Raising by one to three halftones is possible below the top and adds them.
pub proof fn lemma_raised(p: Pitch, n: int)
    requires
        1 <= n <= 3,
        p.absolute() + n <= 120,
    ensures
        can_raise(p, n),
        raised(p, n).absolute() == p.absolute() + n,
{
    lemma_halftone_up(p);
    lemma_halftone_up(p.halftone_up());
    lemma_halftone_up(p.tone_up());
}

/// Lowering by one to three halftones is possible above the bottom and subtracts them.
pub proof fn lemma_lowered(p: Pitch, n: int)
    requires
        1 <= n <= 3,
        p.absolute() - n >= -1,
    ensures
        can_lower(p, n),
        lowered(p, n).absolute() == p.absolute() - n,
{
    lemma_halftone_down(p);
    lemma_halftone_down(p.halftone_down());
    lemma_halftone_down(p.tone_down());
}

/// The rank of a pitch is its sounding value above the tonic, modulo 12.
proof fn lemma_rank_absolute(key: KeySignature, p: Pitch)
    ensures
        rank(key, p) == (p.absolute() - key.ext.pitch_class()) % 12,
{
    crate::notation::symbol::lemma_absolute_split(p);
    let a = p.absolute();
    let k = key.ext.pitch_class();
    vstd::arithmetic::div_mod::lemma_fundamental_div_mod(a, 12);
    assert(a % 12 + 12 - k == 12 * (1 - a / 12) + (a - k));
    vstd::arithmetic::div_mod::lemma_mod_multiples_vanish(1 - a / 12, a - k, 12);
}

/// The rank of a pitch moved by `n` halftones moves by `n` modulo 12.
pub proof fn lemma_rank_shift(key: KeySignature, p: Pitch, q: Pitch, n: int)
    requires
        q.absolute() == p.absolute() + n,
    ensures
        rank(key, q) == (rank(key, p) + n) % 12,
{
    lemma_rank_absolute(key, p);
    lemma_rank_absolute(key, q);
    let x = p.absolute() - key.ext.pitch_class();
    vstd::arithmetic::div_mod::lemma_fundamental_div_mod(x, 12);
    assert(x + n == 12 * (x / 12) + (x % 12 + n));
    vstd::arithmetic::div_mod::lemma_mod_multiples_vanish(x / 12, x % 12 + n, 12);
}

proof fn lemma_basic_steps(t: KeySignatureType, r: int)
    requires
        basic_degree(t, r),
    ensures
        basic_down_step(t, (r + basic_up_step(t, r)) % 12) == basic_up_step(t, r),
        basic_up_step(t, (r - basic_down_step(t, r)) % 12) == basic_down_step(t, r),
{
}

proof fn lemma_jazz_steps(r: int)
    requires
        jazz_degree(r),
    ensures
        jazz_down_step((r + jazz_up_step(r)) % 12) == jazz_up_step(r),
        jazz_up_step((r - jazz_down_step(r)) % 12) == jazz_down_step(r),
{
}

/// On the degrees of the basic scale, away from the outer octaves, moving a
/// degree up and then down, or down and then up, gives back an
/// enharmonically equal pitch.
pub proof fn lemma_basic_round_trip(scale: BasicScale, p: Pitch)
    requires
        1 <= p.octave.index() <= 8,
        basic_degree(scale.key.signature_type, rank(scale.key, p)),
    ensures
        ({
            let q = raised(p, scale.up_step(p));
            &&& can_raise(p, scale.up_step(p))
            &&& can_lower(q, scale.down_step(q))
            &&& lowered(q, scale.down_step(q)).absolute() == p.absolute()
        }),
        ({
            let q = lowered(p, scale.down_step(p));
            &&& can_lower(p, scale.down_step(p))
            &&& can_raise(q, scale.up_step(q))
            &&& raised(q, scale.up_step(q)).absolute() == p.absolute()
        }),
{
    let t = scale.key.signature_type;
    let r = rank(scale.key, p);
    lemma_basic_steps(t, r);
    let u = scale.up_step(p);
    lemma_raised(p, u);
    let q = raised(p, u);
    lemma_rank_shift(scale.key, p, q, u);
    lemma_lowered(q, scale.down_step(q));
    let d = scale.down_step(p);
    lemma_lowered(p, d);
    let q2 = lowered(p, d);
    lemma_rank_shift(scale.key, p, q2, -d);
    lemma_raised(q2, scale.up_step(q2));
}

/// On the degrees of the jazz-like major scale, away from the outer octaves,
/// moving a degree up and then down, or down and then up, gives back an
/// enharmonically equal pitch.
pub proof fn lemma_jazz_round_trip(scale: JazzLikeScale, p: Pitch)
    requires
        scale.supported(),
        1 <= p.octave.index() <= 8,
        jazz_degree(rank(scale.key, p)),
    ensures
        ({
            let q = raised(p, scale.up_step(p));
            &&& can_raise(p, scale.up_step(p))
            &&& can_lower(q, scale.down_step(q))
            &&& lowered(q, scale.down_step(q)).absolute() == p.absolute()
        }),
        ({
            let q = lowered(p, scale.down_step(p));
            &&& can_lower(p, scale.down_step(p))
            &&& can_raise(q, scale.up_step(q))
            &&& raised(q, scale.up_step(q)).absolute() == p.absolute()
        }),
{
    lemma_jazz_steps(rank(scale.key, p));
    let u = scale.up_step(p);
    lemma_raised(p, u);
    let q = raised(p, u);
    lemma_rank_shift(scale.key, p, q, u);
    lemma_lowered(q, scale.down_step(q));
    let d = scale.down_step(p);
    lemma_lowered(p, d);
    let q2 = lowered(p, d);
    lemma_rank_shift(scale.key, p, q2, -d);
    lemma_raised(q2, scale.up_step(q2));
}

} // verus!
