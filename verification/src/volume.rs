//! Loudness as a whole number of ten-thousandths of full scale.

use vstd::prelude::*;

verus! {

/// The units of full scale.
pub const FULL_SCALE: u32 = 10_000;

/// The units by which one step up or down changes a volume: a tenth of
/// full scale.
pub const STEP: u32 = 1_000;

/// A volume between silence and full scale, in units of one ten-thousandth
/// of full scale.
#[derive(Clone, Copy, Debug, PartialEq, Eq, Structural)]
pub struct Volume {
    units: u32,
}

impl View for Volume {
    type V = nat;

    closed spec fn view(&self) -> nat {
        self.units as nat
    }
}

impl Volume {
    #[verifier::type_invariant]
    spec fn in_range(self) -> bool {
        self.units <= FULL_SCALE
    }

    /// The volume of `units` units, and full scale where `units` is beyond it.
    pub closed spec fn of(units: nat) -> Volume {
        Volume {
            units: if units <= FULL_SCALE {
                units as u32
            } else {
                FULL_SCALE
            },
        }
    }

    /// One step louder, and no louder than full scale.
    pub open spec fn louder(self) -> Volume {
        Volume::of(self@ + STEP as nat)
    }

    /// One step softer, and no softer than silence.
    pub open spec fn softer(self) -> Volume {
        Volume::of(
            if self@ >= STEP {
                (self@ - STEP) as nat
            } else {
                0
            },
        )
    }

    /// The units of `Volume::of`.
    pub proof fn lemma_of(units: nat)
        ensures
            Volume::of(units)@ == if units <= FULL_SCALE {
                units
            } else {
                FULL_SCALE as nat
            },
    {
    }

    /// Volumes of the same units are the same.
    pub proof fn lemma_same(a: Volume, b: Volume)
        requires
            a@ == b@,
        ensures
            a == b,
    {
    }

    /// The volume of `units` units, and full scale where `units` is beyond it.
    pub fn from_units(units: u32) -> (volume: Volume)
        ensures
            volume == Volume::of(units as nat),
            volume@ == if units <= FULL_SCALE {
                units
            } else {
                FULL_SCALE
            },
    {
        if units <= FULL_SCALE {
            Volume { units }
        } else {
            Volume { units: FULL_SCALE }
        }
    }

    /// Full scale.
    pub fn full() -> (volume: Volume)
        ensures
            volume == Volume::of(FULL_SCALE as nat),
            volume@ == FULL_SCALE,
    {
        Volume { units: FULL_SCALE }
    }

    /// Silence.
    pub fn silent() -> (volume: Volume)
        ensures
            volume == Volume::of(0),
            volume@ == 0,
    {
        Volume { units: 0 }
    }

    /// The units of this volume.
    pub fn units(self) -> (units: u32)
        ensures
            units == self@,
            units <= FULL_SCALE,
    {
        proof {
            use_type_invariant(self);
        }
        self.units
    }

    /// Whether this is silence.
    pub fn is_silent(self) -> (silent: bool)
        ensures
            silent == (self@ == 0),
    {
        self.units == 0
    }

    /// One step louder, and no louder than full scale.
    pub fn raised(self) -> (volume: Volume)
        ensures
            volume == self.louder(),
            volume@ == if self@ + STEP <= FULL_SCALE {
                self@ + STEP
            } else {
                FULL_SCALE as int
            },
    {
        proof {
            use_type_invariant(self);
        }
        if self.units <= FULL_SCALE - STEP {
            Volume { units: self.units + STEP }
        } else {
            Volume { units: FULL_SCALE }
        }
    }

    /// One step softer, and no softer than silence.
    pub fn lowered(self) -> (volume: Volume)
        ensures
            volume == self.softer(),
            volume@ == if self@ >= STEP {
                self@ - STEP
            } else {
                0
            },
    {
        proof {
            use_type_invariant(self);
        }
        if self.units >= STEP {
            Volume { units: self.units - STEP }
        } else {
            Volume { units: 0 }
        }
    }
}

/// The loudness at which a track plays, in units of one hundred-millionth of
/// full scale: the product of the playlist's volume and the track's, and
/// nothing while the session is muted.
pub open spec fn playback_level(muted: bool, playlist: Volume, song: Volume) -> nat {
    if muted {
        0
    } else {
        playlist@ * song@
    }
}

/// Computes the loudness at which a track plays.
pub fn playback_gain(muted: bool, playlist: Volume, song: Volume) -> (gain: u32)
    ensures
        gain == playback_level(muted, playlist, song),
        gain <= FULL_SCALE * FULL_SCALE,
{
    let a = playlist.units();
    let b = song.units();
    assert(a * b <= FULL_SCALE * FULL_SCALE) by (nonlinear_arith)
        requires
            a <= FULL_SCALE,
            b <= FULL_SCALE,
    ;
    if muted {
        0
    } else {
        a * b
    }
}

} // verus!
