//! How the alarm sound is shaped by the chosen effect and sound level.
//!
//! Ratios and factors are exact decimal numbers; they are kept here as whole
//! hundredths or tenths so that the library works on integers only.
use vstd::prelude::*;
use crate::config::SoundFx;

verus! {

/// The `(speed, bass)` profile of an effect, both in hundredths
/// (`100` is unchanged, `125` is 1.25 times).
pub open spec fn spec_soundfx_profile(fx: SoundFx) -> (u32, u32) {
    match fx {
        SoundFx::NONE => (100, 100),
        SoundFx::SPEED125X => (125, 100),
        SoundFx::SPEED150X => (150, 100),
        SoundFx::SPEED175X => (175, 100),
        SoundFx::SPEED200X => (200, 100),
        SoundFx::SPEED250X => (250, 100),
        SoundFx::SPEED300X => (300, 100),
        SoundFx::BASSBOOST1 => (100, 115),
        SoundFx::BASSBOOST2 => (100, 125),
        SoundFx::BASSBOOST3 => (100, 135),
        SoundFx::SLOWDOWN75X => (75, 100),
        SoundFx::SLOWDOWN50X => (50, 100),
        SoundFx::SLOWDOWN25X => (25, 100),
        SoundFx::SLOWDOWN15X => (15, 100),
    }
}

/// Returns the `(speed, bass)` profile of an effect, both in hundredths.
pub fn soundfx_profile(soundfx: &SoundFx) -> (profile: (u32, u32))
    ensures
        profile == spec_soundfx_profile(*soundfx),
{
    match soundfx {
        SoundFx::NONE => (100, 100),
        SoundFx::SPEED125X => (125, 100),
        SoundFx::SPEED150X => (150, 100),
        SoundFx::SPEED175X => (175, 100),
        SoundFx::SPEED200X => (200, 100),
        SoundFx::SPEED250X => (250, 100),
        SoundFx::SPEED300X => (300, 100),
        SoundFx::BASSBOOST1 => (100, 115),
        SoundFx::BASSBOOST2 => (100, 125),
        SoundFx::BASSBOOST3 => (100, 135),
        SoundFx::SLOWDOWN75X => (75, 100),
        SoundFx::SLOWDOWN50X => (50, 100),
        SoundFx::SLOWDOWN25X => (25, 100),
        SoundFx::SLOWDOWN15X => (15, 100),
    }
}

/// The chain of processing that the alarm sound goes through before the
/// sound level is applied.
#[derive(Clone, Copy, Debug, PartialEq, Eq, Structural)]
pub enum PlaybackChain {
    /// The sound as it is.
    Plain,
    /// The sound played faster or slower, by `ratio_hundredths / 100`.
    Speed { ratio_hundredths: u32 },
    /// The sound mixed with a copy of itself that is low-pass filtered at
    /// `cutoff_hz` and amplified by `boost_tenths / 10`.
    BassBoost { boost_tenths: u32, cutoff_hz: u32 },
}

/// The cut-off frequency of the bass filter, in hertz.
pub const BASS_CUTOFF_HZ: u32 = 180;

/// The processing chain that each effect selects.
pub open spec fn spec_playback_chain(fx: SoundFx) -> PlaybackChain {
    match fx {
        SoundFx::NONE => PlaybackChain::Plain,
        SoundFx::SPEED125X => PlaybackChain::Speed { ratio_hundredths: 125 },
        SoundFx::SPEED150X => PlaybackChain::Speed { ratio_hundredths: 150 },
        SoundFx::SPEED175X => PlaybackChain::Speed { ratio_hundredths: 175 },
        SoundFx::SPEED200X => PlaybackChain::Speed { ratio_hundredths: 200 },
        SoundFx::SPEED250X => PlaybackChain::Speed { ratio_hundredths: 250 },
        SoundFx::SPEED300X => PlaybackChain::Speed { ratio_hundredths: 300 },
        SoundFx::SLOWDOWN75X => PlaybackChain::Speed { ratio_hundredths: 75 },
        SoundFx::SLOWDOWN50X => PlaybackChain::Speed { ratio_hundredths: 50 },
        SoundFx::SLOWDOWN25X => PlaybackChain::Speed { ratio_hundredths: 25 },
        SoundFx::SLOWDOWN15X => PlaybackChain::Speed { ratio_hundredths: 15 },
        SoundFx::BASSBOOST1 => PlaybackChain::BassBoost { boost_tenths: 18, cutoff_hz: 180 },
        SoundFx::BASSBOOST2 => PlaybackChain::BassBoost { boost_tenths: 28, cutoff_hz: 180 },
        SoundFx::BASSBOOST3 => PlaybackChain::BassBoost { boost_tenths: 42, cutoff_hz: 180 },
    }
}

/// Returns the processing chain that an effect selects.
pub fn playback_chain(soundfx: &SoundFx) -> (chain: PlaybackChain)
    ensures
        chain == spec_playback_chain(*soundfx),
{
    match soundfx {
        SoundFx::SPEED125X => PlaybackChain::Speed { ratio_hundredths: 125 },
        SoundFx::SPEED150X => PlaybackChain::Speed { ratio_hundredths: 150 },
        SoundFx::SPEED175X => PlaybackChain::Speed { ratio_hundredths: 175 },
        SoundFx::SPEED200X => PlaybackChain::Speed { ratio_hundredths: 200 },
        SoundFx::SPEED250X => PlaybackChain::Speed { ratio_hundredths: 250 },
        SoundFx::SPEED300X => PlaybackChain::Speed { ratio_hundredths: 300 },
        SoundFx::SLOWDOWN75X => PlaybackChain::Speed { ratio_hundredths: 75 },
        SoundFx::SLOWDOWN50X => PlaybackChain::Speed { ratio_hundredths: 50 },
        SoundFx::SLOWDOWN25X => PlaybackChain::Speed { ratio_hundredths: 25 },
        SoundFx::SLOWDOWN15X => PlaybackChain::Speed { ratio_hundredths: 15 },
        SoundFx::BASSBOOST1 | SoundFx::BASSBOOST2 | SoundFx::BASSBOOST3 => {
            let boost_tenths: u32 = match soundfx {
                SoundFx::BASSBOOST1 => 18,
                SoundFx::BASSBOOST2 => 28,
                SoundFx::BASSBOOST3 => 42,
                _ => 10,
            };
            PlaybackChain::BassBoost { boost_tenths, cutoff_hz: BASS_CUTOFF_HZ }
        },
        SoundFx::NONE => PlaybackChain::Plain,
    }
}

/// Everything the player needs to play the alarm sound.
pub struct PlaybackPlan {
    /// The file to play.
    pub sound_path: String,
    /// The sound level in percent of the file's own level.
    pub volume_percent: u8,
    /// The processing applied before the sound level.
    pub chain: PlaybackChain,
}

/// Builds the plan for playing the alarm sound at `sound_path` with the
/// given sound level (in percent) and effect.
pub fn playback_plan(sound_path: String, sound_level: u8, soundfx: &SoundFx) -> (plan: PlaybackPlan)
    ensures
        plan.sound_path@ == sound_path@,
        plan.volume_percent == sound_level,
        plan.chain == spec_playback_chain(*soundfx),
{
    PlaybackPlan { sound_path, volume_percent: sound_level, chain: playback_chain(soundfx) }
}

/// The profile of an effect and the chain it selects agree: the chain
/// changes the speed exactly when the profile's speed is not 1, and then by
/// the profile's speed; it boosts the bass exactly when the profile's bass is
/// not 1; and it leaves the sound as it is exactly when the profile is
/// neutral.
pub proof fn profile_agrees_with_chain(fx: SoundFx)
    ensures
        (spec_soundfx_profile(fx).0 != 100) <==> (spec_playback_chain(fx) is Speed),
        spec_playback_chain(fx) matches PlaybackChain::Speed { ratio_hundredths }
            ==> ratio_hundredths == spec_soundfx_profile(fx).0,
        (spec_soundfx_profile(fx).1 != 100) <==> (spec_playback_chain(fx) is BassBoost),
        (spec_soundfx_profile(fx) == (100u32, 100u32)) <==> (spec_playback_chain(fx) is Plain),
{
}

} // verus!
