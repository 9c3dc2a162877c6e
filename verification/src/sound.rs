use vstd::prelude::*;

verus! {

/// The kind of sound effect to play.
#[derive(Clone, Copy, Debug, PartialEq, Eq, Structural)]
pub enum SoundEffect {
    HitPerfect { combo: u32 },
    HitGood { combo: u32 },
    Miss,
    Combo { combo: u32 },
    /// The click of a button on a menu screen.
    UiClick,
}

/// Sending this event plays a sound.
#[derive(Clone, Copy, Debug, PartialEq, Eq, Structural)]
pub struct PlaySoundEffect(pub SoundEffect);

/// The four procedurally generated sample buffers.
#[derive(Clone, Copy, Debug, PartialEq, Eq, Structural)]
pub enum SampleBuffer {
    HitPerfect,
    HitGood,
    Miss,
    Combo,
}

/// How one sound effect is played: which buffer, at which speed, and at
/// which volume relative to the configured one, both in thousandths.
#[derive(Clone, Copy, Debug, PartialEq, Eq, Structural)]
pub struct Playback {
    pub buffer: SampleBuffer,
    /// Playback speed (and so pitch), 1000 being the recorded speed.
    pub speed_permille: u32,
    /// Volume relative to the configured effects volume. The native backend
    /// applies it; the web backend plays every buffer at the master gain.
    pub volume_permille: u32,
}

/// The pitch of a hit rises by 15 thousandths per combo step, by at most 300.
pub open spec fn hit_speed_spec(combo: int) -> int {
    1000 + if combo * 15 < 300 { combo * 15 } else { 300 }
}

/// The pitch of a milestone jingle rises by 10 thousandths per combo step,
/// by at most 250.
pub open spec fn combo_speed_spec(combo: int) -> int {
    1000 + if combo * 10 < 250 { combo * 10 } else { 250 }
}

pub open spec fn playback_spec(effect: SoundEffect) -> Playback {
    match effect {
        SoundEffect::HitPerfect { combo } => Playback {
            buffer: SampleBuffer::HitPerfect,
            speed_permille: hit_speed_spec(combo as int) as u32,
            volume_permille: 1000,
        },
        SoundEffect::HitGood { combo } => Playback {
            buffer: SampleBuffer::HitGood,
            speed_permille: hit_speed_spec(combo as int) as u32,
            volume_permille: 1000,
        },
        SoundEffect::Miss | SoundEffect::UiClick => Playback {
            buffer: SampleBuffer::Miss,
            speed_permille: 1000,
            volume_permille: 800,
        },
        SoundEffect::Combo { combo } => Playback {
            buffer: SampleBuffer::Combo,
            speed_permille: combo_speed_spec(combo as int) as u32,
            volume_permille: 1000,
        },
    }
}

fn hit_speed(combo: u32) -> (s: u32)
    ensures
        s == hit_speed_spec(combo as int),
{
    if combo < 20 {
        1000 + combo * 15
    } else {
        1300
    }
}

fn combo_speed(combo: u32) -> (s: u32)
    ensures
        s == combo_speed_spec(combo as int),
{
    if combo < 25 {
        1000 + combo * 10
    } else {
        1250
    }
}

impl SoundEffect {
    /// Which buffer plays this effect, and how fast and how loud.
    pub fn playback(&self) -> (p: Playback)
        ensures
            p == playback_spec(*self),
    {
        match *self {
            SoundEffect::HitPerfect { combo } => Playback {
                buffer: SampleBuffer::HitPerfect,
                speed_permille: hit_speed(combo),
                volume_permille: 1000,
            },
            SoundEffect::HitGood { combo } => Playback {
                buffer: SampleBuffer::HitGood,
                speed_permille: hit_speed(combo),
                volume_permille: 1000,
            },
            SoundEffect::Miss | SoundEffect::UiClick => Playback {
                buffer: SampleBuffer::Miss,
                speed_permille: 1000,
                volume_permille: 800,
            },
            SoundEffect::Combo { combo } => Playback {
                buffer: SampleBuffer::Combo,
                speed_permille: combo_speed(combo),
                volume_permille: 1000,
            },
        }
    }
}


/// Every effect plays at its recorded speed or up to 30% faster; hits and
/// jingles speed up with the combo until they level off; a miss and a menu
/// click play the same buffer at the same settings.
pub proof fn lemma_playback_bounds(effect: SoundEffect, c1: u32, c2: u32)
    requires
        c1 <= c2,
    ensures
        1000 <= playback_spec(effect).speed_permille <= 1300,
        hit_speed_spec(c1 as int) <= hit_speed_spec(c2 as int),
        combo_speed_spec(c1 as int) <= combo_speed_spec(c2 as int),
        c1 >= 20 ==> hit_speed_spec(c1 as int) == 1300,
        c1 >= 25 ==> combo_speed_spec(c1 as int) == 1250,
        playback_spec(SoundEffect::Miss) == playback_spec(SoundEffect::UiClick),
{
}


/// How each effect plays: hits use their own buffer at the full effects
/// volume, 15 thousandths faster per combo step up to 1.3 times speed; the
/// jingle uses its buffer at full volume, 10 thousandths faster per step up
/// to 1.25 times; a miss and a menu click use the miss buffer at recorded
/// speed and eight tenths of the volume.
pub proof fn lemma_playback_table(effect: SoundEffect)
    ensures
        ({
            let p = playback_spec(effect);
            match effect {
                SoundEffect::HitPerfect { combo } => p.buffer == SampleBuffer::HitPerfect
                    && p.volume_permille == 1000 && p.speed_permille == if combo < 20 {
                    1000 + 15 * combo
                } else {
                    1300
                },
                SoundEffect::HitGood { combo } => p.buffer == SampleBuffer::HitGood
                    && p.volume_permille == 1000 && p.speed_permille == if combo < 20 {
                    1000 + 15 * combo
                } else {
                    1300
                },
                SoundEffect::Combo { combo } => p.buffer == SampleBuffer::Combo
                    && p.volume_permille == 1000 && p.speed_permille == if combo < 25 {
                    1000 + 10 * combo
                } else {
                    1250
                },
                SoundEffect::Miss | SoundEffect::UiClick => p.buffer == SampleBuffer::Miss
                    && p.volume_permille == 800 && p.speed_permille == 1000,
            }
        }),
{
}

} // verus!
