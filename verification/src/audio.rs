use vstd::prelude::*;
use crate::rng::random_in;
use crate::clock::{Stopwatch, NANOS_PER_MILLI};

verus! {

/// The sound clips of the game; the number picks one of a character's
/// numbered lines.
#[derive(Clone, Copy, Debug, PartialEq, Eq, Structural)]
pub enum Sound {
    MenuBgm,
    HomeBgm,
    InGameBgm,
    BossBgm,
    Walk,
    Jump,
    FridgeOpen,
    FridgeClose,
    ChestOpen,
    BossRoar,
    DoorOpen,
    DoorClose,
    RoomClean,
    ShirokoHurt(u8),
    ShirokoShout(u8),
    ShirokoGunFire,
    ShirokoSkill(u8),
    ShirokoSkillTalk(u8),
    ArisuHurt(u8),
    ArisuGunFire,
    ArisuGunFireSpecial(u8),
    ArisuSkillTalk(u8),
    ArisuShieldBlock,
    UtahaHurt(u8),
    UtahaAttack,
    UtahaSkillTalk(u8),
    UtahaSkill(u8),
}

/// The sound of a shot: each character has her own; Utaha's own attack
/// (`shot` 1) has its own sound and her turrets sound like Shiroko's gun.
pub fn audio_fire(id: u8, shot: usize) -> (s: Sound)
    ensures
        s == (if id == 2 {
            Sound::ArisuGunFire
        } else if id == 3 && shot == 1 {
            Sound::UtahaAttack
        } else {
            Sound::ShirokoGunFire
        }),
{
    if id == 2 {
        Sound::ArisuGunFire
    } else if id == 3 && shot == 1 {
        Sound::UtahaAttack
    } else {
        Sound::ShirokoGunFire
    }
}

/// The character's hurt line with the given number.
pub open spec fn hurt_line(id: u8, line: u32) -> Sound {
    if id == 2 {
        Sound::ArisuHurt(line as u8)
    } else if id == 3 {
        Sound::UtahaHurt(line as u8)
    } else {
        Sound::ShirokoHurt(line as u8)
    }
}

/// The voice when the player is hurt, from a chance roll in `0..9` and a
/// line roll in `0..3`: the character speaks one of her three hurt lines
/// when the chance roll is above 5, that is a third of the time.
pub fn hurt_voice(id: u8, chance: u32, line: u32) -> (s: Option<Sound>)
    requires
        chance < 9,
        line < 3,
    ensures
        s == (if chance > 5 { Some(hurt_line(id, line)) } else { None }),
{
    if chance > 5 {
        let l = line as u8;
        Some(if id == 2 {
            Sound::ArisuHurt(l)
        } else if id == 3 {
            Sound::UtahaHurt(l)
        } else {
            Sound::ShirokoHurt(l)
        })
    } else {
        None
    }
}

/// The voice when the player is hurt, with the rolls drawn at random; see
/// `hurt_voice`.
pub fn player_hurt(id: u8) -> (s: Option<Sound>)
    ensures
        s matches Some(v) ==> exists|line: u32| line < 3 && v == hurt_line(id, line),
{
    let chance = random_in(0, 9);
    let line = random_in(0, 3);
    hurt_voice(id, chance, line)
}

/// The sounds of the dodge skill for each character.
pub open spec fn skill2_cues(id: u8, shout: u32) -> Seq<Sound> {
    if id == 1 {
        seq![Sound::ShirokoShout(shout as u8)]
    } else if id == 2 {
        seq![Sound::ArisuSkillTalk(1)]
    } else if id == 3 {
        seq![Sound::UtahaSkillTalk(0), Sound::UtahaSkill(0)]
    } else {
        seq![]
    }
}

/// The sounds of the dodge skill: a battle shout from Shiroko (one of three,
/// picked with `shout`), a skill line from Arisu, a skill line and the
/// rotor sound from Utaha.
pub fn skill2_sounds(id: u8, shout: u32) -> (v: Vec<Sound>)
    requires
        shout < 3,
    ensures
        v@ == skill2_cues(id, shout),
{
    let mut v: Vec<Sound> = Vec::new();
    if id == 1 {
        v.push(Sound::ShirokoShout(shout as u8));
    } else if id == 2 {
        v.push(Sound::ArisuSkillTalk(1));
    } else if id == 3 {
        v.push(Sound::UtahaSkillTalk(0));
        v.push(Sound::UtahaSkill(0));
    }
    v
}

/// The sounds of the dodge skill with Shiroko's shout drawn at random; see
/// `skill2_sounds`.
pub fn player_skill2(id: u8) -> (v: Vec<Sound>)
    ensures
        exists|shout: u32| shout < 3 && v@ == skill2_cues(id, shout),
{
    let shout = if id == 1 { random_in(0, 3) } else { 0 };
    skill2_sounds(id, shout)
}

/// Shortest time between two footstep sounds.
pub const FOOTSTEP_NS: u64 = 400 * NANOS_PER_MILLI;

/// The footstep sound of a running player: every frame of running ticks the
/// footstep clock, and once it shows 0.4 s the sound plays and the clock
/// starts again.
pub fn player_run(clock: &mut Stopwatch, delta_ns: u64) -> (play: bool)
    ensures
        play == (old(clock).ticked(delta_ns).elapsed_ns >= FOOTSTEP_NS),
        *final(clock) == (if play { Stopwatch { elapsed_ns: 0 } } else { old(clock).ticked(delta_ns) }),
{
    clock.tick(delta_ns);
    if clock.elapsed() >= FOOTSTEP_NS {
        clock.reset();
        true
    } else {
        false
    }
}

/// The sound of the secondary skill (the explosion).
pub fn player_skill3() -> (s: Sound)
    ensures
        s == Sound::ShirokoSkill(1),
{
    Sound::ShirokoSkill(1)
}

/// The sounds of the ultimate skill, and of the release of Arisu's sword
/// shot (`release`).
pub fn player_skill4(id: u8, release: bool) -> (v: Vec<Sound>)
    ensures
        v@ == (if release {
            if id == 2 { seq![Sound::ArisuGunFireSpecial(1)] } else { seq![] }
        } else if id == 1 {
            seq![Sound::ShirokoSkill(2), Sound::ShirokoSkillTalk(2)]
        } else if id == 2 {
            seq![Sound::ArisuSkillTalk(0), Sound::ArisuGunFireSpecial(0)]
        } else if id == 3 {
            seq![Sound::UtahaSkillTalk(2), Sound::UtahaSkill(2)]
        } else {
            seq![]
        }),
{
    let mut v: Vec<Sound> = Vec::new();
    if release {
        if id == 2 {
            v.push(Sound::ArisuGunFireSpecial(1));
        }
    } else if id == 1 {
        v.push(Sound::ShirokoSkill(2));
        v.push(Sound::ShirokoSkillTalk(2));
    } else if id == 2 {
        v.push(Sound::ArisuSkillTalk(0));
        v.push(Sound::ArisuGunFireSpecial(0));
    } else if id == 3 {
        v.push(Sound::UtahaSkillTalk(2));
        v.push(Sound::UtahaSkill(2));
    }
    v
}

/// The music of a run: the first time the run's screen is entered the run
/// music starts (if none plays); later, entering the screen for the first
/// room of the queue plays the boss music and for the second room the run
/// music again. `started` remembers that the music was started.
pub fn audio_play_ingame(started: &mut bool, music_playing: bool, map_index: usize) -> (s: Option<Sound>)
    ensures
        *final(started) == true,
        !*old(started) && !music_playing ==> s == Some(Sound::InGameBgm),
        (*old(started) || music_playing) ==> s == (if map_index == 0 {
            Some(Sound::BossBgm)
        } else if map_index == 1 {
            Some(Sound::InGameBgm)
        } else {
            None
        }),
{
    let first = !*started;
    *started = true;
    if first && !music_playing {
        return Some(Sound::InGameBgm);
    }
    if map_index == 0 {
        Some(Sound::BossBgm)
    } else if map_index == 1 {
        Some(Sound::InGameBgm)
    } else {
        None
    }
}

/// The sound of a door event: in the lobby 3 and 4 are the fridge opening
/// and closing; in a run 1 and 2 are the exit door opening and closing.
pub fn door_sound(in_lobby: bool, event: u8) -> (s: Option<Sound>)
    ensures
        s == (if in_lobby {
            if event == 3 { Some(Sound::FridgeOpen) } else if event == 4 { Some(Sound::FridgeClose) } else { None }
        } else {
            if event == 1 { Some(Sound::DoorOpen) } else if event == 2 { Some(Sound::DoorClose) } else { None }
        }),
{
    if in_lobby {
        if event == 3 { Some(Sound::FridgeOpen) } else if event == 4 { Some(Sound::FridgeClose) } else { None }
    } else {
        if event == 1 { Some(Sound::DoorOpen) } else if event == 2 { Some(Sound::DoorClose) } else { None }
    }
}

/// Hurt voices: each character speaks her own hurt line with the drawn
/// number (Arisu for id 2, Utaha for id 3, Shiroko otherwise), and only on
/// chance rolls 6, 7 and 8, a third of the nine.
pub proof fn lemma_hurt_voice(id: u8, chance: u32, line: u32)
    requires
        chance < 9,
        line < 3,
    ensures
        id == 2 ==> hurt_line(id, line) == Sound::ArisuHurt(line as u8),
        id == 3 ==> hurt_line(id, line) == Sound::UtahaHurt(line as u8),
        id != 2 && id != 3 ==> hurt_line(id, line) == Sound::ShirokoHurt(line as u8),
        (chance == 6 || chance == 7 || chance == 8) <==> chance > 5,
{
}

/// Dodge sounds: Shiroko shouts one of her three battle cries (the one
/// drawn), Arisu says her skill line, Utaha says hers and her rotor sounds;
/// any other id makes no sound.
pub proof fn lemma_dodge_sounds(id: u8, shout: u32)
    requires
        shout < 3,
    ensures
        id == 1 ==> skill2_cues(id, shout) == seq![Sound::ShirokoShout(shout as u8)],
        id == 2 ==> skill2_cues(id, shout) == seq![Sound::ArisuSkillTalk(1)],
        id == 3 ==> skill2_cues(id, shout) == seq![Sound::UtahaSkillTalk(0), Sound::UtahaSkill(0)],
        !(1 <= id <= 3) ==> skill2_cues(id, shout).len() == 0,
{
}

} // verus!
