use vstd::prelude::*;

verus! {

/// A sprite sheet cut into `columns` by `rows` tiles of `tile_w` by
/// `tile_h` pixels.
#[derive(Clone, Copy, Debug, PartialEq, Eq, Structural)]
pub struct SheetGrid {
    pub tile_w: u32,
    pub tile_h: u32,
    pub columns: u32,
    pub rows: u32,
}

/// The sprite sheets a playable character is drawn with.
#[derive(Clone, Copy, Debug, PartialEq, Eq, Structural)]
pub struct CharacterGrids {
    pub movement: SheetGrid,
    pub idle: SheetGrid,
    pub jump: SheetGrid,
    pub skill: SheetGrid,
    pub gun: SheetGrid,
    pub gun_hit: SheetGrid,
    pub gun_fire_effect: SheetGrid,
    pub bullet: SheetGrid,
}

pub open spec fn square(size: u32, columns: u32, rows: u32) -> SheetGrid {
    SheetGrid { tile_w: size, tile_h: size, columns, rows }
}

/// The sheets of each character: Shiroko's (also used for an unknown id),
/// Arisu's (longer walking and idle loops, a two-row shield animation, a big
/// hit effect and animated bullets) and Utaha's (Shiroko's weapon sheets with
/// her own body sheets).
pub open spec fn character_grids(id: u8) -> CharacterGrids {
    if id == 2 {
        CharacterGrids {
            movement: square(64, 9, 2),
            idle: square(64, 11, 1),
            jump: square(64, 4, 2),
            skill: square(96, 8, 2),
            gun: square(64, 1, 1),
            gun_hit: square(128, 7, 1),
            gun_fire_effect: square(64, 6, 1),
            bullet: square(64, 4, 1),
        }
    } else if id == 3 {
        CharacterGrids {
            movement: square(64, 9, 2),
            idle: square(64, 11, 1),
            jump: square(64, 4, 2),
            skill: square(64, 5, 3),
            gun: square(64, 1, 1),
            gun_hit: square(32, 6, 1),
            gun_fire_effect: square(32, 5, 1),
            bullet: square(32, 1, 1),
        }
    } else {
        CharacterGrids {
            movement: square(64, 5, 2),
            idle: square(64, 6, 1),
            jump: square(64, 4, 2),
            skill: square(96, 12, 1),
            gun: square(64, 1, 1),
            gun_hit: square(32, 6, 1),
            gun_fire_effect: square(32, 5, 1),
            bullet: square(32, 1, 1),
        }
    }
}

fn sq(size: u32, columns: u32, rows: u32) -> (g: SheetGrid)
    ensures
        g == square(size, columns, rows),
{
    SheetGrid { tile_w: size, tile_h: size, columns, rows }
}

/// The sprite sheets of the character with the given id; see
/// `character_grids`.
pub fn character_sheets(id: u8) -> (g: CharacterGrids)
    ensures
        g == character_grids(id),
{
    let mut g = CharacterGrids {
        movement: sq(64, 5, 2),
        idle: sq(64, 6, 1),
        jump: sq(64, 4, 2),
        skill: sq(96, 12, 1),
        gun: sq(64, 1, 1),
        gun_hit: sq(32, 6, 1),
        gun_fire_effect: sq(32, 5, 1),
        bullet: sq(32, 1, 1),
    };
    if id == 2 {
        g.movement = sq(64, 9, 2);
        g.idle = sq(64, 11, 1);
        g.jump = sq(64, 4, 2);
        g.skill = sq(96, 8, 2);
        g.gun_hit = sq(128, 7, 1);
        g.gun = sq(64, 1, 1);
        g.gun_fire_effect = sq(64, 6, 1);
        g.bullet = sq(64, 4, 1);
    } else if id == 3 {
        g.movement = sq(64, 9, 2);
        g.idle = sq(64, 11, 1);
        g.jump = sq(64, 4, 2);
        g.skill = sq(64, 5, 3);
    }
    g
}

/// Every sheet's frames hold the animations the player logic plays on it:
/// the idle sheet has at least the 6 idle frames and the walking sheet the
/// 10 walking frames, and Shiroko's and Arisu's skill sheets hold their
/// 12- and 11-frame dodges.
pub proof fn lemma_sheets_hold_animations(id: u8)
    requires
        1 <= id <= 3,
    ensures
        ({
            let g = character_grids(id);
            &&& g.idle.columns * g.idle.rows >= 6
            &&& g.movement.columns * g.movement.rows >= 10
            &&& g.jump.columns * g.jump.rows >= 8
            &&& id == 1 ==> g.skill.columns * g.skill.rows >= 12
            &&& id == 2 ==> g.skill.columns * g.skill.rows >= 11
            &&& id == 3 ==> g.skill.columns * g.skill.rows >= 15
        }),
{
}

/// The image files a playable character is drawn with, one per sheet of
/// `CharacterGrids`.
#[derive(Clone, Copy, Debug)]
pub struct CharacterFiles {
    pub movement: &'static str,
    pub idle: &'static str,
    pub jump: &'static str,
    pub skill: &'static str,
    pub gun: &'static str,
    pub gun_hit: &'static str,
    pub gun_fire_effect: &'static str,
    pub bullet: &'static str,
}

/// The file names of a set of character files, in the order of the fields.
pub open spec fn file_names(f: CharacterFiles) -> Seq<Seq<char>> {
    seq![f.movement@, f.idle@, f.jump@, f.skill@, f.gun@, f.gun_hit@, f.gun_fire_effect@, f.bullet@]
}

/// The files of each character: Arisu's and Utaha's own (Utaha's weapon
/// effects and bullets are Shiroko's), and Shiroko's for any other id.
pub open spec fn character_file_names(id: u8) -> Seq<Seq<char>> {
    if id == 2 {
        seq![
            "Arisu_Move.png"@,
            "Arisu_Idle.png"@,
            "Arisu_Jump.png"@,
            "Arisu_Shield.png"@,
            "Arisu_Gun.png"@,
            "Arisu_Hit_Effect.png"@,
            "Arisu_Gun_Fire_Effect.png"@,
            "Arisu_Projectile.png"@,
        ]
    } else if id == 3 {
        seq![
            "Utaha_Move.png"@,
            "Utaha_Idle.png"@,
            "Utaha_Jump.png"@,
            "Utaha_Secondary.png"@,
            "Utaha_Weapon.png"@,
            "Shiroko_Hit_Effect.png"@,
            "Shiroko_Gun_Fire_Effect.png"@,
            "Shiroko_Projectile.png"@,
        ]
    } else {
        seq![
            "Shiroko_Move.png"@,
            "Shiroko_Idle.png"@,
            "Shiroko_Jump.png"@,
            "Shiroko_Dash.png"@,
            "Shiroko_Gun.png"@,
            "Shiroko_Hit_Effect.png"@,
            "Shiroko_Gun_Fire_Effect.png"@,
            "Shiroko_Projectile.png"@,
        ]
    }
}

/// The image files of character `id`; see `character_file_names`.
pub fn character_files(id: u8) -> (f: CharacterFiles)
    ensures
        file_names(f) == character_file_names(id),
{
    if id == 2 {
        CharacterFiles {
            movement: "Arisu_Move.png",
            idle: "Arisu_Idle.png",
            jump: "Arisu_Jump.png",
            skill: "Arisu_Shield.png",
            gun: "Arisu_Gun.png",
            gun_hit: "Arisu_Hit_Effect.png",
            gun_fire_effect: "Arisu_Gun_Fire_Effect.png",
            bullet: "Arisu_Projectile.png",
        }
    } else if id == 3 {
        CharacterFiles {
            movement: "Utaha_Move.png",
            idle: "Utaha_Idle.png",
            jump: "Utaha_Jump.png",
            skill: "Utaha_Secondary.png",
            gun: "Utaha_Weapon.png",
            gun_hit: "Shiroko_Hit_Effect.png",
            gun_fire_effect: "Shiroko_Gun_Fire_Effect.png",
            bullet: "Shiroko_Projectile.png",
        }
    } else {
        CharacterFiles {
            movement: "Shiroko_Move.png",
            idle: "Shiroko_Idle.png",
            jump: "Shiroko_Jump.png",
            skill: "Shiroko_Dash.png",
            gun: "Shiroko_Gun.png",
            gun_hit: "Shiroko_Hit_Effect.png",
            gun_fire_effect: "Shiroko_Gun_Fire_Effect.png",
            bullet: "Shiroko_Projectile.png",
        }
    }
}

/// The number of tiles of a sheet.
pub open spec fn tiles(g: SheetGrid) -> int {
    g.columns * g.rows
}

/// The character sheets, across characters: any id other than Arisu's (2)
/// and Utaha's (3) is drawn as Shiroko (1); Utaha's weapon sheets (hit
/// effect, muzzle flash, bullet) are Shiroko's; and every sheet holds its
/// animation: 10 walking frames, 6 idle frames, 8 jumping frames, the
/// whole dodge (12 frames for Shiroko, 11 for Arisu, 15 for Utaha) and a
/// five-frame muzzle flash.
pub proof fn lemma_character_sheets(id: u8)
    ensures
        !(id == 2 || id == 3) ==> character_grids(id) == character_grids(1),
        character_grids(3).gun_hit == character_grids(1).gun_hit,
        character_grids(3).gun_fire_effect == character_grids(1).gun_fire_effect,
        character_grids(3).bullet == character_grids(1).bullet,
        tiles(character_grids(id).movement) >= 10,
        tiles(character_grids(id).idle) >= 6,
        tiles(character_grids(id).jump) >= 8,
        tiles(character_grids(id).skill) >= (if id == 2 { 11int } else if id == 3 { 15int } else { 12int }),
        tiles(character_grids(id).gun_fire_effect) >= 5,
{
}

/// The image files across characters: any id other than Arisu's (2) and
/// Utaha's (3) uses Shiroko's files, and Utaha's weapon effects and bullet
/// are Shiroko's.
pub proof fn lemma_character_files(id: u8)
    ensures
        !(id == 2 || id == 3) ==> character_file_names(id) == character_file_names(1),
        character_file_names(3).subrange(5, 8) == character_file_names(1).subrange(5, 8),
{
    assert(character_file_names(3).subrange(5, 8) =~= character_file_names(1).subrange(5, 8));
}

} // verus!
