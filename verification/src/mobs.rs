//! Mob spawning rules and the settings a mob model part is drawn with.

use vstd::prelude::*;

verus! {

/// Light and ground gate for an ambient spawn attempt.
#[derive(Debug, Clone, Copy, PartialEq, Eq, Structural)]
pub enum AmbientSpawnRule {
    /// Hostile: any solid ground, two free cells above it, and little enough light; the sky
    /// light level is the one the world has at the moment.
    Hostile { sky_light_level: u8 },
    /// Passive: grass underfoot and two free cells; daylight is checked by the caller.
    Passive,
}

/// How a model part grows or shrinks with the mob's state.
#[derive(Debug, Clone, Copy, PartialEq, Eq, Structural)]
pub enum PartScale {
    /// Always drawn at its own size.
    NoScale,
    Baby,
    BabyHead,
    CreeperSwell,
    SlimeSize,
    BreathPulse,
}

/// Around which point a model part turns.
#[derive(Debug, Clone, Copy, PartialEq, Eq, Structural)]
pub enum PivotMode {
    Local,
    World,
    WolfBody,
    WolfHead,
}

/// Where a model part takes its texture from.
#[derive(Debug, Clone, Copy, PartialEq, Eq, Structural)]
pub enum TexMode {
    Fixed,
    SheepBody,
    PiglinHead,
    PiglinBody,
    HuskHead,
    HuskBody,
    PlayerHead,
    PlayerArm,
}

/// The six face texture columns packed four bits each, the first face in the lowest bits; only
/// the low four bits of each column count.
pub open spec fn spec_pack_tex_cols(cols: [u32; 6]) -> u32 {
    ((cols[0] % 16) + (cols[1] % 16) * 16 + (cols[2] % 16) * 256 + (cols[3] % 16) * 4096 + (cols[4] % 16) * 65536
        + (cols[5] % 16) * 1048576) as u32
}

/// Pack the texture column of each face of a cuboid into one number.
pub fn pack_tex_cols(cols: [u32; 6]) -> (r: u32)
    ensures
        r == spec_pack_tex_cols(cols),
{
    let c0 = cols[0];
    let c1 = cols[1];
    let c2 = cols[2];
    let c3 = cols[3];
    let c4 = cols[4];
    let c5 = cols[5];
    let r = (c0 & 0xF) | ((c1 & 0xF) << 4u32) | ((c2 & 0xF) << 8u32) | ((c3 & 0xF) << 12u32) | ((c4 & 0xF) << 16u32) | ((c5
        & 0xF) << 20u32);
    assert(r == ((c0 % 16) + (c1 % 16) * 16 + (c2 % 16) * 256 + (c3 % 16) * 4096 + (c4 % 16) * 65536 + (c5 % 16)
        * 1048576) as u32) by (bit_vector)
        requires
            r == (c0 & 0xF) | ((c1 & 0xF) << 4u32) | ((c2 & 0xF) << 8u32) | ((c3 & 0xF) << 12u32) | ((c4 & 0xF) << 16u32)
                | ((c5 & 0xF) << 20u32),
    ;
    r
}

/// Atlas columns of the player head's faces.
pub const PLAYER_HEAD_COLS: [u32; 6] = [15, 13, 13, 13, 13, 13];
/// Atlas row of the player head.
pub const PLAYER_HEAD_ROW: u32 = 8;
/// Atlas column of the player's arms.
pub const PLAYER_ARM_COL: u32 = 15;
/// Atlas row of the player's arms.
pub const PLAYER_ARM_ROW: u32 = 9;

/// Texture column of each face of a part drawn with `mode`: the part's own columns for a fixed
/// texture, the wool or shorn body for a sheep, and the dedicated columns of piglins, husks and
/// the player.
pub open spec fn spec_resolve_cols(mode: TexMode, fallback: [u32; 6], has_wool: bool) -> [u32; 6] {
    match mode {
        TexMode::Fixed => fallback,
        TexMode::SheepBody => if has_wool { [5u32, 5, 5, 5, 5, 5] } else { [6u32, 6, 6, 6, 6, 6] },
        TexMode::PiglinHead => [11u32, 12, 12, 12, 12, 12],
        TexMode::PiglinBody => [12u32, 12, 12, 12, 12, 12],
        TexMode::HuskHead => [13u32, 14, 14, 14, 14, 14],
        TexMode::HuskBody => [14u32, 14, 14, 14, 14, 14],
        TexMode::PlayerHead => [15u32, 13, 13, 13, 13, 13],
        TexMode::PlayerArm => [15u32, 15, 15, 15, 15, 15],
    }
}

/// Face texture columns for a part drawn with `mode`.
pub fn resolve_cols(mode: TexMode, fallback: [u32; 6], has_wool: bool) -> (r: [u32; 6])
    ensures
        r == spec_resolve_cols(mode, fallback, has_wool),
{
    match mode {
        TexMode::Fixed => fallback,
        TexMode::SheepBody => if has_wool { [5u32, 5, 5, 5, 5, 5] } else { [6u32, 6, 6, 6, 6, 6] },
        TexMode::PiglinHead => [11u32, 12, 12, 12, 12, 12],
        TexMode::PiglinBody => [12u32, 12, 12, 12, 12, 12],
        TexMode::HuskHead => [13u32, 14, 14, 14, 14, 14],
        TexMode::HuskBody => [14u32, 14, 14, 14, 14, 14],
        TexMode::PlayerHead => PLAYER_HEAD_COLS,
        TexMode::PlayerArm => [PLAYER_ARM_COL, PLAYER_ARM_COL, PLAYER_ARM_COL, PLAYER_ARM_COL, PLAYER_ARM_COL, PLAYER_ARM_COL],
    }
}

/// Atlas row for a part drawn with `mode`: the player's own rows for its head and arms, else the
/// part's row.
pub fn resolve_row(mode: TexMode, fallback: u32) -> (r: u32)
    ensures
        r == match mode {
            TexMode::PlayerHead => PLAYER_HEAD_ROW,
            TexMode::PlayerArm => PLAYER_ARM_ROW,
            _ => fallback,
        },
{
    match mode {
        TexMode::PlayerHead => PLAYER_HEAD_ROW,
        TexMode::PlayerArm => PLAYER_ARM_ROW,
        _ => fallback,
    }
}

} // verus!
