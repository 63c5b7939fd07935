//! The table of 1.16.5 stand-ins for blocks added after Minecraft 1.16.5,
//! grouped by the release family that introduced them.
use vstd::prelude::*;
use crate::text::{str_eq, str_option_view};

verus! {

broadcast use vstd::string::group_string_axioms;

/// `a` when it holds a value, `b` otherwise.
pub open spec fn first_some(a: Option<Seq<char>>, b: Option<Seq<char>>) -> Option<Seq<char>> {
    if a is Some {
        a
    } else {
        b
    }
}

/// The 1.16.5 stand-in for an unprefixed block name, if there is one.
pub open spec fn legacy_block_table(key: Seq<char>) -> Option<Seq<char>> {
    let found = deepslate_substitute(key);
    let found = first_some(found, tuff_substitute(key));
    let found = first_some(found, mud_mangrove_substitute(key));
    let found = first_some(found, cherry_substitute(key));
    let found = first_some(found, bamboo_substitute(key));
    let found = first_some(found, pale_oak_substitute(key));
    let found = first_some(found, copper_substitute(key));
    let found = first_some(found, glass_substitute(key));
    let found = first_some(found, cave_and_misc_substitute(key));
    let found = first_some(found, renamed_substitute(key));
    let found = first_some(found, trial_substitute(key));
    found
}

/// 1.16.5 stand-ins for the deepslate family (1.17).
pub open spec fn deepslate_substitute(key: Seq<char>) -> Option<Seq<char>> {
    if key == "deepslate"@
        || key == "cobbled_deepslate"@
        || key == "infested_deepslate"@ {
        Some("cobblestone"@)
    } else if key == "polished_deepslate"@ {
        Some("stone"@)
    } else if key == "deepslate_bricks"@
        || key == "cracked_deepslate_bricks"@
        || key == "deepslate_tiles"@
        || key == "cracked_deepslate_tiles"@ {
        Some("stone_bricks"@)
    } else if key == "polished_deepslate_slab"@ {
        Some("stone_slab"@)
    } else if key == "polished_deepslate_stairs"@ {
        Some("stone_stairs"@)
    } else if key == "polished_deepslate_wall"@ {
        Some("cobblestone_wall"@)
    } else if key == "deepslate_brick_slab"@ {
        Some("stone_brick_slab"@)
    } else if key == "deepslate_brick_stairs"@ {
        Some("stone_brick_stairs"@)
    } else if key == "deepslate_brick_wall"@ {
        Some("stone_brick_wall"@)
    } else if key == "deepslate_tile_slab"@ {
        Some("stone_brick_slab"@)
    } else if key == "deepslate_tile_stairs"@ {
        Some("stone_brick_stairs"@)
    } else if key == "deepslate_tile_wall"@ {
        Some("stone_brick_wall"@)
    } else if key == "deepslate_iron_ore"@ {
        Some("iron_ore"@)
    } else if key == "deepslate_gold_ore"@ {
        Some("gold_ore"@)
    } else if key == "deepslate_diamond_ore"@ {
        Some("diamond_ore"@)
    } else if key == "deepslate_lapis_ore"@ {
        Some("lapis_ore"@)
    } else if key == "deepslate_redstone_ore"@ {
        Some("redstone_ore"@)
    } else if key == "deepslate_emerald_ore"@ {
        Some("emerald_ore"@)
    } else if key == "deepslate_coal_ore"@ {
        Some("coal_ore"@)
    } else if key == "deepslate_copper_ore"@ {
        Some("iron_ore"@)
    } else {
        None
    }
}

/// 1.16.5 stand-ins for tuff (1.17).
pub open spec fn tuff_substitute(key: Seq<char>) -> Option<Seq<char>> {
    if key == "tuff"@ {
        Some("andesite"@)
    } else if key == "polished_tuff"@ {
        Some("polished_andesite"@)
    } else if key == "tuff_slab"@ {
        Some("andesite_slab"@)
    } else if key == "tuff_stairs"@ {
        Some("andesite_stairs"@)
    } else if key == "tuff_wall"@ {
        Some("andesite_wall"@)
    } else if key == "polished_tuff_slab"@ {
        Some("polished_andesite_slab"@)
    } else if key == "polished_tuff_stairs"@ {
        Some("polished_andesite_stairs"@)
    } else if key == "polished_tuff_wall"@ {
        Some("andesite_wall"@)
    } else if key == "tuff_bricks"@ {
        Some("stone_bricks"@)
    } else if key == "tuff_brick_slab"@ {
        Some("stone_brick_slab"@)
    } else if key == "tuff_brick_stairs"@ {
        Some("stone_brick_stairs"@)
    } else if key == "tuff_brick_wall"@ {
        Some("stone_brick_wall"@)
    } else if key == "chiseled_tuff"@ {
        Some("chiseled_stone_bricks"@)
    } else if key == "chiseled_tuff_bricks"@ {
        Some("chiseled_stone_bricks"@)
    } else {
        None
    }
}

/// 1.16.5 stand-ins for mud and mangrove (1.19).
pub open spec fn mud_mangrove_substitute(key: Seq<char>) -> Option<Seq<char>> {
    if key == "mud"@ {
        Some("dirt"@)
    } else if key == "muddy_mangrove_roots"@ {
        Some("podzol"@)
    } else if key == "packed_mud"@ {
        Some("coarse_dirt"@)
    } else if key == "mud_bricks"@ {
        Some("bricks"@)
    } else if key == "mud_brick_slab"@ {
        Some("brick_slab"@)
    } else if key == "mud_brick_stairs"@ {
        Some("brick_stairs"@)
    } else if key == "mud_brick_wall"@ {
        Some("brick_wall"@)
    } else if key == "mangrove_log"@ {
        Some("oak_log"@)
    } else if key == "mangrove_wood"@ {
        Some("oak_wood"@)
    } else if key == "mangrove_planks"@ {
        Some("oak_planks"@)
    } else if key == "mangrove_leaves"@ {
        Some("oak_leaves"@)
    } else if key == "mangrove_propagule"@ {
        Some("oak_sapling"@)
    } else if key == "mangrove_roots"@ {
        Some("oak_log"@)
    } else if key == "mangrove_slab"@ {
        Some("oak_slab"@)
    } else if key == "mangrove_stairs"@ {
        Some("oak_stairs"@)
    } else if key == "mangrove_fence"@ {
        Some("oak_fence"@)
    } else if key == "mangrove_fence_gate"@ {
        Some("oak_fence_gate"@)
    } else if key == "mangrove_door"@ {
        Some("oak_door"@)
    } else if key == "mangrove_trapdoor"@ {
        Some("oak_trapdoor"@)
    } else if key == "mangrove_button"@ {
        Some("oak_button"@)
    } else if key == "mangrove_pressure_plate"@ {
        Some("oak_pressure_plate"@)
    } else if key == "mangrove_sign"@ {
        Some("oak_sign"@)
    } else if key == "mangrove_wall_sign"@ {
        Some("oak_wall_sign"@)
    } else {
        None
    }
}

/// 1.16.5 stand-ins for cherry (1.20).
pub open spec fn cherry_substitute(key: Seq<char>) -> Option<Seq<char>> {
    if key == "cherry_log"@ {
        Some("birch_log"@)
    } else if key == "cherry_wood"@ {
        Some("birch_wood"@)
    } else if key == "cherry_planks"@ {
        Some("birch_planks"@)
    } else if key == "cherry_leaves"@ {
        Some("pink_wool"@)
    } else if key == "cherry_sapling"@ {
        Some("birch_sapling"@)
    } else if key == "cherry_slab"@ {
        Some("birch_slab"@)
    } else if key == "cherry_stairs"@ {
        Some("birch_stairs"@)
    } else if key == "cherry_fence"@ {
        Some("birch_fence"@)
    } else if key == "cherry_fence_gate"@ {
        Some("birch_fence_gate"@)
    } else if key == "cherry_door"@ {
        Some("birch_door"@)
    } else if key == "cherry_trapdoor"@ {
        Some("birch_trapdoor"@)
    } else if key == "pink_petals"@ {
        Some("pink_tulip"@)
    } else {
        None
    }
}

/// 1.16.5 stand-ins for bamboo wood (1.20).
pub open spec fn bamboo_substitute(key: Seq<char>) -> Option<Seq<char>> {
    if key == "bamboo_block"@ {
        Some("bamboo"@)
    } else if key == "stripped_bamboo_block"@ {
        Some("bamboo"@)
    } else if key == "bamboo_planks"@ {
        Some("jungle_planks"@)
    } else if key == "bamboo_mosaic"@ {
        Some("jungle_planks"@)
    } else if key == "bamboo_slab"@ {
        Some("jungle_slab"@)
    } else if key == "bamboo_mosaic_slab"@ {
        Some("jungle_slab"@)
    } else if key == "bamboo_stairs"@ {
        Some("jungle_stairs"@)
    } else if key == "bamboo_mosaic_stairs"@ {
        Some("jungle_stairs"@)
    } else if key == "bamboo_fence"@ {
        Some("jungle_fence"@)
    } else if key == "bamboo_fence_gate"@ {
        Some("jungle_fence_gate"@)
    } else if key == "bamboo_door"@ {
        Some("jungle_door"@)
    } else if key == "bamboo_trapdoor"@ {
        Some("jungle_trapdoor"@)
    } else {
        None
    }
}

/// 1.16.5 stand-ins for pale oak (1.21).
pub open spec fn pale_oak_substitute(key: Seq<char>) -> Option<Seq<char>> {
    if key == "pale_oak_log"@ {
        Some("birch_log"@)
    } else if key == "pale_oak_wood"@ {
        Some("birch_wood"@)
    } else if key == "pale_oak_planks"@ {
        Some("birch_planks"@)
    } else if key == "pale_oak_leaves"@ {
        Some("birch_leaves"@)
    } else if key == "pale_oak_sapling"@ {
        Some("birch_sapling"@)
    } else if key == "pale_oak_slab"@ {
        Some("birch_slab"@)
    } else if key == "pale_oak_stairs"@ {
        Some("birch_stairs"@)
    } else if key == "pale_oak_fence"@ {
        Some("birch_fence"@)
    } else if key == "pale_oak_door"@ {
        Some("birch_door"@)
    } else if key == "pale_oak_trapdoor"@ {
        Some("birch_trapdoor"@)
    } else if key == "pale_moss_block"@ {
        Some("grass_block"@)
    } else if key == "pale_moss_carpet"@ {
        Some("vine"@)
    } else if key == "pale_hanging_moss"@ {
        Some("vine"@)
    } else {
        None
    }
}

/// 1.16.5 stand-ins for copper (1.17).
pub open spec fn copper_substitute(key: Seq<char>) -> Option<Seq<char>> {
    if key == "copper_block"@
        || key == "exposed_copper"@
        || key == "weathered_copper"@
        || key == "oxidized_copper"@ {
        Some("iron_block"@)
    } else if key == "waxed_copper_block"@
        || key == "waxed_exposed_copper"@
        || key == "waxed_weathered_copper"@
        || key == "waxed_oxidized_copper"@ {
        Some("iron_block"@)
    } else if key == "cut_copper"@
        || key == "exposed_cut_copper"@
        || key == "weathered_cut_copper"@
        || key == "oxidized_cut_copper"@ {
        Some("cut_sandstone"@)
    } else if key == "waxed_cut_copper"@
        || key == "waxed_exposed_cut_copper"@
        || key == "waxed_weathered_cut_copper"@
        || key == "waxed_oxidized_cut_copper"@ {
        Some("cut_sandstone"@)
    } else if key == "copper_ore"@ {
        Some("iron_ore"@)
    } else if key == "raw_copper_block"@ {
        Some("iron_block"@)
    } else if key == "lightning_rod"@ {
        Some("iron_bars"@)
    } else if key == "copper_grate"@
        || key == "exposed_copper_grate"@
        || key == "weathered_copper_grate"@
        || key == "oxidized_copper_grate"@ {
        Some("iron_bars"@)
    } else if key == "copper_bulb"@
        || key == "exposed_copper_bulb"@
        || key == "weathered_copper_bulb"@
        || key == "oxidized_copper_bulb"@ {
        Some("redstone_lamp"@)
    } else if key == "copper_door"@ {
        Some("oak_door"@)
    } else if key == "copper_trapdoor"@ {
        Some("oak_trapdoor"@)
    } else {
        None
    }
}

/// 1.16.5 stand-ins for tinted glass.
pub open spec fn glass_substitute(key: Seq<char>) -> Option<Seq<char>> {
    if key == "tinted_glass"@ {
        Some("gray_stained_glass"@)
    } else {
        None
    }
}

/// 1.16.5 stand-ins for other blocks added in 1.17 and later.
pub open spec fn cave_and_misc_substitute(key: Seq<char>) -> Option<Seq<char>> {
    if key == "amethyst_block"@ || key == "budding_amethyst"@ {
        Some("purpur_block"@)
    } else if key == "amethyst_cluster"@
        || key == "small_amethyst_bud"@
        || key == "medium_amethyst_bud"@
        || key == "large_amethyst_bud"@ {
        Some("end_rod"@)
    } else if key == "calcite"@ {
        Some("diorite"@)
    } else if key == "smooth_basalt"@ {
        Some("basalt"@)
    } else if key == "rooted_dirt"@ {
        Some("dirt"@)
    } else if key == "moss_block"@ {
        Some("grass_block"@)
    } else if key == "moss_carpet"@ {
        Some("vine"@)
    } else if key == "azalea"@ {
        Some("oak_sapling"@)
    } else if key == "flowering_azalea"@ {
        Some("oak_sapling"@)
    } else if key == "azalea_leaves"@ {
        Some("oak_leaves"@)
    } else if key == "flowering_azalea_leaves"@ {
        Some("oak_leaves"@)
    } else if key == "spore_blossom"@ {
        Some("vine"@)
    } else if key == "glow_lichen"@ {
        Some("vine"@)
    } else if key == "cave_vines"@ || key == "cave_vines_plant"@ {
        Some("vine"@)
    } else if key == "small_dripleaf"@
        || key == "big_dripleaf"@
        || key == "big_dripleaf_stem"@ {
        Some("lily_pad"@)
    } else if key == "hanging_roots"@ {
        Some("vine"@)
    } else if key == "pointed_dripstone"@ {
        Some("stone"@)
    } else if key == "dripstone_block"@ {
        Some("smooth_stone"@)
    } else if key == "powder_snow"@ {
        Some("snow_block"@)
    } else if key == "powder_snow_cauldron"@ {
        Some("cauldron"@)
    } else if key == "water_cauldron"@ {
        Some("cauldron"@)
    } else if key == "lava_cauldron"@ {
        Some("cauldron"@)
    } else {
        None
    }
}

/// 1.16.5 stand-ins for blocks renamed in 1.17 and 1.20.
pub open spec fn renamed_substitute(key: Seq<char>) -> Option<Seq<char>> {
    if key == "dirt_path"@ {
        Some("grass_path"@)
    } else if key == "short_grass"@ {
        Some("grass"@)
    } else if key == "quartz_bricks"@ {
        Some("quartz_block"@)
    } else {
        None
    }
}

/// 1.16.5 stand-ins for trial chambers, candles and decorated blocks (1.20, 1.21).
pub open spec fn trial_substitute(key: Seq<char>) -> Option<Seq<char>> {
    if key == "trial_spawner"@ || key == "vault"@ {
        Some("spawner"@)
    } else if key == "chiseled_bookshelf"@ {
        Some("bookshelf"@)
    } else if key == "decorated_pot"@ {
        Some("flower_pot"@)
    } else if key == "candle"@ {
        Some("torch"@)
    } else if key == "white_candle"@
        || key == "orange_candle"@
        || key == "magenta_candle"@
        || key == "light_blue_candle"@
        || key == "yellow_candle"@
        || key == "lime_candle"@
        || key == "pink_candle"@
        || key == "gray_candle"@
        || key == "light_gray_candle"@
        || key == "cyan_candle"@
        || key == "purple_candle"@
        || key == "blue_candle"@
        || key == "brown_candle"@
        || key == "green_candle"@
        || key == "red_candle"@
        || key == "black_candle"@ {
        Some("torch"@)
    } else {
        None
    }
}

/// Looks `key` up among the stand-ins for the deepslate family (1.17).
pub(crate) fn deepslate_lookup(key: &str) -> (r: Option<&'static str>)
    ensures
        str_option_view(r) == deepslate_substitute(key@),
{
    if str_eq(key, "deepslate")
        || str_eq(key, "cobbled_deepslate")
        || str_eq(key, "infested_deepslate") {
        Some("cobblestone")
    } else if str_eq(key, "polished_deepslate") {
        Some("stone")
    } else if str_eq(key, "deepslate_bricks")
        || str_eq(key, "cracked_deepslate_bricks")
        || str_eq(key, "deepslate_tiles")
        || str_eq(key, "cracked_deepslate_tiles") {
        Some("stone_bricks")
    } else if str_eq(key, "polished_deepslate_slab") {
        Some("stone_slab")
    } else if str_eq(key, "polished_deepslate_stairs") {
        Some("stone_stairs")
    } else if str_eq(key, "polished_deepslate_wall") {
        Some("cobblestone_wall")
    } else if str_eq(key, "deepslate_brick_slab") {
        Some("stone_brick_slab")
    } else if str_eq(key, "deepslate_brick_stairs") {
        Some("stone_brick_stairs")
    } else if str_eq(key, "deepslate_brick_wall") {
        Some("stone_brick_wall")
    } else if str_eq(key, "deepslate_tile_slab") {
        Some("stone_brick_slab")
    } else if str_eq(key, "deepslate_tile_stairs") {
        Some("stone_brick_stairs")
    } else if str_eq(key, "deepslate_tile_wall") {
        Some("stone_brick_wall")
    } else if str_eq(key, "deepslate_iron_ore") {
        Some("iron_ore")
    } else if str_eq(key, "deepslate_gold_ore") {
        Some("gold_ore")
    } else if str_eq(key, "deepslate_diamond_ore") {
        Some("diamond_ore")
    } else if str_eq(key, "deepslate_lapis_ore") {
        Some("lapis_ore")
    } else if str_eq(key, "deepslate_redstone_ore") {
        Some("redstone_ore")
    } else if str_eq(key, "deepslate_emerald_ore") {
        Some("emerald_ore")
    } else if str_eq(key, "deepslate_coal_ore") {
        Some("coal_ore")
    } else if str_eq(key, "deepslate_copper_ore") {
        Some("iron_ore")
    } else {
        None
    }
}

/// Looks `key` up among the stand-ins for tuff (1.17).
pub(crate) fn tuff_lookup(key: &str) -> (r: Option<&'static str>)
    ensures
        str_option_view(r) == tuff_substitute(key@),
{
    if str_eq(key, "tuff") {
        Some("andesite")
    } else if str_eq(key, "polished_tuff") {
        Some("polished_andesite")
    } else if str_eq(key, "tuff_slab") {
        Some("andesite_slab")
    } else if str_eq(key, "tuff_stairs") {
        Some("andesite_stairs")
    } else if str_eq(key, "tuff_wall") {
        Some("andesite_wall")
    } else if str_eq(key, "polished_tuff_slab") {
        Some("polished_andesite_slab")
    } else if str_eq(key, "polished_tuff_stairs") {
        Some("polished_andesite_stairs")
    } else if str_eq(key, "polished_tuff_wall") {
        Some("andesite_wall")
    } else if str_eq(key, "tuff_bricks") {
        Some("stone_bricks")
    } else if str_eq(key, "tuff_brick_slab") {
        Some("stone_brick_slab")
    } else if str_eq(key, "tuff_brick_stairs") {
        Some("stone_brick_stairs")
    } else if str_eq(key, "tuff_brick_wall") {
        Some("stone_brick_wall")
    } else if str_eq(key, "chiseled_tuff") {
        Some("chiseled_stone_bricks")
    } else if str_eq(key, "chiseled_tuff_bricks") {
        Some("chiseled_stone_bricks")
    } else {
        None
    }
}

/// Looks `key` up among the stand-ins for mud and mangrove (1.19).
pub(crate) fn mud_mangrove_lookup(key: &str) -> (r: Option<&'static str>)
    ensures
        str_option_view(r) == mud_mangrove_substitute(key@),
{
    if str_eq(key, "mud") {
        Some("dirt")
    } else if str_eq(key, "muddy_mangrove_roots") {
        Some("podzol")
    } else if str_eq(key, "packed_mud") {
        Some("coarse_dirt")
    } else if str_eq(key, "mud_bricks") {
        Some("bricks")
    } else if str_eq(key, "mud_brick_slab") {
        Some("brick_slab")
    } else if str_eq(key, "mud_brick_stairs") {
        Some("brick_stairs")
    } else if str_eq(key, "mud_brick_wall") {
        Some("brick_wall")
    } else if str_eq(key, "mangrove_log") {
        Some("oak_log")
    } else if str_eq(key, "mangrove_wood") {
        Some("oak_wood")
    } else if str_eq(key, "mangrove_planks") {
        Some("oak_planks")
    } else if str_eq(key, "mangrove_leaves") {
        Some("oak_leaves")
    } else if str_eq(key, "mangrove_propagule") {
        Some("oak_sapling")
    } else if str_eq(key, "mangrove_roots") {
        Some("oak_log")
    } else if str_eq(key, "mangrove_slab") {
        Some("oak_slab")
    } else if str_eq(key, "mangrove_stairs") {
        Some("oak_stairs")
    } else if str_eq(key, "mangrove_fence") {
        Some("oak_fence")
    } else if str_eq(key, "mangrove_fence_gate") {
        Some("oak_fence_gate")
    } else if str_eq(key, "mangrove_door") {
        Some("oak_door")
    } else if str_eq(key, "mangrove_trapdoor") {
        Some("oak_trapdoor")
    } else if str_eq(key, "mangrove_button") {
        Some("oak_button")
    } else if str_eq(key, "mangrove_pressure_plate") {
        Some("oak_pressure_plate")
    } else if str_eq(key, "mangrove_sign") {
        Some("oak_sign")
    } else if str_eq(key, "mangrove_wall_sign") {
        Some("oak_wall_sign")
    } else {
        None
    }
}

/// Looks `key` up among the stand-ins for cherry (1.20).
pub(crate) fn cherry_lookup(key: &str) -> (r: Option<&'static str>)
    ensures
        str_option_view(r) == cherry_substitute(key@),
{
    if str_eq(key, "cherry_log") {
        Some("birch_log")
    } else if str_eq(key, "cherry_wood") {
        Some("birch_wood")
    } else if str_eq(key, "cherry_planks") {
        Some("birch_planks")
    } else if str_eq(key, "cherry_leaves") {
        Some("pink_wool")
    } else if str_eq(key, "cherry_sapling") {
        Some("birch_sapling")
    } else if str_eq(key, "cherry_slab") {
        Some("birch_slab")
    } else if str_eq(key, "cherry_stairs") {
        Some("birch_stairs")
    } else if str_eq(key, "cherry_fence") {
        Some("birch_fence")
    } else if str_eq(key, "cherry_fence_gate") {
        Some("birch_fence_gate")
    } else if str_eq(key, "cherry_door") {
        Some("birch_door")
    } else if str_eq(key, "cherry_trapdoor") {
        Some("birch_trapdoor")
    } else if str_eq(key, "pink_petals") {
        Some("pink_tulip")
    } else {
        None
    }
}

/// Looks `key` up among the stand-ins for bamboo wood (1.20).
pub(crate) fn bamboo_lookup(key: &str) -> (r: Option<&'static str>)
    ensures
        str_option_view(r) == bamboo_substitute(key@),
{
    if str_eq(key, "bamboo_block") {
        Some("bamboo")
    } else if str_eq(key, "stripped_bamboo_block") {
        Some("bamboo")
    } else if str_eq(key, "bamboo_planks") {
        Some("jungle_planks")
    } else if str_eq(key, "bamboo_mosaic") {
        Some("jungle_planks")
    } else if str_eq(key, "bamboo_slab") {
        Some("jungle_slab")
    } else if str_eq(key, "bamboo_mosaic_slab") {
        Some("jungle_slab")
    } else if str_eq(key, "bamboo_stairs") {
        Some("jungle_stairs")
    } else if str_eq(key, "bamboo_mosaic_stairs") {
        Some("jungle_stairs")
    } else if str_eq(key, "bamboo_fence") {
        Some("jungle_fence")
    } else if str_eq(key, "bamboo_fence_gate") {
        Some("jungle_fence_gate")
    } else if str_eq(key, "bamboo_door") {
        Some("jungle_door")
    } else if str_eq(key, "bamboo_trapdoor") {
        Some("jungle_trapdoor")
    } else {
        None
    }
}

/// Looks `key` up among the stand-ins for pale oak (1.21).
pub(crate) fn pale_oak_lookup(key: &str) -> (r: Option<&'static str>)
    ensures
        str_option_view(r) == pale_oak_substitute(key@),
{
    if str_eq(key, "pale_oak_log") {
        Some("birch_log")
    } else if str_eq(key, "pale_oak_wood") {
        Some("birch_wood")
    } else if str_eq(key, "pale_oak_planks") {
        Some("birch_planks")
    } else if str_eq(key, "pale_oak_leaves") {
        Some("birch_leaves")
    } else if str_eq(key, "pale_oak_sapling") {
        Some("birch_sapling")
    } else if str_eq(key, "pale_oak_slab") {
        Some("birch_slab")
    } else if str_eq(key, "pale_oak_stairs") {
        Some("birch_stairs")
    } else if str_eq(key, "pale_oak_fence") {
        Some("birch_fence")
    } else if str_eq(key, "pale_oak_door") {
        Some("birch_door")
    } else if str_eq(key, "pale_oak_trapdoor") {
        Some("birch_trapdoor")
    } else if str_eq(key, "pale_moss_block") {
        Some("grass_block")
    } else if str_eq(key, "pale_moss_carpet") {
        Some("vine")
    } else if str_eq(key, "pale_hanging_moss") {
        Some("vine")
    } else {
        None
    }
}

/// Looks `key` up among the stand-ins for copper (1.17).
pub(crate) fn copper_lookup(key: &str) -> (r: Option<&'static str>)
    ensures
        str_option_view(r) == copper_substitute(key@),
{
    if str_eq(key, "copper_block")
        || str_eq(key, "exposed_copper")
        || str_eq(key, "weathered_copper")
        || str_eq(key, "oxidized_copper") {
        Some("iron_block")
    } else if str_eq(key, "waxed_copper_block")
        || str_eq(key, "waxed_exposed_copper")
        || str_eq(key, "waxed_weathered_copper")
        || str_eq(key, "waxed_oxidized_copper") {
        Some("iron_block")
    } else if str_eq(key, "cut_copper")
        || str_eq(key, "exposed_cut_copper")
        || str_eq(key, "weathered_cut_copper")
        || str_eq(key, "oxidized_cut_copper") {
        Some("cut_sandstone")
    } else if str_eq(key, "waxed_cut_copper")
        || str_eq(key, "waxed_exposed_cut_copper")
        || str_eq(key, "waxed_weathered_cut_copper")
        || str_eq(key, "waxed_oxidized_cut_copper") {
        Some("cut_sandstone")
    } else if str_eq(key, "copper_ore") {
        Some("iron_ore")
    } else if str_eq(key, "raw_copper_block") {
        Some("iron_block")
    } else if str_eq(key, "lightning_rod") {
        Some("iron_bars")
    } else if str_eq(key, "copper_grate")
        || str_eq(key, "exposed_copper_grate")
        || str_eq(key, "weathered_copper_grate")
        || str_eq(key, "oxidized_copper_grate") {
        Some("iron_bars")
    } else if str_eq(key, "copper_bulb")
        || str_eq(key, "exposed_copper_bulb")
        || str_eq(key, "weathered_copper_bulb")
        || str_eq(key, "oxidized_copper_bulb") {
        Some("redstone_lamp")
    } else if str_eq(key, "copper_door") {
        Some("oak_door")
    } else if str_eq(key, "copper_trapdoor") {
        Some("oak_trapdoor")
    } else {
        None
    }
}

/// Looks `key` up among the stand-ins for tinted glass.
pub(crate) fn glass_lookup(key: &str) -> (r: Option<&'static str>)
    ensures
        str_option_view(r) == glass_substitute(key@),
{
    if str_eq(key, "tinted_glass") {
        Some("gray_stained_glass")
    } else {
        None
    }
}

/// Looks `key` up among the stand-ins for other blocks added in 1.17 and later.
pub(crate) fn cave_and_misc_lookup(key: &str) -> (r: Option<&'static str>)
    ensures
        str_option_view(r) == cave_and_misc_substitute(key@),
{
    if str_eq(key, "amethyst_block") || str_eq(key, "budding_amethyst") {
        Some("purpur_block")
    } else if str_eq(key, "amethyst_cluster")
        || str_eq(key, "small_amethyst_bud")
        || str_eq(key, "medium_amethyst_bud")
        || str_eq(key, "large_amethyst_bud") {
        Some("end_rod")
    } else if str_eq(key, "calcite") {
        Some("diorite")
    } else if str_eq(key, "smooth_basalt") {
        Some("basalt")
    } else if str_eq(key, "rooted_dirt") {
        Some("dirt")
    } else if str_eq(key, "moss_block") {
        Some("grass_block")
    } else if str_eq(key, "moss_carpet") {
        Some("vine")
    } else if str_eq(key, "azalea") {
        Some("oak_sapling")
    } else if str_eq(key, "flowering_azalea") {
        Some("oak_sapling")
    } else if str_eq(key, "azalea_leaves") {
        Some("oak_leaves")
    } else if str_eq(key, "flowering_azalea_leaves") {
        Some("oak_leaves")
    } else if str_eq(key, "spore_blossom") {
        Some("vine")
    } else if str_eq(key, "glow_lichen") {
        Some("vine")
    } else if str_eq(key, "cave_vines") || str_eq(key, "cave_vines_plant") {
        Some("vine")
    } else if str_eq(key, "small_dripleaf")
        || str_eq(key, "big_dripleaf")
        || str_eq(key, "big_dripleaf_stem") {
        Some("lily_pad")
    } else if str_eq(key, "hanging_roots") {
        Some("vine")
    } else if str_eq(key, "pointed_dripstone") {
        Some("stone")
    } else if str_eq(key, "dripstone_block") {
        Some("smooth_stone")
    } else if str_eq(key, "powder_snow") {
        Some("snow_block")
    } else if str_eq(key, "powder_snow_cauldron") {
        Some("cauldron")
    } else if str_eq(key, "water_cauldron") {
        Some("cauldron")
    } else if str_eq(key, "lava_cauldron") {
        Some("cauldron")
    } else {
        None
    }
}

/// Looks `key` up among the stand-ins for blocks renamed in 1.17 and 1.20.
pub(crate) fn renamed_lookup(key: &str) -> (r: Option<&'static str>)
    ensures
        str_option_view(r) == renamed_substitute(key@),
{
    if str_eq(key, "dirt_path") {
        Some("grass_path")
    } else if str_eq(key, "short_grass") {
        Some("grass")
    } else if str_eq(key, "quartz_bricks") {
        Some("quartz_block")
    } else {
        None
    }
}

/// Looks `key` up among the stand-ins for trial chambers, candles and decorated blocks (1.20, 1.21).
pub(crate) fn trial_lookup(key: &str) -> (r: Option<&'static str>)
    ensures
        str_option_view(r) == trial_substitute(key@),
{
    if str_eq(key, "trial_spawner") || str_eq(key, "vault") {
        Some("spawner")
    } else if str_eq(key, "chiseled_bookshelf") {
        Some("bookshelf")
    } else if str_eq(key, "decorated_pot") {
        Some("flower_pot")
    } else if str_eq(key, "candle") {
        Some("torch")
    } else if str_eq(key, "white_candle")
        || str_eq(key, "orange_candle")
        || str_eq(key, "magenta_candle")
        || str_eq(key, "light_blue_candle")
        || str_eq(key, "yellow_candle")
        || str_eq(key, "lime_candle")
        || str_eq(key, "pink_candle")
        || str_eq(key, "gray_candle")
        || str_eq(key, "light_gray_candle")
        || str_eq(key, "cyan_candle")
        || str_eq(key, "purple_candle")
        || str_eq(key, "blue_candle")
        || str_eq(key, "brown_candle")
        || str_eq(key, "green_candle")
        || str_eq(key, "red_candle")
        || str_eq(key, "black_candle") {
        Some("torch")
    } else {
        None
    }
}


/// The blocks that Minecraft added after 1.16.5 (or renamed since), each
/// of which needs a stand-in when writing a 1.16.5 world.
pub open spec fn added_after_1_16_5(name: Seq<char>) -> bool {
    ||| name == "amethyst_block"@
    ||| name == "amethyst_cluster"@
    ||| name == "azalea"@
    ||| name == "azalea_leaves"@
    ||| name == "bamboo_block"@
    ||| name == "bamboo_door"@
    ||| name == "bamboo_fence"@
    ||| name == "bamboo_fence_gate"@
    ||| name == "bamboo_mosaic"@
    ||| name == "bamboo_mosaic_slab"@
    ||| name == "bamboo_mosaic_stairs"@
    ||| name == "bamboo_planks"@
    ||| name == "bamboo_slab"@
    ||| name == "bamboo_stairs"@
    ||| name == "bamboo_trapdoor"@
    ||| name == "big_dripleaf"@
    ||| name == "big_dripleaf_stem"@
    ||| name == "black_candle"@
    ||| name == "blue_candle"@
    ||| name == "brown_candle"@
    ||| name == "budding_amethyst"@
    ||| name == "calcite"@
    ||| name == "candle"@
    ||| name == "cave_vines"@
    ||| name == "cave_vines_plant"@
    ||| name == "cherry_door"@
    ||| name == "cherry_fence"@
    ||| name == "cherry_fence_gate"@
    ||| name == "cherry_leaves"@
    ||| name == "cherry_log"@
    ||| name == "cherry_planks"@
    ||| name == "cherry_sapling"@
    ||| name == "cherry_slab"@
    ||| name == "cherry_stairs"@
    ||| name == "cherry_trapdoor"@
    ||| name == "cherry_wood"@
    ||| name == "chiseled_bookshelf"@
    ||| name == "chiseled_tuff"@
    ||| name == "chiseled_tuff_bricks"@
    ||| name == "cobbled_deepslate"@
    ||| name == "copper_block"@
    ||| name == "copper_bulb"@
    ||| name == "copper_door"@
    ||| name == "copper_grate"@
    ||| name == "copper_ore"@
    ||| name == "copper_trapdoor"@
    ||| name == "cracked_deepslate_bricks"@
    ||| name == "cracked_deepslate_tiles"@
    ||| name == "cut_copper"@
    ||| name == "cyan_candle"@
    ||| name == "decorated_pot"@
    ||| name == "deepslate"@
    ||| name == "deepslate_brick_slab"@
    ||| name == "deepslate_brick_stairs"@
    ||| name == "deepslate_brick_wall"@
    ||| name == "deepslate_bricks"@
    ||| name == "deepslate_coal_ore"@
    ||| name == "deepslate_copper_ore"@
    ||| name == "deepslate_diamond_ore"@
    ||| name == "deepslate_emerald_ore"@
    ||| name == "deepslate_gold_ore"@
    ||| name == "deepslate_iron_ore"@
    ||| name == "deepslate_lapis_ore"@
    ||| name == "deepslate_redstone_ore"@
    ||| name == "deepslate_tile_slab"@
    ||| name == "deepslate_tile_stairs"@
    ||| name == "deepslate_tile_wall"@
    ||| name == "deepslate_tiles"@
    ||| name == "dirt_path"@
    ||| name == "dripstone_block"@
    ||| name == "exposed_copper"@
    ||| name == "exposed_copper_bulb"@
    ||| name == "exposed_copper_grate"@
    ||| name == "exposed_cut_copper"@
    ||| name == "flowering_azalea"@
    ||| name == "flowering_azalea_leaves"@
    ||| name == "glow_lichen"@
    ||| name == "gray_candle"@
    ||| name == "green_candle"@
    ||| name == "hanging_roots"@
    ||| name == "infested_deepslate"@
    ||| name == "large_amethyst_bud"@
    ||| name == "lava_cauldron"@
    ||| name == "light_blue_candle"@
    ||| name == "light_gray_candle"@
    ||| name == "lightning_rod"@
    ||| name == "lime_candle"@
    ||| name == "magenta_candle"@
    ||| name == "mangrove_button"@
    ||| name == "mangrove_door"@
    ||| name == "mangrove_fence"@
    ||| name == "mangrove_fence_gate"@
    ||| name == "mangrove_leaves"@
    ||| name == "mangrove_log"@
    ||| name == "mangrove_planks"@
    ||| name == "mangrove_pressure_plate"@
    ||| name == "mangrove_propagule"@
    ||| name == "mangrove_roots"@
    ||| name == "mangrove_sign"@
    ||| name == "mangrove_slab"@
    ||| name == "mangrove_stairs"@
    ||| name == "mangrove_trapdoor"@
    ||| name == "mangrove_wall_sign"@
    ||| name == "mangrove_wood"@
    ||| name == "medium_amethyst_bud"@
    ||| name == "moss_block"@
    ||| name == "moss_carpet"@
    ||| name == "mud"@
    ||| name == "mud_brick_slab"@
    ||| name == "mud_brick_stairs"@
    ||| name == "mud_brick_wall"@
    ||| name == "mud_bricks"@
    ||| name == "muddy_mangrove_roots"@
    ||| name == "orange_candle"@
    ||| name == "oxidized_copper"@
    ||| name == "oxidized_copper_bulb"@
    ||| name == "oxidized_copper_grate"@
    ||| name == "oxidized_cut_copper"@
    ||| name == "packed_mud"@
    ||| name == "pale_hanging_moss"@
    ||| name == "pale_moss_block"@
    ||| name == "pale_moss_carpet"@
    ||| name == "pale_oak_door"@
    ||| name == "pale_oak_fence"@
    ||| name == "pale_oak_leaves"@
    ||| name == "pale_oak_log"@
    ||| name == "pale_oak_planks"@
    ||| name == "pale_oak_sapling"@
    ||| name == "pale_oak_slab"@
    ||| name == "pale_oak_stairs"@
    ||| name == "pale_oak_trapdoor"@
    ||| name == "pale_oak_wood"@
    ||| name == "pink_candle"@
    ||| name == "pink_petals"@
    ||| name == "pointed_dripstone"@
    ||| name == "polished_deepslate"@
    ||| name == "polished_deepslate_slab"@
    ||| name == "polished_deepslate_stairs"@
    ||| name == "polished_deepslate_wall"@
    ||| name == "polished_tuff"@
    ||| name == "polished_tuff_slab"@
    ||| name == "polished_tuff_stairs"@
    ||| name == "polished_tuff_wall"@
    ||| name == "powder_snow"@
    ||| name == "powder_snow_cauldron"@
    ||| name == "purple_candle"@
    ||| name == "quartz_bricks"@
    ||| name == "raw_copper_block"@
    ||| name == "red_candle"@
    ||| name == "rooted_dirt"@
    ||| name == "short_grass"@
    ||| name == "small_amethyst_bud"@
    ||| name == "small_dripleaf"@
    ||| name == "smooth_basalt"@
    ||| name == "spore_blossom"@
    ||| name == "stripped_bamboo_block"@
    ||| name == "tinted_glass"@
    ||| name == "trial_spawner"@
    ||| name == "tuff"@
    ||| name == "tuff_brick_slab"@
    ||| name == "tuff_brick_stairs"@
    ||| name == "tuff_brick_wall"@
    ||| name == "tuff_bricks"@
    ||| name == "tuff_slab"@
    ||| name == "tuff_stairs"@
    ||| name == "tuff_wall"@
    ||| name == "vault"@
    ||| name == "water_cauldron"@
    ||| name == "waxed_copper_block"@
    ||| name == "waxed_cut_copper"@
    ||| name == "waxed_exposed_copper"@
    ||| name == "waxed_exposed_cut_copper"@
    ||| name == "waxed_oxidized_copper"@
    ||| name == "waxed_oxidized_cut_copper"@
    ||| name == "waxed_weathered_copper"@
    ||| name == "waxed_weathered_cut_copper"@
    ||| name == "weathered_copper"@
    ||| name == "weathered_copper_bulb"@
    ||| name == "weathered_copper_grate"@
    ||| name == "weathered_cut_copper"@
    ||| name == "white_candle"@
    ||| name == "yellow_candle"@
}

/// Every block added after 1.16.5 has a stand-in, and none of them carries
/// the `minecraft:` namespace.
pub(crate) proof fn lemma_added_blocks_have_stand_ins(name: Seq<char>)
    requires
        added_after_1_16_5(name),
    ensures
        legacy_block_table(name) is Some,
        !(name.len() >= 2 && name[0] == 'm' && name[1] == 'i'),
{
    reveal_strlit("amethyst_block");
    reveal_strlit("amethyst_cluster");
    reveal_strlit("azalea");
    reveal_strlit("azalea_leaves");
    reveal_strlit("bamboo_block");
    reveal_strlit("bamboo_door");
    reveal_strlit("bamboo_fence");
    reveal_strlit("bamboo_fence_gate");
    reveal_strlit("bamboo_mosaic");
    reveal_strlit("bamboo_mosaic_slab");
    reveal_strlit("bamboo_mosaic_stairs");
    reveal_strlit("bamboo_planks");
    reveal_strlit("bamboo_slab");
    reveal_strlit("bamboo_stairs");
    reveal_strlit("bamboo_trapdoor");
    reveal_strlit("big_dripleaf");
    reveal_strlit("big_dripleaf_stem");
    reveal_strlit("black_candle");
    reveal_strlit("blue_candle");
    reveal_strlit("brown_candle");
    reveal_strlit("budding_amethyst");
    reveal_strlit("calcite");
    reveal_strlit("candle");
    reveal_strlit("cave_vines");
    reveal_strlit("cave_vines_plant");
    reveal_strlit("cherry_door");
    reveal_strlit("cherry_fence");
    reveal_strlit("cherry_fence_gate");
    reveal_strlit("cherry_leaves");
    reveal_strlit("cherry_log");
    reveal_strlit("cherry_planks");
    reveal_strlit("cherry_sapling");
    reveal_strlit("cherry_slab");
    reveal_strlit("cherry_stairs");
    reveal_strlit("cherry_trapdoor");
    reveal_strlit("cherry_wood");
    reveal_strlit("chiseled_bookshelf");
    reveal_strlit("chiseled_tuff");
    reveal_strlit("chiseled_tuff_bricks");
    reveal_strlit("cobbled_deepslate");
    reveal_strlit("copper_block");
    reveal_strlit("copper_bulb");
    reveal_strlit("copper_door");
    reveal_strlit("copper_grate");
    reveal_strlit("copper_ore");
    reveal_strlit("copper_trapdoor");
    reveal_strlit("cracked_deepslate_bricks");
    reveal_strlit("cracked_deepslate_tiles");
    reveal_strlit("cut_copper");
    reveal_strlit("cyan_candle");
    reveal_strlit("decorated_pot");
    reveal_strlit("deepslate");
    reveal_strlit("deepslate_brick_slab");
    reveal_strlit("deepslate_brick_stairs");
    reveal_strlit("deepslate_brick_wall");
    reveal_strlit("deepslate_bricks");
    reveal_strlit("deepslate_coal_ore");
    reveal_strlit("deepslate_copper_ore");
    reveal_strlit("deepslate_diamond_ore");
    reveal_strlit("deepslate_emerald_ore");
    reveal_strlit("deepslate_gold_ore");
    reveal_strlit("deepslate_iron_ore");
    reveal_strlit("deepslate_lapis_ore");
    reveal_strlit("deepslate_redstone_ore");
    reveal_strlit("deepslate_tile_slab");
    reveal_strlit("deepslate_tile_stairs");
    reveal_strlit("deepslate_tile_wall");
    reveal_strlit("deepslate_tiles");
    reveal_strlit("dirt_path");
    reveal_strlit("dripstone_block");
    reveal_strlit("exposed_copper");
    reveal_strlit("exposed_copper_bulb");
    reveal_strlit("exposed_copper_grate");
    reveal_strlit("exposed_cut_copper");
    reveal_strlit("flowering_azalea");
    reveal_strlit("flowering_azalea_leaves");
    reveal_strlit("glow_lichen");
    reveal_strlit("gray_candle");
    reveal_strlit("green_candle");
    reveal_strlit("hanging_roots");
    reveal_strlit("infested_deepslate");
    reveal_strlit("large_amethyst_bud");
    reveal_strlit("lava_cauldron");
    reveal_strlit("light_blue_candle");
    reveal_strlit("light_gray_candle");
    reveal_strlit("lightning_rod");
    reveal_strlit("lime_candle");
    reveal_strlit("magenta_candle");
    reveal_strlit("mangrove_button");
    reveal_strlit("mangrove_door");
    reveal_strlit("mangrove_fence");
    reveal_strlit("mangrove_fence_gate");
    reveal_strlit("mangrove_leaves");
    reveal_strlit("mangrove_log");
    reveal_strlit("mangrove_planks");
    reveal_strlit("mangrove_pressure_plate");
    reveal_strlit("mangrove_propagule");
    reveal_strlit("mangrove_roots");
    reveal_strlit("mangrove_sign");
    reveal_strlit("mangrove_slab");
    reveal_strlit("mangrove_stairs");
    reveal_strlit("mangrove_trapdoor");
    reveal_strlit("mangrove_wall_sign");
    reveal_strlit("mangrove_wood");
    reveal_strlit("medium_amethyst_bud");
    reveal_strlit("moss_block");
    reveal_strlit("moss_carpet");
    reveal_strlit("mud");
    reveal_strlit("mud_brick_slab");
    reveal_strlit("mud_brick_stairs");
    reveal_strlit("mud_brick_wall");
    reveal_strlit("mud_bricks");
    reveal_strlit("muddy_mangrove_roots");
    reveal_strlit("orange_candle");
    reveal_strlit("oxidized_copper");
    reveal_strlit("oxidized_copper_bulb");
    reveal_strlit("oxidized_copper_grate");
    reveal_strlit("oxidized_cut_copper");
    reveal_strlit("packed_mud");
    reveal_strlit("pale_hanging_moss");
    reveal_strlit("pale_moss_block");
    reveal_strlit("pale_moss_carpet");
    reveal_strlit("pale_oak_door");
    reveal_strlit("pale_oak_fence");
    reveal_strlit("pale_oak_leaves");
    reveal_strlit("pale_oak_log");
    reveal_strlit("pale_oak_planks");
    reveal_strlit("pale_oak_sapling");
    reveal_strlit("pale_oak_slab");
    reveal_strlit("pale_oak_stairs");
    reveal_strlit("pale_oak_trapdoor");
    reveal_strlit("pale_oak_wood");
    reveal_strlit("pink_candle");
    reveal_strlit("pink_petals");
    reveal_strlit("pointed_dripstone");
    reveal_strlit("polished_deepslate");
    reveal_strlit("polished_deepslate_slab");
    reveal_strlit("polished_deepslate_stairs");
    reveal_strlit("polished_deepslate_wall");
    reveal_strlit("polished_tuff");
    reveal_strlit("polished_tuff_slab");
    reveal_strlit("polished_tuff_stairs");
    reveal_strlit("polished_tuff_wall");
    reveal_strlit("powder_snow");
    reveal_strlit("powder_snow_cauldron");
    reveal_strlit("purple_candle");
    reveal_strlit("quartz_bricks");
    reveal_strlit("raw_copper_block");
    reveal_strlit("red_candle");
    reveal_strlit("rooted_dirt");
    reveal_strlit("short_grass");
    reveal_strlit("small_amethyst_bud");
    reveal_strlit("small_dripleaf");
    reveal_strlit("smooth_basalt");
    reveal_strlit("spore_blossom");
    reveal_strlit("stripped_bamboo_block");
    reveal_strlit("tinted_glass");
    reveal_strlit("trial_spawner");
    reveal_strlit("tuff");
    reveal_strlit("tuff_brick_slab");
    reveal_strlit("tuff_brick_stairs");
    reveal_strlit("tuff_brick_wall");
    reveal_strlit("tuff_bricks");
    reveal_strlit("tuff_slab");
    reveal_strlit("tuff_stairs");
    reveal_strlit("tuff_wall");
    reveal_strlit("vault");
    reveal_strlit("water_cauldron");
    reveal_strlit("waxed_copper_block");
    reveal_strlit("waxed_cut_copper");
    reveal_strlit("waxed_exposed_copper");
    reveal_strlit("waxed_exposed_cut_copper");
    reveal_strlit("waxed_oxidized_copper");
    reveal_strlit("waxed_oxidized_cut_copper");
    reveal_strlit("waxed_weathered_copper");
    reveal_strlit("waxed_weathered_cut_copper");
    reveal_strlit("weathered_copper");
    reveal_strlit("weathered_copper_bulb");
    reveal_strlit("weathered_copper_grate");
    reveal_strlit("weathered_cut_copper");
    reveal_strlit("white_candle");
    reveal_strlit("yellow_candle");
}

/// Characters that tell apart table names of equal length whose first and
/// last characters agree.
proof fn lemma_key_shapes()
    ensures
        "bamboo_fence"@[1] == 'a',
        "bamboo_planks"@[7] == 'p',
        "bamboo_stairs"@[7] == 's',
        "black_candle"@[1] == 'l',
        "brown_candle"@[1] == 'r',
        "cherry_door"@[1] == 'h',
        "cherry_fence"@[1] == 'h',
        "cherry_fence_gate"@[1] == 'h',
        "cherry_leaves"@[7] == 'l',
        "cherry_planks"@[7] == 'p',
        "cherry_slab"@[1] == 'h',
        "cherry_stairs"@[7] == 's',
        "cherry_trapdoor"@[1] == 'h',
        "cobbled_deepslate"@[1] == 'o',
        "copper_bulb"@[1] == 'o',
        "copper_door"@[1] == 'o',
        "copper_grate"@[1] == 'o',
        "copper_trapdoor"@[1] == 'o',
        "deepslate_coal_ore"@[10] == 'c',
        "deepslate_diamond_ore"@[10] == 'd',
        "deepslate_emerald_ore"@[10] == 'e',
        "deepslate_gold_ore"@[10] == 'g',
        "deepslate_iron_ore"@[10] == 'i',
        "light_blue_candle"@[6] == 'b',
        "light_gray_candle"@[6] == 'g',
        "magenta_candle"@[2] == 'g',
        "mangrove_fence"@[2] == 'n',
        "mangrove_leaves"@[9] == 'l',
        "mangrove_planks"@[9] == 'p',
        "mangrove_stairs"@[9] == 's',
        "pale_oak_leaves"@[9] == 'l',
        "pale_oak_planks"@[9] == 'p',
        "pale_oak_stairs"@[9] == 's',
        "tuff_bricks"@[5] == 'b',
        "tuff_stairs"@[5] == 's',
        "waxed_cut_copper"@[1] == 'a',
        "waxed_exposed_copper"@[1] == 'a',
        "weathered_copper"@[1] == 'e',
        "weathered_cut_copper"@[1] == 'e',
{
    reveal_strlit("bamboo_fence");
    reveal_strlit("bamboo_planks");
    reveal_strlit("bamboo_stairs");
    reveal_strlit("black_candle");
    reveal_strlit("brown_candle");
    reveal_strlit("cherry_door");
    reveal_strlit("cherry_fence");
    reveal_strlit("cherry_fence_gate");
    reveal_strlit("cherry_leaves");
    reveal_strlit("cherry_planks");
    reveal_strlit("cherry_slab");
    reveal_strlit("cherry_stairs");
    reveal_strlit("cherry_trapdoor");
    reveal_strlit("cobbled_deepslate");
    reveal_strlit("copper_bulb");
    reveal_strlit("copper_door");
    reveal_strlit("copper_grate");
    reveal_strlit("copper_trapdoor");
    reveal_strlit("deepslate_coal_ore");
    reveal_strlit("deepslate_diamond_ore");
    reveal_strlit("deepslate_emerald_ore");
    reveal_strlit("deepslate_gold_ore");
    reveal_strlit("deepslate_iron_ore");
    reveal_strlit("light_blue_candle");
    reveal_strlit("light_gray_candle");
    reveal_strlit("magenta_candle");
    reveal_strlit("mangrove_fence");
    reveal_strlit("mangrove_leaves");
    reveal_strlit("mangrove_planks");
    reveal_strlit("mangrove_stairs");
    reveal_strlit("pale_oak_leaves");
    reveal_strlit("pale_oak_planks");
    reveal_strlit("pale_oak_stairs");
    reveal_strlit("tuff_bricks");
    reveal_strlit("tuff_stairs");
    reveal_strlit("waxed_cut_copper");
    reveal_strlit("waxed_exposed_copper");
    reveal_strlit("weathered_copper");
    reveal_strlit("weathered_cut_copper");
}

/// The 1.16.5 stand-ins of `deepslate` to `deepslate_emerald_ore`, as the table lists them.
pub proof fn lemma_stand_in_table_1()
    ensures
        legacy_block_table("deepslate"@) == Some("cobblestone"@),
        legacy_block_table("cobbled_deepslate"@) == Some("cobblestone"@),
        legacy_block_table("infested_deepslate"@) == Some("cobblestone"@),
        legacy_block_table("polished_deepslate"@) == Some("stone"@),
        legacy_block_table("deepslate_bricks"@) == Some("stone_bricks"@),
        legacy_block_table("cracked_deepslate_bricks"@) == Some("stone_bricks"@),
        legacy_block_table("deepslate_tiles"@) == Some("stone_bricks"@),
        legacy_block_table("cracked_deepslate_tiles"@) == Some("stone_bricks"@),
        legacy_block_table("polished_deepslate_slab"@) == Some("stone_slab"@),
        legacy_block_table("polished_deepslate_stairs"@) == Some("stone_stairs"@),
        legacy_block_table("polished_deepslate_wall"@) == Some("cobblestone_wall"@),
        legacy_block_table("deepslate_brick_slab"@) == Some("stone_brick_slab"@),
        legacy_block_table("deepslate_brick_stairs"@) == Some("stone_brick_stairs"@),
        legacy_block_table("deepslate_brick_wall"@) == Some("stone_brick_wall"@),
        legacy_block_table("deepslate_tile_slab"@) == Some("stone_brick_slab"@),
        legacy_block_table("deepslate_tile_stairs"@) == Some("stone_brick_stairs"@),
        legacy_block_table("deepslate_tile_wall"@) == Some("stone_brick_wall"@),
        legacy_block_table("deepslate_iron_ore"@) == Some("iron_ore"@),
        legacy_block_table("deepslate_gold_ore"@) == Some("gold_ore"@),
        legacy_block_table("deepslate_diamond_ore"@) == Some("diamond_ore"@),
        legacy_block_table("deepslate_lapis_ore"@) == Some("lapis_ore"@),
        legacy_block_table("deepslate_redstone_ore"@) == Some("redstone_ore"@),
        legacy_block_table("deepslate_emerald_ore"@) == Some("emerald_ore"@),
{
    lemma_name_shapes_1();
    lemma_name_shapes_2();
    lemma_name_shapes_3();
    lemma_name_shapes_4();
    lemma_name_shapes_5();
    lemma_name_shapes_6();
    lemma_name_shapes_7();
    lemma_name_shapes_8();
    lemma_name_shapes_9();
    lemma_name_shapes_10();
    lemma_name_shapes_11();
    lemma_name_shapes_12();
    lemma_key_shapes();
}

/// The 1.16.5 stand-ins of `deepslate_coal_ore` to `mud_brick_wall`, as the table lists them.
pub proof fn lemma_stand_in_table_2()
    ensures
        legacy_block_table("deepslate_coal_ore"@) == Some("coal_ore"@),
        legacy_block_table("deepslate_copper_ore"@) == Some("iron_ore"@),
        legacy_block_table("tuff"@) == Some("andesite"@),
        legacy_block_table("polished_tuff"@) == Some("polished_andesite"@),
        legacy_block_table("tuff_slab"@) == Some("andesite_slab"@),
        legacy_block_table("tuff_stairs"@) == Some("andesite_stairs"@),
        legacy_block_table("tuff_wall"@) == Some("andesite_wall"@),
        legacy_block_table("polished_tuff_slab"@) == Some("polished_andesite_slab"@),
        legacy_block_table("polished_tuff_stairs"@) == Some("polished_andesite_stairs"@),
        legacy_block_table("polished_tuff_wall"@) == Some("andesite_wall"@),
        legacy_block_table("tuff_bricks"@) == Some("stone_bricks"@),
        legacy_block_table("tuff_brick_slab"@) == Some("stone_brick_slab"@),
        legacy_block_table("tuff_brick_stairs"@) == Some("stone_brick_stairs"@),
        legacy_block_table("tuff_brick_wall"@) == Some("stone_brick_wall"@),
        legacy_block_table("chiseled_tuff"@) == Some("chiseled_stone_bricks"@),
        legacy_block_table("chiseled_tuff_bricks"@) == Some("chiseled_stone_bricks"@),
        legacy_block_table("mud"@) == Some("dirt"@),
        legacy_block_table("muddy_mangrove_roots"@) == Some("podzol"@),
        legacy_block_table("packed_mud"@) == Some("coarse_dirt"@),
        legacy_block_table("mud_bricks"@) == Some("bricks"@),
        legacy_block_table("mud_brick_slab"@) == Some("brick_slab"@),
        legacy_block_table("mud_brick_stairs"@) == Some("brick_stairs"@),
        legacy_block_table("mud_brick_wall"@) == Some("brick_wall"@),
{
    lemma_name_shapes_1();
    lemma_name_shapes_2();
    lemma_name_shapes_3();
    lemma_name_shapes_4();
    lemma_name_shapes_5();
    lemma_name_shapes_6();
    lemma_name_shapes_7();
    lemma_name_shapes_8();
    lemma_name_shapes_9();
    lemma_name_shapes_10();
    lemma_name_shapes_11();
    lemma_name_shapes_12();
    lemma_key_shapes();
}

/// The 1.16.5 stand-ins of `mangrove_log` to `cherry_stairs`, as the table lists them.
pub proof fn lemma_stand_in_table_3()
    ensures
        legacy_block_table("mangrove_log"@) == Some("oak_log"@),
        legacy_block_table("mangrove_wood"@) == Some("oak_wood"@),
        legacy_block_table("mangrove_planks"@) == Some("oak_planks"@),
        legacy_block_table("mangrove_leaves"@) == Some("oak_leaves"@),
        legacy_block_table("mangrove_propagule"@) == Some("oak_sapling"@),
        legacy_block_table("mangrove_roots"@) == Some("oak_log"@),
        legacy_block_table("mangrove_slab"@) == Some("oak_slab"@),
        legacy_block_table("mangrove_stairs"@) == Some("oak_stairs"@),
        legacy_block_table("mangrove_fence"@) == Some("oak_fence"@),
        legacy_block_table("mangrove_fence_gate"@) == Some("oak_fence_gate"@),
        legacy_block_table("mangrove_door"@) == Some("oak_door"@),
        legacy_block_table("mangrove_trapdoor"@) == Some("oak_trapdoor"@),
        legacy_block_table("mangrove_button"@) == Some("oak_button"@),
        legacy_block_table("mangrove_pressure_plate"@) == Some("oak_pressure_plate"@),
        legacy_block_table("mangrove_sign"@) == Some("oak_sign"@),
        legacy_block_table("mangrove_wall_sign"@) == Some("oak_wall_sign"@),
        legacy_block_table("cherry_log"@) == Some("birch_log"@),
        legacy_block_table("cherry_wood"@) == Some("birch_wood"@),
        legacy_block_table("cherry_planks"@) == Some("birch_planks"@),
        legacy_block_table("cherry_leaves"@) == Some("pink_wool"@),
        legacy_block_table("cherry_sapling"@) == Some("birch_sapling"@),
        legacy_block_table("cherry_slab"@) == Some("birch_slab"@),
        legacy_block_table("cherry_stairs"@) == Some("birch_stairs"@),
{
    lemma_name_shapes_1();
    lemma_name_shapes_2();
    lemma_name_shapes_3();
    lemma_name_shapes_4();
    lemma_name_shapes_5();
    lemma_name_shapes_6();
    lemma_name_shapes_7();
    lemma_name_shapes_8();
    lemma_name_shapes_9();
    lemma_name_shapes_10();
    lemma_name_shapes_11();
    lemma_name_shapes_12();
    lemma_key_shapes();
}

/// The 1.16.5 stand-ins of `cherry_fence` to `pale_oak_slab`, as the table lists them.
pub proof fn lemma_stand_in_table_4()
    ensures
        legacy_block_table("cherry_fence"@) == Some("birch_fence"@),
        legacy_block_table("cherry_fence_gate"@) == Some("birch_fence_gate"@),
        legacy_block_table("cherry_door"@) == Some("birch_door"@),
        legacy_block_table("cherry_trapdoor"@) == Some("birch_trapdoor"@),
        legacy_block_table("pink_petals"@) == Some("pink_tulip"@),
        legacy_block_table("bamboo_block"@) == Some("bamboo"@),
        legacy_block_table("stripped_bamboo_block"@) == Some("bamboo"@),
        legacy_block_table("bamboo_planks"@) == Some("jungle_planks"@),
        legacy_block_table("bamboo_mosaic"@) == Some("jungle_planks"@),
        legacy_block_table("bamboo_slab"@) == Some("jungle_slab"@),
        legacy_block_table("bamboo_mosaic_slab"@) == Some("jungle_slab"@),
        legacy_block_table("bamboo_stairs"@) == Some("jungle_stairs"@),
        legacy_block_table("bamboo_mosaic_stairs"@) == Some("jungle_stairs"@),
        legacy_block_table("bamboo_fence"@) == Some("jungle_fence"@),
        legacy_block_table("bamboo_fence_gate"@) == Some("jungle_fence_gate"@),
        legacy_block_table("bamboo_door"@) == Some("jungle_door"@),
        legacy_block_table("bamboo_trapdoor"@) == Some("jungle_trapdoor"@),
        legacy_block_table("pale_oak_log"@) == Some("birch_log"@),
        legacy_block_table("pale_oak_wood"@) == Some("birch_wood"@),
        legacy_block_table("pale_oak_planks"@) == Some("birch_planks"@),
        legacy_block_table("pale_oak_leaves"@) == Some("birch_leaves"@),
        legacy_block_table("pale_oak_sapling"@) == Some("birch_sapling"@),
        legacy_block_table("pale_oak_slab"@) == Some("birch_slab"@),
{
    lemma_name_shapes_1();
    lemma_name_shapes_2();
    lemma_name_shapes_3();
    lemma_name_shapes_4();
    lemma_name_shapes_5();
    lemma_name_shapes_6();
    lemma_name_shapes_7();
    lemma_name_shapes_8();
    lemma_name_shapes_9();
    lemma_name_shapes_10();
    lemma_name_shapes_11();
    lemma_name_shapes_12();
    lemma_key_shapes();
}

/// The 1.16.5 stand-ins of `pale_oak_stairs` to `waxed_oxidized_cut_copper`, as the table lists them.
pub proof fn lemma_stand_in_table_5()
    ensures
        legacy_block_table("pale_oak_stairs"@) == Some("birch_stairs"@),
        legacy_block_table("pale_oak_fence"@) == Some("birch_fence"@),
        legacy_block_table("pale_oak_door"@) == Some("birch_door"@),
        legacy_block_table("pale_oak_trapdoor"@) == Some("birch_trapdoor"@),
        legacy_block_table("pale_moss_block"@) == Some("grass_block"@),
        legacy_block_table("pale_moss_carpet"@) == Some("vine"@),
        legacy_block_table("pale_hanging_moss"@) == Some("vine"@),
        legacy_block_table("copper_block"@) == Some("iron_block"@),
        legacy_block_table("exposed_copper"@) == Some("iron_block"@),
        legacy_block_table("weathered_copper"@) == Some("iron_block"@),
        legacy_block_table("oxidized_copper"@) == Some("iron_block"@),
        legacy_block_table("waxed_copper_block"@) == Some("iron_block"@),
        legacy_block_table("waxed_exposed_copper"@) == Some("iron_block"@),
        legacy_block_table("waxed_weathered_copper"@) == Some("iron_block"@),
        legacy_block_table("waxed_oxidized_copper"@) == Some("iron_block"@),
        legacy_block_table("cut_copper"@) == Some("cut_sandstone"@),
        legacy_block_table("exposed_cut_copper"@) == Some("cut_sandstone"@),
        legacy_block_table("weathered_cut_copper"@) == Some("cut_sandstone"@),
        legacy_block_table("oxidized_cut_copper"@) == Some("cut_sandstone"@),
        legacy_block_table("waxed_cut_copper"@) == Some("cut_sandstone"@),
        legacy_block_table("waxed_exposed_cut_copper"@) == Some("cut_sandstone"@),
        legacy_block_table("waxed_weathered_cut_copper"@) == Some("cut_sandstone"@),
        legacy_block_table("waxed_oxidized_cut_copper"@) == Some("cut_sandstone"@),
{
    lemma_name_shapes_1();
    lemma_name_shapes_2();
    lemma_name_shapes_3();
    lemma_name_shapes_4();
    lemma_name_shapes_5();
    lemma_name_shapes_6();
    lemma_name_shapes_7();
    lemma_name_shapes_8();
    lemma_name_shapes_9();
    lemma_name_shapes_10();
    lemma_name_shapes_11();
    lemma_name_shapes_12();
    lemma_key_shapes();
}

/// The 1.16.5 stand-ins of `copper_ore` to `rooted_dirt`, as the table lists them.
pub proof fn lemma_stand_in_table_6()
    ensures
        legacy_block_table("copper_ore"@) == Some("iron_ore"@),
        legacy_block_table("raw_copper_block"@) == Some("iron_block"@),
        legacy_block_table("lightning_rod"@) == Some("iron_bars"@),
        legacy_block_table("copper_grate"@) == Some("iron_bars"@),
        legacy_block_table("exposed_copper_grate"@) == Some("iron_bars"@),
        legacy_block_table("weathered_copper_grate"@) == Some("iron_bars"@),
        legacy_block_table("oxidized_copper_grate"@) == Some("iron_bars"@),
        legacy_block_table("copper_bulb"@) == Some("redstone_lamp"@),
        legacy_block_table("exposed_copper_bulb"@) == Some("redstone_lamp"@),
        legacy_block_table("weathered_copper_bulb"@) == Some("redstone_lamp"@),
        legacy_block_table("oxidized_copper_bulb"@) == Some("redstone_lamp"@),
        legacy_block_table("copper_door"@) == Some("oak_door"@),
        legacy_block_table("copper_trapdoor"@) == Some("oak_trapdoor"@),
        legacy_block_table("tinted_glass"@) == Some("gray_stained_glass"@),
        legacy_block_table("amethyst_block"@) == Some("purpur_block"@),
        legacy_block_table("budding_amethyst"@) == Some("purpur_block"@),
        legacy_block_table("amethyst_cluster"@) == Some("end_rod"@),
        legacy_block_table("small_amethyst_bud"@) == Some("end_rod"@),
        legacy_block_table("medium_amethyst_bud"@) == Some("end_rod"@),
        legacy_block_table("large_amethyst_bud"@) == Some("end_rod"@),
        legacy_block_table("calcite"@) == Some("diorite"@),
        legacy_block_table("smooth_basalt"@) == Some("basalt"@),
        legacy_block_table("rooted_dirt"@) == Some("dirt"@),
{
    lemma_name_shapes_1();
    lemma_name_shapes_2();
    lemma_name_shapes_3();
    lemma_name_shapes_4();
    lemma_name_shapes_5();
    lemma_name_shapes_6();
    lemma_name_shapes_7();
    lemma_name_shapes_8();
    lemma_name_shapes_9();
    lemma_name_shapes_10();
    lemma_name_shapes_11();
    lemma_name_shapes_12();
    lemma_key_shapes();
}

/// The 1.16.5 stand-ins of `moss_block` to `quartz_bricks`, as the table lists them.
pub proof fn lemma_stand_in_table_7()
    ensures
        legacy_block_table("moss_block"@) == Some("grass_block"@),
        legacy_block_table("moss_carpet"@) == Some("vine"@),
        legacy_block_table("azalea"@) == Some("oak_sapling"@),
        legacy_block_table("flowering_azalea"@) == Some("oak_sapling"@),
        legacy_block_table("azalea_leaves"@) == Some("oak_leaves"@),
        legacy_block_table("flowering_azalea_leaves"@) == Some("oak_leaves"@),
        legacy_block_table("spore_blossom"@) == Some("vine"@),
        legacy_block_table("glow_lichen"@) == Some("vine"@),
        legacy_block_table("cave_vines"@) == Some("vine"@),
        legacy_block_table("cave_vines_plant"@) == Some("vine"@),
        legacy_block_table("small_dripleaf"@) == Some("lily_pad"@),
        legacy_block_table("big_dripleaf"@) == Some("lily_pad"@),
        legacy_block_table("big_dripleaf_stem"@) == Some("lily_pad"@),
        legacy_block_table("hanging_roots"@) == Some("vine"@),
        legacy_block_table("pointed_dripstone"@) == Some("stone"@),
        legacy_block_table("dripstone_block"@) == Some("smooth_stone"@),
        legacy_block_table("powder_snow"@) == Some("snow_block"@),
        legacy_block_table("powder_snow_cauldron"@) == Some("cauldron"@),
        legacy_block_table("water_cauldron"@) == Some("cauldron"@),
        legacy_block_table("lava_cauldron"@) == Some("cauldron"@),
        legacy_block_table("dirt_path"@) == Some("grass_path"@),
        legacy_block_table("short_grass"@) == Some("grass"@),
        legacy_block_table("quartz_bricks"@) == Some("quartz_block"@),
{
    lemma_name_shapes_1();
    lemma_name_shapes_2();
    lemma_name_shapes_3();
    lemma_name_shapes_4();
    lemma_name_shapes_5();
    lemma_name_shapes_6();
    lemma_name_shapes_7();
    lemma_name_shapes_8();
    lemma_name_shapes_9();
    lemma_name_shapes_10();
    lemma_name_shapes_11();
    lemma_name_shapes_12();
    lemma_key_shapes();
}

/// The 1.16.5 stand-ins of `trial_spawner` to `black_candle`, as the table lists them.
pub proof fn lemma_stand_in_table_8()
    ensures
        legacy_block_table("trial_spawner"@) == Some("spawner"@),
        legacy_block_table("vault"@) == Some("spawner"@),
        legacy_block_table("chiseled_bookshelf"@) == Some("bookshelf"@),
        legacy_block_table("decorated_pot"@) == Some("flower_pot"@),
        legacy_block_table("candle"@) == Some("torch"@),
        legacy_block_table("white_candle"@) == Some("torch"@),
        legacy_block_table("orange_candle"@) == Some("torch"@),
        legacy_block_table("magenta_candle"@) == Some("torch"@),
        legacy_block_table("light_blue_candle"@) == Some("torch"@),
        legacy_block_table("yellow_candle"@) == Some("torch"@),
        legacy_block_table("lime_candle"@) == Some("torch"@),
        legacy_block_table("pink_candle"@) == Some("torch"@),
        legacy_block_table("gray_candle"@) == Some("torch"@),
        legacy_block_table("light_gray_candle"@) == Some("torch"@),
        legacy_block_table("cyan_candle"@) == Some("torch"@),
        legacy_block_table("purple_candle"@) == Some("torch"@),
        legacy_block_table("blue_candle"@) == Some("torch"@),
        legacy_block_table("brown_candle"@) == Some("torch"@),
        legacy_block_table("green_candle"@) == Some("torch"@),
        legacy_block_table("red_candle"@) == Some("torch"@),
        legacy_block_table("black_candle"@) == Some("torch"@),
{
    lemma_name_shapes_1();
    lemma_name_shapes_2();
    lemma_name_shapes_3();
    lemma_name_shapes_4();
    lemma_name_shapes_5();
    lemma_name_shapes_6();
    lemma_name_shapes_7();
    lemma_name_shapes_8();
    lemma_name_shapes_9();
    lemma_name_shapes_10();
    lemma_name_shapes_11();
    lemma_name_shapes_12();
    lemma_key_shapes();
}

/// A stand-in, if any, that has no stand-in of its own and does not start
/// with `m` (so it carries no `minecraft:` namespace).
pub open spec fn stand_in_is_final(stand_in: Option<Seq<char>>) -> bool {
    match stand_in {
        Some(s) => legacy_block_table(s) == None::<Seq<char>> && s.len() > 0 && s[0] != 'm',
        None => true,
    }
}

/// Length, first and last character of the table names `amethyst_block` to `birch_door`.
proof fn lemma_name_shapes_1()
    ensures
        "amethyst_block"@.len() == 14
            && "amethyst_block"@[0] == 'a'
            && "amethyst_block"@[13] == 'k',
        "amethyst_cluster"@.len() == 16
            && "amethyst_cluster"@[0] == 'a'
            && "amethyst_cluster"@[15] == 'r',
        "andesite"@.len() == 8 && "andesite"@[0] == 'a' && "andesite"@[7] == 'e',
        "andesite_slab"@.len() == 13 && "andesite_slab"@[0] == 'a' && "andesite_slab"@[12] == 'b',
        "andesite_stairs"@.len() == 15
            && "andesite_stairs"@[0] == 'a'
            && "andesite_stairs"@[14] == 's',
        "andesite_wall"@.len() == 13 && "andesite_wall"@[0] == 'a' && "andesite_wall"@[12] == 'l',
        "azalea"@.len() == 6 && "azalea"@[0] == 'a' && "azalea"@[5] == 'a',
        "azalea_leaves"@.len() == 13 && "azalea_leaves"@[0] == 'a' && "azalea_leaves"@[12] == 's',
        "bamboo"@.len() == 6 && "bamboo"@[0] == 'b' && "bamboo"@[5] == 'o',
        "bamboo_block"@.len() == 12 && "bamboo_block"@[0] == 'b' && "bamboo_block"@[11] == 'k',
        "bamboo_door"@.len() == 11 && "bamboo_door"@[0] == 'b' && "bamboo_door"@[10] == 'r',
        "bamboo_fence"@.len() == 12 && "bamboo_fence"@[0] == 'b' && "bamboo_fence"@[11] == 'e',
        "bamboo_fence_gate"@.len() == 17
            && "bamboo_fence_gate"@[0] == 'b'
            && "bamboo_fence_gate"@[16] == 'e',
        "bamboo_mosaic"@.len() == 13 && "bamboo_mosaic"@[0] == 'b' && "bamboo_mosaic"@[12] == 'c',
        "bamboo_mosaic_slab"@.len() == 18
            && "bamboo_mosaic_slab"@[0] == 'b'
            && "bamboo_mosaic_slab"@[17] == 'b',
        "bamboo_mosaic_stairs"@.len() == 20
            && "bamboo_mosaic_stairs"@[0] == 'b'
            && "bamboo_mosaic_stairs"@[19] == 's',
        "bamboo_planks"@.len() == 13 && "bamboo_planks"@[0] == 'b' && "bamboo_planks"@[12] == 's',
        "bamboo_slab"@.len() == 11 && "bamboo_slab"@[0] == 'b' && "bamboo_slab"@[10] == 'b',
        "bamboo_stairs"@.len() == 13 && "bamboo_stairs"@[0] == 'b' && "bamboo_stairs"@[12] == 's',
        "bamboo_trapdoor"@.len() == 15
            && "bamboo_trapdoor"@[0] == 'b'
            && "bamboo_trapdoor"@[14] == 'r',
        "basalt"@.len() == 6 && "basalt"@[0] == 'b' && "basalt"@[5] == 't',
        "big_dripleaf"@.len() == 12 && "big_dripleaf"@[0] == 'b' && "big_dripleaf"@[11] == 'f',
        "big_dripleaf_stem"@.len() == 17
            && "big_dripleaf_stem"@[0] == 'b'
            && "big_dripleaf_stem"@[16] == 'm',
        "birch_door"@.len() == 10 && "birch_door"@[0] == 'b' && "birch_door"@[9] == 'r',
{
    reveal_strlit("amethyst_block");
    reveal_strlit("amethyst_cluster");
    reveal_strlit("andesite");
    reveal_strlit("andesite_slab");
    reveal_strlit("andesite_stairs");
    reveal_strlit("andesite_wall");
    reveal_strlit("azalea");
    reveal_strlit("azalea_leaves");
    reveal_strlit("bamboo");
    reveal_strlit("bamboo_block");
    reveal_strlit("bamboo_door");
    reveal_strlit("bamboo_fence");
    reveal_strlit("bamboo_fence_gate");
    reveal_strlit("bamboo_mosaic");
    reveal_strlit("bamboo_mosaic_slab");
    reveal_strlit("bamboo_mosaic_stairs");
    reveal_strlit("bamboo_planks");
    reveal_strlit("bamboo_slab");
    reveal_strlit("bamboo_stairs");
    reveal_strlit("bamboo_trapdoor");
    reveal_strlit("basalt");
    reveal_strlit("big_dripleaf");
    reveal_strlit("big_dripleaf_stem");
    reveal_strlit("birch_door");
}

/// Length, first and last character of the table names `birch_fence` to `cave_vines_plant`.
proof fn lemma_name_shapes_2()
    ensures
        "birch_fence"@.len() == 11
            && "birch_fence"@[0] == 'b'
            && "birch_fence"@[10] == 'e'
            && "birch_fence"@[1] == 'i',
        "birch_fence_gate"@.len() == 16
            && "birch_fence_gate"@[0] == 'b'
            && "birch_fence_gate"@[15] == 'e',
        "birch_leaves"@.len() == 12 && "birch_leaves"@[0] == 'b' && "birch_leaves"@[11] == 's',
        "birch_log"@.len() == 9 && "birch_log"@[0] == 'b' && "birch_log"@[8] == 'g',
        "birch_planks"@.len() == 12 && "birch_planks"@[0] == 'b' && "birch_planks"@[11] == 's',
        "birch_sapling"@.len() == 13 && "birch_sapling"@[0] == 'b' && "birch_sapling"@[12] == 'g',
        "birch_slab"@.len() == 10 && "birch_slab"@[0] == 'b' && "birch_slab"@[9] == 'b',
        "birch_stairs"@.len() == 12 && "birch_stairs"@[0] == 'b' && "birch_stairs"@[11] == 's',
        "birch_trapdoor"@.len() == 14
            && "birch_trapdoor"@[0] == 'b'
            && "birch_trapdoor"@[13] == 'r',
        "birch_wood"@.len() == 10 && "birch_wood"@[0] == 'b' && "birch_wood"@[9] == 'd',
        "black_candle"@.len() == 12 && "black_candle"@[0] == 'b' && "black_candle"@[11] == 'e',
        "blue_candle"@.len() == 11
            && "blue_candle"@[0] == 'b'
            && "blue_candle"@[10] == 'e'
            && "blue_candle"@[1] == 'l',
        "bookshelf"@.len() == 9 && "bookshelf"@[0] == 'b' && "bookshelf"@[8] == 'f',
        "brick_slab"@.len() == 10 && "brick_slab"@[0] == 'b' && "brick_slab"@[9] == 'b',
        "brick_stairs"@.len() == 12 && "brick_stairs"@[0] == 'b' && "brick_stairs"@[11] == 's',
        "brick_wall"@.len() == 10 && "brick_wall"@[0] == 'b' && "brick_wall"@[9] == 'l',
        "bricks"@.len() == 6 && "bricks"@[0] == 'b' && "bricks"@[5] == 's',
        "brown_candle"@.len() == 12 && "brown_candle"@[0] == 'b' && "brown_candle"@[11] == 'e',
        "budding_amethyst"@.len() == 16
            && "budding_amethyst"@[0] == 'b'
            && "budding_amethyst"@[15] == 't',
        "calcite"@.len() == 7 && "calcite"@[0] == 'c' && "calcite"@[6] == 'e',
        "candle"@.len() == 6 && "candle"@[0] == 'c' && "candle"@[5] == 'e',
        "cauldron"@.len() == 8 && "cauldron"@[0] == 'c' && "cauldron"@[7] == 'n',
        "cave_vines"@.len() == 10 && "cave_vines"@[0] == 'c' && "cave_vines"@[9] == 's',
        "cave_vines_plant"@.len() == 16
            && "cave_vines_plant"@[0] == 'c'
            && "cave_vines_plant"@[15] == 't',
{
    reveal_strlit("birch_fence");
    reveal_strlit("birch_fence_gate");
    reveal_strlit("birch_leaves");
    reveal_strlit("birch_log");
    reveal_strlit("birch_planks");
    reveal_strlit("birch_sapling");
    reveal_strlit("birch_slab");
    reveal_strlit("birch_stairs");
    reveal_strlit("birch_trapdoor");
    reveal_strlit("birch_wood");
    reveal_strlit("black_candle");
    reveal_strlit("blue_candle");
    reveal_strlit("bookshelf");
    reveal_strlit("brick_slab");
    reveal_strlit("brick_stairs");
    reveal_strlit("brick_wall");
    reveal_strlit("bricks");
    reveal_strlit("brown_candle");
    reveal_strlit("budding_amethyst");
    reveal_strlit("calcite");
    reveal_strlit("candle");
    reveal_strlit("cauldron");
    reveal_strlit("cave_vines");
    reveal_strlit("cave_vines_plant");
}

/// Length, first and last character of the table names `cherry_door` to `copper_grate`.
proof fn lemma_name_shapes_3()
    ensures
        "cherry_door"@.len() == 11 && "cherry_door"@[0] == 'c' && "cherry_door"@[10] == 'r',
        "cherry_fence"@.len() == 12 && "cherry_fence"@[0] == 'c' && "cherry_fence"@[11] == 'e',
        "cherry_fence_gate"@.len() == 17
            && "cherry_fence_gate"@[0] == 'c'
            && "cherry_fence_gate"@[16] == 'e',
        "cherry_leaves"@.len() == 13 && "cherry_leaves"@[0] == 'c' && "cherry_leaves"@[12] == 's',
        "cherry_log"@.len() == 10 && "cherry_log"@[0] == 'c' && "cherry_log"@[9] == 'g',
        "cherry_planks"@.len() == 13 && "cherry_planks"@[0] == 'c' && "cherry_planks"@[12] == 's',
        "cherry_sapling"@.len() == 14
            && "cherry_sapling"@[0] == 'c'
            && "cherry_sapling"@[13] == 'g',
        "cherry_slab"@.len() == 11 && "cherry_slab"@[0] == 'c' && "cherry_slab"@[10] == 'b',
        "cherry_stairs"@.len() == 13 && "cherry_stairs"@[0] == 'c' && "cherry_stairs"@[12] == 's',
        "cherry_trapdoor"@.len() == 15
            && "cherry_trapdoor"@[0] == 'c'
            && "cherry_trapdoor"@[14] == 'r',
        "cherry_wood"@.len() == 11 && "cherry_wood"@[0] == 'c' && "cherry_wood"@[10] == 'd',
        "chiseled_bookshelf"@.len() == 18
            && "chiseled_bookshelf"@[0] == 'c'
            && "chiseled_bookshelf"@[17] == 'f',
        "chiseled_stone_bricks"@.len() == 21
            && "chiseled_stone_bricks"@[0] == 'c'
            && "chiseled_stone_bricks"@[20] == 's',
        "chiseled_tuff"@.len() == 13 && "chiseled_tuff"@[0] == 'c' && "chiseled_tuff"@[12] == 'f',
        "chiseled_tuff_bricks"@.len() == 20
            && "chiseled_tuff_bricks"@[0] == 'c'
            && "chiseled_tuff_bricks"@[19] == 's',
        "coal_ore"@.len() == 8 && "coal_ore"@[0] == 'c' && "coal_ore"@[7] == 'e',
        "coarse_dirt"@.len() == 11 && "coarse_dirt"@[0] == 'c' && "coarse_dirt"@[10] == 't',
        "cobbled_deepslate"@.len() == 17
            && "cobbled_deepslate"@[0] == 'c'
            && "cobbled_deepslate"@[16] == 'e',
        "cobblestone"@.len() == 11
            && "cobblestone"@[0] == 'c'
            && "cobblestone"@[10] == 'e'
            && "cobblestone"@[1] == 'o',
        "cobblestone_wall"@.len() == 16
            && "cobblestone_wall"@[0] == 'c'
            && "cobblestone_wall"@[15] == 'l',
        "copper_block"@.len() == 12 && "copper_block"@[0] == 'c' && "copper_block"@[11] == 'k',
        "copper_bulb"@.len() == 11 && "copper_bulb"@[0] == 'c' && "copper_bulb"@[10] == 'b',
        "copper_door"@.len() == 11 && "copper_door"@[0] == 'c' && "copper_door"@[10] == 'r',
        "copper_grate"@.len() == 12 && "copper_grate"@[0] == 'c' && "copper_grate"@[11] == 'e',
{
    reveal_strlit("cherry_door");
    reveal_strlit("cherry_fence");
    reveal_strlit("cherry_fence_gate");
    reveal_strlit("cherry_leaves");
    reveal_strlit("cherry_log");
    reveal_strlit("cherry_planks");
    reveal_strlit("cherry_sapling");
    reveal_strlit("cherry_slab");
    reveal_strlit("cherry_stairs");
    reveal_strlit("cherry_trapdoor");
    reveal_strlit("cherry_wood");
    reveal_strlit("chiseled_bookshelf");
    reveal_strlit("chiseled_stone_bricks");
    reveal_strlit("chiseled_tuff");
    reveal_strlit("chiseled_tuff_bricks");
    reveal_strlit("coal_ore");
    reveal_strlit("coarse_dirt");
    reveal_strlit("cobbled_deepslate");
    reveal_strlit("cobblestone");
    reveal_strlit("cobblestone_wall");
    reveal_strlit("copper_block");
    reveal_strlit("copper_bulb");
    reveal_strlit("copper_door");
    reveal_strlit("copper_grate");
}

/// Length, first and last character of the table names `copper_ore` to `deepslate_tile_wall`.
proof fn lemma_name_shapes_4()
    ensures
        "copper_ore"@.len() == 10 && "copper_ore"@[0] == 'c' && "copper_ore"@[9] == 'e',
        "copper_trapdoor"@.len() == 15
            && "copper_trapdoor"@[0] == 'c'
            && "copper_trapdoor"@[14] == 'r',
        "cracked_deepslate_bricks"@.len() == 24
            && "cracked_deepslate_bricks"@[0] == 'c'
            && "cracked_deepslate_bricks"@[23] == 's',
        "cracked_deepslate_tiles"@.len() == 23
            && "cracked_deepslate_tiles"@[0] == 'c'
            && "cracked_deepslate_tiles"@[22] == 's',
        "cut_copper"@.len() == 10 && "cut_copper"@[0] == 'c' && "cut_copper"@[9] == 'r',
        "cut_sandstone"@.len() == 13 && "cut_sandstone"@[0] == 'c' && "cut_sandstone"@[12] == 'e',
        "cyan_candle"@.len() == 11
            && "cyan_candle"@[0] == 'c'
            && "cyan_candle"@[10] == 'e'
            && "cyan_candle"@[1] == 'y',
        "decorated_pot"@.len() == 13 && "decorated_pot"@[0] == 'd' && "decorated_pot"@[12] == 't',
        "deepslate"@.len() == 9 && "deepslate"@[0] == 'd' && "deepslate"@[8] == 'e',
        "deepslate_brick_slab"@.len() == 20
            && "deepslate_brick_slab"@[0] == 'd'
            && "deepslate_brick_slab"@[19] == 'b',
        "deepslate_brick_stairs"@.len() == 22
            && "deepslate_brick_stairs"@[0] == 'd'
            && "deepslate_brick_stairs"@[21] == 's',
        "deepslate_brick_wall"@.len() == 20
            && "deepslate_brick_wall"@[0] == 'd'
            && "deepslate_brick_wall"@[19] == 'l',
        "deepslate_bricks"@.len() == 16
            && "deepslate_bricks"@[0] == 'd'
            && "deepslate_bricks"@[15] == 's',
        "deepslate_coal_ore"@.len() == 18
            && "deepslate_coal_ore"@[0] == 'd'
            && "deepslate_coal_ore"@[17] == 'e',
        "deepslate_copper_ore"@.len() == 20
            && "deepslate_copper_ore"@[0] == 'd'
            && "deepslate_copper_ore"@[19] == 'e',
        "deepslate_diamond_ore"@.len() == 21
            && "deepslate_diamond_ore"@[0] == 'd'
            && "deepslate_diamond_ore"@[20] == 'e',
        "deepslate_emerald_ore"@.len() == 21
            && "deepslate_emerald_ore"@[0] == 'd'
            && "deepslate_emerald_ore"@[20] == 'e',
        "deepslate_gold_ore"@.len() == 18
            && "deepslate_gold_ore"@[0] == 'd'
            && "deepslate_gold_ore"@[17] == 'e',
        "deepslate_iron_ore"@.len() == 18
            && "deepslate_iron_ore"@[0] == 'd'
            && "deepslate_iron_ore"@[17] == 'e',
        "deepslate_lapis_ore"@.len() == 19
            && "deepslate_lapis_ore"@[0] == 'd'
            && "deepslate_lapis_ore"@[18] == 'e',
        "deepslate_redstone_ore"@.len() == 22
            && "deepslate_redstone_ore"@[0] == 'd'
            && "deepslate_redstone_ore"@[21] == 'e',
        "deepslate_tile_slab"@.len() == 19
            && "deepslate_tile_slab"@[0] == 'd'
            && "deepslate_tile_slab"@[18] == 'b',
        "deepslate_tile_stairs"@.len() == 21
            && "deepslate_tile_stairs"@[0] == 'd'
            && "deepslate_tile_stairs"@[20] == 's',
        "deepslate_tile_wall"@.len() == 19
            && "deepslate_tile_wall"@[0] == 'd'
            && "deepslate_tile_wall"@[18] == 'l',
{
    reveal_strlit("copper_ore");
    reveal_strlit("copper_trapdoor");
    reveal_strlit("cracked_deepslate_bricks");
    reveal_strlit("cracked_deepslate_tiles");
    reveal_strlit("cut_copper");
    reveal_strlit("cut_sandstone");
    reveal_strlit("cyan_candle");
    reveal_strlit("decorated_pot");
    reveal_strlit("deepslate");
    reveal_strlit("deepslate_brick_slab");
    reveal_strlit("deepslate_brick_stairs");
    reveal_strlit("deepslate_brick_wall");
    reveal_strlit("deepslate_bricks");
    reveal_strlit("deepslate_coal_ore");
    reveal_strlit("deepslate_copper_ore");
    reveal_strlit("deepslate_diamond_ore");
    reveal_strlit("deepslate_emerald_ore");
    reveal_strlit("deepslate_gold_ore");
    reveal_strlit("deepslate_iron_ore");
    reveal_strlit("deepslate_lapis_ore");
    reveal_strlit("deepslate_redstone_ore");
    reveal_strlit("deepslate_tile_slab");
    reveal_strlit("deepslate_tile_stairs");
    reveal_strlit("deepslate_tile_wall");
}

/// Length, first and last character of the table names `deepslate_tiles` to `hanging_roots`.
proof fn lemma_name_shapes_5()
    ensures
        "deepslate_tiles"@.len() == 15
            && "deepslate_tiles"@[0] == 'd'
            && "deepslate_tiles"@[14] == 's',
        "diamond_ore"@.len() == 11 && "diamond_ore"@[0] == 'd' && "diamond_ore"@[10] == 'e',
        "diorite"@.len() == 7 && "diorite"@[0] == 'd' && "diorite"@[6] == 'e',
        "dirt"@.len() == 4 && "dirt"@[0] == 'd' && "dirt"@[3] == 't',
        "dirt_path"@.len() == 9 && "dirt_path"@[0] == 'd' && "dirt_path"@[8] == 'h',
        "dripstone_block"@.len() == 15
            && "dripstone_block"@[0] == 'd'
            && "dripstone_block"@[14] == 'k',
        "emerald_ore"@.len() == 11 && "emerald_ore"@[0] == 'e' && "emerald_ore"@[10] == 'e',
        "end_rod"@.len() == 7 && "end_rod"@[0] == 'e' && "end_rod"@[6] == 'd',
        "exposed_copper"@.len() == 14
            && "exposed_copper"@[0] == 'e'
            && "exposed_copper"@[13] == 'r',
        "exposed_copper_bulb"@.len() == 19
            && "exposed_copper_bulb"@[0] == 'e'
            && "exposed_copper_bulb"@[18] == 'b',
        "exposed_copper_grate"@.len() == 20
            && "exposed_copper_grate"@[0] == 'e'
            && "exposed_copper_grate"@[19] == 'e',
        "exposed_cut_copper"@.len() == 18
            && "exposed_cut_copper"@[0] == 'e'
            && "exposed_cut_copper"@[17] == 'r',
        "flower_pot"@.len() == 10 && "flower_pot"@[0] == 'f' && "flower_pot"@[9] == 't',
        "flowering_azalea"@.len() == 16
            && "flowering_azalea"@[0] == 'f'
            && "flowering_azalea"@[15] == 'a',
        "flowering_azalea_leaves"@.len() == 23
            && "flowering_azalea_leaves"@[0] == 'f'
            && "flowering_azalea_leaves"@[22] == 's',
        "glow_lichen"@.len() == 11 && "glow_lichen"@[0] == 'g' && "glow_lichen"@[10] == 'n',
        "gold_ore"@.len() == 8 && "gold_ore"@[0] == 'g' && "gold_ore"@[7] == 'e',
        "grass"@.len() == 5 && "grass"@[0] == 'g' && "grass"@[4] == 's',
        "grass_block"@.len() == 11 && "grass_block"@[0] == 'g' && "grass_block"@[10] == 'k',
        "grass_path"@.len() == 10 && "grass_path"@[0] == 'g' && "grass_path"@[9] == 'h',
        "gray_candle"@.len() == 11 && "gray_candle"@[0] == 'g' && "gray_candle"@[10] == 'e',
        "gray_stained_glass"@.len() == 18
            && "gray_stained_glass"@[0] == 'g'
            && "gray_stained_glass"@[17] == 's',
        "green_candle"@.len() == 12 && "green_candle"@[0] == 'g' && "green_candle"@[11] == 'e',
        "hanging_roots"@.len() == 13 && "hanging_roots"@[0] == 'h' && "hanging_roots"@[12] == 's',
{
    reveal_strlit("deepslate_tiles");
    reveal_strlit("diamond_ore");
    reveal_strlit("diorite");
    reveal_strlit("dirt");
    reveal_strlit("dirt_path");
    reveal_strlit("dripstone_block");
    reveal_strlit("emerald_ore");
    reveal_strlit("end_rod");
    reveal_strlit("exposed_copper");
    reveal_strlit("exposed_copper_bulb");
    reveal_strlit("exposed_copper_grate");
    reveal_strlit("exposed_cut_copper");
    reveal_strlit("flower_pot");
    reveal_strlit("flowering_azalea");
    reveal_strlit("flowering_azalea_leaves");
    reveal_strlit("glow_lichen");
    reveal_strlit("gold_ore");
    reveal_strlit("grass");
    reveal_strlit("grass_block");
    reveal_strlit("grass_path");
    reveal_strlit("gray_candle");
    reveal_strlit("gray_stained_glass");
    reveal_strlit("green_candle");
    reveal_strlit("hanging_roots");
}

/// Length, first and last character of the table names `infested_deepslate` to `mangrove_fence_gate`.
proof fn lemma_name_shapes_6()
    ensures
        "infested_deepslate"@.len() == 18
            && "infested_deepslate"@[0] == 'i'
            && "infested_deepslate"@[17] == 'e',
        "iron_bars"@.len() == 9 && "iron_bars"@[0] == 'i' && "iron_bars"@[8] == 's',
        "iron_block"@.len() == 10 && "iron_block"@[0] == 'i' && "iron_block"@[9] == 'k',
        "iron_ore"@.len() == 8 && "iron_ore"@[0] == 'i' && "iron_ore"@[7] == 'e',
        "jungle_door"@.len() == 11 && "jungle_door"@[0] == 'j' && "jungle_door"@[10] == 'r',
        "jungle_fence"@.len() == 12 && "jungle_fence"@[0] == 'j' && "jungle_fence"@[11] == 'e',
        "jungle_fence_gate"@.len() == 17
            && "jungle_fence_gate"@[0] == 'j'
            && "jungle_fence_gate"@[16] == 'e',
        "jungle_planks"@.len() == 13 && "jungle_planks"@[0] == 'j' && "jungle_planks"@[12] == 's',
        "jungle_slab"@.len() == 11 && "jungle_slab"@[0] == 'j' && "jungle_slab"@[10] == 'b',
        "jungle_stairs"@.len() == 13 && "jungle_stairs"@[0] == 'j' && "jungle_stairs"@[12] == 's',
        "jungle_trapdoor"@.len() == 15
            && "jungle_trapdoor"@[0] == 'j'
            && "jungle_trapdoor"@[14] == 'r',
        "lapis_ore"@.len() == 9 && "lapis_ore"@[0] == 'l' && "lapis_ore"@[8] == 'e',
        "large_amethyst_bud"@.len() == 18
            && "large_amethyst_bud"@[0] == 'l'
            && "large_amethyst_bud"@[17] == 'd',
        "lava_cauldron"@.len() == 13 && "lava_cauldron"@[0] == 'l' && "lava_cauldron"@[12] == 'n',
        "light_blue_candle"@.len() == 17
            && "light_blue_candle"@[0] == 'l'
            && "light_blue_candle"@[16] == 'e',
        "light_gray_candle"@.len() == 17
            && "light_gray_candle"@[0] == 'l'
            && "light_gray_candle"@[16] == 'e',
        "lightning_rod"@.len() == 13 && "lightning_rod"@[0] == 'l' && "lightning_rod"@[12] == 'd',
        "lily_pad"@.len() == 8 && "lily_pad"@[0] == 'l' && "lily_pad"@[7] == 'd',
        "lime_candle"@.len() == 11 && "lime_candle"@[0] == 'l' && "lime_candle"@[10] == 'e',
        "magenta_candle"@.len() == 14
            && "magenta_candle"@[0] == 'm'
            && "magenta_candle"@[13] == 'e',
        "mangrove_button"@.len() == 15
            && "mangrove_button"@[0] == 'm'
            && "mangrove_button"@[14] == 'n',
        "mangrove_door"@.len() == 13 && "mangrove_door"@[0] == 'm' && "mangrove_door"@[12] == 'r',
        "mangrove_fence"@.len() == 14
            && "mangrove_fence"@[0] == 'm'
            && "mangrove_fence"@[13] == 'e',
        "mangrove_fence_gate"@.len() == 19
            && "mangrove_fence_gate"@[0] == 'm'
            && "mangrove_fence_gate"@[18] == 'e',
{
    reveal_strlit("infested_deepslate");
    reveal_strlit("iron_bars");
    reveal_strlit("iron_block");
    reveal_strlit("iron_ore");
    reveal_strlit("jungle_door");
    reveal_strlit("jungle_fence");
    reveal_strlit("jungle_fence_gate");
    reveal_strlit("jungle_planks");
    reveal_strlit("jungle_slab");
    reveal_strlit("jungle_stairs");
    reveal_strlit("jungle_trapdoor");
    reveal_strlit("lapis_ore");
    reveal_strlit("large_amethyst_bud");
    reveal_strlit("lava_cauldron");
    reveal_strlit("light_blue_candle");
    reveal_strlit("light_gray_candle");
    reveal_strlit("lightning_rod");
    reveal_strlit("lily_pad");
    reveal_strlit("lime_candle");
    reveal_strlit("magenta_candle");
    reveal_strlit("mangrove_button");
    reveal_strlit("mangrove_door");
    reveal_strlit("mangrove_fence");
    reveal_strlit("mangrove_fence_gate");
}

/// Length, first and last character of the table names `mangrove_leaves` to `oak_door`.
proof fn lemma_name_shapes_7()
    ensures
        "mangrove_leaves"@.len() == 15
            && "mangrove_leaves"@[0] == 'm'
            && "mangrove_leaves"@[14] == 's',
        "mangrove_log"@.len() == 12 && "mangrove_log"@[0] == 'm' && "mangrove_log"@[11] == 'g',
        "mangrove_planks"@.len() == 15
            && "mangrove_planks"@[0] == 'm'
            && "mangrove_planks"@[14] == 's',
        "mangrove_pressure_plate"@.len() == 23
            && "mangrove_pressure_plate"@[0] == 'm'
            && "mangrove_pressure_plate"@[22] == 'e',
        "mangrove_propagule"@.len() == 18
            && "mangrove_propagule"@[0] == 'm'
            && "mangrove_propagule"@[17] == 'e',
        "mangrove_roots"@.len() == 14
            && "mangrove_roots"@[0] == 'm'
            && "mangrove_roots"@[13] == 's',
        "mangrove_sign"@.len() == 13 && "mangrove_sign"@[0] == 'm' && "mangrove_sign"@[12] == 'n',
        "mangrove_slab"@.len() == 13 && "mangrove_slab"@[0] == 'm' && "mangrove_slab"@[12] == 'b',
        "mangrove_stairs"@.len() == 15
            && "mangrove_stairs"@[0] == 'm'
            && "mangrove_stairs"@[14] == 's',
        "mangrove_trapdoor"@.len() == 17
            && "mangrove_trapdoor"@[0] == 'm'
            && "mangrove_trapdoor"@[16] == 'r',
        "mangrove_wall_sign"@.len() == 18
            && "mangrove_wall_sign"@[0] == 'm'
            && "mangrove_wall_sign"@[17] == 'n',
        "mangrove_wood"@.len() == 13 && "mangrove_wood"@[0] == 'm' && "mangrove_wood"@[12] == 'd',
        "medium_amethyst_bud"@.len() == 19
            && "medium_amethyst_bud"@[0] == 'm'
            && "medium_amethyst_bud"@[18] == 'd',
        "minecraft:"@.len() == 10 && "minecraft:"@[0] == 'm',
        "moss_block"@.len() == 10 && "moss_block"@[0] == 'm' && "moss_block"@[9] == 'k',
        "moss_carpet"@.len() == 11 && "moss_carpet"@[0] == 'm' && "moss_carpet"@[10] == 't',
        "mud"@.len() == 3 && "mud"@[0] == 'm' && "mud"@[2] == 'd',
        "mud_brick_slab"@.len() == 14
            && "mud_brick_slab"@[0] == 'm'
            && "mud_brick_slab"@[13] == 'b',
        "mud_brick_stairs"@.len() == 16
            && "mud_brick_stairs"@[0] == 'm'
            && "mud_brick_stairs"@[15] == 's',
        "mud_brick_wall"@.len() == 14
            && "mud_brick_wall"@[0] == 'm'
            && "mud_brick_wall"@[13] == 'l',
        "mud_bricks"@.len() == 10 && "mud_bricks"@[0] == 'm' && "mud_bricks"@[9] == 's',
        "muddy_mangrove_roots"@.len() == 20
            && "muddy_mangrove_roots"@[0] == 'm'
            && "muddy_mangrove_roots"@[19] == 's',
        "oak_button"@.len() == 10 && "oak_button"@[0] == 'o' && "oak_button"@[9] == 'n',
        "oak_door"@.len() == 8 && "oak_door"@[0] == 'o' && "oak_door"@[7] == 'r',
{
    reveal_strlit("mangrove_leaves");
    reveal_strlit("mangrove_log");
    reveal_strlit("mangrove_planks");
    reveal_strlit("mangrove_pressure_plate");
    reveal_strlit("mangrove_propagule");
    reveal_strlit("mangrove_roots");
    reveal_strlit("mangrove_sign");
    reveal_strlit("mangrove_slab");
    reveal_strlit("mangrove_stairs");
    reveal_strlit("mangrove_trapdoor");
    reveal_strlit("mangrove_wall_sign");
    reveal_strlit("mangrove_wood");
    reveal_strlit("medium_amethyst_bud");
    reveal_strlit("minecraft:");
    reveal_strlit("moss_block");
    reveal_strlit("moss_carpet");
    reveal_strlit("mud");
    reveal_strlit("mud_brick_slab");
    reveal_strlit("mud_brick_stairs");
    reveal_strlit("mud_brick_wall");
    reveal_strlit("mud_bricks");
    reveal_strlit("muddy_mangrove_roots");
    reveal_strlit("oak_button");
    reveal_strlit("oak_door");
}

/// Length, first and last character of the table names `oak_fence` to `pale_oak_fence`.
proof fn lemma_name_shapes_8()
    ensures
        "oak_fence"@.len() == 9 && "oak_fence"@[0] == 'o' && "oak_fence"@[8] == 'e',
        "oak_fence_gate"@.len() == 14
            && "oak_fence_gate"@[0] == 'o'
            && "oak_fence_gate"@[13] == 'e',
        "oak_leaves"@.len() == 10 && "oak_leaves"@[0] == 'o' && "oak_leaves"@[9] == 's',
        "oak_log"@.len() == 7 && "oak_log"@[0] == 'o' && "oak_log"@[6] == 'g',
        "oak_planks"@.len() == 10 && "oak_planks"@[0] == 'o' && "oak_planks"@[9] == 's',
        "oak_pressure_plate"@.len() == 18
            && "oak_pressure_plate"@[0] == 'o'
            && "oak_pressure_plate"@[17] == 'e',
        "oak_sapling"@.len() == 11 && "oak_sapling"@[0] == 'o' && "oak_sapling"@[10] == 'g',
        "oak_sign"@.len() == 8 && "oak_sign"@[0] == 'o' && "oak_sign"@[7] == 'n',
        "oak_slab"@.len() == 8 && "oak_slab"@[0] == 'o' && "oak_slab"@[7] == 'b',
        "oak_stairs"@.len() == 10 && "oak_stairs"@[0] == 'o' && "oak_stairs"@[9] == 's',
        "oak_trapdoor"@.len() == 12 && "oak_trapdoor"@[0] == 'o' && "oak_trapdoor"@[11] == 'r',
        "oak_wall_sign"@.len() == 13 && "oak_wall_sign"@[0] == 'o' && "oak_wall_sign"@[12] == 'n',
        "oak_wood"@.len() == 8 && "oak_wood"@[0] == 'o' && "oak_wood"@[7] == 'd',
        "orange_candle"@.len() == 13 && "orange_candle"@[0] == 'o' && "orange_candle"@[12] == 'e',
        "oxidized_copper"@.len() == 15
            && "oxidized_copper"@[0] == 'o'
            && "oxidized_copper"@[14] == 'r',
        "oxidized_copper_bulb"@.len() == 20
            && "oxidized_copper_bulb"@[0] == 'o'
            && "oxidized_copper_bulb"@[19] == 'b',
        "oxidized_copper_grate"@.len() == 21
            && "oxidized_copper_grate"@[0] == 'o'
            && "oxidized_copper_grate"@[20] == 'e',
        "oxidized_cut_copper"@.len() == 19
            && "oxidized_cut_copper"@[0] == 'o'
            && "oxidized_cut_copper"@[18] == 'r',
        "packed_mud"@.len() == 10 && "packed_mud"@[0] == 'p' && "packed_mud"@[9] == 'd',
        "pale_hanging_moss"@.len() == 17
            && "pale_hanging_moss"@[0] == 'p'
            && "pale_hanging_moss"@[16] == 's',
        "pale_moss_block"@.len() == 15
            && "pale_moss_block"@[0] == 'p'
            && "pale_moss_block"@[14] == 'k',
        "pale_moss_carpet"@.len() == 16
            && "pale_moss_carpet"@[0] == 'p'
            && "pale_moss_carpet"@[15] == 't',
        "pale_oak_door"@.len() == 13 && "pale_oak_door"@[0] == 'p' && "pale_oak_door"@[12] == 'r',
        "pale_oak_fence"@.len() == 14
            && "pale_oak_fence"@[0] == 'p'
            && "pale_oak_fence"@[13] == 'e',
{
    reveal_strlit("oak_fence");
    reveal_strlit("oak_fence_gate");
    reveal_strlit("oak_leaves");
    reveal_strlit("oak_log");
    reveal_strlit("oak_planks");
    reveal_strlit("oak_pressure_plate");
    reveal_strlit("oak_sapling");
    reveal_strlit("oak_sign");
    reveal_strlit("oak_slab");
    reveal_strlit("oak_stairs");
    reveal_strlit("oak_trapdoor");
    reveal_strlit("oak_wall_sign");
    reveal_strlit("oak_wood");
    reveal_strlit("orange_candle");
    reveal_strlit("oxidized_copper");
    reveal_strlit("oxidized_copper_bulb");
    reveal_strlit("oxidized_copper_grate");
    reveal_strlit("oxidized_cut_copper");
    reveal_strlit("packed_mud");
    reveal_strlit("pale_hanging_moss");
    reveal_strlit("pale_moss_block");
    reveal_strlit("pale_moss_carpet");
    reveal_strlit("pale_oak_door");
    reveal_strlit("pale_oak_fence");
}

/// Length, first and last character of the table names `pale_oak_leaves` to `polished_tuff_stairs`.
proof fn lemma_name_shapes_9()
    ensures
        "pale_oak_leaves"@.len() == 15
            && "pale_oak_leaves"@[0] == 'p'
            && "pale_oak_leaves"@[14] == 's',
        "pale_oak_log"@.len() == 12 && "pale_oak_log"@[0] == 'p' && "pale_oak_log"@[11] == 'g',
        "pale_oak_planks"@.len() == 15
            && "pale_oak_planks"@[0] == 'p'
            && "pale_oak_planks"@[14] == 's',
        "pale_oak_sapling"@.len() == 16
            && "pale_oak_sapling"@[0] == 'p'
            && "pale_oak_sapling"@[15] == 'g',
        "pale_oak_slab"@.len() == 13 && "pale_oak_slab"@[0] == 'p' && "pale_oak_slab"@[12] == 'b',
        "pale_oak_stairs"@.len() == 15
            && "pale_oak_stairs"@[0] == 'p'
            && "pale_oak_stairs"@[14] == 's',
        "pale_oak_trapdoor"@.len() == 17
            && "pale_oak_trapdoor"@[0] == 'p'
            && "pale_oak_trapdoor"@[16] == 'r',
        "pale_oak_wood"@.len() == 13 && "pale_oak_wood"@[0] == 'p' && "pale_oak_wood"@[12] == 'd',
        "pink_candle"@.len() == 11 && "pink_candle"@[0] == 'p' && "pink_candle"@[10] == 'e',
        "pink_petals"@.len() == 11 && "pink_petals"@[0] == 'p' && "pink_petals"@[10] == 's',
        "pink_tulip"@.len() == 10 && "pink_tulip"@[0] == 'p' && "pink_tulip"@[9] == 'p',
        "pink_wool"@.len() == 9 && "pink_wool"@[0] == 'p' && "pink_wool"@[8] == 'l',
        "podzol"@.len() == 6 && "podzol"@[0] == 'p' && "podzol"@[5] == 'l',
        "pointed_dripstone"@.len() == 17
            && "pointed_dripstone"@[0] == 'p'
            && "pointed_dripstone"@[16] == 'e'
            && "pointed_dripstone"@[2] == 'i',
        "polished_andesite"@.len() == 17
            && "polished_andesite"@[0] == 'p'
            && "polished_andesite"@[16] == 'e'
            && "polished_andesite"@[2] == 'l',
        "polished_andesite_slab"@.len() == 22
            && "polished_andesite_slab"@[0] == 'p'
            && "polished_andesite_slab"@[21] == 'b',
        "polished_andesite_stairs"@.len() == 24
            && "polished_andesite_stairs"@[0] == 'p'
            && "polished_andesite_stairs"@[23] == 's',
        "polished_deepslate"@.len() == 18
            && "polished_deepslate"@[0] == 'p'
            && "polished_deepslate"@[17] == 'e',
        "polished_deepslate_slab"@.len() == 23
            && "polished_deepslate_slab"@[0] == 'p'
            && "polished_deepslate_slab"@[22] == 'b',
        "polished_deepslate_stairs"@.len() == 25
            && "polished_deepslate_stairs"@[0] == 'p'
            && "polished_deepslate_stairs"@[24] == 's',
        "polished_deepslate_wall"@.len() == 23
            && "polished_deepslate_wall"@[0] == 'p'
            && "polished_deepslate_wall"@[22] == 'l',
        "polished_tuff"@.len() == 13 && "polished_tuff"@[0] == 'p' && "polished_tuff"@[12] == 'f',
        "polished_tuff_slab"@.len() == 18
            && "polished_tuff_slab"@[0] == 'p'
            && "polished_tuff_slab"@[17] == 'b',
        "polished_tuff_stairs"@.len() == 20
            && "polished_tuff_stairs"@[0] == 'p'
            && "polished_tuff_stairs"@[19] == 's',
{
    reveal_strlit("pale_oak_leaves");
    reveal_strlit("pale_oak_log");
    reveal_strlit("pale_oak_planks");
    reveal_strlit("pale_oak_sapling");
    reveal_strlit("pale_oak_slab");
    reveal_strlit("pale_oak_stairs");
    reveal_strlit("pale_oak_trapdoor");
    reveal_strlit("pale_oak_wood");
    reveal_strlit("pink_candle");
    reveal_strlit("pink_petals");
    reveal_strlit("pink_tulip");
    reveal_strlit("pink_wool");
    reveal_strlit("podzol");
    reveal_strlit("pointed_dripstone");
    reveal_strlit("polished_andesite");
    reveal_strlit("polished_andesite_slab");
    reveal_strlit("polished_andesite_stairs");
    reveal_strlit("polished_deepslate");
    reveal_strlit("polished_deepslate_slab");
    reveal_strlit("polished_deepslate_stairs");
    reveal_strlit("polished_deepslate_wall");
    reveal_strlit("polished_tuff");
    reveal_strlit("polished_tuff_slab");
    reveal_strlit("polished_tuff_stairs");
}

/// Length, first and last character of the table names `polished_tuff_wall` to `stone_brick_stairs`.
proof fn lemma_name_shapes_10()
    ensures
        "polished_tuff_wall"@.len() == 18
            && "polished_tuff_wall"@[0] == 'p'
            && "polished_tuff_wall"@[17] == 'l',
        "powder_snow"@.len() == 11 && "powder_snow"@[0] == 'p' && "powder_snow"@[10] == 'w',
        "powder_snow_cauldron"@.len() == 20
            && "powder_snow_cauldron"@[0] == 'p'
            && "powder_snow_cauldron"@[19] == 'n',
        "purple_candle"@.len() == 13 && "purple_candle"@[0] == 'p' && "purple_candle"@[12] == 'e',
        "purpur_block"@.len() == 12 && "purpur_block"@[0] == 'p' && "purpur_block"@[11] == 'k',
        "quartz_block"@.len() == 12 && "quartz_block"@[0] == 'q' && "quartz_block"@[11] == 'k',
        "quartz_bricks"@.len() == 13 && "quartz_bricks"@[0] == 'q' && "quartz_bricks"@[12] == 's',
        "raw_copper_block"@.len() == 16
            && "raw_copper_block"@[0] == 'r'
            && "raw_copper_block"@[15] == 'k',
        "red_candle"@.len() == 10 && "red_candle"@[0] == 'r' && "red_candle"@[9] == 'e',
        "redstone_lamp"@.len() == 13 && "redstone_lamp"@[0] == 'r' && "redstone_lamp"@[12] == 'p',
        "redstone_ore"@.len() == 12 && "redstone_ore"@[0] == 'r' && "redstone_ore"@[11] == 'e',
        "rooted_dirt"@.len() == 11 && "rooted_dirt"@[0] == 'r' && "rooted_dirt"@[10] == 't',
        "short_grass"@.len() == 11 && "short_grass"@[0] == 's' && "short_grass"@[10] == 's',
        "small_amethyst_bud"@.len() == 18
            && "small_amethyst_bud"@[0] == 's'
            && "small_amethyst_bud"@[17] == 'd',
        "small_dripleaf"@.len() == 14
            && "small_dripleaf"@[0] == 's'
            && "small_dripleaf"@[13] == 'f',
        "smooth_basalt"@.len() == 13 && "smooth_basalt"@[0] == 's' && "smooth_basalt"@[12] == 't',
        "smooth_stone"@.len() == 12 && "smooth_stone"@[0] == 's' && "smooth_stone"@[11] == 'e',
        "snow_block"@.len() == 10 && "snow_block"@[0] == 's' && "snow_block"@[9] == 'k',
        "spawner"@.len() == 7 && "spawner"@[0] == 's' && "spawner"@[6] == 'r',
        "spore_blossom"@.len() == 13 && "spore_blossom"@[0] == 's' && "spore_blossom"@[12] == 'm',
        "stone"@.len() == 5 && "stone"@[0] == 's' && "stone"@[4] == 'e',
        "stone_brick_slab"@.len() == 16
            && "stone_brick_slab"@[0] == 's'
            && "stone_brick_slab"@[15] == 'b',
        "stone_brick_stairs"@.len() == 18
            && "stone_brick_stairs"@[0] == 's'
            && "stone_brick_stairs"@[17] == 's',
{
    reveal_strlit("polished_tuff_wall");
    reveal_strlit("powder_snow");
    reveal_strlit("powder_snow_cauldron");
    reveal_strlit("purple_candle");
    reveal_strlit("purpur_block");
    reveal_strlit("quartz_block");
    reveal_strlit("quartz_bricks");
    reveal_strlit("raw_copper_block");
    reveal_strlit("red_candle");
    reveal_strlit("redstone_lamp");
    reveal_strlit("redstone_ore");
    reveal_strlit("rooted_dirt");
    reveal_strlit("short_grass");
    reveal_strlit("small_amethyst_bud");
    reveal_strlit("small_dripleaf");
    reveal_strlit("smooth_basalt");
    reveal_strlit("smooth_stone");
    reveal_strlit("snow_block");
    reveal_strlit("spawner");
    reveal_strlit("spore_blossom");
    reveal_strlit("stone");
    reveal_strlit("stone_brick_slab");
    reveal_strlit("stone_brick_stairs");
}

/// Length, first and last character of the table names `stone_brick_wall` to `waxed_oxidized_copper`.
proof fn lemma_name_shapes_11()
    ensures
        "stone_brick_wall"@.len() == 16
            && "stone_brick_wall"@[0] == 's'
            && "stone_brick_wall"@[15] == 'l',
        "stone_bricks"@.len() == 12 && "stone_bricks"@[0] == 's' && "stone_bricks"@[11] == 's',
        "stone_slab"@.len() == 10 && "stone_slab"@[0] == 's' && "stone_slab"@[9] == 'b',
        "stone_stairs"@.len() == 12 && "stone_stairs"@[0] == 's' && "stone_stairs"@[11] == 's',
        "stripped_bamboo_block"@.len() == 21
            && "stripped_bamboo_block"@[0] == 's'
            && "stripped_bamboo_block"@[20] == 'k',
        "tinted_glass"@.len() == 12 && "tinted_glass"@[0] == 't' && "tinted_glass"@[11] == 's',
        "torch"@.len() == 5 && "torch"@[0] == 't' && "torch"@[4] == 'h',
        "trial_spawner"@.len() == 13 && "trial_spawner"@[0] == 't' && "trial_spawner"@[12] == 'r',
        "tuff"@.len() == 4 && "tuff"@[0] == 't' && "tuff"@[3] == 'f',
        "tuff_brick_slab"@.len() == 15
            && "tuff_brick_slab"@[0] == 't'
            && "tuff_brick_slab"@[14] == 'b',
        "tuff_brick_stairs"@.len() == 17
            && "tuff_brick_stairs"@[0] == 't'
            && "tuff_brick_stairs"@[16] == 's',
        "tuff_brick_wall"@.len() == 15
            && "tuff_brick_wall"@[0] == 't'
            && "tuff_brick_wall"@[14] == 'l',
        "tuff_bricks"@.len() == 11 && "tuff_bricks"@[0] == 't' && "tuff_bricks"@[10] == 's',
        "tuff_slab"@.len() == 9 && "tuff_slab"@[0] == 't' && "tuff_slab"@[8] == 'b',
        "tuff_stairs"@.len() == 11 && "tuff_stairs"@[0] == 't' && "tuff_stairs"@[10] == 's',
        "tuff_wall"@.len() == 9 && "tuff_wall"@[0] == 't' && "tuff_wall"@[8] == 'l',
        "vault"@.len() == 5 && "vault"@[0] == 'v' && "vault"@[4] == 't',
        "vine"@.len() == 4 && "vine"@[0] == 'v' && "vine"@[3] == 'e',
        "water_cauldron"@.len() == 14
            && "water_cauldron"@[0] == 'w'
            && "water_cauldron"@[13] == 'n',
        "waxed_copper_block"@.len() == 18
            && "waxed_copper_block"@[0] == 'w'
            && "waxed_copper_block"@[17] == 'k',
        "waxed_cut_copper"@.len() == 16
            && "waxed_cut_copper"@[0] == 'w'
            && "waxed_cut_copper"@[15] == 'r',
        "waxed_exposed_copper"@.len() == 20
            && "waxed_exposed_copper"@[0] == 'w'
            && "waxed_exposed_copper"@[19] == 'r',
        "waxed_exposed_cut_copper"@.len() == 24
            && "waxed_exposed_cut_copper"@[0] == 'w'
            && "waxed_exposed_cut_copper"@[23] == 'r',
        "waxed_oxidized_copper"@.len() == 21
            && "waxed_oxidized_copper"@[0] == 'w'
            && "waxed_oxidized_copper"@[20] == 'r',
{
    reveal_strlit("stone_brick_wall");
    reveal_strlit("stone_bricks");
    reveal_strlit("stone_slab");
    reveal_strlit("stone_stairs");
    reveal_strlit("stripped_bamboo_block");
    reveal_strlit("tinted_glass");
    reveal_strlit("torch");
    reveal_strlit("trial_spawner");
    reveal_strlit("tuff");
    reveal_strlit("tuff_brick_slab");
    reveal_strlit("tuff_brick_stairs");
    reveal_strlit("tuff_brick_wall");
    reveal_strlit("tuff_bricks");
    reveal_strlit("tuff_slab");
    reveal_strlit("tuff_stairs");
    reveal_strlit("tuff_wall");
    reveal_strlit("vault");
    reveal_strlit("vine");
    reveal_strlit("water_cauldron");
    reveal_strlit("waxed_copper_block");
    reveal_strlit("waxed_cut_copper");
    reveal_strlit("waxed_exposed_copper");
    reveal_strlit("waxed_exposed_cut_copper");
    reveal_strlit("waxed_oxidized_copper");
}

/// Length, first and last character of the table names `waxed_oxidized_cut_copper` to `yellow_candle`.
proof fn lemma_name_shapes_12()
    ensures
        "waxed_oxidized_cut_copper"@.len() == 25
            && "waxed_oxidized_cut_copper"@[0] == 'w'
            && "waxed_oxidized_cut_copper"@[24] == 'r',
        "waxed_weathered_copper"@.len() == 22
            && "waxed_weathered_copper"@[0] == 'w'
            && "waxed_weathered_copper"@[21] == 'r',
        "waxed_weathered_cut_copper"@.len() == 26
            && "waxed_weathered_cut_copper"@[0] == 'w'
            && "waxed_weathered_cut_copper"@[25] == 'r',
        "weathered_copper"@.len() == 16
            && "weathered_copper"@[0] == 'w'
            && "weathered_copper"@[15] == 'r',
        "weathered_copper_bulb"@.len() == 21
            && "weathered_copper_bulb"@[0] == 'w'
            && "weathered_copper_bulb"@[20] == 'b',
        "weathered_copper_grate"@.len() == 22
            && "weathered_copper_grate"@[0] == 'w'
            && "weathered_copper_grate"@[21] == 'e',
        "weathered_cut_copper"@.len() == 20
            && "weathered_cut_copper"@[0] == 'w'
            && "weathered_cut_copper"@[19] == 'r',
        "white_candle"@.len() == 12 && "white_candle"@[0] == 'w' && "white_candle"@[11] == 'e',
        "yellow_candle"@.len() == 13 && "yellow_candle"@[0] == 'y' && "yellow_candle"@[12] == 'e',
{
    reveal_strlit("waxed_oxidized_cut_copper");
    reveal_strlit("waxed_weathered_copper");
    reveal_strlit("waxed_weathered_cut_copper");
    reveal_strlit("weathered_copper");
    reveal_strlit("weathered_copper_bulb");
    reveal_strlit("weathered_copper_grate");
    reveal_strlit("weathered_cut_copper");
    reveal_strlit("white_candle");
    reveal_strlit("yellow_candle");
}

/// The stand-ins `andesite` to `cauldron` have no stand-in of their own.
pub(crate) proof fn lemma_stand_ins_final_1()
    ensures
        legacy_block_table("andesite"@) == None::<Seq<char>>,
        legacy_block_table("andesite_slab"@) == None::<Seq<char>>,
        legacy_block_table("andesite_stairs"@) == None::<Seq<char>>,
        legacy_block_table("andesite_wall"@) == None::<Seq<char>>,
        legacy_block_table("bamboo"@) == None::<Seq<char>>,
        legacy_block_table("basalt"@) == None::<Seq<char>>,
        legacy_block_table("birch_door"@) == None::<Seq<char>>,
        legacy_block_table("birch_fence"@) == None::<Seq<char>>,
        legacy_block_table("birch_fence_gate"@) == None::<Seq<char>>,
        legacy_block_table("birch_leaves"@) == None::<Seq<char>>,
        legacy_block_table("birch_log"@) == None::<Seq<char>>,
        legacy_block_table("birch_planks"@) == None::<Seq<char>>,
        legacy_block_table("birch_sapling"@) == None::<Seq<char>>,
        legacy_block_table("birch_slab"@) == None::<Seq<char>>,
        legacy_block_table("birch_stairs"@) == None::<Seq<char>>,
        legacy_block_table("birch_trapdoor"@) == None::<Seq<char>>,
        legacy_block_table("birch_wood"@) == None::<Seq<char>>,
        legacy_block_table("bookshelf"@) == None::<Seq<char>>,
        legacy_block_table("brick_slab"@) == None::<Seq<char>>,
        legacy_block_table("brick_stairs"@) == None::<Seq<char>>,
        legacy_block_table("brick_wall"@) == None::<Seq<char>>,
        legacy_block_table("bricks"@) == None::<Seq<char>>,
        legacy_block_table("cauldron"@) == None::<Seq<char>>,
{
    lemma_name_shapes_1();
    lemma_name_shapes_2();
    lemma_name_shapes_3();
    lemma_name_shapes_4();
    lemma_name_shapes_5();
    lemma_name_shapes_6();
    lemma_name_shapes_7();
    lemma_name_shapes_8();
    lemma_name_shapes_9();
    lemma_name_shapes_10();
    lemma_name_shapes_11();
    lemma_name_shapes_12();
}

/// The stand-ins `chiseled_stone_bricks` to `jungle_fence_gate` have no stand-in of their own.
pub(crate) proof fn lemma_stand_ins_final_2()
    ensures
        legacy_block_table("chiseled_stone_bricks"@) == None::<Seq<char>>,
        legacy_block_table("coal_ore"@) == None::<Seq<char>>,
        legacy_block_table("coarse_dirt"@) == None::<Seq<char>>,
        legacy_block_table("cobblestone"@) == None::<Seq<char>>,
        legacy_block_table("cobblestone_wall"@) == None::<Seq<char>>,
        legacy_block_table("cut_sandstone"@) == None::<Seq<char>>,
        legacy_block_table("diamond_ore"@) == None::<Seq<char>>,
        legacy_block_table("diorite"@) == None::<Seq<char>>,
        legacy_block_table("dirt"@) == None::<Seq<char>>,
        legacy_block_table("emerald_ore"@) == None::<Seq<char>>,
        legacy_block_table("end_rod"@) == None::<Seq<char>>,
        legacy_block_table("flower_pot"@) == None::<Seq<char>>,
        legacy_block_table("gold_ore"@) == None::<Seq<char>>,
        legacy_block_table("grass"@) == None::<Seq<char>>,
        legacy_block_table("grass_block"@) == None::<Seq<char>>,
        legacy_block_table("grass_path"@) == None::<Seq<char>>,
        legacy_block_table("gray_stained_glass"@) == None::<Seq<char>>,
        legacy_block_table("iron_bars"@) == None::<Seq<char>>,
        legacy_block_table("iron_block"@) == None::<Seq<char>>,
        legacy_block_table("iron_ore"@) == None::<Seq<char>>,
        legacy_block_table("jungle_door"@) == None::<Seq<char>>,
        legacy_block_table("jungle_fence"@) == None::<Seq<char>>,
        legacy_block_table("jungle_fence_gate"@) == None::<Seq<char>>,
{
    lemma_name_shapes_1();
    lemma_name_shapes_2();
    lemma_name_shapes_3();
    lemma_name_shapes_4();
    lemma_name_shapes_5();
    lemma_name_shapes_6();
    lemma_name_shapes_7();
    lemma_name_shapes_8();
    lemma_name_shapes_9();
    lemma_name_shapes_10();
    lemma_name_shapes_11();
    lemma_name_shapes_12();
}

/// The stand-ins `jungle_planks` to `pink_wool` have no stand-in of their own.
pub(crate) proof fn lemma_stand_ins_final_3()
    ensures
        legacy_block_table("jungle_planks"@) == None::<Seq<char>>,
        legacy_block_table("jungle_slab"@) == None::<Seq<char>>,
        legacy_block_table("jungle_stairs"@) == None::<Seq<char>>,
        legacy_block_table("jungle_trapdoor"@) == None::<Seq<char>>,
        legacy_block_table("lapis_ore"@) == None::<Seq<char>>,
        legacy_block_table("lily_pad"@) == None::<Seq<char>>,
        legacy_block_table("oak_button"@) == None::<Seq<char>>,
        legacy_block_table("oak_door"@) == None::<Seq<char>>,
        legacy_block_table("oak_fence"@) == None::<Seq<char>>,
        legacy_block_table("oak_fence_gate"@) == None::<Seq<char>>,
        legacy_block_table("oak_leaves"@) == None::<Seq<char>>,
        legacy_block_table("oak_log"@) == None::<Seq<char>>,
        legacy_block_table("oak_planks"@) == None::<Seq<char>>,
        legacy_block_table("oak_pressure_plate"@) == None::<Seq<char>>,
        legacy_block_table("oak_sapling"@) == None::<Seq<char>>,
        legacy_block_table("oak_sign"@) == None::<Seq<char>>,
        legacy_block_table("oak_slab"@) == None::<Seq<char>>,
        legacy_block_table("oak_stairs"@) == None::<Seq<char>>,
        legacy_block_table("oak_trapdoor"@) == None::<Seq<char>>,
        legacy_block_table("oak_wall_sign"@) == None::<Seq<char>>,
        legacy_block_table("oak_wood"@) == None::<Seq<char>>,
        legacy_block_table("pink_tulip"@) == None::<Seq<char>>,
        legacy_block_table("pink_wool"@) == None::<Seq<char>>,
{
    lemma_name_shapes_1();
    lemma_name_shapes_2();
    lemma_name_shapes_3();
    lemma_name_shapes_4();
    lemma_name_shapes_5();
    lemma_name_shapes_6();
    lemma_name_shapes_7();
    lemma_name_shapes_8();
    lemma_name_shapes_9();
    lemma_name_shapes_10();
    lemma_name_shapes_11();
    lemma_name_shapes_12();
}

/// The stand-ins `podzol` to `vine` have no stand-in of their own.
pub(crate) proof fn lemma_stand_ins_final_4()
    ensures
        legacy_block_table("podzol"@) == None::<Seq<char>>,
        legacy_block_table("polished_andesite"@) == None::<Seq<char>>,
        legacy_block_table("polished_andesite_slab"@) == None::<Seq<char>>,
        legacy_block_table("polished_andesite_stairs"@) == None::<Seq<char>>,
        legacy_block_table("purpur_block"@) == None::<Seq<char>>,
        legacy_block_table("quartz_block"@) == None::<Seq<char>>,
        legacy_block_table("redstone_lamp"@) == None::<Seq<char>>,
        legacy_block_table("redstone_ore"@) == None::<Seq<char>>,
        legacy_block_table("smooth_stone"@) == None::<Seq<char>>,
        legacy_block_table("snow_block"@) == None::<Seq<char>>,
        legacy_block_table("spawner"@) == None::<Seq<char>>,
        legacy_block_table("stone"@) == None::<Seq<char>>,
        legacy_block_table("stone_brick_slab"@) == None::<Seq<char>>,
        legacy_block_table("stone_brick_stairs"@) == None::<Seq<char>>,
        legacy_block_table("stone_brick_wall"@) == None::<Seq<char>>,
        legacy_block_table("stone_bricks"@) == None::<Seq<char>>,
        legacy_block_table("stone_slab"@) == None::<Seq<char>>,
        legacy_block_table("stone_stairs"@) == None::<Seq<char>>,
        legacy_block_table("torch"@) == None::<Seq<char>>,
        legacy_block_table("vine"@) == None::<Seq<char>>,
{
    lemma_name_shapes_1();
    lemma_name_shapes_2();
    lemma_name_shapes_3();
    lemma_name_shapes_4();
    lemma_name_shapes_5();
    lemma_name_shapes_6();
    lemma_name_shapes_7();
    lemma_name_shapes_8();
    lemma_name_shapes_9();
    lemma_name_shapes_10();
    lemma_name_shapes_11();
    lemma_name_shapes_12();
}

/// Every stand-in has no stand-in of its own, and none starts with `m`.
pub(crate) proof fn lemma_stand_ins_final(key: Seq<char>)
    ensures
        stand_in_is_final(legacy_block_table(key)),
{
    lemma_stand_ins_final_1();
    lemma_stand_ins_final_2();
    lemma_stand_ins_final_3();
    lemma_stand_ins_final_4();
    lemma_name_shapes_1();
    lemma_name_shapes_2();
    lemma_name_shapes_3();
    lemma_name_shapes_4();
    lemma_name_shapes_5();
    lemma_name_shapes_6();
    lemma_name_shapes_7();
    lemma_name_shapes_8();
    lemma_name_shapes_9();
    lemma_name_shapes_10();
    lemma_name_shapes_11();
    lemma_name_shapes_12();
}

} // verus!
