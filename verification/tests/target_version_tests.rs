use arnis::target_version::TargetVersion;

#[test]
fn parse_aliases() {
    assert_eq!(
        TargetVersion::parse_cli("latest").unwrap(),
        TargetVersion::Latest
    );
    assert_eq!(
        TargetVersion::parse_cli("default").unwrap(),
        TargetVersion::Latest
    );
    assert_eq!(
        TargetVersion::parse_cli("1.16.5").unwrap(),
        TargetVersion::Java1_16_5
    );
    assert_eq!(
        TargetVersion::parse_cli("java-1.16.5").unwrap(),
        TargetVersion::Java1_16_5
    );
    assert_eq!(
        TargetVersion::parse_cli("1_16_5").unwrap(),
        TargetVersion::Java1_16_5
    );
    assert!(TargetVersion::parse_cli("1.20").is_err());
}

#[test]
fn data_version_and_height() {
    assert_eq!(TargetVersion::Latest.data_version(), 3955);
    assert_eq!(TargetVersion::Java1_16_5.data_version(), 2586);
    assert_eq!(TargetVersion::Latest.min_y(), -64);
    assert_eq!(TargetVersion::Latest.max_y(), 319);
    assert_eq!(TargetVersion::Java1_16_5.min_y(), 0);
    assert_eq!(TargetVersion::Java1_16_5.max_y(), 255);
}

#[test]
fn modern_format_only_for_latest() {
    assert!(TargetVersion::Latest.supports_modern_chunk_format());
    assert!(!TargetVersion::Java1_16_5.supports_modern_chunk_format());
}

#[test]
fn no_remap_for_latest() {
    let t = TargetVersion::Latest;
    for n in ["deepslate", "tuff", "mud_bricks", "tinted_glass", "stone"] {
        assert_eq!(t.map_block_name(n), n);
    }
}

#[test]
fn remap_post_1_16_blocks() {
    let t = TargetVersion::Java1_16_5;
    assert_eq!(t.map_block_name("deepslate"), "cobblestone");
    assert_eq!(t.map_block_name("polished_deepslate"), "stone");
    assert_eq!(t.map_block_name("deepslate_bricks"), "stone_bricks");
    assert_eq!(t.map_block_name("tuff"), "andesite");
    assert_eq!(t.map_block_name("mud_bricks"), "bricks");
    assert_eq!(t.map_block_name("dirt_path"), "grass_path");
    assert_eq!(t.map_block_name("short_grass"), "grass");
    assert_eq!(t.map_block_name("tinted_glass"), "gray_stained_glass");
    assert_eq!(t.map_block_name("quartz_bricks"), "quartz_block");
    assert_eq!(t.map_block_name("lightning_rod"), "iron_bars");
    assert_eq!(t.map_block_name("copper_block"), "iron_block");
    assert_eq!(t.map_block_name("calcite"), "diorite");
    assert_eq!(t.map_block_name("amethyst_block"), "purpur_block");
    assert_eq!(t.map_block_name("moss_block"), "grass_block");
}

#[test]
fn remap_accepts_namespaced_input() {
    let t = TargetVersion::Java1_16_5;
    assert_eq!(t.map_block_name("minecraft:deepslate"), "cobblestone");
    assert_eq!(t.map_block_name("minecraft:tuff"), "andesite");
}

#[test]
fn unknown_blocks_pass_through() {
    let t = TargetVersion::Java1_16_5;
    // Already valid in 1.16.5 → unchanged.
    assert_eq!(t.map_block_name("stone"), "stone");
    assert_eq!(t.map_block_name("oak_planks"), "oak_planks");
    assert_eq!(t.map_block_name("bricks"), "bricks");
}

#[test]
fn parse_ignores_surrounding_whitespace_and_case() {
    assert_eq!(
        TargetVersion::parse_cli("  LATEST\t").unwrap(),
        TargetVersion::Latest
    );
    assert_eq!(
        TargetVersion::parse_cli(" Java-1.16.5 ").unwrap(),
        TargetVersion::Java1_16_5
    );
    assert_eq!(TargetVersion::parse_cli("   ").unwrap(), TargetVersion::Latest);
    assert_eq!(TargetVersion::parse_cli("AUTO").unwrap(), TargetVersion::Latest);
    assert_eq!(TargetVersion::parse_cli("1.16").unwrap(), TargetVersion::Java1_16_5);
}

#[test]
fn parse_error_names_the_normalised_value() {
    assert_eq!(
        TargetVersion::parse_cli(" Beta ").unwrap_err(),
        "unknown target Java version `beta` (supported: `latest`, `1.16.5`)"
    );
    assert_eq!(
        TargetVersion::parse_normalized_cli("1.17").unwrap_err(),
        "unknown target Java version `1.17` (supported: `latest`, `1.16.5`)"
    );
}

#[test]
fn normalized_parse_is_exact() {
    assert_eq!(
        TargetVersion::parse_normalized_cli("current").unwrap(),
        TargetVersion::Latest
    );
    assert_eq!(
        TargetVersion::parse_normalized_cli("java-1_16_5").unwrap(),
        TargetVersion::Java1_16_5
    );
    // Not trimmed or lowercased here.
    assert!(TargetVersion::parse_normalized_cli("Latest").is_err());
    assert!(TargetVersion::parse_normalized_cli(" latest").is_err());
}

#[test]
fn default_target_is_latest() {
    assert_eq!(TargetVersion::default(), TargetVersion::Latest);
}

#[test]
fn remap_families() {
    let t = TargetVersion::Java1_16_5;
    assert_eq!(t.map_block_name("cobbled_deepslate"), "cobblestone");
    assert_eq!(t.map_block_name("deepslate_diamond_ore"), "diamond_ore");
    assert_eq!(t.map_block_name("polished_tuff_wall"), "andesite_wall");
    assert_eq!(t.map_block_name("mangrove_roots"), "oak_log");
    assert_eq!(t.map_block_name("cherry_leaves"), "pink_wool");
    assert_eq!(t.map_block_name("bamboo_mosaic_stairs"), "jungle_stairs");
    assert_eq!(t.map_block_name("pale_hanging_moss"), "vine");
    assert_eq!(t.map_block_name("waxed_oxidized_cut_copper"), "cut_sandstone");
    assert_eq!(t.map_block_name("oxidized_copper_bulb"), "redstone_lamp");
    assert_eq!(t.map_block_name("big_dripleaf_stem"), "lily_pad");
    assert_eq!(t.map_block_name("lava_cauldron"), "cauldron");
    assert_eq!(t.map_block_name("vault"), "spawner");
    assert_eq!(t.map_block_name("light_gray_candle"), "torch");
    assert_eq!(t.map_block_name("raw_copper_block"), "iron_block");
    assert_eq!(t.map_block_name("copper_ore"), "iron_ore");
}

#[test]
fn namespaced_name_without_substitute_is_kept() {
    let t = TargetVersion::Java1_16_5;
    assert_eq!(t.map_block_name("minecraft:stone"), "minecraft:stone");
    assert_eq!(
        TargetVersion::Latest.map_block_name("minecraft:deepslate"),
        "minecraft:deepslate"
    );
    // Only one namespace prefix is removed.
    assert_eq!(
        t.map_block_name("minecraft:minecraft:tuff"),
        "minecraft:minecraft:tuff"
    );
}

#[test]
fn pale_moss_maps_to_final_stand_ins() {
    let t = TargetVersion::Java1_16_5;
    assert_eq!(t.map_block_name("pale_moss_block"), "grass_block");
    assert_eq!(t.map_block_name("pale_moss_carpet"), "vine");
    for n in ["pale_moss_block", "minecraft:pale_moss_carpet"] {
        let once = t.map_block_name(n);
        assert_eq!(t.map_block_name(once), once);
    }
}

#[test]
fn mapping_twice_changes_nothing_else() {
    let t = TargetVersion::Java1_16_5;
    for n in [
        "deepslate",
        "minecraft:tuff_brick_wall",
        "cherry_leaves",
        "mud",
        "stone",
        "pale_oak_log",
        "trial_spawner",
        "copper_grate",
        "raw_copper_block",
        "minecraft:dirt_path",
    ] {
        let once = t.map_block_name(n);
        assert_eq!(t.map_block_name(once), once);
    }
}
