//! Target Minecraft Java version support.
//!
//! By default worlds are written in the latest Java Anvil format (1.21.x,
//! `DataVersion = 3955`, world height `-64..319`). Worlds for Java 1.16.5
//! use `DataVersion = 2586`, world height `0..255`, and a smaller block
//! palette: every block introduced after 1.16.5 is replaced by its closest
//! 1.16.5 equivalent. For [`TargetVersion::Latest`] every helper is a
//! no-op / identity.
use vstd::prelude::*;
use crate::legacy_blocks::{
    legacy_block_table,
    lemma_stand_ins_final,
    added_after_1_16_5,
    lemma_added_blocks_have_stand_ins,
    deepslate_lookup,
    tuff_lookup,
    mud_mangrove_lookup,
    cherry_lookup,
    bamboo_lookup,
    pale_oak_lookup,
    copper_lookup,
    glass_lookup,
    cave_and_misc_lookup,
    renamed_lookup,
    trial_lookup,
};
use crate::text::{
    ascii_lower, is_ascii_text, lowercase, str_eq, str_option_view, strip_prefix, to_lowercase, trim,
    trimmed,
};

verus! {

broadcast use vstd::string::group_string_axioms;

/// Which Minecraft Java release the generated world should target.
#[derive(Debug, Clone, Copy, PartialEq, Eq, Structural)]
pub enum TargetVersion {
    /// Latest supported Java release (1.21.x). No block remapping,
    /// post-1.18 chunk format, world height -64..319.
    Latest,
    /// Java 1.16.5. DataVersion 2586, world height 0..255, blocks
    /// introduced after 1.16.5 are remapped to 1.16.5-compatible
    /// substitutes.
    Java1_16_5,
}

impl Default for TargetVersion {
    fn default() -> (t: TargetVersion)
        ensures
            t == TargetVersion::Latest,
    {
        TargetVersion::Latest
    }
}

/// The target named by a command-line value that has already been trimmed
/// and lowercased.
pub open spec fn cli_target(value: Seq<char>) -> Option<TargetVersion> {
    if value == ""@ || value == "latest"@ || value == "current"@ || value == "default"@ || value
        == "auto"@ {
        Some(TargetVersion::Latest)
    } else if value == "1.16.5"@ || value == "1_16_5"@ || value == "java-1.16.5"@ || value
        == "java-1_16_5"@ || value == "1.16"@ {
        Some(TargetVersion::Java1_16_5)
    } else {
        None
    }
}

/// The message returned for an unknown command-line value.
pub open spec fn cli_error_message(value: Seq<char>) -> Seq<char> {
    "unknown target Java version `"@ + value + "` (supported: `latest`, `1.16.5`)"@
}

/// What parsing the trimmed and lowercased command-line value `value` gives.
pub open spec fn cli_outcome(value: Seq<char>, r: Result<TargetVersion, String>) -> bool {
    match r {
        Ok(t) => cli_target(value) == Some(t),
        Err(msg) => cli_target(value) == None::<TargetVersion> && msg@ == cli_error_message(value),
    }
}

/// `name` without a leading `minecraft:` namespace.
pub open spec fn unnamespaced(name: Seq<char>) -> Seq<char> {
    if "minecraft:"@.is_prefix_of(name) {
        name.skip("minecraft:"@.len() as int)
    } else {
        name
    }
}

/// The 1.16.5 stand-in for a block name, if the block postdates 1.16.5.
/// The `minecraft:` namespace is optional on input; stand-ins carry none.
pub open spec fn legacy_substitute(name: Seq<char>) -> Option<Seq<char>> {
    legacy_block_table(unnamespaced(name))
}

/// The block name written for `target`.
pub open spec fn mapped_block_name(target: TargetVersion, name: Seq<char>) -> Seq<char> {
    match target {
        TargetVersion::Latest => name,
        TargetVersion::Java1_16_5 => match legacy_substitute(name) {
            Some(s) => s,
            None => name,
        },
    }
}

/// A block name written with the `minecraft:` namespace maps like the bare
/// name: to the same stand-in when the bare name has one, and otherwise it
/// is kept exactly as given.
pub proof fn lemma_namespace_is_optional(key: Seq<char>)
    requires
        !"minecraft:"@.is_prefix_of(key),
    ensures
        legacy_substitute("minecraft:"@ + key) == legacy_block_table(key),
        legacy_substitute(key) == legacy_block_table(key),
        mapped_block_name(TargetVersion::Java1_16_5, "minecraft:"@ + key) == (match legacy_block_table(
            key,
        ) {
            Some(s) => s,
            None => "minecraft:"@ + key,
        }),
{
    let p = "minecraft:"@;
    assert((p + key).subrange(0, p.len() as int) =~= p);
    assert(p.is_prefix_of(p + key));
    assert((p + key).skip(p.len() as int) =~= key);
}

/// No block added after 1.16.5 is written unchanged for the 1.16.5 target:
/// with or without the `minecraft:` namespace, it is replaced by a stand-in
/// that differs from it and has no stand-in of its own.
pub proof fn lemma_newer_blocks_are_replaced(key: Seq<char>)
    requires
        added_after_1_16_5(key),
    ensures
        legacy_substitute(key) is Some,
        mapped_block_name(TargetVersion::Java1_16_5, key) != key,
        mapped_block_name(TargetVersion::Java1_16_5, "minecraft:"@ + key) == mapped_block_name(
            TargetVersion::Java1_16_5,
            key,
        ),
        legacy_substitute(mapped_block_name(TargetVersion::Java1_16_5, key)) == None::<Seq<char>>,
{
    lemma_added_blocks_have_stand_ins(key);
    reveal_strlit("minecraft:");
    if "minecraft:"@.is_prefix_of(key) {
        assert(key.subrange(0, 10)[0] == key[0]);
        assert(key.subrange(0, 10)[1] == key[1]);
    }
    lemma_namespace_is_optional(key);
    lemma_stand_ins_are_final(key);
}

/// Substitution only happens for the 1.16.5 target: for the latest release
/// every name is written unchanged.
pub proof fn lemma_latest_keeps_names(name: Seq<char>)
    ensures
        mapped_block_name(TargetVersion::Latest, name) == name,
{
}

/// A stand-in, when a name has one, is an unprefixed name that has no
/// stand-in of its own, and so differs from the name it replaces.
pub open spec fn is_final_stand_in(name: Seq<char>, stand_in: Seq<char>) -> bool {
    &&& legacy_substitute(stand_in) == None::<Seq<char>>
    &&& !"minecraft:"@.is_prefix_of(stand_in)
    &&& stand_in != name
}

/// Every stand-in is final: it carries no `minecraft:` namespace, has no
/// stand-in of its own, and differs from the name it replaces.
pub proof fn lemma_stand_ins_are_final(name: Seq<char>)
    ensures
        legacy_substitute(name) matches Some(r) ==> is_final_stand_in(name, r),
{
    lemma_stand_ins_final(unnamespaced(name));
    if let Some(r) = legacy_substitute(name) {
        reveal_strlit("minecraft:");
        if "minecraft:"@.is_prefix_of(r) {
            assert(r.subrange(0, "minecraft:"@.len() as int)[0] == r[0]);
        }
        assert(unnamespaced(r) == r);
    }
}

/// Stand-ins are final: no stand-in has a stand-in of its own, so mapping
/// a name a second time changes nothing.
pub proof fn lemma_mapping_is_final(name: Seq<char>)
    ensures
        mapped_block_name(
            TargetVersion::Java1_16_5,
            mapped_block_name(TargetVersion::Java1_16_5, name),
        ) == mapped_block_name(TargetVersion::Java1_16_5, name),
{
    lemma_stand_ins_final(unnamespaced(name));
    if let Some(s) = legacy_substitute(name) {
        reveal_strlit("minecraft:");
        if "minecraft:"@.is_prefix_of(s) {
            assert(s.subrange(0, "minecraft:"@.len() as int)[0] == s[0]);
        }
        assert(unnamespaced(s) == s);
    }
}

impl TargetVersion {
    /// Parse a CLI value such as `latest` or `1.16.5`. Surrounding
    /// whitespace and letter case are ignored, and a small number of common
    /// aliases are accepted. Returns a user-facing error message on unknown
    /// input.
    pub fn parse_cli(s: &str) -> (r: Result<Self, String>)
        ensures
            cli_outcome(lowercase(trimmed(s@)), r),
            is_ascii_text(trimmed(s@)) ==> cli_outcome(
                trimmed(s@).map_values(|c: char| ascii_lower(c)),
                r,
            ),
    {
        let lower = to_lowercase(trim(s));
        Self::parse_normalized_cli(lower.as_str())
    }

    /// Parse a CLI value that is already trimmed and lowercased.
    pub fn parse_normalized_cli(value: &str) -> (r: Result<Self, String>)
        ensures
            cli_outcome(value@, r),
    {
        if str_eq(value, "") || str_eq(value, "latest") || str_eq(value, "current") || str_eq(
            value,
            "default",
        ) || str_eq(value, "auto") {
            Ok(TargetVersion::Latest)
        } else if str_eq(value, "1.16.5") || str_eq(value, "1_16_5") || str_eq(value, "java-1.16.5")
            || str_eq(value, "java-1_16_5") || str_eq(value, "1.16") {
            Ok(TargetVersion::Java1_16_5)
        } else {
            let mut msg = String::from_str("unknown target Java version `");
            msg.append(value);
            msg.append("` (supported: `latest`, `1.16.5`)");
            Err(msg)
        }
    }

    /// Integer DataVersion stamped into chunk NBT: 3955 is 1.21.1, 2586 is
    /// 1.16.5.
    pub fn data_version(self) -> (v: i32)
        ensures
            v == (match self {
                TargetVersion::Latest => 3955i32,
                TargetVersion::Java1_16_5 => 2586i32,
            }),
    {
        match self {
            TargetVersion::Latest => 3955,
            TargetVersion::Java1_16_5 => 2586,
        }
    }

    /// Lowest world Y that the target accepts.
    pub fn min_y(self) -> (y: i32)
        ensures
            y == (match self {
                TargetVersion::Latest => -64i32,
                TargetVersion::Java1_16_5 => 0i32,
            }),
    {
        match self {
            TargetVersion::Latest => -64,
            TargetVersion::Java1_16_5 => 0,
        }
    }

    /// Highest world Y that the target accepts (inclusive).
    pub fn max_y(self) -> (y: i32)
        ensures
            y == (match self {
                TargetVersion::Latest => 319i32,
                TargetVersion::Java1_16_5 => 255i32,
            }),
    {
        match self {
            TargetVersion::Latest => 319,
            TargetVersion::Java1_16_5 => 255,
        }
    }

    /// True when the target uses the post-1.18 chunk schema; false for
    /// [`TargetVersion::Java1_16_5`], which needs the legacy layout.
    pub fn supports_modern_chunk_format(self) -> (b: bool)
        ensures
            b == (self != TargetVersion::Java1_16_5),
    {
        !matches!(self, TargetVersion::Java1_16_5)
    }

    /// Map a Minecraft block name to the closest 1.16.5-compatible
    /// substitute. Returns `name` unchanged when targeting
    /// [`TargetVersion::Latest`] or when the name is already valid in 1.16.5.
    pub fn map_block_name<'a>(self, name: &'a str) -> (r: &'a str)
        ensures
            r@ == mapped_block_name(self, name@),
            self == TargetVersion::Latest ==> r@ == name@,
    {
        if !matches!(self, TargetVersion::Java1_16_5) {
            return name;
        }
        match legacy_block_substitute(name) {
            Some(s) => s,
            None => name,
        }
    }
}

/// Closest 1.16.5 substitute for a block introduced after 1.16.5, or `None`
/// when `name` is already valid in 1.16.5. The `minecraft:` namespace is
/// optional; the returned name is unprefixed.
fn legacy_block_substitute(name: &str) -> (r: Option<&'static str>)
    ensures
        str_option_view(r) == legacy_substitute(name@),
{
    let key = match strip_prefix(name, "minecraft:") {
        Some(rest) => rest,
        None => name,
    };
    if let Some(s) = deepslate_lookup(key) {
        return Some(s);
    }
    if let Some(s) = tuff_lookup(key) {
        return Some(s);
    }
    if let Some(s) = mud_mangrove_lookup(key) {
        return Some(s);
    }
    if let Some(s) = cherry_lookup(key) {
        return Some(s);
    }
    if let Some(s) = bamboo_lookup(key) {
        return Some(s);
    }
    if let Some(s) = pale_oak_lookup(key) {
        return Some(s);
    }
    if let Some(s) = copper_lookup(key) {
        return Some(s);
    }
    if let Some(s) = glass_lookup(key) {
        return Some(s);
    }
    if let Some(s) = cave_and_misc_lookup(key) {
        return Some(s);
    }
    if let Some(s) = renamed_lookup(key) {
        return Some(s);
    }
    if let Some(s) = trial_lookup(key) {
        return Some(s);
    }
    None
}

} // verus!
