//! Saved worlds: names, directory slugs, seeds, the text of a world's metadata file and the
//! decisions the world list makes.

use vstd::prelude::*;
use vstd::string::StringSliceAdditionalSpecFns;
use crate::inventory::GameMode;
use crate::menu::{
    game_mode_name, parse_bool, parse_game_mode, spec_game_mode_name, spec_parse_bool, spec_parse_game_mode, Difficulty,
};
use crate::text::{
    append_str, chars_of, decimal, is_ascii_alnum, lower_char, parse_i64, parse_i64_chars, push_char, string_from_chars,
    strip_char, strip_end_char, strip_start_char, trim, trimmed_chars, u64_to_decimal, ascii_lowercase, chars_equal,
    normalized_chars, parse_unsigned, parse_unsigned_chars,
};

verus! {

/// Longest world name, in characters, that the menu keeps.
pub const WORLD_NAME_LIMIT: usize = 24;

/// Characters a world name may hold: ASCII letters and digits, space, `-` and `_`.
pub open spec fn is_name_char(c: char) -> bool {
    is_ascii_alnum(c) || c == ' ' || c == '-' || c == '_'
}

/// The characters of `s` that a world name may hold, in order.
pub open spec fn name_chars(s: Seq<char>) -> Seq<char>
    decreases s.len(),
{
    if s.len() == 0 {
        s
    } else if is_name_char(s.last()) {
        name_chars(s.drop_last()).push(s.last())
    } else {
        name_chars(s.drop_last())
    }
}

/// A typed world name made safe: the allowed characters, at most the first
/// `WORLD_NAME_LIMIT` of them, without surrounding white space.
pub open spec fn spec_sanitize_name(s: Seq<char>) -> Seq<char> {
    let f = name_chars(s);
    trim(if f.len() <= WORLD_NAME_LIMIT { f } else { f.subrange(0, WORLD_NAME_LIMIT as int) })
}

fn char_is_name_char(c: char) -> (r: bool)
    ensures
        r == is_name_char(c),
{
    let u = c as u32;
    (65 <= u && u <= 90) || (97 <= u && u <= 122) || (48 <= u && u <= 57) || c == ' ' || c == '-' || c == '_'
}

/// Make a typed world name safe to show and store.
pub fn sanitize_name(value: &str) -> (r: String)
    ensures
        r@ == spec_sanitize_name(value@),
{
    let v = chars_of(value);
    let mut kept: Vec<char> = Vec::new();
    let mut i: usize = 0;
    while i < v.len()
        invariant
            i <= v@.len(),
            v@ == value@,
            kept@ == name_chars(v@.subrange(0, i as int)),
        decreases v.len() - i,
    {
        proof {
            assert(v@.subrange(0, i + 1).drop_last() =~= v@.subrange(0, i as int));
        }
        if char_is_name_char(v[i]) {
            kept.push(v[i]);
        }
        i += 1;
    }
    proof {
        assert(v@.subrange(0, v@.len() as int) =~= v@);
    }
    let mut capped: Vec<char> = Vec::new();
    let mut j: usize = 0;
    while j < kept.len() && j < WORLD_NAME_LIMIT
        invariant
            j <= kept@.len(),
            j <= WORLD_NAME_LIMIT,
            capped@ == kept@.subrange(0, j as int),
        decreases kept.len() - j,
    {
        capped.push(kept[j]);
        proof {
            assert(kept@.subrange(0, j + 1) =~= kept@.subrange(0, j as int).push(kept@[j as int]));
        }
        j += 1;
    }
    proof {
        if kept@.len() <= WORLD_NAME_LIMIT {
            assert(capped@ =~= kept@);
        }
    }
    let joined = string_from_chars(&capped);
    let t = trimmed_chars(joined.as_str());
    string_from_chars(&t)
}

/// The directory name built so far from `s`: ASCII letters and digits in lower case, and each
/// run of other characters as one `_`.
pub open spec fn slug_chars(s: Seq<char>) -> Seq<char>
    decreases s.len(),
{
    if s.len() == 0 {
        Seq::empty()
    } else {
        let r = slug_chars(s.drop_last());
        let c = s.last();
        if is_ascii_alnum(c) {
            r.push(lower_char(c))
        } else if r.len() > 0 && r.last() == '_' {
            r
        } else {
            r.push('_')
        }
    }
}

/// Directory name for a world called `s`: its slug without leading or trailing `_`, or
/// "new_world" when nothing is left.
pub open spec fn spec_slugify(s: Seq<char>) -> Seq<char> {
    let t = strip_end_char(strip_start_char(slug_chars(s), '_'), '_');
    if t.len() == 0 {
        "new_world"@
    } else {
        t
    }
}

/// Directory name for a world.
pub fn slugify(value: &str) -> (r: String)
    ensures
        r@ == spec_slugify(value@),
{
    let v = chars_of(value);
    let mut slug: Vec<char> = Vec::new();
    let mut i: usize = 0;
    while i < v.len()
        invariant
            i <= v@.len(),
            v@ == value@,
            slug@ == slug_chars(v@.subrange(0, i as int)),
        decreases v.len() - i,
    {
        proof {
            assert(v@.subrange(0, i + 1).drop_last() =~= v@.subrange(0, i as int));
        }
        let c = v[i];
        let u = c as u32;
        if (65 <= u && u <= 90) || (97 <= u && u <= 122) || (48 <= u && u <= 57) {
            let lower = if 65 <= u && u <= 90 {
                ((u + 32) as u8) as char
            } else {
                c
            };
            slug.push(lower);
        } else if !(slug.len() > 0 && slug[slug.len() - 1] == '_') {
            slug.push('_');
        }
        i += 1;
    }
    proof {
        assert(v@.subrange(0, v@.len() as int) =~= v@);
    }
    let t = strip_char(&slug, '_');
    if t.len() == 0 {
        String::from_str("new_world")
    } else {
        string_from_chars(&t)
    }
}

/// 32-bit FNV-1a hash of `bytes`.
pub open spec fn fnv1a(bytes: Seq<u8>) -> u32
    decreases bytes.len(),
{
    if bytes.len() == 0 {
        2166136261
    } else {
        (((fnv1a(bytes.drop_last()) ^ (bytes.last() as u32)) as nat * 16777619nat) % 4294967296nat) as u32
    }
}

/// Seed that a non-numeric seed text stands for: the FNV-1a hash of its UTF-8 bytes.
pub fn hash_seed(value: &str) -> (r: u32)
    ensures
        r == fnv1a(value.spec_bytes()),
{
    let bytes = value.as_bytes();
    let mut hash: u32 = 2166136261;
    let mut i: usize = 0;
    while i < bytes.len()
        invariant
            i <= bytes@.len(),
            bytes@ == value.spec_bytes(),
            hash == fnv1a(bytes@.subrange(0, i as int)),
        decreases bytes.len() - i,
    {
        proof {
            assert(bytes@.subrange(0, i + 1).drop_last() =~= bytes@.subrange(0, i as int));
        }
        hash = (hash ^ bytes[i] as u32).wrapping_mul(16777619);
        i += 1;
    }
    proof {
        assert(bytes@.subrange(0, bytes@.len() as int) =~= bytes@);
    }
    hash
}

/// Seed of a new world: with an empty (or blank) seed text a seed mixed from the clock, `now`;
/// with a text that reads as a signed 64-bit number, its low 32 bits; else the hash of the text
/// as typed.
pub open spec fn spec_creation_seed(text: Seq<char>, bytes: Seq<u8>, now: u64) -> u32 {
    if trim(text).len() == 0 {
        (((((now as nat) % 4294967296nat) * 747796405nat) % 4294967296nat + 2891336453nat) % 4294967296nat) as u32
    } else {
        match parse_i64(trim(text)) {
            Some(v) => (v % 4294967296) as u32,
            None => fnv1a(bytes),
        }
    }
}

/// Seed of a new world from the typed seed text and the current time.
pub fn creation_seed(text: &str, now: u64) -> (r: u32)
    ensures
        r == spec_creation_seed(text@, text.spec_bytes(), now),
{
    let t = trimmed_chars(text);
    if t.len() == 0 {
        let low = (now % 4294967296) as u32;
        low.wrapping_mul(747796405).wrapping_add(2891336453)
    } else {
        match parse_i64_chars(&t) {
            Some(v) => {
                let w: i128 = v as i128;
                let m: i128 = w % 4294967296;
                let m2: i128 = if m < 0 { m + 4294967296 } else { m };
                proof {
                    assert(m2 == (v as int) % 4294967296);
                }
                m2 as u32
            },
            None => hash_seed(text),
        }
    }
}

/// Label of when a world was last played, from whole days between `timestamp` and `now`.
pub open spec fn spec_relative_time(now: u64, timestamp: u64) -> Seq<char> {
    let days = if now >= timestamp { ((now - timestamp) / 86400) as nat } else { 0nat };
    if days == 0 {
        "PLAYED TODAY"@
    } else if days == 1 {
        "PLAYED YESTERDAY"@
    } else {
        "PLAYED "@ + decimal(days) + " DAYS AGO"@
    }
}

/// When a world was last played, as the world list shows it, at time `now` (seconds since the
/// Unix epoch).
pub fn relative_time_at(now: u64, timestamp: u64) -> (r: String)
    ensures
        r@ == spec_relative_time(now, timestamp),
{
    let days = now.saturating_sub(timestamp) / 86400;
    if days == 0 {
        String::from_str("PLAYED TODAY")
    } else if days == 1 {
        String::from_str("PLAYED YESTERDAY")
    } else {
        let mut s = String::from_str("PLAYED ");
        let d = u64_to_decimal(days);
        append_str(&mut s, d.as_str());
        append_str(&mut s, " DAYS AGO");
        s
    }
}

/// The terrain a world is made with.
#[derive(Debug, Clone, Copy, PartialEq, Eq, Structural)]
pub enum WorldType {
    Default,
    Superflat,
}

impl WorldType {
    pub open spec fn spec_as_str(self) -> Seq<char> {
        match self {
            WorldType::Default => "DEFAULT"@,
            WorldType::Superflat => "SUPERFLAT"@,
        }
    }

    /// Name of the world type as the menus and the metadata file show it.
    pub fn as_str(self) -> (r: &'static str)
        ensures
            r@ == self.spec_as_str(),
    {
        match self {
            WorldType::Default => "DEFAULT",
            WorldType::Superflat => "SUPERFLAT",
        }
    }

    /// "superflat" in any ASCII case around white space; Default for anything else.
    pub open spec fn spec_parse(value: Seq<char>) -> WorldType {
        if ascii_lowercase(trim(value)) == "superflat"@ {
            WorldType::Superflat
        } else {
            WorldType::Default
        }
    }

    /// Read a world type from a saved value.
    pub fn parse(value: &str) -> (r: WorldType)
        ensures
            r == Self::spec_parse(value@),
    {
        let v = normalized_chars(value);
        if chars_equal(&v, "superflat") {
            WorldType::Superflat
        } else {
            WorldType::Default
        }
    }
}

/// The choices made when a world was created.
#[derive(Debug, Clone, Copy, PartialEq, Eq, Structural)]
pub struct WorldCreationOptions {
    pub world_type: WorldType,
    pub generate_structures: bool,
    pub bonus_chest: bool,
    pub cheats_enabled: bool,
    pub hardcore: bool,
}

impl WorldCreationOptions {
    /// Default terrain with structures, and no bonus chest, cheats or hardcore.
    pub open spec fn spec_default() -> WorldCreationOptions {
        WorldCreationOptions {
            world_type: WorldType::Default,
            generate_structures: true,
            bonus_chest: false,
            cheats_enabled: false,
            hardcore: false,
        }
    }
}

impl Default for WorldCreationOptions {
    fn default() -> (r: WorldCreationOptions)
        ensures
            r == WorldCreationOptions::spec_default(),
    {
        WorldCreationOptions {
            world_type: WorldType::Default,
            generate_structures: true,
            bonus_chest: false,
            cheats_enabled: false,
            hardcore: false,
        }
    }
}

/// Format version that worlds are saved in now; older ones are backed up before they are
/// played.
pub const CURRENT_WORLD_FORMAT_VERSION: u32 = 3;

/// What a world's metadata file records.
pub struct WorldMetadata {
    pub name: String,
    pub seed: u32,
    pub game_mode: GameMode,
    pub difficulty: Difficulty,
    pub last_played: u64,
    pub world_type: WorldType,
    pub generate_structures: bool,
    pub bonus_chest: bool,
    pub cheats_enabled: bool,
    pub hardcore: bool,
    pub version: u32,
    pub needs_upgrade: bool,
}

/// The metadata of a world as values.
pub struct MetaView {
    pub name: Seq<char>,
    pub seed: u32,
    pub game_mode: GameMode,
    pub difficulty: Difficulty,
    pub last_played: u64,
    pub world_type: WorldType,
    pub generate_structures: bool,
    pub bonus_chest: bool,
    pub cheats_enabled: bool,
    pub hardcore: bool,
    pub version: u32,
    pub needs_upgrade: bool,
}

impl View for WorldMetadata {
    type V = MetaView;

    open spec fn view(&self) -> MetaView {
        MetaView {
            name: self.name@,
            seed: self.seed,
            game_mode: self.game_mode,
            difficulty: self.difficulty,
            last_played: self.last_played,
            world_type: self.world_type,
            generate_structures: self.generate_structures,
            bonus_chest: self.bonus_chest,
            cheats_enabled: self.cheats_enabled,
            hardcore: self.hardcore,
            version: self.version,
            needs_upgrade: self.needs_upgrade,
        }
    }
}

/// What the metadata file has given so far while it is read; `name` is absent until a name
/// line comes.
pub struct MetaFields {
    pub name: Option<Seq<char>>,
    pub seed: u32,
    pub game_mode: GameMode,
    pub difficulty: Difficulty,
    pub last_played: u64,
    pub world_type: WorldType,
    pub generate_structures: bool,
    pub bonus_chest: bool,
    pub cheats_enabled: bool,
    pub hardcore: bool,
    pub version: u32,
    pub needs_upgrade: bool,
}

/// The values before any line is read.
pub open spec fn initial_fields() -> MetaFields {
    MetaFields {
        name: None,
        seed: 12345,
        game_mode: GameMode::Survival,
        difficulty: Difficulty::Normal,
        last_played: 0,
        world_type: WorldType::Default,
        generate_structures: true,
        bonus_chest: false,
        cheats_enabled: false,
        hardcore: false,
        version: 0,
        needs_upgrade: false,
    }
}

/// Position of the first `c` in `s` at or after `i`; -1 when there is none.
pub open spec fn find_char(s: Seq<char>, c: char, i: int) -> int
    decreases s.len() - i,
{
    if i < 0 || i >= s.len() {
        -1
    } else if s[i] == c {
        i
    } else {
        find_char(s, c, i + 1)
    }
}

pub proof fn lemma_find_char_range(s: Seq<char>, c: char, i: int)
    requires
        0 <= i,
    ensures
        find_char(s, c, i) == -1 || (i <= find_char(s, c, i) < s.len() && s[find_char(s, c, i)] == c),
    decreases s.len() - i,
{
    if i < s.len() && s[i] != c {
        lemma_find_char_range(s, c, i + 1);
    }
}

/// `value` read as an unsigned number no larger than `max`, or `fallback`.
pub open spec fn number_or(value: Seq<char>, max: nat, fallback: int) -> int {
    match parse_unsigned(trim(value), max) {
        Some(v) => v as int,
        None => fallback,
    }
}

/// One `key:value` line of the metadata file applied to `m`; the key is read without surrounding
/// white space, the value is what follows the first `:`. Lines without `:` and unknown keys
/// change nothing; a number that does not read keeps the value before it, except the last
/// played time, which becomes 0.
pub open spec fn apply_line(m: MetaFields, line: Seq<char>) -> MetaFields {
    let k = find_char(line, ':', 0);
    if k < 0 {
        m
    } else {
        let key = trim(line.subrange(0, k));
        let value = line.subrange(k + 1, line.len() as int);
        if key == "name"@ {
            MetaFields { name: Some(trim(value)), ..m }
        } else if key == "seed"@ {
            MetaFields { seed: number_or(value, u32::MAX as nat, m.seed as int) as u32, ..m }
        } else if key == "game_mode"@ {
            MetaFields { game_mode: spec_parse_game_mode(value), ..m }
        } else if key == "difficulty"@ {
            MetaFields { difficulty: Difficulty::spec_parse(value), ..m }
        } else if key == "last_played"@ {
            MetaFields { last_played: number_or(value, u64::MAX as nat, 0) as u64, ..m }
        } else if key == "world_type"@ {
            MetaFields { world_type: WorldType::spec_parse(value), ..m }
        } else if key == "generate_structures"@ {
            MetaFields { generate_structures: spec_parse_bool(value, m.generate_structures), ..m }
        } else if key == "bonus_chest"@ {
            MetaFields { bonus_chest: spec_parse_bool(value, m.bonus_chest), ..m }
        } else if key == "cheats"@ || key == "cheats_enabled"@ {
            MetaFields { cheats_enabled: spec_parse_bool(value, m.cheats_enabled), ..m }
        } else if key == "hardcore"@ {
            MetaFields { hardcore: spec_parse_bool(value, m.hardcore), ..m }
        } else if key == "version"@ || key == "format_version"@ {
            MetaFields { version: number_or(value, u32::MAX as nat, m.version as int) as u32, ..m }
        } else if key == "needs_upgrade"@ {
            MetaFields { needs_upgrade: spec_parse_bool(value, m.needs_upgrade), ..m }
        } else {
            m
        }
    }
}

/// `line` without one `\r` at its end.
pub open spec fn strip_cr(line: Seq<char>) -> Seq<char> {
    if line.len() > 0 && line.last() == '\r' {
        line.drop_last()
    } else {
        line
    }
}

/// The lines of `s` applied to `m` in order. Lines end at `\n`, and a `\r` just before it is
/// not part of the line; the last line needs no `\n` (as `str::lines` splits them).
pub open spec fn meta_fold(m: MetaFields, s: Seq<char>) -> MetaFields
    decreases s.len(),
{
    if s.len() == 0 {
        m
    } else {
        let i = find_char(s, '\n', 0);
        if i < 0 {
            apply_line(m, s)
        } else {
            proof {
                lemma_find_char_range(s, '\n', 0);
            }
            meta_fold(apply_line(m, strip_cr(s.subrange(0, i))), s.subrange(i + 1, s.len() as int))
        }
    }
}

/// The metadata that a file holding `contents` records: none without a name line; a world
/// saved in an older format than the current one needs an upgrade.
pub open spec fn spec_parse_world_metadata(contents: Seq<char>) -> Option<MetaView> {
    let f = meta_fold(initial_fields(), contents);
    match f.name {
        Some(n) => Some(
            MetaView {
                name: n,
                seed: f.seed,
                game_mode: f.game_mode,
                difficulty: f.difficulty,
                last_played: f.last_played,
                world_type: f.world_type,
                generate_structures: f.generate_structures,
                bonus_chest: f.bonus_chest,
                cheats_enabled: f.cheats_enabled,
                hardcore: f.hardcore,
                version: f.version,
                needs_upgrade: f.needs_upgrade || f.version < CURRENT_WORLD_FORMAT_VERSION,
            },
        ),
        None => None,
    }
}

/// Text of a boolean as the file holds it.
pub open spec fn bool_text(b: bool) -> Seq<char> {
    if b {
        "true"@
    } else {
        "false"@
    }
}

/// One `key:value` line.
pub open spec fn field_line(key: Seq<char>, value: Seq<char>) -> Seq<char> {
    key + seq![':'] + value
}

/// The lines `ls`, each followed by a line end.
pub open spec fn lines_text(ls: Seq<Seq<char>>) -> Seq<char>
    decreases ls.len(),
{
    if ls.len() == 0 {
        Seq::empty()
    } else {
        ls[0] + seq!['\n'] + lines_text(ls.drop_first())
    }
}

pub proof fn lemma_lines_text_push(ls: Seq<Seq<char>>, l: Seq<char>)
    ensures
        lines_text(ls.push(l)) == lines_text(ls) + l + seq!['\n'],
    decreases ls.len(),
{
    if ls.len() == 0 {
        assert(ls.push(l).drop_first() =~= Seq::<Seq<char>>::empty());
        assert(lines_text(ls.push(l).drop_first()) == Seq::<char>::empty());
        assert(ls.push(l)[0] == l);
        assert(lines_text(ls) == Seq::<char>::empty());
        assert(lines_text(ls.push(l)) =~= l + seq!['\n']);
    } else {
        assert(ls.push(l).drop_first() =~= ls.drop_first().push(l));
        lemma_lines_text_push(ls.drop_first(), l);
        assert(lines_text(ls.push(l)) =~= lines_text(ls) + l + seq!['\n']);
    }
}

/// The lines of a world's metadata file: one `key:value` line per field, in a fixed order.
pub open spec fn metadata_lines(m: MetaView) -> Seq<Seq<char>> {
    seq![
        field_line("name"@, m.name),
        field_line("seed"@, decimal(m.seed as nat)),
        field_line("game_mode"@, spec_game_mode_name(m.game_mode)),
        field_line("difficulty"@, m.difficulty.spec_as_str()),
        field_line("last_played"@, decimal(m.last_played as nat)),
        field_line("world_type"@, m.world_type.spec_as_str()),
        field_line("generate_structures"@, bool_text(m.generate_structures)),
        field_line("bonus_chest"@, bool_text(m.bonus_chest)),
        field_line("cheats_enabled"@, bool_text(m.cheats_enabled)),
        field_line("hardcore"@, bool_text(m.hardcore)),
        field_line("version"@, decimal(m.version as nat)),
        field_line("needs_upgrade"@, bool_text(m.needs_upgrade)),
    ]
}

/// The text of a world's metadata file.
pub open spec fn spec_metadata_text(m: MetaView) -> Seq<char> {
    lines_text(metadata_lines(m))
}

fn push_field(out: &mut String, key: &str, value: &str, Ghost(ls): Ghost<Seq<Seq<char>>>, Ghost(k): Ghost<int>)
    requires
        0 <= k < ls.len(),
        old(out)@ == lines_text(ls.take(k)),
        ls[k] == field_line(key@, value@),
    ensures
        final(out)@ == lines_text(ls.take(k + 1)),
{
    append_str(out, key);
    push_char(out, ':');
    append_str(out, value);
    push_char(out, '\n');
    proof {
        assert(ls.take(k + 1) =~= ls.take(k).push(ls[k]));
        lemma_lines_text_push(ls.take(k), ls[k]);
        assert(out@ =~= lines_text(ls.take(k)) + ls[k] + seq!['\n']);
    }
}

fn bool_str(b: bool) -> (r: &'static str)
    ensures
        r@ == bool_text(b),
{
    if b {
        "true"
    } else {
        "false"
    }
}

/// The text of the metadata file for `m`.
pub fn metadata_text(m: &WorldMetadata) -> (r: String)
    ensures
        r@ == spec_metadata_text(m@),
{
    let ghost ls = metadata_lines(m@);
    let mut out = String::new();
    proof {
        assert(ls.take(0) =~= Seq::<Seq<char>>::empty());
    }
    push_field(&mut out, "name", m.name.as_str(), Ghost(ls), Ghost(0));
    let seed = u64_to_decimal(m.seed as u64);
    push_field(&mut out, "seed", seed.as_str(), Ghost(ls), Ghost(1));
    push_field(&mut out, "game_mode", game_mode_name(m.game_mode), Ghost(ls), Ghost(2));
    push_field(&mut out, "difficulty", m.difficulty.as_str(), Ghost(ls), Ghost(3));
    let last = u64_to_decimal(m.last_played);
    push_field(&mut out, "last_played", last.as_str(), Ghost(ls), Ghost(4));
    push_field(&mut out, "world_type", m.world_type.as_str(), Ghost(ls), Ghost(5));
    push_field(&mut out, "generate_structures", bool_str(m.generate_structures), Ghost(ls), Ghost(6));
    push_field(&mut out, "bonus_chest", bool_str(m.bonus_chest), Ghost(ls), Ghost(7));
    push_field(&mut out, "cheats_enabled", bool_str(m.cheats_enabled), Ghost(ls), Ghost(8));
    push_field(&mut out, "hardcore", bool_str(m.hardcore), Ghost(ls), Ghost(9));
    let version = u64_to_decimal(m.version as u64);
    push_field(&mut out, "version", version.as_str(), Ghost(ls), Ghost(10));
    push_field(&mut out, "needs_upgrade", bool_str(m.needs_upgrade), Ghost(ls), Ghost(11));
    proof {
        assert(ls.take(12) =~= ls);
    }
    out
}

struct MetaParse {
    name: Option<Vec<char>>,
    seed: u32,
    game_mode: GameMode,
    difficulty: Difficulty,
    last_played: u64,
    world_type: WorldType,
    generate_structures: bool,
    bonus_chest: bool,
    cheats_enabled: bool,
    hardcore: bool,
    version: u32,
    needs_upgrade: bool,
}

impl MetaParse {
    spec fn fields(&self) -> MetaFields {
        MetaFields {
            name: match self.name {
                Some(n) => Some(n@),
                None => None,
            },
            seed: self.seed,
            game_mode: self.game_mode,
            difficulty: self.difficulty,
            last_played: self.last_played,
            world_type: self.world_type,
            generate_structures: self.generate_structures,
            bonus_chest: self.bonus_chest,
            cheats_enabled: self.cheats_enabled,
            hardcore: self.hardcore,
            version: self.version,
            needs_upgrade: self.needs_upgrade,
        }
    }
}

pub fn find_char_from(v: &Vec<char>, c: char, start: usize) -> (r: Option<usize>)
    requires
        start <= v@.len(),
    ensures
        match r {
            Some(j) => find_char(v@, c, start as int) == j && start <= j < v@.len(),
            None => find_char(v@, c, start as int) == -1,
        },
{
    let mut i: usize = start;
    while i < v.len()
        invariant
            start <= i <= v@.len(),
            find_char(v@, c, start as int) == find_char(v@, c, i as int),
        decreases v.len() - i,
    {
        if v[i] == c {
            return Some(i);
        }
        i += 1;
    }
    None
}

pub fn chars_between(v: &Vec<char>, lo: usize, hi: usize) -> (r: Vec<char>)
    requires
        lo <= hi <= v@.len(),
    ensures
        r@ == v@.subrange(lo as int, hi as int),
{
    let mut r: Vec<char> = Vec::new();
    let mut i: usize = lo;
    while i < hi
        invariant
            lo <= i <= hi <= v@.len(),
            r@ == v@.subrange(lo as int, i as int),
        decreases hi - i,
    {
        r.push(v[i]);
        proof {
            assert(v@.subrange(lo as int, i + 1) =~= v@.subrange(lo as int, i as int).push(v@[i as int]));
        }
        i += 1;
    }
    r
}

pub fn trim_chars(v: &Vec<char>) -> (r: Vec<char>)
    ensures
        r@ == trim(v@),
{
    let s = string_from_chars(v);
    trimmed_chars(s.as_str())
}

fn number_or_exec(value: &Vec<char>, max: u64, fallback: u64) -> (r: u64)
    ensures
        r == number_or(value@, max as nat, fallback as int),
{
    let t = trim_chars(value);
    match parse_unsigned_chars(&t, max) {
        Some(v) => v,
        None => fallback,
    }
}

fn apply_line_exec(st: &mut MetaParse, line: &Vec<char>)
    ensures
        final(st).fields() == apply_line(old(st).fields(), line@),
{
    let k = match find_char_from(line, ':', 0) {
        Some(k) => k,
        None => {
            return;
        },
    };
    let len = line.len();
    assert(k < len);
    let key_raw = chars_between(line, 0, k);
    let key = trim_chars(&key_raw);
    let value = chars_between(line, k + 1, len);
    let value_str = string_from_chars(&value);
    if chars_equal(&key, "name") {
        st.name = Some(trim_chars(&value));
    } else if chars_equal(&key, "seed") {
        st.seed = number_or_exec(&value, 4294967295, st.seed as u64) as u32;
    } else if chars_equal(&key, "game_mode") {
        st.game_mode = parse_game_mode(value_str.as_str());
    } else if chars_equal(&key, "difficulty") {
        st.difficulty = Difficulty::parse(value_str.as_str());
    } else if chars_equal(&key, "last_played") {
        st.last_played = number_or_exec(&value, 18446744073709551615, 0);
    } else if chars_equal(&key, "world_type") {
        st.world_type = WorldType::parse(value_str.as_str());
    } else if chars_equal(&key, "generate_structures") {
        st.generate_structures = parse_bool(value_str.as_str(), st.generate_structures);
    } else if chars_equal(&key, "bonus_chest") {
        st.bonus_chest = parse_bool(value_str.as_str(), st.bonus_chest);
    } else if chars_equal(&key, "cheats") || chars_equal(&key, "cheats_enabled") {
        st.cheats_enabled = parse_bool(value_str.as_str(), st.cheats_enabled);
    } else if chars_equal(&key, "hardcore") {
        st.hardcore = parse_bool(value_str.as_str(), st.hardcore);
    } else if chars_equal(&key, "version") || chars_equal(&key, "format_version") {
        st.version = number_or_exec(&value, 4294967295, st.version as u64) as u32;
    } else if chars_equal(&key, "needs_upgrade") {
        st.needs_upgrade = parse_bool(value_str.as_str(), st.needs_upgrade);
    }
}

/// Read the text of a world's metadata file; `None` when it names no world.
pub fn parse_world_metadata(contents: &str) -> (r: Option<WorldMetadata>)
    ensures
        match r {
            Some(w) => spec_parse_world_metadata(contents@) == Some(w@),
            None => spec_parse_world_metadata(contents@) is None,
        },
{
    let v = chars_of(contents);
    let n = v.len();
    let mut st = MetaParse {
        name: None,
        seed: 12345,
        game_mode: GameMode::Survival,
        difficulty: Difficulty::Normal,
        last_played: 0,
        world_type: WorldType::Default,
        generate_structures: true,
        bonus_chest: false,
        cheats_enabled: false,
        hardcore: false,
        version: 0,
        needs_upgrade: false,
    };
    let mut pos: usize = 0;
    proof {
        assert(v@.subrange(0, n as int) =~= v@);
    }
    while pos < n
        invariant
            pos <= n,
            n == v@.len(),
            v@ == contents@,
            meta_fold(initial_fields(), contents@) == meta_fold(st.fields(), v@.subrange(pos as int, n as int)),
        decreases n - pos,
    {
        let ghost rest = v@.subrange(pos as int, n as int);
        match find_char_from(&v, '\n', pos) {
            Some(j) => {
                let mut end = j;
                if end > pos && v[end - 1] == '\r' {
                    end = end - 1;
                }
                let line = chars_between(&v, pos, end);
                proof {
                    lemma_find_char_shift(v@, '\n', pos as int);
                    let i = j - pos;
                    assert(find_char(rest, '\n', 0) == i);
                    assert(rest.subrange(0, i) =~= v@.subrange(pos as int, j as int));
                    assert(line@ =~= strip_cr(rest.subrange(0, i)));
                    assert(rest.subrange(i + 1, rest.len() as int) =~= v@.subrange(j + 1, n as int));
                }
                apply_line_exec(&mut st, &line);
                pos = j + 1;
            },
            None => {
                let line = chars_between(&v, pos, n);
                proof {
                    lemma_find_char_shift(v@, '\n', pos as int);
                    assert(find_char(rest, '\n', 0) == -1);
                    assert(line@ =~= rest);
                }
                apply_line_exec(&mut st, &line);
                pos = n;
                proof {
                    assert(v@.subrange(n as int, n as int) =~= Seq::<char>::empty());
                }
            },
        }
    }
    match st.name {
        Some(name) => {
            let needs = st.needs_upgrade || st.version < CURRENT_WORLD_FORMAT_VERSION;
            Some(
                WorldMetadata {
                    name: string_from_chars(&name),
                    seed: st.seed,
                    game_mode: st.game_mode,
                    difficulty: st.difficulty,
                    last_played: st.last_played,
                    world_type: st.world_type,
                    generate_structures: st.generate_structures,
                    bonus_chest: st.bonus_chest,
                    cheats_enabled: st.cheats_enabled,
                    hardcore: st.hardcore,
                    version: st.version,
                    needs_upgrade: needs,
                },
            )
        },
        None => None,
    }
}

/// Looking for `c` from `start` in `s` finds it where looking from 0 in the rest of `s` does,
/// shifted by `start`.
pub proof fn lemma_find_char_shift(s: Seq<char>, c: char, start: int)
    requires
        0 <= start <= s.len(),
    ensures
        ({
            let r = find_char(s.subrange(start, s.len() as int), c, 0);
            let f = find_char(s, c, start);
            (f == -1 && r == -1) || (f >= start && r == f - start)
        }),
{
    let t = s.subrange(start, s.len() as int);
    lemma_find_char_shift_from(s, c, start, 0);
}

proof fn lemma_find_char_shift_from(s: Seq<char>, c: char, start: int, k: int)
    requires
        0 <= start <= s.len(),
        0 <= k <= s.len() - start,
    ensures
        ({
            let r = find_char(s.subrange(start, s.len() as int), c, k);
            let f = find_char(s, c, start + k);
            (f == -1 && r == -1) || (f >= start + k && r == f - start)
        }),
    decreases s.len() - start - k,
{
    let t = s.subrange(start, s.len() as int);
    if k < t.len() {
        assert(t[k] == s[start + k]);
        if s[start + k] != c {
            lemma_find_char_shift_from(s, c, start, k + 1);
        }
    }
}

/// A line the metadata file can hold: no line end in it and no `\r` at its end.
pub open spec fn plain_line(l: Seq<char>) -> bool {
    &&& forall|i: int| 0 <= i < l.len() ==> #[trigger] l[i] != '\n'
    &&& (l.len() == 0 || l.last() != '\r')
}

pub proof fn lemma_find_in_prefix(a: Seq<char>, b: Seq<char>, c: char, k: int)
    requires
        0 <= k <= a.len(),
        forall|i: int| 0 <= i < a.len() ==> #[trigger] a[i] != c,
        b.len() > 0,
        b[0] == c,
    ensures
        find_char(a + b, c, k) == a.len(),
    decreases a.len() - k,
{
    if k < a.len() {
        assert((a + b)[k] == a[k]);
        lemma_find_in_prefix(a, b, c, k + 1);
    } else {
        assert((a + b)[k] == b[0]);
    }
}

/// Reading a plain line, its line end and more text applies the line, then reads the rest.
proof fn lemma_fold_line(m: MetaFields, line: Seq<char>, rest: Seq<char>)
    requires
        plain_line(line),
    ensures
        meta_fold(m, line + seq!['\n'] + rest) == meta_fold(apply_line(m, line), rest),
{
    let s = line + seq!['\n'] + rest;
    assert(s =~= line + (seq!['\n'] + rest));
    lemma_find_in_prefix(line, seq!['\n'] + rest, '\n', 0);
    assert(s.subrange(0, line.len() as int) =~= line);
    assert(s.subrange(line.len() as int + 1, s.len() as int) =~= rest);
}

/// In a `key:value` line whose key holds no `:`, the first `:` ends the key.
proof fn lemma_field_line_parts(key: Seq<char>, value: Seq<char>)
    requires
        forall|i: int| 0 <= i < key.len() ==> #[trigger] key[i] != ':',
    ensures
        find_char(field_line(key, value), ':', 0) == key.len(),
        field_line(key, value).subrange(0, key.len() as int) == key,
        field_line(key, value).subrange(key.len() as int + 1, field_line(key, value).len() as int) == value,
{
    let l = field_line(key, value);
    assert(l =~= key + (seq![':'] + value));
    lemma_find_in_prefix(key, seq![':'] + value, ':', 0);
    assert(l.subrange(0, key.len() as int) =~= key);
    assert(l.subrange(key.len() as int + 1, l.len() as int) =~= value);
}

pub proof fn lemma_digit_char(d: int)
    requires
        0 <= d < 10,
    ensures
        (crate::text::digit_char(d) as u32) == 48 + d,
{
    assert(('0' as u32) == 48);
    assert(('1' as u32) == 49);
    assert(('2' as u32) == 50);
    assert(('3' as u32) == 51);
    assert(('4' as u32) == 52);
    assert(('5' as u32) == 53);
    assert(('6' as u32) == 54);
    assert(('7' as u32) == 55);
    assert(('8' as u32) == 56);
    assert(('9' as u32) == 57);
}

pub proof fn lemma_decimal_digits(n: nat)
    ensures
        decimal(n).len() > 0,
        crate::text::all_digits(decimal(n)),
        crate::text::digits_value(decimal(n)) == n,
    decreases n,
{
    let d = decimal(n);
    if n >= 10 {
        lemma_decimal_digits(n / 10);
        lemma_digit_char((n % 10) as int);
        assert(d.drop_last() =~= decimal(n / 10));
        assert(d.last() == crate::text::digit_char((n % 10) as int));
        assert(crate::text::digits_value(d) == crate::text::digits_value(d.drop_last()) * 10 + ((d.last() as u32) - 48) as nat);
        assert((n / 10) * 10 + n % 10 == n);
    } else {
        lemma_digit_char(n as int);
        assert(d.drop_last() =~= Seq::<char>::empty());
        assert(crate::text::digits_value(d.drop_last()) == 0);
        assert(d.last() == crate::text::digit_char(n as int));
    }
    assert forall|i: int| 0 <= i < d.len() implies #[trigger] crate::text::is_ascii_digit(d[i]) by {
        if i < d.len() - 1 {
            assert(d[i] == d.drop_last()[i]);
        }
    }
}

/// The decimal text of a number reads back as that number.
proof fn lemma_decimal_reads_back(n: nat, max: nat, fallback: int)
    requires
        n <= max,
    ensures
        number_or(decimal(n), max, fallback) == n,
        plain_line(decimal(n)),
{
    let d = decimal(n);
    lemma_decimal_digits(n);
    assert(crate::text::is_ascii_digit(d[0]));
    assert(crate::text::is_ascii_digit(d.last()));
    assert(trim(d) == d) by {
        assert(crate::text::trim_start(d) == d);
        assert(crate::text::trim_end(d) == d);
    }
    assert forall|i: int| 0 <= i < d.len() implies #[trigger] d[i] != '\n' by {
        assert(crate::text::is_ascii_digit(d[i]));
    }
}

proof fn lemma_bool_reads_back(b: bool, fallback: bool)
    ensures
        spec_parse_bool(bool_text(b), fallback) == b,
        plain_line(bool_text(b)),
{
    reveal_strlit("true");
    reveal_strlit("false");
    reveal_strlit("1");
    reveal_strlit("on");
    assert(trim("true"@) == "true"@);
    assert(trim("false"@) == "false"@);
    assert(crate::text::ascii_lowercase("true"@) =~= "true"@);
    assert(crate::text::ascii_lowercase("false"@) =~= "false"@);
}

proof fn lemma_game_mode_reads_back(g: GameMode)
    ensures
        spec_parse_game_mode(spec_game_mode_name(g)) == g,
        plain_line(spec_game_mode_name(g)),
{
    reveal_strlit("SURVIVAL");
    reveal_strlit("CREATIVE");
    reveal_strlit("ADVENTURE");
    reveal_strlit("SPECTATOR");
    reveal_strlit("survival");
    reveal_strlit("creative");
    reveal_strlit("adventure");
    reveal_strlit("spectator");
    match g {
        GameMode::Survival => {
            assert(trim("SURVIVAL"@) == "SURVIVAL"@);
            assert(crate::text::ascii_lowercase("SURVIVAL"@) =~= "survival"@);
            assert("survival"@[0] != "creative"@[0]);
        },
        GameMode::Creative => {
            assert(trim("CREATIVE"@) == "CREATIVE"@);
            assert(crate::text::ascii_lowercase("CREATIVE"@) =~= "creative"@);
        },
        GameMode::Adventure => {
            assert(trim("ADVENTURE"@) == "ADVENTURE"@);
            assert(crate::text::ascii_lowercase("ADVENTURE"@) =~= "adventure"@);
        },
        GameMode::Spectator => {
            assert(trim("SPECTATOR"@) == "SPECTATOR"@);
            assert(crate::text::ascii_lowercase("SPECTATOR"@) =~= "spectator"@);
            assert("spectator"@[0] != "adventure"@[0]);
        },
    }
}

proof fn lemma_difficulty_reads_back(d: Difficulty)
    ensures
        Difficulty::spec_parse(d.spec_as_str()) == d,
        plain_line(d.spec_as_str()),
{
    reveal_strlit("PEACEFUL");
    reveal_strlit("EASY");
    reveal_strlit("NORMAL");
    reveal_strlit("HARD");
    reveal_strlit("peaceful");
    reveal_strlit("easy");
    reveal_strlit("hard");
    match d {
        Difficulty::Peaceful => {
            assert(trim("PEACEFUL"@) == "PEACEFUL"@);
            assert(crate::text::ascii_lowercase("PEACEFUL"@) =~= "peaceful"@);
        },
        Difficulty::Easy => {
            assert(trim("EASY"@) == "EASY"@);
            assert(crate::text::ascii_lowercase("EASY"@) =~= "easy"@);
        },
        Difficulty::Normal => {
            assert(trim("NORMAL"@) == "NORMAL"@);
            reveal_strlit("normal");
            assert(crate::text::ascii_lowercase("NORMAL"@) =~= "normal"@);
        },
        Difficulty::Hard => {
            assert(trim("HARD"@) == "HARD"@);
            assert(crate::text::ascii_lowercase("HARD"@) =~= "hard"@);
            assert("hard"@[0] != "easy"@[0]);
        },
    }
}

proof fn lemma_world_type_reads_back(w: WorldType)
    ensures
        WorldType::spec_parse(w.spec_as_str()) == w,
        plain_line(w.spec_as_str()),
{
    reveal_strlit("DEFAULT");
    reveal_strlit("SUPERFLAT");
    reveal_strlit("superflat");
    reveal_strlit("default");
    match w {
        WorldType::Default => {
            assert(trim("DEFAULT"@) == "DEFAULT"@);
            assert(crate::text::ascii_lowercase("DEFAULT"@) =~= "default"@);
        },
        WorldType::Superflat => {
            assert(trim("SUPERFLAT"@) == "SUPERFLAT"@);
            assert(crate::text::ascii_lowercase("SUPERFLAT"@) =~= "superflat"@);
        },
    }
}

/// Reading the lines from position `k` on applies line `k`, then reads those after it.
proof fn lemma_fold_lines_step(m: MetaFields, ls: Seq<Seq<char>>, k: int)
    requires
        0 <= k < ls.len(),
        plain_line(ls[k]),
    ensures
        meta_fold(m, lines_text(ls.subrange(k, ls.len() as int))) == meta_fold(
            apply_line(m, ls[k]),
            lines_text(ls.subrange(k + 1, ls.len() as int)),
        ),
{
    let rest = ls.subrange(k, ls.len() as int);
    assert(rest.drop_first() =~= ls.subrange(k + 1, ls.len() as int));
    assert(rest[0] == ls[k]);
    lemma_fold_line(m, ls[k], lines_text(ls.subrange(k + 1, ls.len() as int)));
}

/// A key made of lower-case ASCII letters and `_` holds no `:` and no surrounding white space.
proof fn lemma_key_ok(key: Seq<char>)
    requires
        key.len() > 0,
        forall|i: int| 0 <= i < key.len() ==> 97 <= #[trigger] (key[i] as u32) <= 122 || key[i] == '_',
    ensures
        forall|i: int| 0 <= i < key.len() ==> #[trigger] key[i] != ':',
        trim(key) == key,
{
    assert(key[0] as u32 >= 97 || key[0] == '_');
    assert(key.last() as u32 >= 97 || key.last() == '_');
    assert(crate::text::trim_start(key) == key);
    assert(crate::text::trim_end(key) == key);
    assert forall|i: int| 0 <= i < key.len() implies #[trigger] key[i] != ':' by {
        assert(97 <= (key[i] as u32) <= 122 || key[i] == '_');
    }
}

/// The key and the value of a `key:value` line with a well-formed key.
proof fn lemma_line_key_value(key: Seq<char>, value: Seq<char>)
    requires
        key.len() > 0,
        forall|i: int| 0 <= i < key.len() ==> 97 <= #[trigger] (key[i] as u32) <= 122 || key[i] == '_',
    ensures
        ({
            let l = field_line(key, value);
            let k = find_char(l, ':', 0);
            k >= 0 && trim(l.subrange(0, k)) == key && l.subrange(k + 1, l.len() as int) == value
        }),
{
    lemma_key_ok(key);
    lemma_field_line_parts(key, value);
}

proof fn lemma_all_key_names()
    ensures
        "name"@ == seq!['n', 'a', 'm', 'e'],
        "seed"@ == seq!['s', 'e', 'e', 'd'],
        "game_mode"@ == seq!['g', 'a', 'm', 'e', '_', 'm', 'o', 'd', 'e'],
        "difficulty"@ == seq!['d', 'i', 'f', 'f', 'i', 'c', 'u', 'l', 't', 'y'],
        "last_played"@ == seq!['l', 'a', 's', 't', '_', 'p', 'l', 'a', 'y', 'e', 'd'],
        "world_type"@ == seq!['w', 'o', 'r', 'l', 'd', '_', 't', 'y', 'p', 'e'],
        "generate_structures"@ == seq![
            'g', 'e', 'n', 'e', 'r', 'a', 't', 'e', '_', 's', 't', 'r', 'u', 'c', 't', 'u', 'r', 'e', 's'
        ],
        "bonus_chest"@ == seq!['b', 'o', 'n', 'u', 's', '_', 'c', 'h', 'e', 's', 't'],
        "cheats"@ == seq!['c', 'h', 'e', 'a', 't', 's'],
        "cheats_enabled"@ == seq!['c', 'h', 'e', 'a', 't', 's', '_', 'e', 'n', 'a', 'b', 'l', 'e', 'd'],
        "hardcore"@ == seq!['h', 'a', 'r', 'd', 'c', 'o', 'r', 'e'],
        "version"@ == seq!['v', 'e', 'r', 's', 'i', 'o', 'n'],
        "format_version"@ == seq!['f', 'o', 'r', 'm', 'a', 't', '_', 'v', 'e', 'r', 's', 'i', 'o', 'n'],
        "needs_upgrade"@ == seq!['n', 'e', 'e', 'd', 's', '_', 'u', 'p', 'g', 'r', 'a', 'd', 'e'],
{
    reveal_strlit("name");
    reveal_strlit("seed");
    reveal_strlit("game_mode");
    reveal_strlit("difficulty");
    reveal_strlit("last_played");
    reveal_strlit("world_type");
    reveal_strlit("generate_structures");
    reveal_strlit("bonus_chest");
    reveal_strlit("cheats");
    reveal_strlit("cheats_enabled");
    reveal_strlit("hardcore");
    reveal_strlit("version");
    reveal_strlit("format_version");
    reveal_strlit("needs_upgrade");
}

/// A key made of lower-case ASCII letters and `_`, followed by `:` and a plain value, is a
/// plain line.
proof fn lemma_plain_field(key: Seq<char>, value: Seq<char>)
    requires
        forall|i: int| 0 <= i < key.len() ==> 97 <= #[trigger] (key[i] as u32) <= 122 || key[i] == '_',
        plain_line(value),
    ensures
        plain_line(field_line(key, value)),
{
    let l = field_line(key, value);
    assert forall|i: int| 0 <= i < l.len() implies #[trigger] l[i] != '\n' by {
        if i < key.len() {
            assert(l[i] == key[i]);
            assert(97 <= (key[i] as u32) <= 122 || key[i] == '_');
        } else if i == key.len() {
            assert(l[i] == ':');
        } else {
            assert(l[i] == value[i - key.len() - 1]);
        }
    }
    if value.len() > 0 {
        assert(l.last() == value.last());
    } else {
        assert(l.last() == ':');
    }
}

/// Names that the metadata file can record: no line end in them and no white space around them.
pub open spec fn storable_name(name: Seq<char>) -> bool {
    &&& forall|i: int| 0 <= i < name.len() ==> #[trigger] name[i] != '\n'
    &&& (name.len() == 0 || (!crate::text::is_white_space(name[0]) && !crate::text::is_white_space(name.last())))
}

proof fn lemma_storable_name(name: Seq<char>)
    requires
        storable_name(name),
    ensures
        trim(name) == name,
        plain_line(name),
{
    assert(crate::text::trim_start(name) == name);
    assert(crate::text::trim_end(name) == name);
}

/// The fields read after the first `k` lines of the metadata file written for `m`.
pub open spec fn fields_after(m: MetaView, k: int) -> MetaFields {
    MetaFields {
        name: if k >= 1 { Some(m.name) } else { None },
        seed: if k >= 2 { m.seed } else { 12345 },
        game_mode: if k >= 3 { m.game_mode } else { GameMode::Survival },
        difficulty: if k >= 4 { m.difficulty } else { Difficulty::Normal },
        last_played: if k >= 5 { m.last_played } else { 0 },
        world_type: if k >= 6 { m.world_type } else { WorldType::Default },
        generate_structures: if k >= 7 { m.generate_structures } else { true },
        bonus_chest: if k >= 8 { m.bonus_chest } else { false },
        cheats_enabled: if k >= 9 { m.cheats_enabled } else { false },
        hardcore: if k >= 10 { m.hardcore } else { false },
        version: if k >= 11 { m.version } else { 0 },
        needs_upgrade: if k >= 12 { m.needs_upgrade } else { false },
    }
}

/// Line `k` of the file written for `m` is plain, and applying it to what the lines before it
/// gave yields what the lines up to it give.
#[verifier::rlimit(40)]
proof fn lemma_metadata_line(m: MetaView, k: int)
    requires
        0 <= k < 12,
        storable_name(m.name),
    ensures
        plain_line(metadata_lines(m)[k]),
        apply_line(fields_after(m, k), metadata_lines(m)[k]) == fields_after(m, k + 1),
{
    let ls = metadata_lines(m);
    let f = fields_after(m, k);
    lemma_all_key_names();
    if k == 0 {
        lemma_storable_name(m.name);
        lemma_plain_field("name"@, m.name);
        lemma_line_key_value("name"@, m.name);
    } else if k == 1 {
        lemma_decimal_reads_back(m.seed as nat, u32::MAX as nat, 12345);
        lemma_plain_field("seed"@, decimal(m.seed as nat));
        lemma_line_key_value("seed"@, decimal(m.seed as nat));
    } else if k == 2 {
        lemma_game_mode_reads_back(m.game_mode);
        lemma_plain_field("game_mode"@, spec_game_mode_name(m.game_mode));
        lemma_line_key_value("game_mode"@, spec_game_mode_name(m.game_mode));
    } else if k == 3 {
        lemma_difficulty_reads_back(m.difficulty);
        lemma_plain_field("difficulty"@, m.difficulty.spec_as_str());
        lemma_line_key_value("difficulty"@, m.difficulty.spec_as_str());
    } else if k == 4 {
        lemma_decimal_reads_back(m.last_played as nat, u64::MAX as nat, 0);
        lemma_plain_field("last_played"@, decimal(m.last_played as nat));
        lemma_line_key_value("last_played"@, decimal(m.last_played as nat));
    } else if k == 5 {
        lemma_world_type_reads_back(m.world_type);
        lemma_plain_field("world_type"@, m.world_type.spec_as_str());
        lemma_line_key_value("world_type"@, m.world_type.spec_as_str());
    } else if k == 6 {
        lemma_bool_reads_back(m.generate_structures, true);
        lemma_plain_field("generate_structures"@, bool_text(m.generate_structures));
        lemma_line_key_value("generate_structures"@, bool_text(m.generate_structures));
    } else if k == 7 {
        lemma_bool_reads_back(m.bonus_chest, false);
        lemma_plain_field("bonus_chest"@, bool_text(m.bonus_chest));
        lemma_line_key_value("bonus_chest"@, bool_text(m.bonus_chest));
    } else if k == 8 {
        lemma_bool_reads_back(m.cheats_enabled, false);
        lemma_plain_field("cheats_enabled"@, bool_text(m.cheats_enabled));
        lemma_line_key_value("cheats_enabled"@, bool_text(m.cheats_enabled));
    } else if k == 9 {
        lemma_bool_reads_back(m.hardcore, false);
        lemma_plain_field("hardcore"@, bool_text(m.hardcore));
        lemma_line_key_value("hardcore"@, bool_text(m.hardcore));
    } else if k == 10 {
        lemma_decimal_reads_back(m.version as nat, u32::MAX as nat, 0);
        lemma_plain_field("version"@, decimal(m.version as nat));
        lemma_line_key_value("version"@, decimal(m.version as nat));
    } else {
        lemma_bool_reads_back(m.needs_upgrade, false);
        lemma_plain_field("needs_upgrade"@, bool_text(m.needs_upgrade));
        lemma_line_key_value("needs_upgrade"@, bool_text(m.needs_upgrade));
    }
}

/// Reading the metadata file written for a world gives that world's metadata back, whenever
/// its name can be stored and a world in an older format is marked as needing an upgrade.
pub proof fn lemma_metadata_round_trip(m: MetaView)
    requires
        storable_name(m.name),
        m.version < CURRENT_WORLD_FORMAT_VERSION ==> m.needs_upgrade,
    ensures
        spec_parse_world_metadata(spec_metadata_text(m)) == Some(m),
{
    let ls = metadata_lines(m);
    assert(ls.subrange(0, 12) =~= ls);
    lemma_metadata_lines_from(m, 0);
}

proof fn lemma_metadata_lines_from(m: MetaView, k: int)
    requires
        0 <= k <= 12,
        storable_name(m.name),
    ensures
        meta_fold(fields_after(m, k), lines_text(metadata_lines(m).subrange(k, 12))) == fields_after(m, 12),
    decreases 12 - k,
{
    let ls = metadata_lines(m);
    if k < 12 {
        lemma_metadata_line(m, k);
        lemma_fold_lines_step(fields_after(m, k), ls, k);
        lemma_metadata_lines_from(m, k + 1);
    } else {
        assert(ls.subrange(12, 12) =~= Seq::<Seq<char>>::empty());
        assert(lines_text(ls.subrange(12, 12)) == Seq::<char>::empty());
    }
}

/// What the world's metadata says about how it was created; the defaults when the file is
/// missing (`None`) or names no world.
pub open spec fn spec_creation_options(contents: Option<Seq<char>>) -> WorldCreationOptions {
    match contents {
        Some(c) => match spec_parse_world_metadata(c) {
            Some(m) => WorldCreationOptions {
                world_type: m.world_type,
                generate_structures: m.generate_structures,
                bonus_chest: m.bonus_chest,
                cheats_enabled: m.cheats_enabled,
                hardcore: m.hardcore,
            },
            None => WorldCreationOptions::spec_default(),
        },
        None => WorldCreationOptions::spec_default(),
    }
}

/// The creation options recorded in a world's metadata file, given its text (`None` when it
/// could not be read).
pub fn load_world_creation_options(contents: Option<&str>) -> (r: WorldCreationOptions)
    ensures
        r == spec_creation_options(
            match contents {
                Some(c) => Some(c@),
                None => None,
            },
        ),
{
    match contents {
        Some(c) => match parse_world_metadata(c) {
            Some(m) => WorldCreationOptions {
                world_type: m.world_type,
                generate_structures: m.generate_structures,
                bonus_chest: m.bonus_chest,
                cheats_enabled: m.cheats_enabled,
                hardcore: m.hardcore,
            },
            None => WorldCreationOptions::default(),
        },
        None => WorldCreationOptions::default(),
    }
}

/// `_` shown as a space and letters in upper case, as a world directory's name is shown when
/// no name was recorded.
pub open spec fn shown_directory_name(s: Seq<char>) -> Seq<char> {
    s.map_values(|c: char| crate::text::upper_char(if c == '_' { ' ' } else { c }))
}

/// Name for a world whose metadata is lost: its directory's name shown as text, or "WORLD".
pub open spec fn spec_default_world_name(directory_name: Option<Seq<char>>) -> Seq<char> {
    match directory_name {
        Some(n) => shown_directory_name(n),
        None => "WORLD"@,
    }
}

fn default_world_name(directory_name: Option<&str>) -> (r: String)
    ensures
        r@ == spec_default_world_name(
            match directory_name {
                Some(n) => Some(n@),
                None => None,
            },
        ),
{
    match directory_name {
        Some(n) => {
            let v = chars_of(n);
            let mut out: Vec<char> = Vec::new();
            let mut i: usize = 0;
            while i < v.len()
                invariant
                    i <= v@.len(),
                    v@ == n@,
                    out@.len() == i,
                    forall|j: int| 0 <= j < i ==> #[trigger] out@[j] == crate::text::upper_char(
                        if v@[j] == '_' { ' ' } else { v@[j] },
                    ),
                decreases v.len() - i,
            {
                let c = if v[i] == '_' { ' ' } else { v[i] };
                out.push(crate::text::char_to_ascii_uppercase(c));
                i += 1;
            }
            assert(out@ =~= shown_directory_name(n@));
            string_from_chars(&out)
        },
        None => String::from_str("WORLD"),
    }
}

/// The metadata that a world saved only in the older level and player files stands for: named
/// after its directory, with the level's seed and format version, the player's game mode, normal
/// difficulty, last played when the player file was written, default terrain with structures and
/// nothing else on; it needs an upgrade when its format is older than the current one.
pub open spec fn spec_legacy_metadata(
    directory_name: Option<Seq<char>>,
    level_seed: u32,
    level_version: u32,
    game_mode: GameMode,
    modified: u64,
) -> MetaView {
    MetaView {
        name: spec_default_world_name(directory_name),
        seed: level_seed,
        game_mode,
        difficulty: Difficulty::Normal,
        last_played: modified,
        world_type: WorldType::Default,
        generate_structures: true,
        bonus_chest: false,
        cheats_enabled: false,
        hardcore: false,
        version: level_version,
        needs_upgrade: level_version < CURRENT_WORLD_FORMAT_VERSION,
    }
}

/// The metadata of a world saved only in the older level and player files; see
/// `spec_legacy_metadata`.
pub fn legacy_metadata(directory_name: Option<&str>, level_seed: u32, level_version: u32, game_mode: GameMode, modified: u64) -> (r:
    WorldMetadata)
    ensures
        r@ == spec_legacy_metadata(
            match directory_name {
                Some(n) => Some(n@),
                None => None,
            },
            level_seed,
            level_version,
            game_mode,
            modified,
        ),
{
    WorldMetadata {
        name: default_world_name(directory_name),
        seed: level_seed,
        game_mode,
        difficulty: Difficulty::Normal,
        last_played: modified,
        world_type: WorldType::Default,
        generate_structures: true,
        bonus_chest: false,
        cheats_enabled: false,
        hardcore: false,
        version: level_version,
        needs_upgrade: level_version < CURRENT_WORLD_FORMAT_VERSION,
    }
}

/// The metadata a world is played with: what its metadata file recorded, else what its older
/// level and player files stand for (`legacy`), else a new record named after its directory with
/// the given settings; now with the chosen seed, game mode and difficulty, played at `now`, in the
/// current format and needing no upgrade.
pub open spec fn spec_updated_metadata(
    existing: Option<MetaView>,
    legacy: Option<MetaView>,
    directory_name: Option<Seq<char>>,
    seed: u32,
    game_mode: GameMode,
    difficulty: Difficulty,
    now: u64,
) -> MetaView {
    let base = match existing {
        Some(m) => m,
        None => match legacy {
            Some(m) => m,
            None => MetaView {
            name: spec_default_world_name(directory_name),
            seed,
            game_mode,
            difficulty,
            last_played: 0,
            world_type: WorldType::Default,
            generate_structures: true,
            bonus_chest: false,
            cheats_enabled: false,
            hardcore: false,
            version: CURRENT_WORLD_FORMAT_VERSION,
            needs_upgrade: false,
            },
        },
    };
    MetaView {
        seed,
        game_mode,
        difficulty,
        last_played: now,
        version: CURRENT_WORLD_FORMAT_VERSION,
        needs_upgrade: false,
        ..base
    }
}

/// The metadata to save when a world is opened, and whether the world must be backed up first
/// (the metadata it starts from was recorded in an older format).
pub fn update_world_metadata(
    existing: Option<WorldMetadata>,
    legacy: Option<WorldMetadata>,
    directory_name: Option<&str>,
    seed: u32,
    game_mode: GameMode,
    difficulty: Difficulty,
    now: u64,
) -> (r: (WorldMetadata, bool))
    ensures
        r.0@ == spec_updated_metadata(
            match existing {
                Some(m) => Some(m@),
                None => None,
            },
            match legacy {
                Some(m) => Some(m@),
                None => None,
            },
            match directory_name {
                Some(n) => Some(n@),
                None => None,
            },
            seed,
            game_mode,
            difficulty,
            now,
        ),
        r.1 == match existing {
            Some(m) => m.needs_upgrade,
            None => legacy matches Some(m) && m.needs_upgrade,
        },
{
    let (base, backup) = match existing {
        Some(m) => {
            let b = m.needs_upgrade;
            (m, b)
        },
        None => match legacy {
            Some(m) => {
                let b = m.needs_upgrade;
                (m, b)
            },
            None => (
            WorldMetadata {
                name: default_world_name(directory_name),
                seed,
                game_mode,
                difficulty,
                last_played: 0,
                world_type: WorldType::Default,
                generate_structures: true,
                bonus_chest: false,
                cheats_enabled: false,
                hardcore: false,
                version: CURRENT_WORLD_FORMAT_VERSION,
                needs_upgrade: false,
            },
            false,
        ),
        },
    };
    (
        WorldMetadata {
            seed,
            game_mode,
            difficulty,
            last_played: now,
            version: CURRENT_WORLD_FORMAT_VERSION,
            needs_upgrade: false,
            ..base
        },
        backup,
    )
}

/// Start of the name of a world's backup directory: the slug of its directory's name, or
/// "world".
pub fn backup_base(directory_name: Option<&str>) -> (r: String)
    ensures
        r@ == match directory_name {
            Some(n) => spec_slugify(n@),
            None => "world"@,
        },
{
    match directory_name {
        Some(n) => slugify(n),
        None => String::from_str("world"),
    }
}

/// Name of the backup directory made at `now`: `{base}_backup_{now}`, and with `_{suffix}` after
/// it when that name is taken.
pub fn backup_dir_name(base: &str, now: u64, suffix: Option<u64>) -> (r: String)
    ensures
        r@ == base@ + "_backup_"@ + decimal(now as nat) + match suffix {
            Some(k) => seq!['_'] + decimal(k as nat),
            None => Seq::empty(),
        },
{
    let mut s = String::new();
    append_str(&mut s, base);
    append_str(&mut s, "_backup_");
    let t = u64_to_decimal(now);
    append_str(&mut s, t.as_str());
    match suffix {
        Some(k) => {
            push_char(&mut s, '_');
            let d = u64_to_decimal(k);
            append_str(&mut s, d.as_str());
            assert(s@ =~= base@ + "_backup_"@ + decimal(now as nat) + (seq!['_'] + decimal(k as nat)));
        },
        None => {
            assert(s@ =~= base@ + "_backup_"@ + decimal(now as nat) + Seq::<char>::empty());
        },
    }
    s
}

/// A saved world found in the saves directory.
pub struct WorldEntry {
    pub directory: String,
    pub metadata: WorldMetadata,
}

/// Position of the first world in `worlds` kept in `directory`.
pub fn world_index_by_directory(worlds: &[WorldEntry], directory: &str) -> (r: Option<usize>)
    ensures
        match r {
            Some(i) => i < worlds@.len() && worlds@[i as int].directory@ == directory@ && forall|j: int|
                0 <= j < i ==> #[trigger] worlds@[j].directory@ != directory@,
            None => forall|j: int| 0 <= j < worlds@.len() ==> #[trigger] worlds@[j].directory@ != directory@,
        },
{
    let target = chars_of(directory);
    let mut i: usize = 0;
    while i < worlds.len()
        invariant
            i <= worlds@.len(),
            target@ == directory@,
            forall|j: int| 0 <= j < i ==> #[trigger] worlds@[j].directory@ != directory@,
        decreases worlds.len() - i,
    {
        let d = chars_of(worlds[i].directory.as_str());
        if seq_equal(&d, &target) {
            return Some(i);
        }
        i += 1;
    }
    None
}

fn seq_equal(a: &Vec<char>, b: &Vec<char>) -> (r: bool)
    ensures
        r == (a@ == b@),
{
    if a.len() != b.len() {
        return false;
    }
    let mut i: usize = 0;
    while i < a.len()
        invariant
            a@.len() == b@.len(),
            i <= a@.len(),
            forall|j: int| 0 <= j < i ==> a@[j] == b@[j],
        decreases a.len() - i,
    {
        if a[i] != b[i] {
            return false;
        }
        i += 1;
    }
    assert(a@ =~= b@);
    true
}

/// The metadata of a world created from the typed name and seed texts at time `now`; `None`
/// when nothing is left of the name once it is made safe.
pub open spec fn spec_new_world(
    name_text: Seq<char>,
    seed_text: Seq<char>,
    seed_bytes: Seq<u8>,
    now: u64,
    options: WorldCreationOptions,
    game_mode: GameMode,
    difficulty: Difficulty,
) -> Option<MetaView> {
    let name = spec_sanitize_name(name_text);
    if name.len() == 0 {
        None
    } else {
        Some(
            MetaView {
                name,
                seed: spec_creation_seed(seed_text, seed_bytes, now),
                game_mode,
                difficulty,
                last_played: now,
                world_type: options.world_type,
                generate_structures: options.generate_structures,
                bonus_chest: options.bonus_chest,
                cheats_enabled: options.cheats_enabled,
                hardcore: options.hardcore,
                version: CURRENT_WORLD_FORMAT_VERSION,
                needs_upgrade: false,
            },
        )
    }
}

/// Metadata for a new world from what the create-world screen holds.
pub fn new_world_metadata(
    name_text: &str,
    seed_text: &str,
    now: u64,
    options: WorldCreationOptions,
    game_mode: GameMode,
    difficulty: Difficulty,
) -> (r: Option<WorldMetadata>)
    ensures
        match r {
            Some(m) => spec_new_world(name_text@, seed_text@, seed_text.spec_bytes(), now, options, game_mode, difficulty)
                == Some(m@),
            None => spec_new_world(name_text@, seed_text@, seed_text.spec_bytes(), now, options, game_mode, difficulty)
                is None,
        },
{
    let name = sanitize_name(name_text);
    if name.as_str().unicode_len() == 0 {
        return None;
    }
    let seed = creation_seed(seed_text, now);
    Some(
        WorldMetadata {
            name,
            seed,
            game_mode,
            difficulty,
            last_played: now,
            world_type: options.world_type,
            generate_structures: options.generate_structures,
            bonus_chest: options.bonus_chest,
            cheats_enabled: options.cheats_enabled,
            hardcore: options.hardcore,
            version: CURRENT_WORLD_FORMAT_VERSION,
            needs_upgrade: false,
        },
    )
}

/// `base` with `_` and the number `suffix` after it, for a directory name that is taken.
pub fn suffixed_name(base: &str, suffix: u64) -> (r: String)
    ensures
        r@ == base@ + seq!['_'] + decimal(suffix as nat),
{
    let mut s = String::new();
    append_str(&mut s, base);
    push_char(&mut s, '_');
    let d = u64_to_decimal(suffix);
    append_str(&mut s, d.as_str());
    s
}

/// `r` lists the worlds of `w` most recently played first, worlds played at the same time in
/// the order `w` had them: `perm` gives for each position of `r` the position in `w` of the
/// world it holds.
pub open spec fn recent_first(w: Seq<WorldEntry>, r: Seq<WorldEntry>, perm: Seq<int>) -> bool {
    &&& r.len() == w.len()
    &&& perm.len() == r.len()
    &&& forall|t: int| 0 <= t < perm.len() ==> 0 <= #[trigger] perm[t] < w.len()
    &&& forall|t: int, u: int| 0 <= t < u < perm.len() ==> #[trigger] perm[t] != #[trigger] perm[u]
    &&& forall|t: int| 0 <= t < r.len() ==> #[trigger] r[t] == w[perm[t]]
    &&& forall|t: int, u: int|
        0 <= t < u < r.len() ==> (#[trigger] r[t]).metadata.last_played >= (#[trigger] r[u]).metadata.last_played
    &&& forall|t: int, u: int|
        0 <= t < u < r.len() && (#[trigger] r[t]).metadata.last_played == (#[trigger] r[u]).metadata.last_played
            ==> perm[t] < perm[u]
}

/// The worlds, most recently played first; worlds played at the same time keep their order.
pub fn sort_by_recent(worlds: Vec<WorldEntry>) -> (r: Vec<WorldEntry>)
    ensures
        exists|perm: Seq<int>| recent_first(worlds@, r@, perm),
{
    let ghost orig = worlds@;
    let n = worlds.len();
    let mut rest = worlds;
    let mut out: Vec<WorldEntry> = Vec::new();
    let ghost mut perm: Seq<int> = Seq::empty();
    let mut k: usize = 0;
    while k < n
        invariant
            k <= n,
            n == orig.len(),
            rest@ == orig.subrange(k as int, n as int),
            out@.len() == k,
            perm.len() == k,
            forall|t: int| 0 <= t < perm.len() ==> 0 <= #[trigger] perm[t] < k,
            forall|t: int, u: int| 0 <= t < u < perm.len() ==> #[trigger] perm[t] != #[trigger] perm[u],
            forall|t: int| 0 <= t < out@.len() ==> #[trigger] out@[t] == orig[perm[t]],
            forall|t: int, u: int|
                0 <= t < u < out@.len() ==> (#[trigger] out@[t]).metadata.last_played >= (#[trigger] out@[u]).metadata.last_played,
            forall|t: int, u: int|
                0 <= t < u < out@.len() && (#[trigger] out@[t]).metadata.last_played == (#[trigger] out@[u]).metadata.last_played
                    ==> perm[t] < perm[u],
        decreases n - k,
    {
        let x = rest.remove(0);
        proof {
            assert(x == orig[k as int]);
            assert(rest@ =~= orig.subrange(k + 1, n as int));
        }
        let lp = x.metadata.last_played;
        let mut p: usize = 0;
        while p < out.len() && out[p].metadata.last_played >= lp
            invariant
                p <= out@.len(),
                forall|t: int| 0 <= t < p ==> (#[trigger] out@[t]).metadata.last_played >= lp,
            decreases out.len() - p,
        {
            p += 1;
        }
        let ghost old_out = out@;
        let ghost old_perm = perm;
        out.insert(p, x);
        proof {
            perm = old_perm.insert(p as int, k as int);
            assert forall|t: int| 0 <= t < out@.len() implies #[trigger] out@[t] == orig[perm[t]] by {
                if t < p {
                    assert(out@[t] == old_out[t]);
                } else if t > p {
                    assert(out@[t] == old_out[t - 1]);
                }
            }
            assert forall|t: int| 0 <= t < perm.len() implies 0 <= #[trigger] perm[t] < k + 1 by {
                if t < p {
                    assert(perm[t] == old_perm[t]);
                } else if t > p {
                    assert(perm[t] == old_perm[t - 1]);
                }
            }
            assert forall|t: int, u: int| 0 <= t < u < perm.len() implies #[trigger] perm[t] != #[trigger] perm[u] by {
                if t != p && u != p {
                    let t0 = if t < p { t } else { t - 1 };
                    let u0 = if u < p { u } else { u - 1 };
                    assert(perm[t] == old_perm[t0]);
                    assert(perm[u] == old_perm[u0]);
                } else if t == p {
                    let u0 = if u < p { u } else { u - 1 };
                    assert(perm[u] == old_perm[u0]);
                } else {
                    let t0 = if t < p { t } else { t - 1 };
                    assert(perm[t] == old_perm[t0]);
                }
            }
            assert forall|t: int, u: int|
                0 <= t < u < out@.len() implies (#[trigger] out@[t]).metadata.last_played >= (
                #[trigger] out@[u]).metadata.last_played by {
                let t0 = if t < p { t } else { t - 1 };
                let u0 = if u < p { u } else { u - 1 };
                if t != p && u != p {
                    assert(out@[t] == old_out[t0]);
                    assert(out@[u] == old_out[u0]);
                } else if t == p {
                    assert(out@[u] == old_out[u0]);
                    if u0 < old_out.len() {
                        assert(old_out[p as int].metadata.last_played < lp || u0 == p);
                    }
                } else {
                    assert(out@[t] == old_out[t0]);
                }
            }
            assert forall|t: int, u: int|
                0 <= t < u < out@.len() && (#[trigger] out@[t]).metadata.last_played == (
                #[trigger] out@[u]).metadata.last_played implies perm[t] < perm[u] by {
                let t0 = if t < p { t } else { t - 1 };
                let u0 = if u < p { u } else { u - 1 };
                if t != p && u != p {
                    assert(out@[t] == old_out[t0]);
                    assert(out@[u] == old_out[u0]);
                    assert(perm[t] == old_perm[t0]);
                    assert(perm[u] == old_perm[u0]);
                } else if t == p {
                    assert(out@[u] == old_out[u0]);
                    assert(old_out[p as int].metadata.last_played < lp);
                    assert(old_out[u0].metadata.last_played <= old_out[p as int].metadata.last_played);
                } else {
                    assert(perm[t] == old_perm[t0]);
                }
            }
        }
        k += 1;
    }
    proof {
        assert(recent_first(orig, out@, perm));
    }
    out
}

pub proof fn lemma_trim_start_shape(s: Seq<char>)
    ensures
        exists|k: int| 0 <= k <= s.len() && crate::text::trim_start(s) == s.subrange(k, s.len() as int),
        crate::text::trim_start(s).len() > 0 ==> !crate::text::is_white_space(crate::text::trim_start(s)[0]),
    decreases s.len(),
{
    if s.len() > 0 && crate::text::is_white_space(s[0]) {
        lemma_trim_start_shape(s.drop_first());
        let k = choose|k: int| 0 <= k <= s.drop_first().len() && crate::text::trim_start(s.drop_first()) == s.drop_first().subrange(k, s.drop_first().len() as int);
        assert(s.drop_first().subrange(k, s.drop_first().len() as int) =~= s.subrange(k + 1, s.len() as int));
    } else {
        assert(s.subrange(0, s.len() as int) =~= s);
    }
}

pub proof fn lemma_trim_end_shape(s: Seq<char>)
    ensures
        exists|k: int| 0 <= k <= s.len() && crate::text::trim_end(s) == s.subrange(0, k),
        crate::text::trim_end(s).len() > 0 ==> !crate::text::is_white_space(crate::text::trim_end(s).last()),
    decreases s.len(),
{
    if s.len() > 0 && crate::text::is_white_space(s.last()) {
        lemma_trim_end_shape(s.drop_last());
        let k = choose|k: int| 0 <= k <= s.drop_last().len() && crate::text::trim_end(s.drop_last()) == s.drop_last().subrange(0, k);
        assert(s.drop_last().subrange(0, k) =~= s.subrange(0, k));
    } else {
        assert(s.subrange(0, s.len() as int) =~= s);
    }
}

proof fn lemma_name_chars_allowed(s: Seq<char>)
    ensures
        forall|i: int| 0 <= i < name_chars(s).len() ==> #[trigger] is_name_char(name_chars(s)[i]),
    decreases s.len(),
{
    if s.len() > 0 {
        lemma_name_chars_allowed(s.drop_last());
        let prev = name_chars(s.drop_last());
        if is_name_char(s.last()) {
            assert forall|i: int| 0 <= i < name_chars(s).len() implies #[trigger] is_name_char(name_chars(s)[i]) by {
                if i < prev.len() {
                    assert(name_chars(s)[i] == prev[i]);
                }
            }
        }
    }
}

/// A made-safe world name is one the metadata file can store.
proof fn lemma_sanitized_name_storable(s: Seq<char>)
    ensures
        storable_name(spec_sanitize_name(s)),
{
    let f = name_chars(s);
    lemma_name_chars_allowed(s);
    let capped = if f.len() <= WORLD_NAME_LIMIT { f } else { f.subrange(0, WORLD_NAME_LIMIT as int) };
    assert forall|i: int| 0 <= i < capped.len() implies #[trigger] is_name_char(capped[i]) by {
        assert(capped[i] == f[i]);
    }
    let a = crate::text::trim_start(capped);
    lemma_trim_start_shape(capped);
    let k1 = choose|k: int| 0 <= k <= capped.len() && a == capped.subrange(k, capped.len() as int);
    let b = crate::text::trim_end(a);
    lemma_trim_end_shape(a);
    let k2 = choose|k: int| 0 <= k <= a.len() && b == a.subrange(0, k);
    assert(b == spec_sanitize_name(s));
    assert forall|i: int| 0 <= i < b.len() implies #[trigger] b[i] != '\n' by {
        assert(b[i] == a[i]);
        assert(a[i] == capped[i + k1]);
        assert(is_name_char(capped[i + k1]));
    }
    if b.len() > 0 {
        assert(b[0] == a[0]);
    }
}

/// A world created from the create-world screen reads back unchanged from the metadata file
/// written for it, whatever name and seed were typed.
pub proof fn lemma_new_world_reads_back(
    name_text: Seq<char>,
    seed_text: Seq<char>,
    seed_bytes: Seq<u8>,
    now: u64,
    options: WorldCreationOptions,
    game_mode: GameMode,
    difficulty: Difficulty,
)
    requires
        spec_new_world(name_text, seed_text, seed_bytes, now, options, game_mode, difficulty) is Some,
    ensures
        ({
            let m = spec_new_world(name_text, seed_text, seed_bytes, now, options, game_mode, difficulty).unwrap();
            spec_parse_world_metadata(spec_metadata_text(m)) == Some(m)
        }),
{
    lemma_sanitized_name_storable(name_text);
    let m = spec_new_world(name_text, seed_text, seed_bytes, now, options, game_mode, difficulty).unwrap();
    lemma_metadata_round_trip(m);
}

/// A directory slug: lower-case ASCII letters, digits and single `_` between them, never `_`
/// at either end, and never empty.
pub open spec fn is_slug(t: Seq<char>) -> bool {
    &&& t.len() > 0
    &&& forall|i: int| 0 <= i < t.len() ==> #[trigger] slug_char(t[i])
    &&& t[0] != '_'
    &&& t.last() != '_'
    &&& forall|i: int| 0 <= i < t.len() - 1 ==> !(#[trigger] t[i] == '_' && t[i + 1] == '_')
}

/// Characters a slug holds: lower-case ASCII letters, digits and `_`.
pub open spec fn slug_char(c: char) -> bool {
    crate::text::is_ascii_lower(c) || crate::text::is_ascii_digit(c) || c == '_'
}

/// What slug_chars builds: slug characters, and never two `_` in a row.
proof fn lemma_slug_chars_shape(s: Seq<char>)
    ensures
        forall|i: int| 0 <= i < slug_chars(s).len() ==> #[trigger] slug_char(slug_chars(s)[i]),
        forall|i: int| 0 <= i < slug_chars(s).len() - 1 ==> !(#[trigger] slug_chars(s)[i] == '_' && slug_chars(s)[i + 1] == '_'),
    decreases s.len(),
{
    if s.len() > 0 {
        lemma_slug_chars_shape(s.drop_last());
        let r = slug_chars(s.drop_last());
        let out = slug_chars(s);
        let c = s.last();
        if is_ascii_alnum(c) {
            assert(slug_char(lower_char(c)));
            assert forall|i: int| 0 <= i < out.len() implies #[trigger] slug_char(out[i]) by {
                if i < r.len() {
                    assert(out[i] == r[i]);
                }
            }
            assert forall|i: int| 0 <= i < out.len() - 1 implies !(#[trigger] out[i] == '_' && out[i + 1] == '_') by {
                if i < r.len() - 1 {
                    assert(out[i] == r[i] && out[i + 1] == r[i + 1]);
                } else {
                    assert(out[i + 1] == lower_char(c));
                }
            }
        } else if r.len() > 0 && r.last() == '_' {
        } else {
            assert forall|i: int| 0 <= i < out.len() implies #[trigger] slug_char(out[i]) by {
                if i < r.len() {
                    assert(out[i] == r[i]);
                }
            }
            assert forall|i: int| 0 <= i < out.len() - 1 implies !(#[trigger] out[i] == '_' && out[i + 1] == '_') by {
                if i < r.len() - 1 {
                    assert(out[i] == r[i] && out[i + 1] == r[i + 1]);
                } else {
                    assert(out[i] == r.last());
                }
            }
        }
    }
}

proof fn lemma_strip_start_char_shape(s: Seq<char>, c: char)
    ensures
        exists|k: int| 0 <= k <= s.len() && strip_start_char(s, c) == s.subrange(k, s.len() as int),
        strip_start_char(s, c).len() > 0 ==> strip_start_char(s, c)[0] != c,
    decreases s.len(),
{
    if s.len() > 0 && s[0] == c {
        lemma_strip_start_char_shape(s.drop_first(), c);
        let k = choose|k: int| 0 <= k <= s.drop_first().len() && strip_start_char(s.drop_first(), c) == s.drop_first().subrange(k, s.drop_first().len() as int);
        assert(s.drop_first().subrange(k, s.drop_first().len() as int) =~= s.subrange(k + 1, s.len() as int));
    } else {
        assert(s.subrange(0, s.len() as int) =~= s);
    }
}

proof fn lemma_strip_end_char_shape(s: Seq<char>, c: char)
    ensures
        exists|k: int| 0 <= k <= s.len() && strip_end_char(s, c) == s.subrange(0, k),
        strip_end_char(s, c).len() > 0 ==> strip_end_char(s, c).last() != c,
    decreases s.len(),
{
    if s.len() > 0 && s.last() == c {
        lemma_strip_end_char_shape(s.drop_last(), c);
        let k = choose|k: int| 0 <= k <= s.drop_last().len() && strip_end_char(s.drop_last(), c) == s.drop_last().subrange(0, k);
        assert(s.drop_last().subrange(0, k) =~= s.subrange(0, k));
    } else {
        assert(s.subrange(0, s.len() as int) =~= s);
    }
}

proof fn lemma_strip_end_keeps_first(s: Seq<char>, c: char)
    requires
        s.len() > 0,
        s[0] != c,
    ensures
        strip_end_char(s, c).len() > 0,
        strip_end_char(s, c)[0] == s[0],
    decreases s.len(),
{
    if s.last() == c {
        assert(s.drop_last()[0] == s[0]);
        lemma_strip_end_keeps_first(s.drop_last(), c);
    }
}

/// Every directory name made from a world name is a slug.
pub proof fn lemma_slugify_is_slug(s: Seq<char>)
    ensures
        is_slug(spec_slugify(s)),
{
    let raw = slug_chars(s);
    lemma_slug_chars_shape(s);
    let a = strip_start_char(raw, '_');
    lemma_strip_start_char_shape(raw, '_');
    let k1 = choose|k: int| 0 <= k <= raw.len() && a == raw.subrange(k, raw.len() as int);
    let t = strip_end_char(a, '_');
    lemma_strip_end_char_shape(a, '_');
    let k2 = choose|k: int| 0 <= k <= a.len() && t == a.subrange(0, k);
    if t.len() == 0 {
        reveal_strlit("new_world");
        assert(is_slug("new_world"@));
    } else {
        lemma_strip_end_keeps_first(a, '_');
        assert forall|i: int| 0 <= i < t.len() implies #[trigger] slug_char(t[i]) by {
            assert(t[i] == a[i]);
            assert(a[i] == raw[i + k1]);
        }
        assert forall|i: int| 0 <= i < t.len() - 1 implies !(#[trigger] t[i] == '_' && t[i + 1] == '_') by {
            assert(t[i] == raw[i + k1]);
            assert(t[i + 1] == raw[i + 1 + k1]);
        }
    }
}

/// A slug builds the same slug again.
proof fn lemma_slug_chars_of_slug(t: Seq<char>)
    requires
        forall|i: int| 0 <= i < t.len() ==> #[trigger] slug_char(t[i]),
        forall|i: int| 0 <= i < t.len() - 1 ==> !(#[trigger] t[i] == '_' && t[i + 1] == '_'),
        t.len() > 0 ==> t[0] != '_',
    ensures
        slug_chars(t) == t,
    decreases t.len(),
{
    if t.len() > 0 {
        let u = t.drop_last();
        assert forall|i: int| 0 <= i < u.len() implies #[trigger] slug_char(u[i]) by {
            assert(u[i] == t[i]);
        }
        assert forall|i: int| 0 <= i < u.len() - 1 implies !(#[trigger] u[i] == '_' && u[i + 1] == '_') by {
            assert(u[i] == t[i] && u[i + 1] == t[i + 1]);
        }
        if u.len() > 0 {
            assert(u[0] == t[0]);
        }
        lemma_slug_chars_of_slug(u);
        let c = t.last();
        assert(slug_char(c));
        if c == '_' {
            assert(t.len() > 1);
            assert(u.last() == t[t.len() - 2]);
            assert(u.last() != '_');
            assert(t =~= u.push('_'));
        } else {
            assert(lower_char(c) == c);
            assert(t =~= u.push(c));
        }
    }
}

/// Making a directory name from a directory name gives it back: slugs are stable.
pub proof fn lemma_slugify_stable(s: Seq<char>)
    ensures
        spec_slugify(spec_slugify(s)) == spec_slugify(s),
{
    let t = spec_slugify(s);
    lemma_slugify_is_slug(s);
    lemma_slug_chars_of_slug(t);
    assert(strip_start_char(t, '_') == t);
    assert(strip_end_char(t, '_') == t);
}

} // verus!
