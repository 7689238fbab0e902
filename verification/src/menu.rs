//! Menu rules that do not touch the screen: difficulty and game-mode names, frame-rate caps,
//! screen navigation, saved server addresses and world-name handling.

use vstd::prelude::*;
use crate::inventory::GameMode;
use crate::text::{
    append_str, parse_unsigned, parse_unsigned_chars, trimmed_chars, ascii_lowercase, chars_equal, chars_of, decimal, is_ascii_alnum, lower_char, normalized_chars, push_char, string_from_chars,
    trim, u64_to_decimal,
};

verus! {

/// How hard the world is.
#[derive(Debug, Clone, Copy, PartialEq, Eq, Structural)]
pub enum Difficulty {
    Peaceful,
    Easy,
    Normal,
    Hard,
}

impl Difficulty {
    pub open spec fn spec_as_str(self) -> Seq<char> {
        match self {
            Difficulty::Peaceful => "PEACEFUL"@,
            Difficulty::Easy => "EASY"@,
            Difficulty::Normal => "NORMAL"@,
            Difficulty::Hard => "HARD"@,
        }
    }

    /// Name of the difficulty as the menus show it.
    pub fn as_str(self) -> (r: &'static str)
        ensures
            r@ == self.spec_as_str(),
    {
        match self {
            Difficulty::Peaceful => "PEACEFUL",
            Difficulty::Easy => "EASY",
            Difficulty::Normal => "NORMAL",
            Difficulty::Hard => "HARD",
        }
    }

    /// "peaceful", "easy" or "hard" in any ASCII case around white space; Normal for anything else.
    pub open spec fn spec_parse(value: Seq<char>) -> Difficulty {
        let v = ascii_lowercase(trim(value));
        if v == "peaceful"@ {
            Difficulty::Peaceful
        } else if v == "easy"@ {
            Difficulty::Easy
        } else if v == "hard"@ {
            Difficulty::Hard
        } else {
            Difficulty::Normal
        }
    }

    /// Read a difficulty from a saved value.
    pub fn parse(value: &str) -> (r: Difficulty)
        ensures
            r == Self::spec_parse(value@),
    {
        let v = normalized_chars(value);
        if chars_equal(&v, "peaceful") {
            Difficulty::Peaceful
        } else if chars_equal(&v, "easy") {
            Difficulty::Easy
        } else if chars_equal(&v, "hard") {
            Difficulty::Hard
        } else {
            Difficulty::Normal
        }
    }

    /// Position of the difficulty in the order Peaceful, Easy, Normal, Hard.
    pub open spec fn spec_index(self) -> int {
        match self {
            Difficulty::Peaceful => 0,
            Difficulty::Easy => 1,
            Difficulty::Normal => 2,
            Difficulty::Hard => 3,
        }
    }

    pub open spec fn from_index(i: int) -> Difficulty {
        if i == 0 {
            Difficulty::Peaceful
        } else if i == 1 {
            Difficulty::Easy
        } else if i == 2 {
            Difficulty::Normal
        } else {
            Difficulty::Hard
        }
    }

    /// The difficulty `delta` places further in the order, wrapping around at both ends.
    pub fn step(self, delta: i32) -> (r: Difficulty)
        requires
            self.spec_index() + delta <= i32::MAX,
        ensures
            r == Self::from_index((self.spec_index() + delta) % 4),
    {
        let index: i32 = match self {
            Difficulty::Peaceful => 0,
            Difficulty::Easy => 1,
            Difficulty::Normal => 2,
            Difficulty::Hard => 3,
        };
        let i = match (index + delta).checked_rem_euclid(4) {
            Some(v) => v,
            None => 0,
        };
        if i == 0 {
            Difficulty::Peaceful
        } else if i == 1 {
            Difficulty::Easy
        } else if i == 2 {
            Difficulty::Normal
        } else {
            Difficulty::Hard
        }
    }
}

/// "true", "1" or "on" in any ASCII case around white space give true; "false", "0" or "off"
/// give false; anything else gives `fallback`.
pub open spec fn spec_parse_bool(value: Seq<char>, fallback: bool) -> bool {
    let v = ascii_lowercase(trim(value));
    if v == "true"@ || v == "1"@ || v == "on"@ {
        true
    } else if v == "false"@ || v == "0"@ || v == "off"@ {
        false
    } else {
        fallback
    }
}

/// Read a switch from a saved value.
pub fn parse_bool(value: &str, fallback: bool) -> (r: bool)
    ensures
        r == spec_parse_bool(value@, fallback),
{
    let v = normalized_chars(value);
    if chars_equal(&v, "true") || chars_equal(&v, "1") || chars_equal(&v, "on") {
        true
    } else if chars_equal(&v, "false") || chars_equal(&v, "0") || chars_equal(&v, "off") {
        false
    } else {
        fallback
    }
}

/// The frame-rate caps the options cycle through; 0 means uncapped.
pub open spec fn fps_caps() -> Seq<u32> {
    seq![0u32, 30u32, 60u32, 144u32]
}

/// Position of `cap` among the caps; 0 when it is not one of them.
pub open spec fn fps_cap_index(cap: u32) -> int {
    if cap == 0 {
        0
    } else if cap == 30 {
        1
    } else if cap == 60 {
        2
    } else if cap == 144 {
        3
    } else {
        0
    }
}

/// The cap `delta` places after `current` among the caps, wrapping around at both ends.
pub fn cycle_fps_cap(current: u32, delta: i32) -> (r: u32)
    requires
        fps_cap_index(current) + delta <= i32::MAX,
    ensures
        r == fps_caps()[(fps_cap_index(current) + delta) % 4],
{
    let index: i32 = if current == 0 {
        0
    } else if current == 30 {
        1
    } else if current == 60 {
        2
    } else if current == 144 {
        3
    } else {
        0
    };
    let i = match (index + delta).checked_rem_euclid(4) {
        Some(v) => v,
        None => 0,
    };
    if i == 0 {
        0
    } else if i == 1 {
        30
    } else if i == 2 {
        60
    } else {
        144
    }
}

/// Label of a frame-rate cap: "UNCAPPED" for 0, else the cap in decimal.
pub fn fps_cap_label(cap: u32) -> (r: String)
    ensures
        r@ == if cap == 0 {
            "UNCAPPED"@
        } else {
            decimal(cap as nat)
        },
{
    if cap == 0 {
        String::from_str("UNCAPPED")
    } else {
        u64_to_decimal(cap as u64)
    }
}

/// Name of a game mode as the menus show it.
pub open spec fn spec_game_mode_name(mode: GameMode) -> Seq<char> {
    match mode {
        GameMode::Survival => "SURVIVAL"@,
        GameMode::Creative => "CREATIVE"@,
        GameMode::Adventure => "ADVENTURE"@,
        GameMode::Spectator => "SPECTATOR"@,
    }
}

pub fn game_mode_name(mode: GameMode) -> (r: &'static str)
    ensures
        r@ == spec_game_mode_name(mode),
{
    match mode {
        GameMode::Survival => "SURVIVAL",
        GameMode::Creative => "CREATIVE",
        GameMode::Adventure => "ADVENTURE",
        GameMode::Spectator => "SPECTATOR",
    }
}

/// "creative", "adventure" or "spectator" in any ASCII case around white space; Survival for
/// anything else.
pub open spec fn spec_parse_game_mode(value: Seq<char>) -> GameMode {
    let v = ascii_lowercase(trim(value));
    if v == "creative"@ {
        GameMode::Creative
    } else if v == "adventure"@ {
        GameMode::Adventure
    } else if v == "spectator"@ {
        GameMode::Spectator
    } else {
        GameMode::Survival
    }
}

pub fn parse_game_mode(value: &str) -> (r: GameMode)
    ensures
        r == spec_parse_game_mode(value@),
{
    let v = normalized_chars(value);
    if chars_equal(&v, "creative") {
        GameMode::Creative
    } else if chars_equal(&v, "adventure") {
        GameMode::Adventure
    } else if chars_equal(&v, "spectator") {
        GameMode::Spectator
    } else {
        GameMode::Survival
    }
}

/// The menu screens.
#[derive(Debug, Clone, Copy, PartialEq, Eq, Structural)]
pub enum MenuScreen {
    Main,
    Multiplayer,
    Worlds,
    CreateWorld,
    Options,
    Controls,
    Accessibility,
    ResourcePacks,
    ConfirmDelete,
}

/// The text fields of the menus.
#[derive(Debug, Clone, Copy, PartialEq, Eq, Structural)]
pub enum TextField {
    WorldName,
    Seed,
    HostPort,
    ServerAddress,
    JoinPort,
    Username,
}

/// The rebindable controls.
#[derive(Debug, Clone, Copy, PartialEq, Eq, Structural)]
pub enum ControlAction {
    Forward,
    Backward,
    Left,
    Right,
    Jump,
    Sprint,
    Sneak,
    Inventory,
}

impl ControlAction {
    pub open spec fn spec_label(self) -> Seq<char> {
        match self {
            ControlAction::Forward => "FORWARD"@,
            ControlAction::Backward => "BACKWARD"@,
            ControlAction::Left => "LEFT"@,
            ControlAction::Right => "RIGHT"@,
            ControlAction::Jump => "JUMP"@,
            ControlAction::Sprint => "SPRINT"@,
            ControlAction::Sneak => "SNEAK"@,
            ControlAction::Inventory => "INVENTORY"@,
        }
    }

    /// Label of the control in the controls screen.
    pub fn label(self) -> (r: &'static str)
        ensures
            r@ == self.spec_label(),
    {
        match self {
            ControlAction::Forward => "FORWARD",
            ControlAction::Backward => "BACKWARD",
            ControlAction::Left => "LEFT",
            ControlAction::Right => "RIGHT",
            ControlAction::Jump => "JUMP",
            ControlAction::Sprint => "SPRINT",
            ControlAction::Sneak => "SNEAK",
            ControlAction::Inventory => "INVENTORY",
        }
    }
}

/// The screen that "back" leads to from `screen`.
pub open spec fn spec_back_screen(screen: MenuScreen) -> MenuScreen {
    match screen {
        MenuScreen::Main => MenuScreen::Main,
        MenuScreen::Multiplayer | MenuScreen::Worlds | MenuScreen::Options => MenuScreen::Main,
        MenuScreen::CreateWorld | MenuScreen::ConfirmDelete => MenuScreen::Worlds,
        MenuScreen::Controls | MenuScreen::Accessibility | MenuScreen::ResourcePacks => MenuScreen::Options,
    }
}

/// Going back from `screen`: the screen before it, with no text field active and no control
/// waiting for a key.
pub fn back_transition(
    screen: MenuScreen,
    active_field: Option<TextField>,
    rebinding: Option<ControlAction>,
) -> (r: (MenuScreen, Option<TextField>, Option<ControlAction>))
    ensures
        r == (spec_back_screen(screen), None::<TextField>, None::<ControlAction>),
{
    let screen = match screen {
        MenuScreen::Main => MenuScreen::Main,
        MenuScreen::Multiplayer | MenuScreen::Worlds | MenuScreen::Options => MenuScreen::Main,
        MenuScreen::CreateWorld | MenuScreen::ConfirmDelete => MenuScreen::Worlds,
        MenuScreen::Controls | MenuScreen::Accessibility | MenuScreen::ResourcePacks => MenuScreen::Options,
    };
    (screen, None, None)
}

/// Hosting or joining in the multiplayer screen.
#[derive(Debug, Clone, Copy, PartialEq, Eq, Structural)]
pub enum MultiplayerMode {
    Host,
    Join,
}

/// Buttons choosing hosting or joining.
pub const MULTIPLAYER_MODE_BUTTONS: usize = 2;

/// Text fields of the join form.
pub const MULTIPLAYER_JOIN_FIELDS: usize = 3;

/// Buttons along the bottom of the multiplayer screen.
pub const MULTIPLAYER_BOTTOM_BUTTONS: usize = 2;

/// Number of focusable controls in the multiplayer screen: the mode buttons, then the port field
/// when hosting, or the join fields, up to three recent servers and the ping button when joining,
/// then the bottom buttons.
pub fn multiplayer_focus_count(mode: MultiplayerMode, recent_count: usize) -> (r: usize)
    ensures
        r == if mode == MultiplayerMode::Join {
            MULTIPLAYER_MODE_BUTTONS + MULTIPLAYER_JOIN_FIELDS + (if recent_count < 3 {
                recent_count as int
            } else {
                3
            }) + 1 + MULTIPLAYER_BOTTOM_BUTTONS
        } else {
            MULTIPLAYER_MODE_BUTTONS + 1 + MULTIPLAYER_BOTTOM_BUTTONS
        },
{
    if mode == MultiplayerMode::Join {
        let recent = if recent_count < 3 {
            recent_count
        } else {
            3
        };
        MULTIPLAYER_MODE_BUTTONS + MULTIPLAYER_JOIN_FIELDS + recent + 1 + MULTIPLAYER_BOTTOM_BUTTONS
    } else {
        MULTIPLAYER_MODE_BUTTONS + 1 + MULTIPLAYER_BOTTOM_BUTTONS
    }
}

/// What a server-list ping answered.
#[derive(Debug, Clone, PartialEq, Eq)]
pub struct ServerPingResult {
    pub address: String,
    pub version: String,
    pub motd: String,
    pub online_players: u16,
    pub max_players: u16,
    pub error: Option<String>,
}

/// `s` without the entries equal to `a`, in order.
pub open spec fn without(s: Seq<Seq<char>>, a: Seq<char>) -> Seq<Seq<char>>
    decreases s.len(),
{
    if s.len() == 0 {
        s
    } else {
        let r = without(s.drop_last(), a);
        if s.last() == a {
            r
        } else {
            r.push(s.last())
        }
    }
}

/// `s` without the results for address `a`, in order.
pub open spec fn results_without(s: Seq<ServerPingResult>, a: Seq<char>) -> Seq<ServerPingResult>
    decreases s.len(),
{
    if s.len() == 0 {
        s
    } else {
        let r = results_without(s.drop_last(), a);
        if s.last().address@ == a {
            r
        } else {
            r.push(s.last())
        }
    }
}

/// `x` followed by `rest`, cut to at most `cap` entries.
pub open spec fn front_capped<T>(x: T, rest: Seq<T>, cap: nat) -> Seq<T> {
    let s = seq![x] + rest;
    if s.len() > cap {
        s.subrange(0, cap as int)
    } else {
        s
    }
}

pub open spec fn result_addresses(s: Seq<ServerPingResult>) -> Seq<Seq<char>> {
    s.map_values(|r: ServerPingResult| r.address@)
}

pub proof fn lemma_without(s: Seq<Seq<char>>, a: Seq<char>)
    ensures
        !without(s, a).contains(a),
        s.no_duplicates() ==> without(s, a).no_duplicates(),
        forall|x: Seq<char>| #[trigger] without(s, a).contains(x) ==> s.contains(x),
    decreases s.len(),
{
    if s.len() > 0 {
        lemma_without(s.drop_last(), a);
        let r = without(s.drop_last(), a);
        assert forall|x: Seq<char>| #[trigger] without(s, a).contains(x) implies s.contains(x) by {
            if r.contains(x) {
                assert(s.drop_last().contains(x));
                let k = choose|k: int| 0 <= k < s.drop_last().len() && s.drop_last()[k] == x;
                assert(s[k] == x);
            } else {
                assert(x == s.last());
                assert(s[s.len() - 1] == x);
            }
        }
        if s.no_duplicates() {
            assert(s.drop_last().no_duplicates());
            if s.last() != a {
                assert(!r.contains(s.last())) by {
                    if r.contains(s.last()) {
                        assert(s.drop_last().contains(s.last()));
                        let k = choose|k: int| 0 <= k < s.drop_last().len() && s.drop_last()[k] == s.last();
                        assert(s[k] == s[s.len() - 1]);
                    }
                }
                assert(r.push(s.last()).no_duplicates()) by {
                    assert forall|i: int, j: int| 0 <= i < j < r.push(s.last()).len() implies r.push(s.last())[i] != r.push(s.last())[j] by {
                        if j == r.len() {
                            assert(r.contains(r[i]));
                        }
                    }
                }
            }
        }
        if s.last() != a {
            assert(!r.push(s.last()).contains(a)) by {
                if r.push(s.last()).contains(a) {
                    let k = choose|k: int| 0 <= k < r.push(s.last()).len() && r.push(s.last())[k] == a;
                    if k < r.len() {
                        assert(r.contains(a));
                    }
                }
            }
        }
    }
}

pub proof fn lemma_results_without(s: Seq<ServerPingResult>, a: Seq<char>)
    ensures
        result_addresses(results_without(s, a)) == without(result_addresses(s), a),
    decreases s.len(),
{
    if s.len() > 0 {
        lemma_results_without(s.drop_last(), a);
        assert(result_addresses(s).drop_last() =~= result_addresses(s.drop_last()));
        if s.last().address@ != a {
            assert(result_addresses(results_without(s, a)) =~= result_addresses(results_without(s.drop_last(), a)).push(
                s.last().address@,
            ));
        }
    }
}

/// A front-capped list of unique entries whose head is new stays unique.
pub proof fn lemma_front_capped_unique(x: Seq<char>, rest: Seq<Seq<char>>, cap: nat)
    requires
        !rest.contains(x),
        rest.no_duplicates(),
    ensures
        front_capped(x, rest, cap).no_duplicates(),
{
    let s = seq![x] + rest;
    assert(s.no_duplicates()) by {
        assert forall|i: int, j: int| 0 <= i < j < s.len() implies s[i] != s[j] by {
            if i == 0 {
                assert(rest[j - 1] == s[j]);
                assert(rest.contains(s[j]));
            } else {
                assert(s[i] == rest[i - 1] && s[j] == rest[j - 1]);
            }
        }
    }
    if s.len() > cap {
        assert forall|i: int, j: int| 0 <= i < j < s.subrange(0, cap as int).len() implies s.subrange(0, cap as int)[i] != s.subrange(
            0,
            cap as int,
        )[j] by {
            assert(s.subrange(0, cap as int)[i] == s[i]);
            assert(s.subrange(0, cap as int)[j] == s[j]);
        }
    }
}

/// Recently used server addresses, most recent first, and the latest ping result of each,
/// both limited to the book's capacity, with no address twice in either list.
#[derive(Debug, PartialEq, Eq)]
pub struct ServerAddressBook {
    addresses: Vec<String>,
    recent_results: Vec<ServerPingResult>,
    capacity: usize,
}

pub open spec fn string_views(v: Seq<String>) -> Seq<Seq<char>> {
    v.map_values(|s: String| s@)
}

impl ServerAddressBook {
    #[verifier::type_invariant]
    closed spec fn inv(self) -> bool {
        &&& self.capacity >= 1
        &&& self.addresses@.len() <= self.capacity
        &&& self.recent_results@.len() <= self.capacity
        &&& string_views(self.addresses@).no_duplicates()
        &&& result_addresses(self.recent_results@).no_duplicates()
    }

    /// Addresses, most recent first.
    pub closed spec fn addresses_view(&self) -> Seq<Seq<char>> {
        string_views(self.addresses@)
    }

    /// Ping results, most recent first.
    pub closed spec fn results_view(&self) -> Seq<ServerPingResult> {
        self.recent_results@
    }

    /// Most entries each list holds.
    pub closed spec fn spec_capacity(&self) -> nat {
        self.capacity as nat
    }

    /// An empty book holding at most `capacity` entries per list (at least 1).
    pub fn new(capacity: usize) -> (r: ServerAddressBook)
        ensures
            r.addresses_view().len() == 0,
            r.results_view().len() == 0,
            r.spec_capacity() == if capacity < 1 {
                1
            } else {
                capacity as nat
            },
    {
        let r = ServerAddressBook {
            addresses: Vec::new(),
            recent_results: Vec::new(),
            capacity: if capacity < 1 {
                1
            } else {
                capacity
            },
        };
        assert(string_views(r.addresses@) =~= Seq::<Seq<char>>::empty());
        assert(result_addresses(r.recent_results@) =~= Seq::<Seq<char>>::empty());
        r
    }

    /// Addresses, most recent first.
    pub fn addresses(&self) -> (r: &[String])
        ensures
            string_views(r@) == self.addresses_view(),
    {
        self.addresses.as_slice()
    }

    /// Ping results, most recent first.
    pub fn recent_results(&self) -> (r: &[ServerPingResult])
        ensures
            r@ == self.results_view(),
    {
        self.recent_results.as_slice()
    }

    /// Put `address` first, dropping its earlier entry and whatever no longer fits; a blank
    /// address is ignored.
    pub fn remember(&mut self, address: &str)
        ensures
            final(self).spec_capacity() == old(self).spec_capacity(),
            final(self).results_view() == old(self).results_view(),
            trim(address@).len() == 0 ==> final(self).addresses_view() == old(self).addresses_view(),
            trim(address@).len() > 0 ==> final(self).addresses_view() == front_capped(
                address@,
                without(old(self).addresses_view(), address@),
                old(self).spec_capacity(),
            ),
            trim(address@).len() > 0 ==> final(self).addresses_view()[0] == address@,
    {
        proof {
            use_type_invariant(&*self);
        }
        let t = crate::text::trimmed_chars(address);
        if t.len() == 0 {
            return;
        }
        let a = String::from_str(address);
        let ghost old_view = string_views(self.addresses@);
        let mut kept: Vec<String> = Vec::new();
        kept.push(a.clone());
        let mut i: usize = 0;
        let n = self.addresses.len();
        proof {
            assert(string_views(self.addresses@).subrange(0, 0) =~= Seq::<Seq<char>>::empty());
            assert(string_views(kept@) =~= seq![address@] + without(old_view.subrange(0, 0), address@));
        }
        while i < n
            invariant
                n == self.addresses@.len(),
                i <= n,
                old_view == string_views(self.addresses@),
                a@ == address@,
                string_views(kept@) == seq![address@] + without(old_view.subrange(0, i as int), address@),
            decreases n - i,
        {
            proof {
                assert(old_view.subrange(0, i + 1).drop_last() =~= old_view.subrange(0, i as int));
            }
            if !(self.addresses[i] == a) {
                let ghost k0 = kept@;
                kept.push(self.addresses[i].clone());
                proof {
                    assert(string_views(kept@) =~= string_views(k0).push(old_view[i as int]));
                }
            }
            i += 1;
        }
        proof {
            assert(old_view.subrange(0, n as int) =~= old_view);
        }
        if kept.len() > self.capacity {
            kept.truncate(self.capacity);
            proof {
                let full = seq![address@] + without(old_view, address@);
                assert(string_views(kept@) =~= full.subrange(0, self.capacity as int));
            }
        }
        proof {
            lemma_without(old_view, address@);
            lemma_front_capped_unique(address@, without(old_view, address@), self.capacity as nat);
        }
        self.addresses = kept;
    }

    /// Remember the result's address and put the result first, dropping the earlier result for
    /// the same address and whatever no longer fits.
    pub fn record_ping(&mut self, result: ServerPingResult)
        ensures
            final(self).spec_capacity() == old(self).spec_capacity(),
            trim(result.address@).len() == 0 ==> final(self).addresses_view() == old(self).addresses_view(),
            trim(result.address@).len() > 0 ==> final(self).addresses_view() == front_capped(
                result.address@,
                without(old(self).addresses_view(), result.address@),
                old(self).spec_capacity(),
            ),
            final(self).results_view() == front_capped(
                result,
                results_without(old(self).results_view(), result.address@),
                old(self).spec_capacity(),
            ),
    {
        self.remember(result.address.as_str());
        proof {
            use_type_invariant(&*self);
        }
        let ghost old_results = self.recent_results@;
        let n = self.recent_results.len();
        let mut kept: Vec<ServerPingResult> = Vec::new();
        let mut i: usize = 0;
        let ghost head = result;
        proof {
            assert(old_results.subrange(0, 0) =~= Seq::<ServerPingResult>::empty());
        }
        while i < n
            invariant
                n == self.recent_results@.len(),
                i <= n,
                old_results == self.recent_results@,
                head == result,
                kept@ == results_without(old_results.subrange(0, i as int), result.address@),
            decreases n - i,
        {
            proof {
                assert(old_results.subrange(0, i + 1).drop_last() =~= old_results.subrange(0, i as int));
            }
            if !(self.recent_results[i].address == result.address) {
                let r = self.recent_results[i].clone_result();
                kept.push(r);
            }
            i += 1;
        }
        proof {
            assert(old_results.subrange(0, n as int) =~= old_results);
        }
        let ghost rest = kept@;
        let mut out: Vec<ServerPingResult> = Vec::new();
        out.push(result);
        let mut j: usize = 0;
        while j < kept.len()
            invariant
                j <= kept@.len(),
                kept@ == rest,
                out@ == seq![head] + rest.subrange(0, j as int),
            decreases kept.len() - j,
        {
            out.push(kept[j].clone_result());
            proof {
                assert(rest.subrange(0, j + 1) =~= rest.subrange(0, j as int).push(rest[j as int]));
            }
            j += 1;
        }
        proof {
            assert(rest.subrange(0, rest.len() as int) =~= rest);
        }
        if out.len() > self.capacity {
            out.truncate(self.capacity);
        }
        proof {
            lemma_results_without(old_results, head.address@);
            lemma_without(result_addresses(old_results), head.address@);
            lemma_front_capped_unique(head.address@, without(result_addresses(old_results), head.address@), self.capacity as nat);
            let full = seq![head] + results_without(old_results, head.address@);
            assert(result_addresses(full) =~= seq![head.address@] + result_addresses(results_without(old_results, head.address@)));
            if full.len() > self.capacity {
                assert(result_addresses(out@) =~= result_addresses(full).subrange(0, self.capacity as int));
            } else {
                assert(result_addresses(out@) =~= result_addresses(full));
            }
        }
        self.recent_results = out;
    }
}

impl ServerPingResult {
    /// A copy of the result.
    pub fn clone_result(&self) -> (r: ServerPingResult)
        ensures
            r == *self,
    {
        ServerPingResult {
            address: self.address.clone(),
            version: self.version.clone(),
            motd: self.motd.clone(),
            online_players: self.online_players,
            max_players: self.max_players,
            error: match &self.error {
                Some(e) => Some(e.clone()),
                None => None,
            },
        }
    }
}

/// Rows of the built-in 5-by-7 pixel font for `ch`, top row first, each row's pixels in its low
/// five bits with the leftmost in bit 4; a blank cell for a character the font lacks.
pub open spec fn spec_glyph(ch: char) -> [u8; 7] {
    match ch {
        'A' => [14u8, 17u8, 17u8, 31u8, 17u8, 17u8, 17u8],
        'B' => [30u8, 17u8, 17u8, 30u8, 17u8, 17u8, 30u8],
        'C' => [14u8, 17u8, 16u8, 16u8, 16u8, 17u8, 14u8],
        'D' => [30u8, 17u8, 17u8, 17u8, 17u8, 17u8, 30u8],
        'E' => [31u8, 16u8, 16u8, 30u8, 16u8, 16u8, 31u8],
        'F' => [31u8, 16u8, 16u8, 30u8, 16u8, 16u8, 16u8],
        'G' => [14u8, 17u8, 16u8, 23u8, 17u8, 17u8, 14u8],
        'H' => [17u8, 17u8, 17u8, 31u8, 17u8, 17u8, 17u8],
        'I' => [31u8, 4u8, 4u8, 4u8, 4u8, 4u8, 31u8],
        'J' => [7u8, 2u8, 2u8, 2u8, 18u8, 18u8, 12u8],
        'K' => [17u8, 18u8, 20u8, 24u8, 20u8, 18u8, 17u8],
        'L' => [16u8, 16u8, 16u8, 16u8, 16u8, 16u8, 31u8],
        'M' => [17u8, 27u8, 21u8, 21u8, 17u8, 17u8, 17u8],
        'N' => [17u8, 25u8, 21u8, 19u8, 17u8, 17u8, 17u8],
        'O' => [14u8, 17u8, 17u8, 17u8, 17u8, 17u8, 14u8],
        'P' => [30u8, 17u8, 17u8, 30u8, 16u8, 16u8, 16u8],
        'Q' => [14u8, 17u8, 17u8, 17u8, 21u8, 18u8, 13u8],
        'R' => [30u8, 17u8, 17u8, 30u8, 20u8, 18u8, 17u8],
        'S' => [15u8, 16u8, 16u8, 14u8, 1u8, 1u8, 30u8],
        'T' => [31u8, 4u8, 4u8, 4u8, 4u8, 4u8, 4u8],
        'U' => [17u8, 17u8, 17u8, 17u8, 17u8, 17u8, 14u8],
        'V' => [17u8, 17u8, 17u8, 17u8, 17u8, 10u8, 4u8],
        'W' => [17u8, 17u8, 17u8, 21u8, 21u8, 21u8, 10u8],
        'X' => [17u8, 17u8, 10u8, 4u8, 10u8, 17u8, 17u8],
        'Y' => [17u8, 17u8, 10u8, 4u8, 4u8, 4u8, 4u8],
        'Z' => [31u8, 1u8, 2u8, 4u8, 8u8, 16u8, 31u8],
        '0' => [14u8, 17u8, 19u8, 21u8, 25u8, 17u8, 14u8],
        '1' => [4u8, 12u8, 4u8, 4u8, 4u8, 4u8, 14u8],
        '2' => [14u8, 17u8, 1u8, 2u8, 4u8, 8u8, 31u8],
        '3' => [30u8, 1u8, 1u8, 14u8, 1u8, 1u8, 30u8],
        '4' => [2u8, 6u8, 10u8, 18u8, 31u8, 2u8, 2u8],
        '5' => [31u8, 16u8, 16u8, 30u8, 1u8, 1u8, 30u8],
        '6' => [14u8, 16u8, 16u8, 30u8, 17u8, 17u8, 14u8],
        '7' => [31u8, 1u8, 2u8, 4u8, 8u8, 8u8, 8u8],
        '8' => [14u8, 17u8, 17u8, 14u8, 17u8, 17u8, 14u8],
        '9' => [14u8, 17u8, 17u8, 15u8, 1u8, 1u8, 14u8],
        ':' => [0u8, 4u8, 4u8, 0u8, 4u8, 4u8, 0u8],
        '.' => [0u8, 0u8, 0u8, 0u8, 0u8, 4u8, 4u8],
        '-' => [0u8, 0u8, 0u8, 31u8, 0u8, 0u8, 0u8],
        '_' => [0u8, 0u8, 0u8, 0u8, 0u8, 0u8, 31u8],
        '<' => [2u8, 4u8, 8u8, 16u8, 8u8, 4u8, 2u8],
        '>' => [8u8, 4u8, 2u8, 1u8, 2u8, 4u8, 8u8],
        '/' => [1u8, 2u8, 2u8, 4u8, 8u8, 8u8, 16u8],
        '%' => [17u8, 2u8, 4u8, 8u8, 17u8, 0u8, 0u8],
        '?' => [14u8, 17u8, 1u8, 2u8, 4u8, 0u8, 4u8],
        _ => [0u8, 0u8, 0u8, 0u8, 0u8, 0u8, 0u8],
    }
}

/// Pixel rows of `ch` in the built-in menu font.
pub fn glyph(ch: char) -> (r: [u8; 7])
    ensures
        r == spec_glyph(ch),
{
    match ch {
        'A' => [14u8, 17u8, 17u8, 31u8, 17u8, 17u8, 17u8],
        'B' => [30u8, 17u8, 17u8, 30u8, 17u8, 17u8, 30u8],
        'C' => [14u8, 17u8, 16u8, 16u8, 16u8, 17u8, 14u8],
        'D' => [30u8, 17u8, 17u8, 17u8, 17u8, 17u8, 30u8],
        'E' => [31u8, 16u8, 16u8, 30u8, 16u8, 16u8, 31u8],
        'F' => [31u8, 16u8, 16u8, 30u8, 16u8, 16u8, 16u8],
        'G' => [14u8, 17u8, 16u8, 23u8, 17u8, 17u8, 14u8],
        'H' => [17u8, 17u8, 17u8, 31u8, 17u8, 17u8, 17u8],
        'I' => [31u8, 4u8, 4u8, 4u8, 4u8, 4u8, 31u8],
        'J' => [7u8, 2u8, 2u8, 2u8, 18u8, 18u8, 12u8],
        'K' => [17u8, 18u8, 20u8, 24u8, 20u8, 18u8, 17u8],
        'L' => [16u8, 16u8, 16u8, 16u8, 16u8, 16u8, 31u8],
        'M' => [17u8, 27u8, 21u8, 21u8, 17u8, 17u8, 17u8],
        'N' => [17u8, 25u8, 21u8, 19u8, 17u8, 17u8, 17u8],
        'O' => [14u8, 17u8, 17u8, 17u8, 17u8, 17u8, 14u8],
        'P' => [30u8, 17u8, 17u8, 30u8, 16u8, 16u8, 16u8],
        'Q' => [14u8, 17u8, 17u8, 17u8, 21u8, 18u8, 13u8],
        'R' => [30u8, 17u8, 17u8, 30u8, 20u8, 18u8, 17u8],
        'S' => [15u8, 16u8, 16u8, 14u8, 1u8, 1u8, 30u8],
        'T' => [31u8, 4u8, 4u8, 4u8, 4u8, 4u8, 4u8],
        'U' => [17u8, 17u8, 17u8, 17u8, 17u8, 17u8, 14u8],
        'V' => [17u8, 17u8, 17u8, 17u8, 17u8, 10u8, 4u8],
        'W' => [17u8, 17u8, 17u8, 21u8, 21u8, 21u8, 10u8],
        'X' => [17u8, 17u8, 10u8, 4u8, 10u8, 17u8, 17u8],
        'Y' => [17u8, 17u8, 10u8, 4u8, 4u8, 4u8, 4u8],
        'Z' => [31u8, 1u8, 2u8, 4u8, 8u8, 16u8, 31u8],
        '0' => [14u8, 17u8, 19u8, 21u8, 25u8, 17u8, 14u8],
        '1' => [4u8, 12u8, 4u8, 4u8, 4u8, 4u8, 14u8],
        '2' => [14u8, 17u8, 1u8, 2u8, 4u8, 8u8, 31u8],
        '3' => [30u8, 1u8, 1u8, 14u8, 1u8, 1u8, 30u8],
        '4' => [2u8, 6u8, 10u8, 18u8, 31u8, 2u8, 2u8],
        '5' => [31u8, 16u8, 16u8, 30u8, 1u8, 1u8, 30u8],
        '6' => [14u8, 16u8, 16u8, 30u8, 17u8, 17u8, 14u8],
        '7' => [31u8, 1u8, 2u8, 4u8, 8u8, 8u8, 8u8],
        '8' => [14u8, 17u8, 17u8, 14u8, 17u8, 17u8, 14u8],
        '9' => [14u8, 17u8, 17u8, 15u8, 1u8, 1u8, 14u8],
        ':' => [0u8, 4u8, 4u8, 0u8, 4u8, 4u8, 0u8],
        '.' => [0u8, 0u8, 0u8, 0u8, 0u8, 4u8, 4u8],
        '-' => [0u8, 0u8, 0u8, 31u8, 0u8, 0u8, 0u8],
        '_' => [0u8, 0u8, 0u8, 0u8, 0u8, 0u8, 31u8],
        '<' => [2u8, 4u8, 8u8, 16u8, 8u8, 4u8, 2u8],
        '>' => [8u8, 4u8, 2u8, 1u8, 2u8, 4u8, 8u8],
        '/' => [1u8, 2u8, 2u8, 4u8, 8u8, 8u8, 16u8],
        '%' => [17u8, 2u8, 4u8, 8u8, 17u8, 0u8, 0u8],
        '?' => [14u8, 17u8, 1u8, 2u8, 4u8, 0u8, 4u8],
        _ => [0u8, 0u8, 0u8, 0u8, 0u8, 0u8, 0u8],
    }
}

/// First position at or after `i` where `]:` starts in `s`; -1 when there is none.
pub open spec fn find_close_colon(s: Seq<char>, i: int) -> int
    decreases s.len() - i,
{
    if i < 0 || i + 1 >= s.len() {
        -1
    } else if s[i] == ']' && s[i + 1] == ':' {
        i
    } else {
        find_close_colon(s, i + 1)
    }
}

/// Position of the last `:` among the first `end` characters of `s`; -1 when there is none.
pub open spec fn last_colon(s: Seq<char>, end: int) -> int
    decreases end,
{
    if end <= 0 {
        -1
    } else if s[end - 1] == ':' {
        end - 1
    } else {
        last_colon(s, end - 1)
    }
}

/// A port number: text that reads as a `u16` above 0.
pub open spec fn valid_port(p: Seq<char>) -> bool {
    match parse_unsigned(p, 65535) {
        Some(v) => v > 0,
        None => false,
    }
}

/// Host and port of a saved server address, without surrounding white space: `[host]:port`
/// (the host ends at the first `]:`), or `host:port` where the host holds no `:`. The host
/// must not be empty and the port must be a valid one.
pub open spec fn spec_split_host_port(target: Seq<char>) -> Option<(Seq<char>, Seq<char>)> {
    let t = trim(target);
    if t.len() > 0 && t[0] == '[' {
        let rest = t.drop_first();
        let i = find_close_colon(rest, 0);
        if i < 0 {
            None
        } else {
            let host = rest.subrange(0, i);
            let port = rest.subrange(i + 2, rest.len() as int);
            if host.len() == 0 || !valid_port(port) {
                None
            } else {
                Some((host, port))
            }
        }
    } else {
        let j = last_colon(t, t.len() as int);
        if j < 0 {
            None
        } else {
            let host = t.subrange(0, j);
            let port = t.subrange(j + 1, t.len() as int);
            if host.len() == 0 || last_colon(host, host.len() as int) >= 0 || !valid_port(port) {
                None
            } else {
                Some((host, port))
            }
        }
    }
}

fn sub_chars(v: &Vec<char>, lo: usize, hi: usize) -> (r: Vec<char>)
    requires
        lo <= hi <= v@.len(),
    ensures
        r@ == v@.subrange(lo as int, hi as int),
{
    let mut r: Vec<char> = Vec::new();
    let mut i: usize = lo;
    while i < hi
        invariant
            lo <= i <= hi <= v@.len(),
            r@ == v@.subrange(lo as int, i as int),
        decreases hi - i,
    {
        r.push(v[i]);
        proof {
            assert(v@.subrange(lo as int, i + 1) =~= v@.subrange(lo as int, i as int).push(v@[i as int]));
        }
        i += 1;
    }
    r
}

proof fn lemma_last_colon_range(s: Seq<char>, end: int)
    ensures
        -1 <= last_colon(s, end) < if end > 0 { end } else { 0 },
    decreases end,
{
    if end > 0 {
        lemma_last_colon_range(s, end - 1);
    }
}

fn last_colon_in(v: &Vec<char>, end: usize) -> (r: Option<usize>)
    requires
        end <= v@.len(),
    ensures
        match r {
            Some(j) => last_colon(v@, end as int) == j,
            None => last_colon(v@, end as int) == -1,
        },
{
    let mut k: usize = end;
    while k > 0
        invariant
            k <= end <= v@.len(),
            last_colon(v@, end as int) == last_colon(v@, k as int),
        decreases k,
    {
        if v[k - 1] == ':' {
            return Some(k - 1);
        }
        k -= 1;
    }
    None
}

proof fn lemma_last_colon_prefix(s: Seq<char>, t: Seq<char>, end: int)
    requires
        0 <= end <= t.len(),
        end <= s.len(),
        forall|k: int| 0 <= k < end ==> s[k] == t[k],
    ensures
        last_colon(s, end) == last_colon(t, end),
    decreases end,
{
    if end > 0 {
        lemma_last_colon_prefix(s, t, end - 1);
    }
}

fn valid_port_chars(p: &Vec<char>) -> (r: bool)
    ensures
        r == valid_port(p@),
{
    match parse_unsigned_chars(p, 65535) {
        Some(v) => v > 0,
        None => false,
    }
}

/// Split a saved server address into the host and port fields of the join form.
pub fn split_host_port(target: &str) -> (r: Option<(String, String)>)
    ensures
        match r {
            Some((h, p)) => spec_split_host_port(target@) == Some((h@, p@)),
            None => spec_split_host_port(target@) is None,
        },
{
    let t = trimmed_chars(target);
    let n = t.len();
    if n > 0 && t[0] == '[' {
        let ghost rest = t@.drop_first();
        let mut i: usize = 1;
        while i < n - 1 && !(t[i] == ']' && t[i + 1] == ':')
            invariant
                1 <= i <= n,
                n == t@.len(),
                rest == t@.drop_first(),
                find_close_colon(rest, 0) == find_close_colon(rest, i - 1),
            decreases n - i,
        {
            i += 1;
        }
        if i >= n - 1 {
            return None;
        }
        let host = sub_chars(&t, 1, i);
        let port = sub_chars(&t, i + 2, n);
        proof {
            assert(host@ =~= rest.subrange(0, i - 1));
            assert(port@ =~= rest.subrange(i + 1, rest.len() as int));
        }
        if host.len() == 0 || !valid_port_chars(&port) {
            return None;
        }
        Some((string_from_chars(&host), string_from_chars(&port)))
    } else {
        let j = match last_colon_in(&t, n) {
            Some(j) => j,
            None => {
                return None;
            },
        };
        proof {
            lemma_last_colon_range(t@, n as int);
        }
        let host = sub_chars(&t, 0, j);
        let port = sub_chars(&t, j + 1, n);
        proof {
            lemma_last_colon_prefix(host@, t@, j as int);
        }
        if host.len() == 0 || last_colon_in(&host, j).is_some() || !valid_port_chars(&port) {
            return None;
        }
        Some((string_from_chars(&host), string_from_chars(&port)))
    }
}

/// Who the player is in a session: alone, hosting on a port, or joining a server.
#[derive(Debug, Clone, PartialEq, Eq)]
pub enum MultiplayerRole {
    Singleplayer,
    Host { port: u16 },
    Client { server_addr: String, port: u16, username: String },
}

/// Everything the game needs to open a world.
pub struct WorldLaunch {
    pub world_dir: String,
    pub seed: u32,
    pub game_mode: GameMode,
    pub difficulty: Difficulty,
    pub role: MultiplayerRole,
}

/// Label of a switch in the options screens.
pub fn on_off(value: bool) -> (r: &'static str)
    ensures
        r@ == (if value { "ON"@ } else { "OFF"@ }),
{
    if value {
        "ON"
    } else {
        "OFF"
    }
}

/// Number of `:` in `s`.
pub open spec fn colon_count(s: Seq<char>) -> nat
    decreases s.len(),
{
    if s.len() == 0 {
        0
    } else {
        colon_count(s.drop_last()) + if s.last() == ':' { 1nat } else { 0nat }
    }
}

/// The address the join form connects to: the typed address without surrounding white space,
/// then `:` and the port; an address with more than one `:` (and no `[` before it) is put in
/// brackets. None when the address is blank or the port text is no port above 0.
pub open spec fn spec_join_target(server_address: Seq<char>, join_port: Seq<char>) -> Option<Seq<char>> {
    let address = trim(server_address);
    match parse_unsigned(trim(join_port), 65535) {
        Some(port) => if address.len() == 0 || port == 0 {
            None
        } else if address[0] == '[' {
            Some(address + seq![':'] + decimal(port))
        } else if colon_count(address) > 1 {
            Some(seq!['['] + address + seq![']', ':'] + decimal(port))
        } else {
            Some(address + seq![':'] + decimal(port))
        },
        None => None,
    }
}

fn count_colons(v: &Vec<char>) -> (r: usize)
    ensures
        r == colon_count(v@),
{
    let mut n: usize = 0;
    let mut i: usize = 0;
    while i < v.len()
        invariant
            i <= v@.len(),
            n == colon_count(v@.subrange(0, i as int)),
            n <= i,
        decreases v.len() - i,
    {
        proof {
            assert(v@.subrange(0, i + 1).drop_last() =~= v@.subrange(0, i as int));
        }
        if v[i] == ':' {
            n += 1;
        }
        i += 1;
    }
    proof {
        assert(v@.subrange(0, v@.len() as int) =~= v@);
    }
    n
}

/// The address to connect to from the join form's address and port fields.
pub fn join_target(server_address: &str, join_port: &str) -> (r: Option<String>)
    ensures
        match r {
            Some(t) => spec_join_target(server_address@, join_port@) == Some(t@),
            None => spec_join_target(server_address@, join_port@) is None,
        },
{
    let address = trimmed_chars(server_address);
    let port_text = trimmed_chars(join_port);
    let port = match parse_unsigned_chars(&port_text, 65535) {
        Some(p) => p,
        None => {
            return None;
        },
    };
    if address.len() == 0 || port == 0 {
        return None;
    }
    let digits = u64_to_decimal(port);
    let mut out = String::new();
    if address[0] != '[' && count_colons(&address) > 1 {
        push_char(&mut out, '[');
        let a = string_from_chars(&address);
        append_str(&mut out, a.as_str());
        push_char(&mut out, ']');
        push_char(&mut out, ':');
        append_str(&mut out, digits.as_str());
        proof {
            assert(out@ =~= seq!['['] + address@ + seq![']', ':'] + decimal(port as nat));
        }
    } else {
        let a = string_from_chars(&address);
        append_str(&mut out, a.as_str());
        push_char(&mut out, ':');
        append_str(&mut out, digits.as_str());
        proof {
            assert(out@ =~= address@ + seq![':'] + decimal(port as nat));
        }
    }
    Some(out)
}

/// The decimal text of a port reads back as that port, and holds only digits.
proof fn lemma_port_text(port: nat)
    requires
        0 < port <= 65535,
    ensures
        valid_port(decimal(port)),
        decimal(port).len() > 0,
        forall|i: int| 0 <= i < decimal(port).len() ==> crate::text::is_ascii_digit(#[trigger] decimal(port)[i]),
{
    let d = decimal(port);
    crate::worlds::lemma_decimal_digits(port);
    assert(crate::text::is_ascii_digit(d[0]));
}

proof fn lemma_last_colon_after(x: Seq<char>, d: Seq<char>, end: int)
    requires
        forall|i: int| 0 <= i < d.len() ==> crate::text::is_ascii_digit(#[trigger] d[i]),
        x.len() + 1 <= end <= x.len() + 1 + d.len(),
    ensures
        last_colon(x + seq![':'] + d, end) == x.len(),
    decreases end,
{
    let s = x + seq![':'] + d;
    if end > x.len() + 1 {
        assert(s[end - 1] == d[end - 1 - x.len() - 1]);
        assert(crate::text::is_ascii_digit(d[end - 1 - x.len() - 1]));
        lemma_last_colon_after(x, d, end - 1);
    } else {
        assert(s[end - 1] == ':');
    }
}

proof fn lemma_no_colon(x: Seq<char>, end: int)
    requires
        0 <= end <= x.len(),
        colon_count(x.subrange(0, end)) == 0,
    ensures
        last_colon(x, end) == -1,
    decreases end,
{
    if end > 0 {
        let p = x.subrange(0, end);
        assert(p.drop_last() =~= x.subrange(0, end - 1));
        assert(p.last() == x[end - 1]);
        lemma_no_colon(x, end - 1);
    }
}

proof fn lemma_close_colon_after(x: Seq<char>, d: Seq<char>, i: int)
    requires
        0 <= i <= x.len(),
        forall|k: int| 0 <= k < x.len() ==> #[trigger] x[k] != ']',
    ensures
        find_close_colon(x + seq![']', ':'] + d, i) == x.len(),
    decreases x.len() - i,
{
    let s = x + seq![']', ':'] + d;
    if i < x.len() {
        assert(s[i] == x[i]);
        lemma_close_colon_after(x, d, i + 1);
    } else {
        assert(s[i] == ']' && s[i + 1] == ':');
    }
}

/// An address the join form connects to splits back into the form's address and port when the
/// address is a host name without `:`, or an IPv6 address (several `:`) without `]`; the port
/// comes back as its decimal number.
pub proof fn lemma_join_target_splits_back(server_address: Seq<char>, join_port: Seq<char>)
    requires
        spec_join_target(server_address, join_port) is Some,
        ({
            let a = trim(server_address);
            a.len() > 0 && a[0] != '[' && (colon_count(a) == 0 || (colon_count(a) > 1 && forall|k: int|
                0 <= k < a.len() ==> #[trigger] a[k] != ']'))
        }),
    ensures
        spec_split_host_port(spec_join_target(server_address, join_port).unwrap()) == Some(
            (trim(server_address), decimal(parse_unsigned(trim(join_port), 65535).unwrap())),
        ),
{
    let a = trim(server_address);
    let port = parse_unsigned(trim(join_port), 65535).unwrap();
    let d = decimal(port);
    let t = spec_join_target(server_address, join_port).unwrap();
    lemma_port_text(port);
    crate::worlds::lemma_trim_start_shape(server_address);
    crate::worlds::lemma_trim_end_shape(crate::text::trim_start(server_address));
    assert(!crate::text::is_white_space(a[0]));
    assert(crate::text::is_ascii_digit(d.last()));
    assert(crate::text::is_ascii_digit(d[0]));
    if colon_count(a) == 0 {
        assert(t == a + seq![':'] + d);
        assert(t.last() == d.last());
        assert(t[0] == a[0]);
        assert(crate::text::trim_start(t) == t);
        assert(crate::text::trim_end(t) == t);
        lemma_last_colon_after(a, d, t.len() as int);
        assert(t.subrange(0, a.len() as int) =~= a);
        assert(t.subrange(a.len() as int + 1, t.len() as int) =~= d);
        assert(a.subrange(0, a.len() as int) =~= a);
        lemma_no_colon(a, a.len() as int);
    } else {
        assert(t == seq!['['] + a + seq![']', ':'] + d);
        assert(t.last() == d.last());
        assert(crate::text::trim_start(t) == t);
        assert(crate::text::trim_end(t) == t);
        let rest = t.drop_first();
        assert(rest =~= a + seq![']', ':'] + d);
        lemma_close_colon_after(a, d, 0);
        assert(rest.subrange(0, a.len() as int) =~= a);
        assert(rest.subrange(a.len() as int + 2, rest.len() as int) =~= d);
    }
}

} // verus!
