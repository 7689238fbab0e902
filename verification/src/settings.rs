//! Settings files: how their lines are read, the control bindings, and the controls file.

use vstd::prelude::*;
use crate::localization::Language;
use crate::menu::{parse_bool, spec_parse_bool, Difficulty};
use crate::keys::{key_name, lemma_key_name_round_trip, parse_key, spec_key_name, spec_parse_key, Key};
use crate::text::{
    append_str, chars_of, decimal, u64_to_decimal, is_white_space, parse_i32, parse_i32_chars, parse_unsigned, parse_unsigned_chars, push_char,
    string_from_chars, trim, trim_end, trim_start, trimmed_chars,
};
use crate::worlds::{
    chars_between, find_char, find_char_from, lemma_find_char_range, lemma_find_char_shift, lemma_find_in_prefix,
    lemma_lines_text_push, lines_text, plain_line, strip_cr, trim_chars,
};

verus! {

/// The key bound to each action.
#[derive(Debug, Clone, Copy, PartialEq, Eq, Structural)]
pub struct ControlBindings {
    pub forward: Key,
    pub backward: Key,
    pub left: Key,
    pub right: Key,
    pub jump: Key,
    pub sprint: Key,
    pub sneak: Key,
    pub inventory: Key,
    pub chat: Key,
    pub time_speed: Key,
    pub advancements: Key,
    pub debug: Key,
    pub perspective: Key,
    pub gamemode: Key,
    pub pause: Key,
    pub hotbar_1: Key,
    pub hotbar_2: Key,
    pub hotbar_3: Key,
    pub hotbar_4: Key,
    pub hotbar_5: Key,
    pub hotbar_6: Key,
    pub hotbar_7: Key,
    pub hotbar_8: Key,
    pub hotbar_9: Key,
}

/// The line of the controls file that binds `k` under setting `key`.
pub open spec fn binding_line(key: Seq<char>, k: Key) -> Seq<char> {
    key + " = "@ + spec_key_name(k)
}

fn binding_line_text(key: &str, k: Key) -> (r: String)
    ensures
        r@ == binding_line(key@, k),
{
    let mut s = String::from_str(key);
    append_str(&mut s, " = ");
    append_str(&mut s, key_name(k));
    s
}

fn push_line(out: &mut String, line: &str, Ghost(ls): Ghost<Seq<Seq<char>>>, Ghost(k): Ghost<int>)
    requires
        0 <= k < ls.len(),
        old(out)@ == lines_text(ls.take(k)),
        ls[k] == line@,
    ensures
        final(out)@ == lines_text(ls.take(k + 1)),
{
    append_str(out, line);
    push_char(out, '\n');
    proof {
        assert(ls.take(k + 1) =~= ls.take(k).push(ls[k]));
        lemma_lines_text_push(ls.take(k), ls[k]);
        assert(out@ =~= lines_text(ls.take(k)) + ls[k] + seq!['\n']);
    }
}

impl ControlBindings {
    /// The bindings a new player starts with.
    pub open spec fn spec_default() -> ControlBindings {
        ControlBindings {
            forward: Key::KeyW,
            backward: Key::KeyS,
            left: Key::KeyA,
            right: Key::KeyD,
            jump: Key::Space,
            sprint: Key::ControlLeft,
            sneak: Key::ShiftLeft,
            inventory: Key::KeyE,
            chat: Key::KeyT,
            time_speed: Key::KeyF,
            advancements: Key::KeyL,
            debug: Key::F3,
            perspective: Key::F5,
            gamemode: Key::KeyG,
            pause: Key::Escape,
            hotbar_1: Key::Digit1,
            hotbar_2: Key::Digit2,
            hotbar_3: Key::Digit3,
            hotbar_4: Key::Digit4,
            hotbar_5: Key::Digit5,
            hotbar_6: Key::Digit6,
            hotbar_7: Key::Digit7,
            hotbar_8: Key::Digit8,
            hotbar_9: Key::Digit9,
        }
    }

    /// These bindings with action number `i` bound to `k`.
    pub open spec fn spec_set(self, i: int, k: Key) -> ControlBindings {
        if i == 0 {
            ControlBindings { forward: k, ..self }
        } else if i == 1 {
            ControlBindings { backward: k, ..self }
        } else if i == 2 {
            ControlBindings { left: k, ..self }
        } else if i == 3 {
            ControlBindings { right: k, ..self }
        } else if i == 4 {
            ControlBindings { jump: k, ..self }
        } else if i == 5 {
            ControlBindings { sprint: k, ..self }
        } else if i == 6 {
            ControlBindings { sneak: k, ..self }
        } else if i == 7 {
            ControlBindings { inventory: k, ..self }
        } else if i == 8 {
            ControlBindings { chat: k, ..self }
        } else if i == 9 {
            ControlBindings { time_speed: k, ..self }
        } else if i == 10 {
            ControlBindings { advancements: k, ..self }
        } else if i == 11 {
            ControlBindings { debug: k, ..self }
        } else if i == 12 {
            ControlBindings { perspective: k, ..self }
        } else if i == 13 {
            ControlBindings { gamemode: k, ..self }
        } else if i == 14 {
            ControlBindings { pause: k, ..self }
        } else if i == 15 {
            ControlBindings { hotbar_1: k, ..self }
        } else if i == 16 {
            ControlBindings { hotbar_2: k, ..self }
        } else if i == 17 {
            ControlBindings { hotbar_3: k, ..self }
        } else if i == 18 {
            ControlBindings { hotbar_4: k, ..self }
        } else if i == 19 {
            ControlBindings { hotbar_5: k, ..self }
        } else if i == 20 {
            ControlBindings { hotbar_6: k, ..self }
        } else if i == 21 {
            ControlBindings { hotbar_7: k, ..self }
        } else if i == 22 {
            ControlBindings { hotbar_8: k, ..self }
        } else {
            ControlBindings { hotbar_9: k, ..self }
        }
    }

    fn set(&mut self, i: usize, k: Key)
        requires
            i < 24,
        ensures
            *final(self) == old(self).spec_set(i as int, k),
    {
        match i {
            0 => self.forward = k,
            1 => self.backward = k,
            2 => self.left = k,
            3 => self.right = k,
            4 => self.jump = k,
            5 => self.sprint = k,
            6 => self.sneak = k,
            7 => self.inventory = k,
            8 => self.chat = k,
            9 => self.time_speed = k,
            10 => self.advancements = k,
            11 => self.debug = k,
            12 => self.perspective = k,
            13 => self.gamemode = k,
            14 => self.pause = k,
            15 => self.hotbar_1 = k,
            16 => self.hotbar_2 = k,
            17 => self.hotbar_3 = k,
            18 => self.hotbar_4 = k,
            19 => self.hotbar_5 = k,
            20 => self.hotbar_6 = k,
            21 => self.hotbar_7 = k,
            22 => self.hotbar_8 = k,
            _ => self.hotbar_9 = k,
        }
    }

    /// The bindings after one `key`/`value` setting: a `key_…` setting whose value names a key
    /// binds that key to its action; anything else changes nothing.
    pub open spec fn spec_apply(self, key: Seq<char>, value: Seq<char>) -> ControlBindings {
        let i = control_slot(key);
        match spec_parse_key(value) {
            Some(k) => if i >= 0 { self.spec_set(i, k) } else { self },
            None => self,
        }
    }

    /// Apply one `key`/`value` setting of a settings or controls file.
    pub fn apply_setting(&mut self, key: &str, value: &str)
        ensures
            *final(self) == old(self).spec_apply(key@, value@),
    {
        let k = chars_of(key);
        let slot = control_slot_of(&k);
        match parse_key(value) {
            Some(code) => match slot {
                Some(i) => self.set(i, code),
                None => {},
            },
            None => {},
        }
    }

    /// The key bound to action number `i`, in the order of the fields.
    pub open spec fn spec_get(self, i: int) -> Key {
        if i == 0 {
            self.forward
        } else if i == 1 {
            self.backward
        } else if i == 2 {
            self.left
        } else if i == 3 {
            self.right
        } else if i == 4 {
            self.jump
        } else if i == 5 {
            self.sprint
        } else if i == 6 {
            self.sneak
        } else if i == 7 {
            self.inventory
        } else if i == 8 {
            self.chat
        } else if i == 9 {
            self.time_speed
        } else if i == 10 {
            self.advancements
        } else if i == 11 {
            self.debug
        } else if i == 12 {
            self.perspective
        } else if i == 13 {
            self.gamemode
        } else if i == 14 {
            self.pause
        } else if i == 15 {
            self.hotbar_1
        } else if i == 16 {
            self.hotbar_2
        } else if i == 17 {
            self.hotbar_3
        } else if i == 18 {
            self.hotbar_4
        } else if i == 19 {
            self.hotbar_5
        } else if i == 20 {
            self.hotbar_6
        } else if i == 21 {
            self.hotbar_7
        } else if i == 22 {
            self.hotbar_8
        } else {
            self.hotbar_9
        }
    }

    /// No action is bound to a key without a name.
    pub open spec fn all_named(self) -> bool {
        self.forward != Key::Other
        && self.backward != Key::Other
        && self.left != Key::Other
        && self.right != Key::Other
        && self.jump != Key::Other
        && self.sprint != Key::Other
        && self.sneak != Key::Other
        && self.inventory != Key::Other
        && self.chat != Key::Other
        && self.time_speed != Key::Other
        && self.advancements != Key::Other
        && self.debug != Key::Other
        && self.perspective != Key::Other
        && self.gamemode != Key::Other
        && self.pause != Key::Other
        && self.hotbar_1 != Key::Other
        && self.hotbar_2 != Key::Other
        && self.hotbar_3 != Key::Other
        && self.hotbar_4 != Key::Other
        && self.hotbar_5 != Key::Other
        && self.hotbar_6 != Key::Other
        && self.hotbar_7 != Key::Other
        && self.hotbar_8 != Key::Other
        && self.hotbar_9 != Key::Other
    }

    /// The lines of the controls file for these bindings: explanatory comments, blank lines,
    /// and one `key_… = NAME` line per action.
    pub open spec fn controls_lines(self) -> Seq<Seq<char>> {
        Seq::new(80, |i: int| self.controls_line(i))
    }

    /// Line `i` of the controls file for these bindings.
    pub open spec fn controls_line(self, i: int) -> Seq<char> {
        if i == 0 {
            "# ====================================================================="@
        } else if i == 1 {
            "# iCraft 玩家按鍵設定檔 (Keybindings Configuration)"@
        } else if i == 2 {
            "# ====================================================================="@
        } else if i == 3 {
            "# 本檔案供玩家自由修改遊戲內的所有按鍵綁定。"@
        } else if i == 4 {
            "# 修改存檔後，啟動遊戲將自動載入最新按鍵設定。"@
        } else if i == 5 {
            "#"@
        } else if i == 6 {
            "# 【支援的按鍵名稱 (Supported Key Names)】:"@
        } else if i == 7 {
            "#   - 字母鍵: A, B, C, ..., Z"@
        } else if i == 8 {
            "#   - 數字鍵: 0, 1, 2, ..., 9"@
        } else if i == 9 {
            "#   - 方向鍵: UP, DOWN, LEFT, RIGHT"@
        } else if i == 10 {
            "#   - 修飾鍵: SPACE, LCTRL, RCTRL, LSHIFT, RSHIFT"@
        } else if i == 11 {
            "#   - 控制鍵: ESC, ENTER, TAB, BACKSPACE, F1 ~ F12"@
        } else if i == 12 {
            "# ====================================================================="@
        } else if i == 13 {
            Seq::<char>::empty()
        } else if i == 14 {
            "# ---------------------------------------------------------------------"@
        } else if i == 15 {
            "# 1. 角色移動與基本操作 (Movement & Basic Actions)"@
        } else if i == 16 {
            "# ---------------------------------------------------------------------"@
        } else if i == 17 {
            Seq::<char>::empty()
        } else if i == 18 {
            "# 前進 (Move Forward)"@
        } else if i == 19 {
            binding_line("key_forward"@, self.forward)
        } else if i == 20 {
            Seq::<char>::empty()
        } else if i == 21 {
            "# 後退 (Move Backward)"@
        } else if i == 22 {
            binding_line("key_backward"@, self.backward)
        } else if i == 23 {
            Seq::<char>::empty()
        } else if i == 24 {
            "# 向左平移 (Move Left)"@
        } else if i == 25 {
            binding_line("key_left"@, self.left)
        } else if i == 26 {
            Seq::<char>::empty()
        } else if i == 27 {
            "# 向右平移 (Move Right)"@
        } else if i == 28 {
            binding_line("key_right"@, self.right)
        } else if i == 29 {
            Seq::<char>::empty()
        } else if i == 30 {
            "# 跳躍 / 創造模式向上飛行 (Jump / Ascend)"@
        } else if i == 31 {
            binding_line("key_jump"@, self.jump)
        } else if i == 32 {
            Seq::<char>::empty()
        } else if i == 33 {
            "# 疾跑 (Sprint)"@
        } else if i == 34 {
            binding_line("key_sprint"@, self.sprint)
        } else if i == 35 {
            Seq::<char>::empty()
        } else if i == 36 {
            "# 潛行 / 創造模式向下滑行 (Sneak / Descend)"@
        } else if i == 37 {
            binding_line("key_sneak"@, self.sneak)
        } else if i == 38 {
            Seq::<char>::empty()
        } else if i == 39 {
            "# 開啟 / 關閉背包 (Toggle Inventory)"@
        } else if i == 40 {
            binding_line("key_inventory"@, self.inventory)
        } else if i == 41 {
            Seq::<char>::empty()
        } else if i == 42 {
            "# ---------------------------------------------------------------------"@
        } else if i == 43 {
            "# 2. 系統功能與模式切換快捷鍵 (System & Gameplay Hotkeys)"@
        } else if i == 44 {
            "# ---------------------------------------------------------------------"@
        } else if i == 45 {
            Seq::<char>::empty()
        } else if i == 46 {
            "# 開啟 / 關閉聊天框 (Open Chat)"@
        } else if i == 47 {
            binding_line("key_chat"@, self.chat)
        } else if i == 48 {
            Seq::<char>::empty()
        } else if i == 49 {
            "# 時間加速 (Accelerate Time)"@
        } else if i == 50 {
            binding_line("key_time_speed"@, self.time_speed)
        } else if i == 51 {
            Seq::<char>::empty()
        } else if i == 52 {
            "# 開啟 / 關閉成就樹 (Advancements Screen)"@
        } else if i == 53 {
            binding_line("key_advancements"@, self.advancements)
        } else if i == 54 {
            Seq::<char>::empty()
        } else if i == 55 {
            "# 開啟 / 關閉 F3 偵錯 Overlay (Debug Info)"@
        } else if i == 56 {
            binding_line("key_debug"@, self.debug)
        } else if i == 57 {
            Seq::<char>::empty()
        } else if i == 58 {
            "# 切換第一人稱 / 第三人稱視角 (Toggle Camera View)"@
        } else if i == 59 {
            binding_line("key_perspective"@, self.perspective)
        } else if i == 60 {
            Seq::<char>::empty()
        } else if i == 61 {
            "# 切換生存 / 創造遊戲模式 (Toggle Game Mode)"@
        } else if i == 62 {
            binding_line("key_gamemode"@, self.gamemode)
        } else if i == 63 {
            Seq::<char>::empty()
        } else if i == 64 {
            "# 暫停選單 / 關閉界面 (Pause Menu / Close UI)"@
        } else if i == 65 {
            binding_line("key_pause"@, self.pause)
        } else if i == 66 {
            Seq::<char>::empty()
        } else if i == 67 {
            "# ---------------------------------------------------------------------"@
        } else if i == 68 {
            "# 3. 快捷欄物品選擇 1 - 9 (Hotbar Item Selection 1-9)"@
        } else if i == 69 {
            "# ---------------------------------------------------------------------"@
        } else if i == 70 {
            Seq::<char>::empty()
        } else if i == 71 {
            binding_line("key_hotbar_1"@, self.hotbar_1)
        } else if i == 72 {
            binding_line("key_hotbar_2"@, self.hotbar_2)
        } else if i == 73 {
            binding_line("key_hotbar_3"@, self.hotbar_3)
        } else if i == 74 {
            binding_line("key_hotbar_4"@, self.hotbar_4)
        } else if i == 75 {
            binding_line("key_hotbar_5"@, self.hotbar_5)
        } else if i == 76 {
            binding_line("key_hotbar_6"@, self.hotbar_6)
        } else if i == 77 {
            binding_line("key_hotbar_7"@, self.hotbar_7)
        } else if i == 78 {
            binding_line("key_hotbar_8"@, self.hotbar_8)
        } else {
            binding_line("key_hotbar_9"@, self.hotbar_9)
        }
    }

    /// The text of the controls file for these bindings.
    pub open spec fn spec_controls_text(self) -> Seq<char> {
        lines_text(self.controls_lines())
    }

    fn push_lines_0_20(&self, out: &mut String, Ghost(ls): Ghost<Seq<Seq<char>>>)
        requires
            ls == self.controls_lines(),
            old(out)@ == lines_text(ls.take(0)),
        ensures
            final(out)@ == lines_text(ls.take(20)),
    {
        proof {
            reveal_strlit("");
            assert(""@ =~= Seq::<char>::empty());
        }
        push_line(out, "# =====================================================================", Ghost(ls), Ghost(0));
        push_line(out, "# iCraft 玩家按鍵設定檔 (Keybindings Configuration)", Ghost(ls), Ghost(1));
        push_line(out, "# =====================================================================", Ghost(ls), Ghost(2));
        push_line(out, "# 本檔案供玩家自由修改遊戲內的所有按鍵綁定。", Ghost(ls), Ghost(3));
        push_line(out, "# 修改存檔後，啟動遊戲將自動載入最新按鍵設定。", Ghost(ls), Ghost(4));
        push_line(out, "#", Ghost(ls), Ghost(5));
        push_line(out, "# 【支援的按鍵名稱 (Supported Key Names)】:", Ghost(ls), Ghost(6));
        push_line(out, "#   - 字母鍵: A, B, C, ..., Z", Ghost(ls), Ghost(7));
        push_line(out, "#   - 數字鍵: 0, 1, 2, ..., 9", Ghost(ls), Ghost(8));
        push_line(out, "#   - 方向鍵: UP, DOWN, LEFT, RIGHT", Ghost(ls), Ghost(9));
        push_line(out, "#   - 修飾鍵: SPACE, LCTRL, RCTRL, LSHIFT, RSHIFT", Ghost(ls), Ghost(10));
        push_line(out, "#   - 控制鍵: ESC, ENTER, TAB, BACKSPACE, F1 ~ F12", Ghost(ls), Ghost(11));
        push_line(out, "# =====================================================================", Ghost(ls), Ghost(12));
        push_line(out, "", Ghost(ls), Ghost(13));
        push_line(out, "# ---------------------------------------------------------------------", Ghost(ls), Ghost(14));
        push_line(out, "# 1. 角色移動與基本操作 (Movement & Basic Actions)", Ghost(ls), Ghost(15));
        push_line(out, "# ---------------------------------------------------------------------", Ghost(ls), Ghost(16));
        push_line(out, "", Ghost(ls), Ghost(17));
        push_line(out, "# 前進 (Move Forward)", Ghost(ls), Ghost(18));
        let line = binding_line_text("key_forward", self.forward);
        push_line(out, line.as_str(), Ghost(ls), Ghost(19));
    }

    fn push_lines_20_40(&self, out: &mut String, Ghost(ls): Ghost<Seq<Seq<char>>>)
        requires
            ls == self.controls_lines(),
            old(out)@ == lines_text(ls.take(20)),
        ensures
            final(out)@ == lines_text(ls.take(40)),
    {
        proof {
            reveal_strlit("");
            assert(""@ =~= Seq::<char>::empty());
        }
        push_line(out, "", Ghost(ls), Ghost(20));
        push_line(out, "# 後退 (Move Backward)", Ghost(ls), Ghost(21));
        let line = binding_line_text("key_backward", self.backward);
        push_line(out, line.as_str(), Ghost(ls), Ghost(22));
        push_line(out, "", Ghost(ls), Ghost(23));
        push_line(out, "# 向左平移 (Move Left)", Ghost(ls), Ghost(24));
        let line = binding_line_text("key_left", self.left);
        push_line(out, line.as_str(), Ghost(ls), Ghost(25));
        push_line(out, "", Ghost(ls), Ghost(26));
        push_line(out, "# 向右平移 (Move Right)", Ghost(ls), Ghost(27));
        let line = binding_line_text("key_right", self.right);
        push_line(out, line.as_str(), Ghost(ls), Ghost(28));
        push_line(out, "", Ghost(ls), Ghost(29));
        push_line(out, "# 跳躍 / 創造模式向上飛行 (Jump / Ascend)", Ghost(ls), Ghost(30));
        let line = binding_line_text("key_jump", self.jump);
        push_line(out, line.as_str(), Ghost(ls), Ghost(31));
        push_line(out, "", Ghost(ls), Ghost(32));
        push_line(out, "# 疾跑 (Sprint)", Ghost(ls), Ghost(33));
        let line = binding_line_text("key_sprint", self.sprint);
        push_line(out, line.as_str(), Ghost(ls), Ghost(34));
        push_line(out, "", Ghost(ls), Ghost(35));
        push_line(out, "# 潛行 / 創造模式向下滑行 (Sneak / Descend)", Ghost(ls), Ghost(36));
        let line = binding_line_text("key_sneak", self.sneak);
        push_line(out, line.as_str(), Ghost(ls), Ghost(37));
        push_line(out, "", Ghost(ls), Ghost(38));
        push_line(out, "# 開啟 / 關閉背包 (Toggle Inventory)", Ghost(ls), Ghost(39));
    }

    fn push_lines_40_60(&self, out: &mut String, Ghost(ls): Ghost<Seq<Seq<char>>>)
        requires
            ls == self.controls_lines(),
            old(out)@ == lines_text(ls.take(40)),
        ensures
            final(out)@ == lines_text(ls.take(60)),
    {
        proof {
            reveal_strlit("");
            assert(""@ =~= Seq::<char>::empty());
        }
        let line = binding_line_text("key_inventory", self.inventory);
        push_line(out, line.as_str(), Ghost(ls), Ghost(40));
        push_line(out, "", Ghost(ls), Ghost(41));
        push_line(out, "# ---------------------------------------------------------------------", Ghost(ls), Ghost(42));
        push_line(out, "# 2. 系統功能與模式切換快捷鍵 (System & Gameplay Hotkeys)", Ghost(ls), Ghost(43));
        push_line(out, "# ---------------------------------------------------------------------", Ghost(ls), Ghost(44));
        push_line(out, "", Ghost(ls), Ghost(45));
        push_line(out, "# 開啟 / 關閉聊天框 (Open Chat)", Ghost(ls), Ghost(46));
        let line = binding_line_text("key_chat", self.chat);
        push_line(out, line.as_str(), Ghost(ls), Ghost(47));
        push_line(out, "", Ghost(ls), Ghost(48));
        push_line(out, "# 時間加速 (Accelerate Time)", Ghost(ls), Ghost(49));
        let line = binding_line_text("key_time_speed", self.time_speed);
        push_line(out, line.as_str(), Ghost(ls), Ghost(50));
        push_line(out, "", Ghost(ls), Ghost(51));
        push_line(out, "# 開啟 / 關閉成就樹 (Advancements Screen)", Ghost(ls), Ghost(52));
        let line = binding_line_text("key_advancements", self.advancements);
        push_line(out, line.as_str(), Ghost(ls), Ghost(53));
        push_line(out, "", Ghost(ls), Ghost(54));
        push_line(out, "# 開啟 / 關閉 F3 偵錯 Overlay (Debug Info)", Ghost(ls), Ghost(55));
        let line = binding_line_text("key_debug", self.debug);
        push_line(out, line.as_str(), Ghost(ls), Ghost(56));
        push_line(out, "", Ghost(ls), Ghost(57));
        push_line(out, "# 切換第一人稱 / 第三人稱視角 (Toggle Camera View)", Ghost(ls), Ghost(58));
        let line = binding_line_text("key_perspective", self.perspective);
        push_line(out, line.as_str(), Ghost(ls), Ghost(59));
    }

    fn push_lines_60_80(&self, out: &mut String, Ghost(ls): Ghost<Seq<Seq<char>>>)
        requires
            ls == self.controls_lines(),
            old(out)@ == lines_text(ls.take(60)),
        ensures
            final(out)@ == lines_text(ls.take(80)),
    {
        proof {
            reveal_strlit("");
            assert(""@ =~= Seq::<char>::empty());
        }
        push_line(out, "", Ghost(ls), Ghost(60));
        push_line(out, "# 切換生存 / 創造遊戲模式 (Toggle Game Mode)", Ghost(ls), Ghost(61));
        let line = binding_line_text("key_gamemode", self.gamemode);
        push_line(out, line.as_str(), Ghost(ls), Ghost(62));
        push_line(out, "", Ghost(ls), Ghost(63));
        push_line(out, "# 暫停選單 / 關閉界面 (Pause Menu / Close UI)", Ghost(ls), Ghost(64));
        let line = binding_line_text("key_pause", self.pause);
        push_line(out, line.as_str(), Ghost(ls), Ghost(65));
        push_line(out, "", Ghost(ls), Ghost(66));
        push_line(out, "# ---------------------------------------------------------------------", Ghost(ls), Ghost(67));
        push_line(out, "# 3. 快捷欄物品選擇 1 - 9 (Hotbar Item Selection 1-9)", Ghost(ls), Ghost(68));
        push_line(out, "# ---------------------------------------------------------------------", Ghost(ls), Ghost(69));
        push_line(out, "", Ghost(ls), Ghost(70));
        let line = binding_line_text("key_hotbar_1", self.hotbar_1);
        push_line(out, line.as_str(), Ghost(ls), Ghost(71));
        let line = binding_line_text("key_hotbar_2", self.hotbar_2);
        push_line(out, line.as_str(), Ghost(ls), Ghost(72));
        let line = binding_line_text("key_hotbar_3", self.hotbar_3);
        push_line(out, line.as_str(), Ghost(ls), Ghost(73));
        let line = binding_line_text("key_hotbar_4", self.hotbar_4);
        push_line(out, line.as_str(), Ghost(ls), Ghost(74));
        let line = binding_line_text("key_hotbar_5", self.hotbar_5);
        push_line(out, line.as_str(), Ghost(ls), Ghost(75));
        let line = binding_line_text("key_hotbar_6", self.hotbar_6);
        push_line(out, line.as_str(), Ghost(ls), Ghost(76));
        let line = binding_line_text("key_hotbar_7", self.hotbar_7);
        push_line(out, line.as_str(), Ghost(ls), Ghost(77));
        let line = binding_line_text("key_hotbar_8", self.hotbar_8);
        push_line(out, line.as_str(), Ghost(ls), Ghost(78));
        let line = binding_line_text("key_hotbar_9", self.hotbar_9);
        push_line(out, line.as_str(), Ghost(ls), Ghost(79));
    }

    /// Write the controls file for these bindings.
    pub fn controls_file_text(&self) -> (r: String)
        ensures
            r@ == self.spec_controls_text(),
    {
        let ghost ls = self.controls_lines();
        let mut s = String::new();
        proof {
            assert(ls.take(0) =~= Seq::<Seq<char>>::empty());
        }
        self.push_lines_0_20(&mut s, Ghost(ls));
        self.push_lines_20_40(&mut s, Ghost(ls));
        self.push_lines_40_60(&mut s, Ghost(ls));
        self.push_lines_60_80(&mut s, Ghost(ls));
        proof {
            assert(ls.take(80) =~= ls);
        }
        s
    }
}

/// Number of the action that setting `key` binds, in the order of the fields; -1 for a key
/// that binds none.
pub open spec fn control_slot(key: Seq<char>) -> int {
    if key == "key_forward"@ {
        0
    } else if key == "key_backward"@ {
        1
    } else if key == "key_left"@ {
        2
    } else if key == "key_right"@ {
        3
    } else if key == "key_jump"@ {
        4
    } else if key == "key_sprint"@ {
        5
    } else if key == "key_sneak"@ {
        6
    } else if key == "key_inventory"@ {
        7
    } else if key == "key_chat"@ {
        8
    } else if key == "key_time_speed"@ {
        9
    } else if key == "key_advancements"@ {
        10
    } else if key == "key_debug"@ {
        11
    } else if key == "key_perspective"@ {
        12
    } else if key == "key_gamemode"@ {
        13
    } else if key == "key_pause"@ {
        14
    } else if key == "key_hotbar_1"@ {
        15
    } else if key == "key_hotbar_2"@ {
        16
    } else if key == "key_hotbar_3"@ {
        17
    } else if key == "key_hotbar_4"@ {
        18
    } else if key == "key_hotbar_5"@ {
        19
    } else if key == "key_hotbar_6"@ {
        20
    } else if key == "key_hotbar_7"@ {
        21
    } else if key == "key_hotbar_8"@ {
        22
    } else if key == "key_hotbar_9"@ {
        23
    } else {
        -1
    }
}

fn control_slot_of(key: &Vec<char>) -> (r: Option<usize>)
    ensures
        match r {
            Some(i) => control_slot(key@) == i && i < 24,
            None => control_slot(key@) == -1,
        },
{
    if crate::text::chars_equal(key, "key_forward") {
        Some(0)
    } else if crate::text::chars_equal(key, "key_backward") {
        Some(1)
    } else if crate::text::chars_equal(key, "key_left") {
        Some(2)
    } else if crate::text::chars_equal(key, "key_right") {
        Some(3)
    } else if crate::text::chars_equal(key, "key_jump") {
        Some(4)
    } else if crate::text::chars_equal(key, "key_sprint") {
        Some(5)
    } else if crate::text::chars_equal(key, "key_sneak") {
        Some(6)
    } else if crate::text::chars_equal(key, "key_inventory") {
        Some(7)
    } else if crate::text::chars_equal(key, "key_chat") {
        Some(8)
    } else if crate::text::chars_equal(key, "key_time_speed") {
        Some(9)
    } else if crate::text::chars_equal(key, "key_advancements") {
        Some(10)
    } else if crate::text::chars_equal(key, "key_debug") {
        Some(11)
    } else if crate::text::chars_equal(key, "key_perspective") {
        Some(12)
    } else if crate::text::chars_equal(key, "key_gamemode") {
        Some(13)
    } else if crate::text::chars_equal(key, "key_pause") {
        Some(14)
    } else if crate::text::chars_equal(key, "key_hotbar_1") {
        Some(15)
    } else if crate::text::chars_equal(key, "key_hotbar_2") {
        Some(16)
    } else if crate::text::chars_equal(key, "key_hotbar_3") {
        Some(17)
    } else if crate::text::chars_equal(key, "key_hotbar_4") {
        Some(18)
    } else if crate::text::chars_equal(key, "key_hotbar_5") {
        Some(19)
    } else if crate::text::chars_equal(key, "key_hotbar_6") {
        Some(20)
    } else if crate::text::chars_equal(key, "key_hotbar_7") {
        Some(21)
    } else if crate::text::chars_equal(key, "key_hotbar_8") {
        Some(22)
    } else if crate::text::chars_equal(key, "key_hotbar_9") {
        Some(23)
    } else {
        None
    }
}

impl Default for ControlBindings {
    fn default() -> (r: ControlBindings)
        ensures
            r == ControlBindings::spec_default(),
    {
        ControlBindings {
            forward: Key::KeyW,
            backward: Key::KeyS,
            left: Key::KeyA,
            right: Key::KeyD,
            jump: Key::Space,
            sprint: Key::ControlLeft,
            sneak: Key::ShiftLeft,
            inventory: Key::KeyE,
            chat: Key::KeyT,
            time_speed: Key::KeyF,
            advancements: Key::KeyL,
            debug: Key::F3,
            perspective: Key::F5,
            gamemode: Key::KeyG,
            pause: Key::Escape,
            hotbar_1: Key::Digit1,
            hotbar_2: Key::Digit2,
            hotbar_3: Key::Digit3,
            hotbar_4: Key::Digit4,
            hotbar_5: Key::Digit5,
            hotbar_6: Key::Digit6,
            hotbar_7: Key::Digit7,
            hotbar_8: Key::Digit8,
            hotbar_9: Key::Digit9,
        }
    }
}
/// The setting one line of a settings file holds: none for a blank line or a comment (starting
/// with `#` or `//`); else the text before the first `=` (or, when the line has none, before
/// the first `:`) as the key and the text after it as the value, both without surrounding white
/// space; none when the line has neither.
pub open spec fn spec_settings_line(line: Seq<char>) -> Option<(Seq<char>, Seq<char>)> {
    let t = trim(line);
    if t.len() == 0 || t[0] == '#' || (t.len() >= 2 && t[0] == '/' && t[1] == '/') {
        None
    } else {
        let delimiter = if find_char(t, '=', 0) >= 0 { '=' } else { ':' };
        let k = find_char(t, delimiter, 0);
        if k < 0 {
            None
        } else {
            Some((trim(t.subrange(0, k)), trim(t.subrange(k + 1, t.len() as int))))
        }
    }
}

/// Read the setting on one line of a settings file.
pub fn settings_line(line: &Vec<char>) -> (r: Option<(String, String)>)
    ensures
        match r {
            Some((k, v)) => spec_settings_line(line@) == Some((k@, v@)),
            None => spec_settings_line(line@) is None,
        },
{
    let t = trim_chars(line);
    let n = t.len();
    if n == 0 || t[0] == '#' || (n >= 2 && t[0] == '/' && t[1] == '/') {
        return None;
    }
    let delimiter = if find_char_from(&t, '=', 0).is_some() { '=' } else { ':' };
    match find_char_from(&t, delimiter, 0) {
        Some(k) => {
            let key = chars_between(&t, 0, k);
            let value = chars_between(&t, k + 1, n);
            let key = trim_chars(&key);
            let value = trim_chars(&value);
            Some((string_from_chars(&key), string_from_chars(&value)))
        },
        None => None,
    }
}

/// The settings a file holding `s` gives, in order: one per line that holds one. Lines end at
/// `\n`, and a `\r` just before it is not part of the line (as `str::lines` splits them).
pub open spec fn spec_settings_entries(s: Seq<char>) -> Seq<(Seq<char>, Seq<char>)>
    decreases s.len(),
{
    if s.len() == 0 {
        Seq::empty()
    } else {
        let i = find_char(s, '\n', 0);
        if i < 0 {
            entry_of(s)
        } else {
            proof {
                lemma_find_char_range(s, '\n', 0);
            }
            entry_of(strip_cr(s.subrange(0, i))) + spec_settings_entries(s.subrange(i + 1, s.len() as int))
        }
    }
}

/// The setting of one line, as a list of at most one.
pub open spec fn entry_of(line: Seq<char>) -> Seq<(Seq<char>, Seq<char>)> {
    match spec_settings_line(line) {
        Some(p) => seq![p],
        None => Seq::empty(),
    }
}

/// Views of a list of settings.
pub open spec fn entry_views(v: Seq<(String, String)>) -> Seq<(Seq<char>, Seq<char>)> {
    v.map_values(|p: (String, String)| (p.0@, p.1@))
}

/// The settings in the text of a settings file, in order.
pub fn settings_entries(contents: &str) -> (r: Vec<(String, String)>)
    ensures
        entry_views(r@) == spec_settings_entries(contents@),
{
    let v = chars_of(contents);
    let n = v.len();
    let mut out: Vec<(String, String)> = Vec::new();
    let mut pos: usize = 0;
    proof {
        assert(v@.subrange(0, n as int) =~= v@);
    }
    while pos < n
        invariant
            pos <= n,
            n == v@.len(),
            v@ == contents@,
            spec_settings_entries(contents@) == entry_views(out@) + spec_settings_entries(v@.subrange(pos as int, n as int)),
        decreases n - pos,
    {
        let ghost rest = v@.subrange(pos as int, n as int);
        let ghost before = entry_views(out@);
        match find_char_from(&v, '\n', pos) {
            Some(j) => {
                let mut end = j;
                if end > pos && v[end - 1] == '\r' {
                    end = end - 1;
                }
                let line = chars_between(&v, pos, end);
                proof {
                    lemma_find_char_shift(v@, '\n', pos as int);
                    let i = j - pos;
                    assert(find_char(rest, '\n', 0) == i);
                    assert(rest.subrange(0, i) =~= v@.subrange(pos as int, j as int));
                    assert(line@ =~= strip_cr(rest.subrange(0, i)));
                    assert(rest.subrange(i + 1, rest.len() as int) =~= v@.subrange(j + 1, n as int));
                }
                match settings_line(&line) {
                    Some(p) => {
                        out.push(p);
                    },
                    None => {},
                }
                proof {
                    assert(entry_views(out@) =~= before + entry_of(line@));
                    assert(before + entry_of(line@) + spec_settings_entries(v@.subrange(j + 1, n as int)) =~= before + (
                    entry_of(line@) + spec_settings_entries(v@.subrange(j + 1, n as int))));
                }
                pos = j + 1;
            },
            None => {
                let line = chars_between(&v, pos, n);
                proof {
                    lemma_find_char_shift(v@, '\n', pos as int);
                    assert(find_char(rest, '\n', 0) == -1);
                    assert(line@ =~= rest);
                }
                match settings_line(&line) {
                    Some(p) => {
                        out.push(p);
                    },
                    None => {},
                }
                proof {
                    assert(entry_views(out@) =~= before + entry_of(line@));
                    assert(v@.subrange(n as int, n as int) =~= Seq::<char>::empty());
                    assert(entry_views(out@) + spec_settings_entries(v@.subrange(n as int, n as int)) =~= entry_views(out@));
                }
                pos = n;
            },
        }
    }
    proof {
        assert(v@.subrange(n as int, n as int) =~= Seq::<char>::empty());
        assert(entry_views(out@) + Seq::<(Seq<char>, Seq<char>)>::empty() =~= entry_views(out@));
    }
    out
}

/// Most resource packs a settings file can list.
pub const RESOURCE_PACK_LIMIT: usize = 32;

/// The pieces of `s` between commas, in order (`str::split(',')`).
pub open spec fn comma_pieces(s: Seq<char>) -> Seq<Seq<char>>
    decreases s.len(),
{
    let i = find_char(s, ',', 0);
    if i < 0 {
        seq![s]
    } else {
        proof {
            lemma_find_char_range(s, ',', 0);
        }
        seq![s.subrange(0, i)] + comma_pieces(s.subrange(i + 1, s.len() as int))
    }
}

/// The identifiers a piece list holds: each piece without surrounding white space, the empty
/// ones left out.
pub open spec fn pack_ids(pieces: Seq<Seq<char>>) -> Seq<Seq<char>>
    decreases pieces.len(),
{
    if pieces.len() == 0 {
        Seq::empty()
    } else {
        let t = trim(pieces[0]);
        let rest = pack_ids(pieces.drop_first());
        if t.len() == 0 {
            rest
        } else {
            seq![t] + rest
        }
    }
}

/// The resource packs a settings value lists: the comma-separated identifiers, without
/// surrounding white space, empty ones left out, at most `RESOURCE_PACK_LIMIT` of them.
pub open spec fn spec_resource_packs(value: Seq<char>) -> Seq<Seq<char>> {
    let ids = pack_ids(comma_pieces(value));
    if ids.len() <= RESOURCE_PACK_LIMIT {
        ids
    } else {
        ids.subrange(0, RESOURCE_PACK_LIMIT as int)
    }
}

/// Views of a list of strings.
pub open spec fn text_views(v: Seq<String>) -> Seq<Seq<char>> {
    v.map_values(|s: String| s@)
}

/// Read the resource packs that a settings value lists.
pub fn parse_resource_packs(value: &str) -> (r: Vec<String>)
    ensures
        text_views(r@) == spec_resource_packs(value@),
{
    let v = chars_of(value);
    let n = v.len();
    let mut ids: Vec<String> = Vec::new();
    let mut pos: usize = 0;
    let mut done = false;
    proof {
        assert(v@.subrange(0, n as int) =~= v@);
    }
    while !done
        invariant
            pos <= n,
            n == v@.len(),
            v@ == value@,
            !done ==> pack_ids(comma_pieces(value@)) == text_views(ids@) + pack_ids(
                comma_pieces(v@.subrange(pos as int, n as int)),
            ),
            done ==> pack_ids(comma_pieces(value@)) == text_views(ids@),
        decreases (n - pos) + (if done { 0int } else { 1int }),
    {
        let ghost rest = v@.subrange(pos as int, n as int);
        let ghost before = text_views(ids@);
        let (piece, next) = match find_char_from(&v, ',', pos) {
            Some(j) => {
                proof {
                    lemma_find_char_shift(v@, ',', pos as int);
                    assert(find_char(rest, ',', 0) == j - pos);
                    assert(rest.subrange(0, j - pos) =~= v@.subrange(pos as int, j as int));
                    assert(rest.subrange(j - pos + 1, rest.len() as int) =~= v@.subrange(j + 1, n as int));
                }
                (chars_between(&v, pos, j), Some(j + 1))
            },
            None => {
                proof {
                    lemma_find_char_shift(v@, ',', pos as int);
                    assert(find_char(rest, ',', 0) == -1);
                }
                (chars_between(&v, pos, n), None)
            },
        };
        let t = trim_chars(&piece);
        let ghost after = match next {
            Some(p) => comma_pieces(v@.subrange(p as int, n as int)),
            None => Seq::<Seq<char>>::empty(),
        };
        proof {
            assert(comma_pieces(rest) =~= seq![piece@] + after);
            assert((seq![piece@] + after).drop_first() =~= after);
        }
        if t.len() > 0 {
            ids.push(string_from_chars(&t));
            proof {
                assert(text_views(ids@) =~= before + seq![t@]);
            }
        } else {
            proof {
                assert(text_views(ids@) =~= before);
            }
        }
        proof {
            assert(pack_ids(seq![piece@] + after) == (if t@.len() == 0 { pack_ids(after) } else { seq![t@] + pack_ids(after) }));
        }
        match next {
            Some(p) => {
                pos = p;
            },
            None => {
                done = true;
                proof {
                    assert(pack_ids(after) =~= Seq::<Seq<char>>::empty());
                }
            },
        }
    }
    let mut ids = ids;
    ids.truncate(RESOURCE_PACK_LIMIT);
    proof {
        if text_views(ids@).len() > RESOURCE_PACK_LIMIT {
            assert(text_views(ids@) =~= text_views(ids@));
        }
    }
    ids
}


/// Settings applied in order to bindings `b`.
pub open spec fn apply_all(b: ControlBindings, es: Seq<(Seq<char>, Seq<char>)>) -> ControlBindings
    decreases es.len(),
{
    if es.len() == 0 {
        b
    } else {
        apply_all(b.spec_apply(es[0].0, es[0].1), es.drop_first())
    }
}

proof fn lemma_apply_all_concat(b: ControlBindings, e1: Seq<(Seq<char>, Seq<char>)>, e2: Seq<(Seq<char>, Seq<char>)>)
    ensures
        apply_all(b, e1 + e2) == apply_all(apply_all(b, e1), e2),
    decreases e1.len(),
{
    if e1.len() > 0 {
        assert((e1 + e2).drop_first() =~= e1.drop_first() + e2);
        assert((e1 + e2)[0] == e1[0]);
        lemma_apply_all_concat(b.spec_apply(e1[0].0, e1[0].1), e1.drop_first(), e2);
    } else {
        assert(e1 + e2 =~= e2);
    }
}

/// The settings of a text made of a plain line and more text: the line's, then the rest's.
proof fn lemma_entries_line(line: Seq<char>, rest: Seq<char>)
    requires
        plain_line(line),
    ensures
        spec_settings_entries(line + seq!['\n'] + rest) == entry_of(line) + spec_settings_entries(rest),
{
    let s = line + seq!['\n'] + rest;
    assert(s =~= line + (seq!['\n'] + rest));
    lemma_find_in_prefix(line, seq!['\n'] + rest, '\n', 0);
    assert(s.subrange(0, line.len() as int) =~= line);
    assert(s.subrange(line.len() as int + 1, s.len() as int) =~= rest);
}

proof fn lemma_entries_lines_step(ls: Seq<Seq<char>>, k: int)
    requires
        0 <= k < ls.len(),
        plain_line(ls[k]),
    ensures
        spec_settings_entries(lines_text(ls.subrange(k, ls.len() as int))) == entry_of(ls[k]) + spec_settings_entries(
            lines_text(ls.subrange(k + 1, ls.len() as int)),
        ),
{
    let rest = ls.subrange(k, ls.len() as int);
    assert(rest.drop_first() =~= ls.subrange(k + 1, ls.len() as int));
    assert(rest[0] == ls[k]);
    lemma_entries_line(ls[k], lines_text(ls.subrange(k + 1, ls.len() as int)));
}

proof fn lemma_trim_keeps_first(s: Seq<char>)
    requires
        s.len() > 0,
        !is_white_space(s[0]),
    ensures
        trim(s).len() > 0,
        trim(s)[0] == s[0],
        trim_start(s) == s,
    decreases s.len(),
{
    lemma_trim_end_keeps_first(s);
}

proof fn lemma_trim_end_keeps_first(s: Seq<char>)
    requires
        s.len() > 0,
        !is_white_space(s[0]),
    ensures
        trim_end(s).len() > 0,
        trim_end(s)[0] == s[0],
    decreases s.len(),
{
    if is_white_space(s.last()) {
        assert(s.len() > 1);
        assert(s.drop_last()[0] == s[0]);
        lemma_trim_end_keeps_first(s.drop_last());
    }
}

/// A comment line holds no setting.
proof fn lemma_comment_entry(line: Seq<char>)
    requires
        line.len() > 0,
        line[0] == '#',
    ensures
        entry_of(line) == Seq::<(Seq<char>, Seq<char>)>::empty(),
{
    lemma_trim_keeps_first(line);
}

/// A line made of lower-case letters, digits and `_`, then ` = `, then a key's name, holds that
/// setting.
proof fn lemma_binding_entry(key: Seq<char>, k: Key)
    requires
        key.len() > 0,
        forall|i: int| 0 <= i < key.len() ==> (97 <= #[trigger] (key[i] as u32) <= 122 || key[i] == '_' || 48 <= (key[i] as u32) <= 57),
    ensures
        plain_line(binding_line(key, k)),
        entry_of(binding_line(key, k)) == seq![(key, spec_key_name(k))],
{
    let name = spec_key_name(k);
    lemma_key_name_chars(k);
    reveal_strlit(" = ");
    let line = binding_line(key, k);
    let lk = key.len() as int;
    assert(line.len() == lk + 3 + name.len());
    assert forall|i: int| 0 <= i < line.len() implies #[trigger] line[i] != '\n' && line[i] != '=' || i == lk + 1 by {
        if i < lk {
            assert(line[i] == key[i]);
            assert(97 <= (key[i] as u32) <= 122 || key[i] == '_' || 48 <= (key[i] as u32) <= 57);
        } else if i < lk + 3 {
        } else {
            assert(line[i] == name[i - lk - 3]);
            assert(65 <= (name[i - lk - 3] as u32) <= 90 || 48 <= (name[i - lk - 3] as u32) <= 57);
        }
    }
    assert(line.last() == name.last());
    assert(65 <= (name.last() as u32) <= 90 || 48 <= (name.last() as u32) <= 57);
    assert(97 <= (key[0] as u32) <= 122 || key[0] == '_' || 48 <= (key[0] as u32) <= 57);
    assert(line[0] == key[0]);
    assert(trim_start(line) == line);
    assert(trim_end(line) == line);
    assert(trim(line) == line);
    assert(find_char(line, '=', 0) == lk + 1) by {
        let head = line.subrange(0, lk + 1);
        assert(line =~= head + line.subrange(lk + 1, line.len() as int));
        assert forall|i: int| 0 <= i < head.len() implies #[trigger] head[i] != '=' by {
            assert(head[i] == line[i]);
        }
        lemma_find_in_prefix(head, line.subrange(lk + 1, line.len() as int), '=', 0);
    }
    let left = line.subrange(0, lk + 1);
    let right = line.subrange(lk + 2, line.len() as int);
    assert(left =~= key.push(' '));
    assert(right =~= seq![' '] + name);
    assert(trim_end(left) == trim_end(key)) by {
        assert(left.drop_last() =~= key);
    }
    assert(trim_start(key) == key);
    assert(trim_end(key) == key);
    assert(trim(left) == key);
    assert(trim_start(right) == trim_start(name)) by {
        assert(right.drop_first() =~= name);
    }
    assert(trim_start(name) == name);
    assert(trim_end(name) == name);
    assert(trim(right) == name);
}

/// Every key's name is made of upper-case ASCII letters and digits.
pub proof fn lemma_key_name_chars(k: Key)
    ensures
        spec_key_name(k).len() > 0,
        forall|i: int| 0 <= i < spec_key_name(k).len() ==> (65 <= #[trigger] (spec_key_name(k)[i] as u32) <= 90 || 48 <= (spec_key_name(k)[i] as u32) <= 57),
{
    match k {
        Key::KeyA => {
            reveal_strlit("A");
        },
        Key::KeyB => {
            reveal_strlit("B");
        },
        Key::KeyC => {
            reveal_strlit("C");
        },
        Key::KeyD => {
            reveal_strlit("D");
        },
        Key::KeyE => {
            reveal_strlit("E");
        },
        Key::KeyF => {
            reveal_strlit("F");
        },
        Key::KeyG => {
            reveal_strlit("G");
        },
        Key::KeyH => {
            reveal_strlit("H");
        },
        Key::KeyI => {
            reveal_strlit("I");
        },
        Key::KeyJ => {
            reveal_strlit("J");
        },
        Key::KeyK => {
            reveal_strlit("K");
        },
        Key::KeyL => {
            reveal_strlit("L");
        },
        Key::KeyM => {
            reveal_strlit("M");
        },
        Key::KeyN => {
            reveal_strlit("N");
        },
        Key::KeyO => {
            reveal_strlit("O");
        },
        Key::KeyP => {
            reveal_strlit("P");
        },
        Key::KeyQ => {
            reveal_strlit("Q");
        },
        Key::KeyR => {
            reveal_strlit("R");
        },
        Key::KeyS => {
            reveal_strlit("S");
        },
        Key::KeyT => {
            reveal_strlit("T");
        },
        Key::KeyU => {
            reveal_strlit("U");
        },
        Key::KeyV => {
            reveal_strlit("V");
        },
        Key::KeyW => {
            reveal_strlit("W");
        },
        Key::KeyX => {
            reveal_strlit("X");
        },
        Key::KeyY => {
            reveal_strlit("Y");
        },
        Key::KeyZ => {
            reveal_strlit("Z");
        },
        Key::Digit0 => {
            reveal_strlit("0");
        },
        Key::Digit1 => {
            reveal_strlit("1");
        },
        Key::Digit2 => {
            reveal_strlit("2");
        },
        Key::Digit3 => {
            reveal_strlit("3");
        },
        Key::Digit4 => {
            reveal_strlit("4");
        },
        Key::Digit5 => {
            reveal_strlit("5");
        },
        Key::Digit6 => {
            reveal_strlit("6");
        },
        Key::Digit7 => {
            reveal_strlit("7");
        },
        Key::Digit8 => {
            reveal_strlit("8");
        },
        Key::Digit9 => {
            reveal_strlit("9");
        },
        Key::Space => {
            reveal_strlit("SPACE");
        },
        Key::ControlLeft => {
            reveal_strlit("LCTRL");
        },
        Key::ControlRight => {
            reveal_strlit("RCTRL");
        },
        Key::ShiftLeft => {
            reveal_strlit("LSHIFT");
        },
        Key::ShiftRight => {
            reveal_strlit("RSHIFT");
        },
        Key::ArrowUp => {
            reveal_strlit("UP");
        },
        Key::ArrowDown => {
            reveal_strlit("DOWN");
        },
        Key::ArrowLeft => {
            reveal_strlit("LEFT");
        },
        Key::ArrowRight => {
            reveal_strlit("RIGHT");
        },
        Key::Escape => {
            reveal_strlit("ESC");
        },
        Key::Enter => {
            reveal_strlit("ENTER");
        },
        Key::Tab => {
            reveal_strlit("TAB");
        },
        Key::Backspace => {
            reveal_strlit("BACKSPACE");
        },
        Key::F1 => {
            reveal_strlit("F1");
        },
        Key::F2 => {
            reveal_strlit("F2");
        },
        Key::F3 => {
            reveal_strlit("F3");
        },
        Key::F4 => {
            reveal_strlit("F4");
        },
        Key::F5 => {
            reveal_strlit("F5");
        },
        Key::F6 => {
            reveal_strlit("F6");
        },
        Key::F7 => {
            reveal_strlit("F7");
        },
        Key::F8 => {
            reveal_strlit("F8");
        },
        Key::F9 => {
            reveal_strlit("F9");
        },
        Key::F10 => {
            reveal_strlit("F10");
        },
        Key::F11 => {
            reveal_strlit("F11");
        },
        Key::F12 => {
            reveal_strlit("F12");
        },
        Key::Other => {
            reveal_strlit("KEY");
        },
    }
}

/// The bindings `b` with the first `j` actions, in the order of the fields, bound as in `c`.
pub open spec fn bindings_prefix(c: ControlBindings, b: ControlBindings, j: int) -> ControlBindings {
    ControlBindings {
        forward: if j > 0 { c.forward } else { b.forward },
        backward: if j > 1 { c.backward } else { b.backward },
        left: if j > 2 { c.left } else { b.left },
        right: if j > 3 { c.right } else { b.right },
        jump: if j > 4 { c.jump } else { b.jump },
        sprint: if j > 5 { c.sprint } else { b.sprint },
        sneak: if j > 6 { c.sneak } else { b.sneak },
        inventory: if j > 7 { c.inventory } else { b.inventory },
        chat: if j > 8 { c.chat } else { b.chat },
        time_speed: if j > 9 { c.time_speed } else { b.time_speed },
        advancements: if j > 10 { c.advancements } else { b.advancements },
        debug: if j > 11 { c.debug } else { b.debug },
        perspective: if j > 12 { c.perspective } else { b.perspective },
        gamemode: if j > 13 { c.gamemode } else { b.gamemode },
        pause: if j > 14 { c.pause } else { b.pause },
        hotbar_1: if j > 15 { c.hotbar_1 } else { b.hotbar_1 },
        hotbar_2: if j > 16 { c.hotbar_2 } else { b.hotbar_2 },
        hotbar_3: if j > 17 { c.hotbar_3 } else { b.hotbar_3 },
        hotbar_4: if j > 18 { c.hotbar_4 } else { b.hotbar_4 },
        hotbar_5: if j > 19 { c.hotbar_5 } else { b.hotbar_5 },
        hotbar_6: if j > 20 { c.hotbar_6 } else { b.hotbar_6 },
        hotbar_7: if j > 21 { c.hotbar_7 } else { b.hotbar_7 },
        hotbar_8: if j > 22 { c.hotbar_8 } else { b.hotbar_8 },
        hotbar_9: if j > 23 { c.hotbar_9 } else { b.hotbar_9 },
    }
}

proof fn lemma_apply_binding_0(c: ControlBindings, b: ControlBindings)
    requires
        c.forward != Key::Other,
    ensures
        bindings_prefix(c, b, 0).spec_apply("key_forward"@, spec_key_name(c.forward)) == bindings_prefix(c, b, 1),
{
    reveal_strlit("key_forward");
    assert(control_slot("key_forward"@) == 0);
    lemma_key_name_round_trip(c.forward);
}

proof fn lemma_apply_binding_1(c: ControlBindings, b: ControlBindings)
    requires
        c.backward != Key::Other,
    ensures
        bindings_prefix(c, b, 1).spec_apply("key_backward"@, spec_key_name(c.backward)) == bindings_prefix(c, b, 2),
{
    reveal_strlit("key_forward");
    reveal_strlit("key_backward");
    assert("key_backward"@.len() != "key_forward"@.len());
    assert(control_slot("key_backward"@) == 1);
    lemma_key_name_round_trip(c.backward);
}

proof fn lemma_apply_binding_2(c: ControlBindings, b: ControlBindings)
    requires
        c.left != Key::Other,
    ensures
        bindings_prefix(c, b, 2).spec_apply("key_left"@, spec_key_name(c.left)) == bindings_prefix(c, b, 3),
{
    reveal_strlit("key_forward");
    reveal_strlit("key_backward");
    reveal_strlit("key_left");
    assert("key_left"@.len() != "key_forward"@.len());
    assert("key_left"@.len() != "key_backward"@.len());
    assert(control_slot("key_left"@) == 2);
    lemma_key_name_round_trip(c.left);
}

proof fn lemma_apply_binding_3(c: ControlBindings, b: ControlBindings)
    requires
        c.right != Key::Other,
    ensures
        bindings_prefix(c, b, 3).spec_apply("key_right"@, spec_key_name(c.right)) == bindings_prefix(c, b, 4),
{
    reveal_strlit("key_forward");
    reveal_strlit("key_backward");
    reveal_strlit("key_left");
    reveal_strlit("key_right");
    assert("key_right"@.len() != "key_forward"@.len());
    assert("key_right"@.len() != "key_backward"@.len());
    assert("key_right"@.len() != "key_left"@.len());
    assert(control_slot("key_right"@) == 3);
    lemma_key_name_round_trip(c.right);
}

proof fn lemma_apply_binding_4(c: ControlBindings, b: ControlBindings)
    requires
        c.jump != Key::Other,
    ensures
        bindings_prefix(c, b, 4).spec_apply("key_jump"@, spec_key_name(c.jump)) == bindings_prefix(c, b, 5),
{
    reveal_strlit("key_forward");
    reveal_strlit("key_backward");
    reveal_strlit("key_left");
    reveal_strlit("key_right");
    reveal_strlit("key_jump");
    assert("key_jump"@.len() != "key_forward"@.len());
    assert("key_jump"@.len() != "key_backward"@.len());
    assert("key_jump"@[4] != "key_left"@[4]);
    assert("key_jump"@.len() != "key_right"@.len());
    assert(control_slot("key_jump"@) == 4);
    lemma_key_name_round_trip(c.jump);
}

proof fn lemma_apply_binding_5(c: ControlBindings, b: ControlBindings)
    requires
        c.sprint != Key::Other,
    ensures
        bindings_prefix(c, b, 5).spec_apply("key_sprint"@, spec_key_name(c.sprint)) == bindings_prefix(c, b, 6),
{
    reveal_strlit("key_forward");
    reveal_strlit("key_backward");
    reveal_strlit("key_left");
    reveal_strlit("key_right");
    reveal_strlit("key_jump");
    reveal_strlit("key_sprint");
    assert("key_sprint"@.len() != "key_forward"@.len());
    assert("key_sprint"@.len() != "key_backward"@.len());
    assert("key_sprint"@.len() != "key_left"@.len());
    assert("key_sprint"@.len() != "key_right"@.len());
    assert("key_sprint"@.len() != "key_jump"@.len());
    assert(control_slot("key_sprint"@) == 5);
    lemma_key_name_round_trip(c.sprint);
}

proof fn lemma_apply_binding_6(c: ControlBindings, b: ControlBindings)
    requires
        c.sneak != Key::Other,
    ensures
        bindings_prefix(c, b, 6).spec_apply("key_sneak"@, spec_key_name(c.sneak)) == bindings_prefix(c, b, 7),
{
    reveal_strlit("key_forward");
    reveal_strlit("key_backward");
    reveal_strlit("key_left");
    reveal_strlit("key_right");
    reveal_strlit("key_jump");
    reveal_strlit("key_sprint");
    reveal_strlit("key_sneak");
    assert("key_sneak"@.len() != "key_forward"@.len());
    assert("key_sneak"@.len() != "key_backward"@.len());
    assert("key_sneak"@.len() != "key_left"@.len());
    assert("key_sneak"@[4] != "key_right"@[4]);
    assert("key_sneak"@.len() != "key_jump"@.len());
    assert("key_sneak"@.len() != "key_sprint"@.len());
    assert(control_slot("key_sneak"@) == 6);
    lemma_key_name_round_trip(c.sneak);
}

proof fn lemma_apply_binding_7(c: ControlBindings, b: ControlBindings)
    requires
        c.inventory != Key::Other,
    ensures
        bindings_prefix(c, b, 7).spec_apply("key_inventory"@, spec_key_name(c.inventory)) == bindings_prefix(c, b, 8),
{
    reveal_strlit("key_forward");
    reveal_strlit("key_backward");
    reveal_strlit("key_left");
    reveal_strlit("key_right");
    reveal_strlit("key_jump");
    reveal_strlit("key_sprint");
    reveal_strlit("key_sneak");
    reveal_strlit("key_inventory");
    assert("key_inventory"@.len() != "key_forward"@.len());
    assert("key_inventory"@.len() != "key_backward"@.len());
    assert("key_inventory"@.len() != "key_left"@.len());
    assert("key_inventory"@.len() != "key_right"@.len());
    assert("key_inventory"@.len() != "key_jump"@.len());
    assert("key_inventory"@.len() != "key_sprint"@.len());
    assert("key_inventory"@.len() != "key_sneak"@.len());
    assert(control_slot("key_inventory"@) == 7);
    lemma_key_name_round_trip(c.inventory);
}

proof fn lemma_apply_binding_8(c: ControlBindings, b: ControlBindings)
    requires
        c.chat != Key::Other,
    ensures
        bindings_prefix(c, b, 8).spec_apply("key_chat"@, spec_key_name(c.chat)) == bindings_prefix(c, b, 9),
{
    reveal_strlit("key_forward");
    reveal_strlit("key_backward");
    reveal_strlit("key_left");
    reveal_strlit("key_right");
    reveal_strlit("key_jump");
    reveal_strlit("key_sprint");
    reveal_strlit("key_sneak");
    reveal_strlit("key_inventory");
    reveal_strlit("key_chat");
    assert("key_chat"@.len() != "key_forward"@.len());
    assert("key_chat"@.len() != "key_backward"@.len());
    assert("key_chat"@[4] != "key_left"@[4]);
    assert("key_chat"@.len() != "key_right"@.len());
    assert("key_chat"@[4] != "key_jump"@[4]);
    assert("key_chat"@.len() != "key_sprint"@.len());
    assert("key_chat"@.len() != "key_sneak"@.len());
    assert("key_chat"@.len() != "key_inventory"@.len());
    assert(control_slot("key_chat"@) == 8);
    lemma_key_name_round_trip(c.chat);
}

proof fn lemma_apply_binding_9(c: ControlBindings, b: ControlBindings)
    requires
        c.time_speed != Key::Other,
    ensures
        bindings_prefix(c, b, 9).spec_apply("key_time_speed"@, spec_key_name(c.time_speed)) == bindings_prefix(c, b, 10),
{
    reveal_strlit("key_forward");
    reveal_strlit("key_backward");
    reveal_strlit("key_left");
    reveal_strlit("key_right");
    reveal_strlit("key_jump");
    reveal_strlit("key_sprint");
    reveal_strlit("key_sneak");
    reveal_strlit("key_inventory");
    reveal_strlit("key_chat");
    reveal_strlit("key_time_speed");
    assert("key_time_speed"@.len() != "key_forward"@.len());
    assert("key_time_speed"@.len() != "key_backward"@.len());
    assert("key_time_speed"@.len() != "key_left"@.len());
    assert("key_time_speed"@.len() != "key_right"@.len());
    assert("key_time_speed"@.len() != "key_jump"@.len());
    assert("key_time_speed"@.len() != "key_sprint"@.len());
    assert("key_time_speed"@.len() != "key_sneak"@.len());
    assert("key_time_speed"@.len() != "key_inventory"@.len());
    assert("key_time_speed"@.len() != "key_chat"@.len());
    assert(control_slot("key_time_speed"@) == 9);
    lemma_key_name_round_trip(c.time_speed);
}

proof fn lemma_apply_binding_10(c: ControlBindings, b: ControlBindings)
    requires
        c.advancements != Key::Other,
    ensures
        bindings_prefix(c, b, 10).spec_apply("key_advancements"@, spec_key_name(c.advancements)) == bindings_prefix(c, b, 11),
{
    reveal_strlit("key_forward");
    reveal_strlit("key_backward");
    reveal_strlit("key_left");
    reveal_strlit("key_right");
    reveal_strlit("key_jump");
    reveal_strlit("key_sprint");
    reveal_strlit("key_sneak");
    reveal_strlit("key_inventory");
    reveal_strlit("key_chat");
    reveal_strlit("key_time_speed");
    reveal_strlit("key_advancements");
    assert("key_advancements"@.len() != "key_forward"@.len());
    assert("key_advancements"@.len() != "key_backward"@.len());
    assert("key_advancements"@.len() != "key_left"@.len());
    assert("key_advancements"@.len() != "key_right"@.len());
    assert("key_advancements"@.len() != "key_jump"@.len());
    assert("key_advancements"@.len() != "key_sprint"@.len());
    assert("key_advancements"@.len() != "key_sneak"@.len());
    assert("key_advancements"@.len() != "key_inventory"@.len());
    assert("key_advancements"@.len() != "key_chat"@.len());
    assert("key_advancements"@.len() != "key_time_speed"@.len());
    assert(control_slot("key_advancements"@) == 10);
    lemma_key_name_round_trip(c.advancements);
}

proof fn lemma_apply_binding_11(c: ControlBindings, b: ControlBindings)
    requires
        c.debug != Key::Other,
    ensures
        bindings_prefix(c, b, 11).spec_apply("key_debug"@, spec_key_name(c.debug)) == bindings_prefix(c, b, 12),
{
    reveal_strlit("key_forward");
    reveal_strlit("key_backward");
    reveal_strlit("key_left");
    reveal_strlit("key_right");
    reveal_strlit("key_jump");
    reveal_strlit("key_sprint");
    reveal_strlit("key_sneak");
    reveal_strlit("key_inventory");
    reveal_strlit("key_chat");
    reveal_strlit("key_time_speed");
    reveal_strlit("key_advancements");
    reveal_strlit("key_debug");
    assert("key_debug"@.len() != "key_forward"@.len());
    assert("key_debug"@.len() != "key_backward"@.len());
    assert("key_debug"@.len() != "key_left"@.len());
    assert("key_debug"@[4] != "key_right"@[4]);
    assert("key_debug"@.len() != "key_jump"@.len());
    assert("key_debug"@.len() != "key_sprint"@.len());
    assert("key_debug"@[4] != "key_sneak"@[4]);
    assert("key_debug"@.len() != "key_inventory"@.len());
    assert("key_debug"@.len() != "key_chat"@.len());
    assert("key_debug"@.len() != "key_time_speed"@.len());
    assert("key_debug"@.len() != "key_advancements"@.len());
    assert(control_slot("key_debug"@) == 11);
    lemma_key_name_round_trip(c.debug);
}

proof fn lemma_apply_binding_12(c: ControlBindings, b: ControlBindings)
    requires
        c.perspective != Key::Other,
    ensures
        bindings_prefix(c, b, 12).spec_apply("key_perspective"@, spec_key_name(c.perspective)) == bindings_prefix(c, b, 13),
{
    reveal_strlit("key_forward");
    reveal_strlit("key_backward");
    reveal_strlit("key_left");
    reveal_strlit("key_right");
    reveal_strlit("key_jump");
    reveal_strlit("key_sprint");
    reveal_strlit("key_sneak");
    reveal_strlit("key_inventory");
    reveal_strlit("key_chat");
    reveal_strlit("key_time_speed");
    reveal_strlit("key_advancements");
    reveal_strlit("key_debug");
    reveal_strlit("key_perspective");
    assert("key_perspective"@.len() != "key_forward"@.len());
    assert("key_perspective"@.len() != "key_backward"@.len());
    assert("key_perspective"@.len() != "key_left"@.len());
    assert("key_perspective"@.len() != "key_right"@.len());
    assert("key_perspective"@.len() != "key_jump"@.len());
    assert("key_perspective"@.len() != "key_sprint"@.len());
    assert("key_perspective"@.len() != "key_sneak"@.len());
    assert("key_perspective"@.len() != "key_inventory"@.len());
    assert("key_perspective"@.len() != "key_chat"@.len());
    assert("key_perspective"@.len() != "key_time_speed"@.len());
    assert("key_perspective"@.len() != "key_advancements"@.len());
    assert("key_perspective"@.len() != "key_debug"@.len());
    assert(control_slot("key_perspective"@) == 12);
    lemma_key_name_round_trip(c.perspective);
}

proof fn lemma_apply_binding_13(c: ControlBindings, b: ControlBindings)
    requires
        c.gamemode != Key::Other,
    ensures
        bindings_prefix(c, b, 13).spec_apply("key_gamemode"@, spec_key_name(c.gamemode)) == bindings_prefix(c, b, 14),
{
    reveal_strlit("key_forward");
    reveal_strlit("key_backward");
    reveal_strlit("key_left");
    reveal_strlit("key_right");
    reveal_strlit("key_jump");
    reveal_strlit("key_sprint");
    reveal_strlit("key_sneak");
    reveal_strlit("key_inventory");
    reveal_strlit("key_chat");
    reveal_strlit("key_time_speed");
    reveal_strlit("key_advancements");
    reveal_strlit("key_debug");
    reveal_strlit("key_perspective");
    reveal_strlit("key_gamemode");
    assert("key_gamemode"@.len() != "key_forward"@.len());
    assert("key_gamemode"@[4] != "key_backward"@[4]);
    assert("key_gamemode"@.len() != "key_left"@.len());
    assert("key_gamemode"@.len() != "key_right"@.len());
    assert("key_gamemode"@.len() != "key_jump"@.len());
    assert("key_gamemode"@.len() != "key_sprint"@.len());
    assert("key_gamemode"@.len() != "key_sneak"@.len());
    assert("key_gamemode"@.len() != "key_inventory"@.len());
    assert("key_gamemode"@.len() != "key_chat"@.len());
    assert("key_gamemode"@.len() != "key_time_speed"@.len());
    assert("key_gamemode"@.len() != "key_advancements"@.len());
    assert("key_gamemode"@.len() != "key_debug"@.len());
    assert("key_gamemode"@.len() != "key_perspective"@.len());
    assert(control_slot("key_gamemode"@) == 13);
    lemma_key_name_round_trip(c.gamemode);
}

proof fn lemma_apply_binding_14(c: ControlBindings, b: ControlBindings)
    requires
        c.pause != Key::Other,
    ensures
        bindings_prefix(c, b, 14).spec_apply("key_pause"@, spec_key_name(c.pause)) == bindings_prefix(c, b, 15),
{
    reveal_strlit("key_forward");
    reveal_strlit("key_backward");
    reveal_strlit("key_left");
    reveal_strlit("key_right");
    reveal_strlit("key_jump");
    reveal_strlit("key_sprint");
    reveal_strlit("key_sneak");
    reveal_strlit("key_inventory");
    reveal_strlit("key_chat");
    reveal_strlit("key_time_speed");
    reveal_strlit("key_advancements");
    reveal_strlit("key_debug");
    reveal_strlit("key_perspective");
    reveal_strlit("key_gamemode");
    reveal_strlit("key_pause");
    assert("key_pause"@.len() != "key_forward"@.len());
    assert("key_pause"@.len() != "key_backward"@.len());
    assert("key_pause"@.len() != "key_left"@.len());
    assert("key_pause"@[4] != "key_right"@[4]);
    assert("key_pause"@.len() != "key_jump"@.len());
    assert("key_pause"@.len() != "key_sprint"@.len());
    assert("key_pause"@[4] != "key_sneak"@[4]);
    assert("key_pause"@.len() != "key_inventory"@.len());
    assert("key_pause"@.len() != "key_chat"@.len());
    assert("key_pause"@.len() != "key_time_speed"@.len());
    assert("key_pause"@.len() != "key_advancements"@.len());
    assert("key_pause"@[4] != "key_debug"@[4]);
    assert("key_pause"@.len() != "key_perspective"@.len());
    assert("key_pause"@.len() != "key_gamemode"@.len());
    assert(control_slot("key_pause"@) == 14);
    lemma_key_name_round_trip(c.pause);
}

proof fn lemma_apply_binding_15(c: ControlBindings, b: ControlBindings)
    requires
        c.hotbar_1 != Key::Other,
    ensures
        bindings_prefix(c, b, 15).spec_apply("key_hotbar_1"@, spec_key_name(c.hotbar_1)) == bindings_prefix(c, b, 16),
{
    reveal_strlit("key_forward");
    reveal_strlit("key_backward");
    reveal_strlit("key_left");
    reveal_strlit("key_right");
    reveal_strlit("key_jump");
    reveal_strlit("key_sprint");
    reveal_strlit("key_sneak");
    reveal_strlit("key_inventory");
    reveal_strlit("key_chat");
    reveal_strlit("key_time_speed");
    reveal_strlit("key_advancements");
    reveal_strlit("key_debug");
    reveal_strlit("key_perspective");
    reveal_strlit("key_gamemode");
    reveal_strlit("key_pause");
    reveal_strlit("key_hotbar_1");
    assert("key_hotbar_1"@.len() != "key_forward"@.len());
    assert("key_hotbar_1"@[4] != "key_backward"@[4]);
    assert("key_hotbar_1"@.len() != "key_left"@.len());
    assert("key_hotbar_1"@.len() != "key_right"@.len());
    assert("key_hotbar_1"@.len() != "key_jump"@.len());
    assert("key_hotbar_1"@.len() != "key_sprint"@.len());
    assert("key_hotbar_1"@.len() != "key_sneak"@.len());
    assert("key_hotbar_1"@.len() != "key_inventory"@.len());
    assert("key_hotbar_1"@.len() != "key_chat"@.len());
    assert("key_hotbar_1"@.len() != "key_time_speed"@.len());
    assert("key_hotbar_1"@.len() != "key_advancements"@.len());
    assert("key_hotbar_1"@.len() != "key_debug"@.len());
    assert("key_hotbar_1"@.len() != "key_perspective"@.len());
    assert("key_hotbar_1"@[4] != "key_gamemode"@[4]);
    assert("key_hotbar_1"@.len() != "key_pause"@.len());
    assert(control_slot("key_hotbar_1"@) == 15);
    lemma_key_name_round_trip(c.hotbar_1);
}

proof fn lemma_apply_binding_16(c: ControlBindings, b: ControlBindings)
    requires
        c.hotbar_2 != Key::Other,
    ensures
        bindings_prefix(c, b, 16).spec_apply("key_hotbar_2"@, spec_key_name(c.hotbar_2)) == bindings_prefix(c, b, 17),
{
    reveal_strlit("key_forward");
    reveal_strlit("key_backward");
    reveal_strlit("key_left");
    reveal_strlit("key_right");
    reveal_strlit("key_jump");
    reveal_strlit("key_sprint");
    reveal_strlit("key_sneak");
    reveal_strlit("key_inventory");
    reveal_strlit("key_chat");
    reveal_strlit("key_time_speed");
    reveal_strlit("key_advancements");
    reveal_strlit("key_debug");
    reveal_strlit("key_perspective");
    reveal_strlit("key_gamemode");
    reveal_strlit("key_pause");
    reveal_strlit("key_hotbar_1");
    reveal_strlit("key_hotbar_2");
    assert("key_hotbar_2"@.len() != "key_forward"@.len());
    assert("key_hotbar_2"@[4] != "key_backward"@[4]);
    assert("key_hotbar_2"@.len() != "key_left"@.len());
    assert("key_hotbar_2"@.len() != "key_right"@.len());
    assert("key_hotbar_2"@.len() != "key_jump"@.len());
    assert("key_hotbar_2"@.len() != "key_sprint"@.len());
    assert("key_hotbar_2"@.len() != "key_sneak"@.len());
    assert("key_hotbar_2"@.len() != "key_inventory"@.len());
    assert("key_hotbar_2"@.len() != "key_chat"@.len());
    assert("key_hotbar_2"@.len() != "key_time_speed"@.len());
    assert("key_hotbar_2"@.len() != "key_advancements"@.len());
    assert("key_hotbar_2"@.len() != "key_debug"@.len());
    assert("key_hotbar_2"@.len() != "key_perspective"@.len());
    assert("key_hotbar_2"@[4] != "key_gamemode"@[4]);
    assert("key_hotbar_2"@.len() != "key_pause"@.len());
    assert("key_hotbar_2"@[11] != "key_hotbar_1"@[11]);
    assert(control_slot("key_hotbar_2"@) == 16);
    lemma_key_name_round_trip(c.hotbar_2);
}

proof fn lemma_apply_binding_17(c: ControlBindings, b: ControlBindings)
    requires
        c.hotbar_3 != Key::Other,
    ensures
        bindings_prefix(c, b, 17).spec_apply("key_hotbar_3"@, spec_key_name(c.hotbar_3)) == bindings_prefix(c, b, 18),
{
    reveal_strlit("key_forward");
    reveal_strlit("key_backward");
    reveal_strlit("key_left");
    reveal_strlit("key_right");
    reveal_strlit("key_jump");
    reveal_strlit("key_sprint");
    reveal_strlit("key_sneak");
    reveal_strlit("key_inventory");
    reveal_strlit("key_chat");
    reveal_strlit("key_time_speed");
    reveal_strlit("key_advancements");
    reveal_strlit("key_debug");
    reveal_strlit("key_perspective");
    reveal_strlit("key_gamemode");
    reveal_strlit("key_pause");
    reveal_strlit("key_hotbar_1");
    reveal_strlit("key_hotbar_2");
    reveal_strlit("key_hotbar_3");
    assert("key_hotbar_3"@.len() != "key_forward"@.len());
    assert("key_hotbar_3"@[4] != "key_backward"@[4]);
    assert("key_hotbar_3"@.len() != "key_left"@.len());
    assert("key_hotbar_3"@.len() != "key_right"@.len());
    assert("key_hotbar_3"@.len() != "key_jump"@.len());
    assert("key_hotbar_3"@.len() != "key_sprint"@.len());
    assert("key_hotbar_3"@.len() != "key_sneak"@.len());
    assert("key_hotbar_3"@.len() != "key_inventory"@.len());
    assert("key_hotbar_3"@.len() != "key_chat"@.len());
    assert("key_hotbar_3"@.len() != "key_time_speed"@.len());
    assert("key_hotbar_3"@.len() != "key_advancements"@.len());
    assert("key_hotbar_3"@.len() != "key_debug"@.len());
    assert("key_hotbar_3"@.len() != "key_perspective"@.len());
    assert("key_hotbar_3"@[4] != "key_gamemode"@[4]);
    assert("key_hotbar_3"@.len() != "key_pause"@.len());
    assert("key_hotbar_3"@[11] != "key_hotbar_1"@[11]);
    assert("key_hotbar_3"@[11] != "key_hotbar_2"@[11]);
    assert(control_slot("key_hotbar_3"@) == 17);
    lemma_key_name_round_trip(c.hotbar_3);
}

proof fn lemma_apply_binding_18(c: ControlBindings, b: ControlBindings)
    requires
        c.hotbar_4 != Key::Other,
    ensures
        bindings_prefix(c, b, 18).spec_apply("key_hotbar_4"@, spec_key_name(c.hotbar_4)) == bindings_prefix(c, b, 19),
{
    reveal_strlit("key_forward");
    reveal_strlit("key_backward");
    reveal_strlit("key_left");
    reveal_strlit("key_right");
    reveal_strlit("key_jump");
    reveal_strlit("key_sprint");
    reveal_strlit("key_sneak");
    reveal_strlit("key_inventory");
    reveal_strlit("key_chat");
    reveal_strlit("key_time_speed");
    reveal_strlit("key_advancements");
    reveal_strlit("key_debug");
    reveal_strlit("key_perspective");
    reveal_strlit("key_gamemode");
    reveal_strlit("key_pause");
    reveal_strlit("key_hotbar_1");
    reveal_strlit("key_hotbar_2");
    reveal_strlit("key_hotbar_3");
    reveal_strlit("key_hotbar_4");
    assert("key_hotbar_4"@.len() != "key_forward"@.len());
    assert("key_hotbar_4"@[4] != "key_backward"@[4]);
    assert("key_hotbar_4"@.len() != "key_left"@.len());
    assert("key_hotbar_4"@.len() != "key_right"@.len());
    assert("key_hotbar_4"@.len() != "key_jump"@.len());
    assert("key_hotbar_4"@.len() != "key_sprint"@.len());
    assert("key_hotbar_4"@.len() != "key_sneak"@.len());
    assert("key_hotbar_4"@.len() != "key_inventory"@.len());
    assert("key_hotbar_4"@.len() != "key_chat"@.len());
    assert("key_hotbar_4"@.len() != "key_time_speed"@.len());
    assert("key_hotbar_4"@.len() != "key_advancements"@.len());
    assert("key_hotbar_4"@.len() != "key_debug"@.len());
    assert("key_hotbar_4"@.len() != "key_perspective"@.len());
    assert("key_hotbar_4"@[4] != "key_gamemode"@[4]);
    assert("key_hotbar_4"@.len() != "key_pause"@.len());
    assert("key_hotbar_4"@[11] != "key_hotbar_1"@[11]);
    assert("key_hotbar_4"@[11] != "key_hotbar_2"@[11]);
    assert("key_hotbar_4"@[11] != "key_hotbar_3"@[11]);
    assert(control_slot("key_hotbar_4"@) == 18);
    lemma_key_name_round_trip(c.hotbar_4);
}

proof fn lemma_apply_binding_19(c: ControlBindings, b: ControlBindings)
    requires
        c.hotbar_5 != Key::Other,
    ensures
        bindings_prefix(c, b, 19).spec_apply("key_hotbar_5"@, spec_key_name(c.hotbar_5)) == bindings_prefix(c, b, 20),
{
    reveal_strlit("key_forward");
    reveal_strlit("key_backward");
    reveal_strlit("key_left");
    reveal_strlit("key_right");
    reveal_strlit("key_jump");
    reveal_strlit("key_sprint");
    reveal_strlit("key_sneak");
    reveal_strlit("key_inventory");
    reveal_strlit("key_chat");
    reveal_strlit("key_time_speed");
    reveal_strlit("key_advancements");
    reveal_strlit("key_debug");
    reveal_strlit("key_perspective");
    reveal_strlit("key_gamemode");
    reveal_strlit("key_pause");
    reveal_strlit("key_hotbar_1");
    reveal_strlit("key_hotbar_2");
    reveal_strlit("key_hotbar_3");
    reveal_strlit("key_hotbar_4");
    reveal_strlit("key_hotbar_5");
    assert("key_hotbar_5"@.len() != "key_forward"@.len());
    assert("key_hotbar_5"@[4] != "key_backward"@[4]);
    assert("key_hotbar_5"@.len() != "key_left"@.len());
    assert("key_hotbar_5"@.len() != "key_right"@.len());
    assert("key_hotbar_5"@.len() != "key_jump"@.len());
    assert("key_hotbar_5"@.len() != "key_sprint"@.len());
    assert("key_hotbar_5"@.len() != "key_sneak"@.len());
    assert("key_hotbar_5"@.len() != "key_inventory"@.len());
    assert("key_hotbar_5"@.len() != "key_chat"@.len());
    assert("key_hotbar_5"@.len() != "key_time_speed"@.len());
    assert("key_hotbar_5"@.len() != "key_advancements"@.len());
    assert("key_hotbar_5"@.len() != "key_debug"@.len());
    assert("key_hotbar_5"@.len() != "key_perspective"@.len());
    assert("key_hotbar_5"@[4] != "key_gamemode"@[4]);
    assert("key_hotbar_5"@.len() != "key_pause"@.len());
    assert("key_hotbar_5"@[11] != "key_hotbar_1"@[11]);
    assert("key_hotbar_5"@[11] != "key_hotbar_2"@[11]);
    assert("key_hotbar_5"@[11] != "key_hotbar_3"@[11]);
    assert("key_hotbar_5"@[11] != "key_hotbar_4"@[11]);
    assert(control_slot("key_hotbar_5"@) == 19);
    lemma_key_name_round_trip(c.hotbar_5);
}

proof fn lemma_apply_binding_20(c: ControlBindings, b: ControlBindings)
    requires
        c.hotbar_6 != Key::Other,
    ensures
        bindings_prefix(c, b, 20).spec_apply("key_hotbar_6"@, spec_key_name(c.hotbar_6)) == bindings_prefix(c, b, 21),
{
    reveal_strlit("key_forward");
    reveal_strlit("key_backward");
    reveal_strlit("key_left");
    reveal_strlit("key_right");
    reveal_strlit("key_jump");
    reveal_strlit("key_sprint");
    reveal_strlit("key_sneak");
    reveal_strlit("key_inventory");
    reveal_strlit("key_chat");
    reveal_strlit("key_time_speed");
    reveal_strlit("key_advancements");
    reveal_strlit("key_debug");
    reveal_strlit("key_perspective");
    reveal_strlit("key_gamemode");
    reveal_strlit("key_pause");
    reveal_strlit("key_hotbar_1");
    reveal_strlit("key_hotbar_2");
    reveal_strlit("key_hotbar_3");
    reveal_strlit("key_hotbar_4");
    reveal_strlit("key_hotbar_5");
    reveal_strlit("key_hotbar_6");
    assert("key_hotbar_6"@.len() != "key_forward"@.len());
    assert("key_hotbar_6"@[4] != "key_backward"@[4]);
    assert("key_hotbar_6"@.len() != "key_left"@.len());
    assert("key_hotbar_6"@.len() != "key_right"@.len());
    assert("key_hotbar_6"@.len() != "key_jump"@.len());
    assert("key_hotbar_6"@.len() != "key_sprint"@.len());
    assert("key_hotbar_6"@.len() != "key_sneak"@.len());
    assert("key_hotbar_6"@.len() != "key_inventory"@.len());
    assert("key_hotbar_6"@.len() != "key_chat"@.len());
    assert("key_hotbar_6"@.len() != "key_time_speed"@.len());
    assert("key_hotbar_6"@.len() != "key_advancements"@.len());
    assert("key_hotbar_6"@.len() != "key_debug"@.len());
    assert("key_hotbar_6"@.len() != "key_perspective"@.len());
    assert("key_hotbar_6"@[4] != "key_gamemode"@[4]);
    assert("key_hotbar_6"@.len() != "key_pause"@.len());
    assert("key_hotbar_6"@[11] != "key_hotbar_1"@[11]);
    assert("key_hotbar_6"@[11] != "key_hotbar_2"@[11]);
    assert("key_hotbar_6"@[11] != "key_hotbar_3"@[11]);
    assert("key_hotbar_6"@[11] != "key_hotbar_4"@[11]);
    assert("key_hotbar_6"@[11] != "key_hotbar_5"@[11]);
    assert(control_slot("key_hotbar_6"@) == 20);
    lemma_key_name_round_trip(c.hotbar_6);
}

proof fn lemma_apply_binding_21(c: ControlBindings, b: ControlBindings)
    requires
        c.hotbar_7 != Key::Other,
    ensures
        bindings_prefix(c, b, 21).spec_apply("key_hotbar_7"@, spec_key_name(c.hotbar_7)) == bindings_prefix(c, b, 22),
{
    reveal_strlit("key_forward");
    reveal_strlit("key_backward");
    reveal_strlit("key_left");
    reveal_strlit("key_right");
    reveal_strlit("key_jump");
    reveal_strlit("key_sprint");
    reveal_strlit("key_sneak");
    reveal_strlit("key_inventory");
    reveal_strlit("key_chat");
    reveal_strlit("key_time_speed");
    reveal_strlit("key_advancements");
    reveal_strlit("key_debug");
    reveal_strlit("key_perspective");
    reveal_strlit("key_gamemode");
    reveal_strlit("key_pause");
    reveal_strlit("key_hotbar_1");
    reveal_strlit("key_hotbar_2");
    reveal_strlit("key_hotbar_3");
    reveal_strlit("key_hotbar_4");
    reveal_strlit("key_hotbar_5");
    reveal_strlit("key_hotbar_6");
    reveal_strlit("key_hotbar_7");
    assert("key_hotbar_7"@.len() != "key_forward"@.len());
    assert("key_hotbar_7"@[4] != "key_backward"@[4]);
    assert("key_hotbar_7"@.len() != "key_left"@.len());
    assert("key_hotbar_7"@.len() != "key_right"@.len());
    assert("key_hotbar_7"@.len() != "key_jump"@.len());
    assert("key_hotbar_7"@.len() != "key_sprint"@.len());
    assert("key_hotbar_7"@.len() != "key_sneak"@.len());
    assert("key_hotbar_7"@.len() != "key_inventory"@.len());
    assert("key_hotbar_7"@.len() != "key_chat"@.len());
    assert("key_hotbar_7"@.len() != "key_time_speed"@.len());
    assert("key_hotbar_7"@.len() != "key_advancements"@.len());
    assert("key_hotbar_7"@.len() != "key_debug"@.len());
    assert("key_hotbar_7"@.len() != "key_perspective"@.len());
    assert("key_hotbar_7"@[4] != "key_gamemode"@[4]);
    assert("key_hotbar_7"@.len() != "key_pause"@.len());
    assert("key_hotbar_7"@[11] != "key_hotbar_1"@[11]);
    assert("key_hotbar_7"@[11] != "key_hotbar_2"@[11]);
    assert("key_hotbar_7"@[11] != "key_hotbar_3"@[11]);
    assert("key_hotbar_7"@[11] != "key_hotbar_4"@[11]);
    assert("key_hotbar_7"@[11] != "key_hotbar_5"@[11]);
    assert("key_hotbar_7"@[11] != "key_hotbar_6"@[11]);
    assert(control_slot("key_hotbar_7"@) == 21);
    lemma_key_name_round_trip(c.hotbar_7);
}

proof fn lemma_apply_binding_22(c: ControlBindings, b: ControlBindings)
    requires
        c.hotbar_8 != Key::Other,
    ensures
        bindings_prefix(c, b, 22).spec_apply("key_hotbar_8"@, spec_key_name(c.hotbar_8)) == bindings_prefix(c, b, 23),
{
    reveal_strlit("key_forward");
    reveal_strlit("key_backward");
    reveal_strlit("key_left");
    reveal_strlit("key_right");
    reveal_strlit("key_jump");
    reveal_strlit("key_sprint");
    reveal_strlit("key_sneak");
    reveal_strlit("key_inventory");
    reveal_strlit("key_chat");
    reveal_strlit("key_time_speed");
    reveal_strlit("key_advancements");
    reveal_strlit("key_debug");
    reveal_strlit("key_perspective");
    reveal_strlit("key_gamemode");
    reveal_strlit("key_pause");
    reveal_strlit("key_hotbar_1");
    reveal_strlit("key_hotbar_2");
    reveal_strlit("key_hotbar_3");
    reveal_strlit("key_hotbar_4");
    reveal_strlit("key_hotbar_5");
    reveal_strlit("key_hotbar_6");
    reveal_strlit("key_hotbar_7");
    reveal_strlit("key_hotbar_8");
    assert("key_hotbar_8"@.len() != "key_forward"@.len());
    assert("key_hotbar_8"@[4] != "key_backward"@[4]);
    assert("key_hotbar_8"@.len() != "key_left"@.len());
    assert("key_hotbar_8"@.len() != "key_right"@.len());
    assert("key_hotbar_8"@.len() != "key_jump"@.len());
    assert("key_hotbar_8"@.len() != "key_sprint"@.len());
    assert("key_hotbar_8"@.len() != "key_sneak"@.len());
    assert("key_hotbar_8"@.len() != "key_inventory"@.len());
    assert("key_hotbar_8"@.len() != "key_chat"@.len());
    assert("key_hotbar_8"@.len() != "key_time_speed"@.len());
    assert("key_hotbar_8"@.len() != "key_advancements"@.len());
    assert("key_hotbar_8"@.len() != "key_debug"@.len());
    assert("key_hotbar_8"@.len() != "key_perspective"@.len());
    assert("key_hotbar_8"@[4] != "key_gamemode"@[4]);
    assert("key_hotbar_8"@.len() != "key_pause"@.len());
    assert("key_hotbar_8"@[11] != "key_hotbar_1"@[11]);
    assert("key_hotbar_8"@[11] != "key_hotbar_2"@[11]);
    assert("key_hotbar_8"@[11] != "key_hotbar_3"@[11]);
    assert("key_hotbar_8"@[11] != "key_hotbar_4"@[11]);
    assert("key_hotbar_8"@[11] != "key_hotbar_5"@[11]);
    assert("key_hotbar_8"@[11] != "key_hotbar_6"@[11]);
    assert("key_hotbar_8"@[11] != "key_hotbar_7"@[11]);
    assert(control_slot("key_hotbar_8"@) == 22);
    lemma_key_name_round_trip(c.hotbar_8);
}

proof fn lemma_apply_binding_23(c: ControlBindings, b: ControlBindings)
    requires
        c.hotbar_9 != Key::Other,
    ensures
        bindings_prefix(c, b, 23).spec_apply("key_hotbar_9"@, spec_key_name(c.hotbar_9)) == bindings_prefix(c, b, 24),
{
    reveal_strlit("key_forward");
    reveal_strlit("key_backward");
    reveal_strlit("key_left");
    reveal_strlit("key_right");
    reveal_strlit("key_jump");
    reveal_strlit("key_sprint");
    reveal_strlit("key_sneak");
    reveal_strlit("key_inventory");
    reveal_strlit("key_chat");
    reveal_strlit("key_time_speed");
    reveal_strlit("key_advancements");
    reveal_strlit("key_debug");
    reveal_strlit("key_perspective");
    reveal_strlit("key_gamemode");
    reveal_strlit("key_pause");
    reveal_strlit("key_hotbar_1");
    reveal_strlit("key_hotbar_2");
    reveal_strlit("key_hotbar_3");
    reveal_strlit("key_hotbar_4");
    reveal_strlit("key_hotbar_5");
    reveal_strlit("key_hotbar_6");
    reveal_strlit("key_hotbar_7");
    reveal_strlit("key_hotbar_8");
    reveal_strlit("key_hotbar_9");
    assert("key_hotbar_9"@.len() != "key_forward"@.len());
    assert("key_hotbar_9"@[4] != "key_backward"@[4]);
    assert("key_hotbar_9"@.len() != "key_left"@.len());
    assert("key_hotbar_9"@.len() != "key_right"@.len());
    assert("key_hotbar_9"@.len() != "key_jump"@.len());
    assert("key_hotbar_9"@.len() != "key_sprint"@.len());
    assert("key_hotbar_9"@.len() != "key_sneak"@.len());
    assert("key_hotbar_9"@.len() != "key_inventory"@.len());
    assert("key_hotbar_9"@.len() != "key_chat"@.len());
    assert("key_hotbar_9"@.len() != "key_time_speed"@.len());
    assert("key_hotbar_9"@.len() != "key_advancements"@.len());
    assert("key_hotbar_9"@.len() != "key_debug"@.len());
    assert("key_hotbar_9"@.len() != "key_perspective"@.len());
    assert("key_hotbar_9"@[4] != "key_gamemode"@[4]);
    assert("key_hotbar_9"@.len() != "key_pause"@.len());
    assert("key_hotbar_9"@[11] != "key_hotbar_1"@[11]);
    assert("key_hotbar_9"@[11] != "key_hotbar_2"@[11]);
    assert("key_hotbar_9"@[11] != "key_hotbar_3"@[11]);
    assert("key_hotbar_9"@[11] != "key_hotbar_4"@[11]);
    assert("key_hotbar_9"@[11] != "key_hotbar_5"@[11]);
    assert("key_hotbar_9"@[11] != "key_hotbar_6"@[11]);
    assert("key_hotbar_9"@[11] != "key_hotbar_7"@[11]);
    assert("key_hotbar_9"@[11] != "key_hotbar_8"@[11]);
    assert(control_slot("key_hotbar_9"@) == 23);
    lemma_key_name_round_trip(c.hotbar_9);
}

proof fn lemma_controls_lines_0_5(c: ControlBindings, b: ControlBindings)
    requires
        c.all_named(),
    ensures
        ({
            let ls = c.controls_lines();
            apply_all(bindings_prefix(c, b, 0), spec_settings_entries(lines_text(ls.subrange(0, 80)))) == apply_all(
                bindings_prefix(c, b, 0),
                spec_settings_entries(lines_text(ls.subrange(5, 80))),
            )
        }),
{
    let ls = c.controls_lines();
    assert(ls[0] == "# ====================================================================="@);
    assert(spec_settings_entries(lines_text(ls.subrange(0, 80))) == spec_settings_entries(lines_text(ls.subrange(1, 80)))) by {
        reveal_strlit("# =====================================================================");
        lemma_comment_entry(ls[0]);
        lemma_entries_lines_step(ls, 0);
        assert(entry_of(ls[0]) + spec_settings_entries(lines_text(ls.subrange(1, 80))) =~= spec_settings_entries(lines_text(ls.subrange(1, 80))));
    }
    assert(ls[1] == "# iCraft 玩家按鍵設定檔 (Keybindings Configuration)"@);
    assert(spec_settings_entries(lines_text(ls.subrange(1, 80))) == spec_settings_entries(lines_text(ls.subrange(2, 80)))) by {
        reveal_strlit("# iCraft 玩家按鍵設定檔 (Keybindings Configuration)");
        lemma_comment_entry(ls[1]);
        lemma_entries_lines_step(ls, 1);
        assert(entry_of(ls[1]) + spec_settings_entries(lines_text(ls.subrange(2, 80))) =~= spec_settings_entries(lines_text(ls.subrange(2, 80))));
    }
    assert(ls[2] == "# ====================================================================="@);
    assert(spec_settings_entries(lines_text(ls.subrange(2, 80))) == spec_settings_entries(lines_text(ls.subrange(3, 80)))) by {
        reveal_strlit("# =====================================================================");
        lemma_comment_entry(ls[2]);
        lemma_entries_lines_step(ls, 2);
        assert(entry_of(ls[2]) + spec_settings_entries(lines_text(ls.subrange(3, 80))) =~= spec_settings_entries(lines_text(ls.subrange(3, 80))));
    }
    assert(ls[3] == "# 本檔案供玩家自由修改遊戲內的所有按鍵綁定。"@);
    assert(spec_settings_entries(lines_text(ls.subrange(3, 80))) == spec_settings_entries(lines_text(ls.subrange(4, 80)))) by {
        reveal_strlit("# 本檔案供玩家自由修改遊戲內的所有按鍵綁定。");
        lemma_comment_entry(ls[3]);
        lemma_entries_lines_step(ls, 3);
        assert(entry_of(ls[3]) + spec_settings_entries(lines_text(ls.subrange(4, 80))) =~= spec_settings_entries(lines_text(ls.subrange(4, 80))));
    }
    assert(ls[4] == "# 修改存檔後，啟動遊戲將自動載入最新按鍵設定。"@);
    assert(spec_settings_entries(lines_text(ls.subrange(4, 80))) == spec_settings_entries(lines_text(ls.subrange(5, 80)))) by {
        reveal_strlit("# 修改存檔後，啟動遊戲將自動載入最新按鍵設定。");
        lemma_comment_entry(ls[4]);
        lemma_entries_lines_step(ls, 4);
        assert(entry_of(ls[4]) + spec_settings_entries(lines_text(ls.subrange(5, 80))) =~= spec_settings_entries(lines_text(ls.subrange(5, 80))));
    }
}

proof fn lemma_controls_lines_5_10(c: ControlBindings, b: ControlBindings)
    requires
        c.all_named(),
    ensures
        ({
            let ls = c.controls_lines();
            apply_all(bindings_prefix(c, b, 0), spec_settings_entries(lines_text(ls.subrange(5, 80)))) == apply_all(
                bindings_prefix(c, b, 0),
                spec_settings_entries(lines_text(ls.subrange(10, 80))),
            )
        }),
{
    let ls = c.controls_lines();
    assert(ls[5] == "#"@);
    assert(spec_settings_entries(lines_text(ls.subrange(5, 80))) == spec_settings_entries(lines_text(ls.subrange(6, 80)))) by {
        reveal_strlit("#");
        lemma_comment_entry(ls[5]);
        lemma_entries_lines_step(ls, 5);
        assert(entry_of(ls[5]) + spec_settings_entries(lines_text(ls.subrange(6, 80))) =~= spec_settings_entries(lines_text(ls.subrange(6, 80))));
    }
    assert(ls[6] == "# 【支援的按鍵名稱 (Supported Key Names)】:"@);
    assert(spec_settings_entries(lines_text(ls.subrange(6, 80))) == spec_settings_entries(lines_text(ls.subrange(7, 80)))) by {
        reveal_strlit("# 【支援的按鍵名稱 (Supported Key Names)】:");
        lemma_comment_entry(ls[6]);
        lemma_entries_lines_step(ls, 6);
        assert(entry_of(ls[6]) + spec_settings_entries(lines_text(ls.subrange(7, 80))) =~= spec_settings_entries(lines_text(ls.subrange(7, 80))));
    }
    assert(ls[7] == "#   - 字母鍵: A, B, C, ..., Z"@);
    assert(spec_settings_entries(lines_text(ls.subrange(7, 80))) == spec_settings_entries(lines_text(ls.subrange(8, 80)))) by {
        reveal_strlit("#   - 字母鍵: A, B, C, ..., Z");
        lemma_comment_entry(ls[7]);
        lemma_entries_lines_step(ls, 7);
        assert(entry_of(ls[7]) + spec_settings_entries(lines_text(ls.subrange(8, 80))) =~= spec_settings_entries(lines_text(ls.subrange(8, 80))));
    }
    assert(ls[8] == "#   - 數字鍵: 0, 1, 2, ..., 9"@);
    assert(spec_settings_entries(lines_text(ls.subrange(8, 80))) == spec_settings_entries(lines_text(ls.subrange(9, 80)))) by {
        reveal_strlit("#   - 數字鍵: 0, 1, 2, ..., 9");
        lemma_comment_entry(ls[8]);
        lemma_entries_lines_step(ls, 8);
        assert(entry_of(ls[8]) + spec_settings_entries(lines_text(ls.subrange(9, 80))) =~= spec_settings_entries(lines_text(ls.subrange(9, 80))));
    }
    assert(ls[9] == "#   - 方向鍵: UP, DOWN, LEFT, RIGHT"@);
    assert(spec_settings_entries(lines_text(ls.subrange(9, 80))) == spec_settings_entries(lines_text(ls.subrange(10, 80)))) by {
        reveal_strlit("#   - 方向鍵: UP, DOWN, LEFT, RIGHT");
        lemma_comment_entry(ls[9]);
        lemma_entries_lines_step(ls, 9);
        assert(entry_of(ls[9]) + spec_settings_entries(lines_text(ls.subrange(10, 80))) =~= spec_settings_entries(lines_text(ls.subrange(10, 80))));
    }
}

proof fn lemma_controls_lines_10_15(c: ControlBindings, b: ControlBindings)
    requires
        c.all_named(),
    ensures
        ({
            let ls = c.controls_lines();
            apply_all(bindings_prefix(c, b, 0), spec_settings_entries(lines_text(ls.subrange(10, 80)))) == apply_all(
                bindings_prefix(c, b, 0),
                spec_settings_entries(lines_text(ls.subrange(15, 80))),
            )
        }),
{
    let ls = c.controls_lines();
    assert(ls[10] == "#   - 修飾鍵: SPACE, LCTRL, RCTRL, LSHIFT, RSHIFT"@);
    assert(spec_settings_entries(lines_text(ls.subrange(10, 80))) == spec_settings_entries(lines_text(ls.subrange(11, 80)))) by {
        reveal_strlit("#   - 修飾鍵: SPACE, LCTRL, RCTRL, LSHIFT, RSHIFT");
        lemma_comment_entry(ls[10]);
        lemma_entries_lines_step(ls, 10);
        assert(entry_of(ls[10]) + spec_settings_entries(lines_text(ls.subrange(11, 80))) =~= spec_settings_entries(lines_text(ls.subrange(11, 80))));
    }
    assert(ls[11] == "#   - 控制鍵: ESC, ENTER, TAB, BACKSPACE, F1 ~ F12"@);
    assert(spec_settings_entries(lines_text(ls.subrange(11, 80))) == spec_settings_entries(lines_text(ls.subrange(12, 80)))) by {
        reveal_strlit("#   - 控制鍵: ESC, ENTER, TAB, BACKSPACE, F1 ~ F12");
        lemma_comment_entry(ls[11]);
        lemma_entries_lines_step(ls, 11);
        assert(entry_of(ls[11]) + spec_settings_entries(lines_text(ls.subrange(12, 80))) =~= spec_settings_entries(lines_text(ls.subrange(12, 80))));
    }
    assert(ls[12] == "# ====================================================================="@);
    assert(spec_settings_entries(lines_text(ls.subrange(12, 80))) == spec_settings_entries(lines_text(ls.subrange(13, 80)))) by {
        reveal_strlit("# =====================================================================");
        lemma_comment_entry(ls[12]);
        lemma_entries_lines_step(ls, 12);
        assert(entry_of(ls[12]) + spec_settings_entries(lines_text(ls.subrange(13, 80))) =~= spec_settings_entries(lines_text(ls.subrange(13, 80))));
    }
    assert(ls[13] == Seq::<char>::empty());
    lemma_entries_lines_step(ls, 13);
    assert(spec_settings_entries(lines_text(ls.subrange(13, 80))) == spec_settings_entries(lines_text(ls.subrange(14, 80)))) by {
        assert(entry_of(ls[13]) + spec_settings_entries(lines_text(ls.subrange(14, 80))) =~= spec_settings_entries(lines_text(ls.subrange(14, 80))));
    }
    assert(ls[14] == "# ---------------------------------------------------------------------"@);
    assert(spec_settings_entries(lines_text(ls.subrange(14, 80))) == spec_settings_entries(lines_text(ls.subrange(15, 80)))) by {
        reveal_strlit("# ---------------------------------------------------------------------");
        lemma_comment_entry(ls[14]);
        lemma_entries_lines_step(ls, 14);
        assert(entry_of(ls[14]) + spec_settings_entries(lines_text(ls.subrange(15, 80))) =~= spec_settings_entries(lines_text(ls.subrange(15, 80))));
    }
}

proof fn lemma_controls_lines_15_20(c: ControlBindings, b: ControlBindings)
    requires
        c.all_named(),
    ensures
        ({
            let ls = c.controls_lines();
            apply_all(bindings_prefix(c, b, 0), spec_settings_entries(lines_text(ls.subrange(15, 80)))) == apply_all(
                bindings_prefix(c, b, 1),
                spec_settings_entries(lines_text(ls.subrange(20, 80))),
            )
        }),
{
    let ls = c.controls_lines();
    assert(ls[15] == "# 1. 角色移動與基本操作 (Movement & Basic Actions)"@);
    assert(spec_settings_entries(lines_text(ls.subrange(15, 80))) == spec_settings_entries(lines_text(ls.subrange(16, 80)))) by {
        reveal_strlit("# 1. 角色移動與基本操作 (Movement & Basic Actions)");
        lemma_comment_entry(ls[15]);
        lemma_entries_lines_step(ls, 15);
        assert(entry_of(ls[15]) + spec_settings_entries(lines_text(ls.subrange(16, 80))) =~= spec_settings_entries(lines_text(ls.subrange(16, 80))));
    }
    assert(ls[16] == "# ---------------------------------------------------------------------"@);
    assert(spec_settings_entries(lines_text(ls.subrange(16, 80))) == spec_settings_entries(lines_text(ls.subrange(17, 80)))) by {
        reveal_strlit("# ---------------------------------------------------------------------");
        lemma_comment_entry(ls[16]);
        lemma_entries_lines_step(ls, 16);
        assert(entry_of(ls[16]) + spec_settings_entries(lines_text(ls.subrange(17, 80))) =~= spec_settings_entries(lines_text(ls.subrange(17, 80))));
    }
    assert(ls[17] == Seq::<char>::empty());
    lemma_entries_lines_step(ls, 17);
    assert(spec_settings_entries(lines_text(ls.subrange(17, 80))) == spec_settings_entries(lines_text(ls.subrange(18, 80)))) by {
        assert(entry_of(ls[17]) + spec_settings_entries(lines_text(ls.subrange(18, 80))) =~= spec_settings_entries(lines_text(ls.subrange(18, 80))));
    }
    assert(ls[18] == "# 前進 (Move Forward)"@);
    assert(spec_settings_entries(lines_text(ls.subrange(18, 80))) == spec_settings_entries(lines_text(ls.subrange(19, 80)))) by {
        reveal_strlit("# 前進 (Move Forward)");
        lemma_comment_entry(ls[18]);
        lemma_entries_lines_step(ls, 18);
        assert(entry_of(ls[18]) + spec_settings_entries(lines_text(ls.subrange(19, 80))) =~= spec_settings_entries(lines_text(ls.subrange(19, 80))));
    }
    assert(ls[19] == binding_line("key_forward"@, c.forward));
    assert(apply_all(bindings_prefix(c, b, 0), spec_settings_entries(lines_text(ls.subrange(19, 80)))) == apply_all(bindings_prefix(c, b, 1), spec_settings_entries(lines_text(ls.subrange(20, 80))))) by {
        reveal_strlit("key_forward");
        lemma_binding_entry("key_forward"@, c.forward);
        lemma_entries_lines_step(ls, 19);
        lemma_apply_all_concat(bindings_prefix(c, b, 0), entry_of(ls[19]), spec_settings_entries(lines_text(ls.subrange(20, 80))));
        lemma_apply_binding_0(c, b);
        assert(entry_of(ls[19]).drop_first() =~= Seq::<(Seq<char>, Seq<char>)>::empty());
        assert(apply_all(bindings_prefix(c, b, 1), entry_of(ls[19]).drop_first()) == bindings_prefix(c, b, 1));
    }
}

proof fn lemma_controls_lines_20_25(c: ControlBindings, b: ControlBindings)
    requires
        c.all_named(),
    ensures
        ({
            let ls = c.controls_lines();
            apply_all(bindings_prefix(c, b, 1), spec_settings_entries(lines_text(ls.subrange(20, 80)))) == apply_all(
                bindings_prefix(c, b, 2),
                spec_settings_entries(lines_text(ls.subrange(25, 80))),
            )
        }),
{
    let ls = c.controls_lines();
    assert(ls[20] == Seq::<char>::empty());
    lemma_entries_lines_step(ls, 20);
    assert(spec_settings_entries(lines_text(ls.subrange(20, 80))) == spec_settings_entries(lines_text(ls.subrange(21, 80)))) by {
        assert(entry_of(ls[20]) + spec_settings_entries(lines_text(ls.subrange(21, 80))) =~= spec_settings_entries(lines_text(ls.subrange(21, 80))));
    }
    assert(ls[21] == "# 後退 (Move Backward)"@);
    assert(spec_settings_entries(lines_text(ls.subrange(21, 80))) == spec_settings_entries(lines_text(ls.subrange(22, 80)))) by {
        reveal_strlit("# 後退 (Move Backward)");
        lemma_comment_entry(ls[21]);
        lemma_entries_lines_step(ls, 21);
        assert(entry_of(ls[21]) + spec_settings_entries(lines_text(ls.subrange(22, 80))) =~= spec_settings_entries(lines_text(ls.subrange(22, 80))));
    }
    assert(ls[22] == binding_line("key_backward"@, c.backward));
    assert(apply_all(bindings_prefix(c, b, 1), spec_settings_entries(lines_text(ls.subrange(22, 80)))) == apply_all(bindings_prefix(c, b, 2), spec_settings_entries(lines_text(ls.subrange(23, 80))))) by {
        reveal_strlit("key_backward");
        lemma_binding_entry("key_backward"@, c.backward);
        lemma_entries_lines_step(ls, 22);
        lemma_apply_all_concat(bindings_prefix(c, b, 1), entry_of(ls[22]), spec_settings_entries(lines_text(ls.subrange(23, 80))));
        lemma_apply_binding_1(c, b);
        assert(entry_of(ls[22]).drop_first() =~= Seq::<(Seq<char>, Seq<char>)>::empty());
        assert(apply_all(bindings_prefix(c, b, 2), entry_of(ls[22]).drop_first()) == bindings_prefix(c, b, 2));
    }
    assert(ls[23] == Seq::<char>::empty());
    lemma_entries_lines_step(ls, 23);
    assert(spec_settings_entries(lines_text(ls.subrange(23, 80))) == spec_settings_entries(lines_text(ls.subrange(24, 80)))) by {
        assert(entry_of(ls[23]) + spec_settings_entries(lines_text(ls.subrange(24, 80))) =~= spec_settings_entries(lines_text(ls.subrange(24, 80))));
    }
    assert(ls[24] == "# 向左平移 (Move Left)"@);
    assert(spec_settings_entries(lines_text(ls.subrange(24, 80))) == spec_settings_entries(lines_text(ls.subrange(25, 80)))) by {
        reveal_strlit("# 向左平移 (Move Left)");
        lemma_comment_entry(ls[24]);
        lemma_entries_lines_step(ls, 24);
        assert(entry_of(ls[24]) + spec_settings_entries(lines_text(ls.subrange(25, 80))) =~= spec_settings_entries(lines_text(ls.subrange(25, 80))));
    }
}

proof fn lemma_controls_lines_25_30(c: ControlBindings, b: ControlBindings)
    requires
        c.all_named(),
    ensures
        ({
            let ls = c.controls_lines();
            apply_all(bindings_prefix(c, b, 2), spec_settings_entries(lines_text(ls.subrange(25, 80)))) == apply_all(
                bindings_prefix(c, b, 4),
                spec_settings_entries(lines_text(ls.subrange(30, 80))),
            )
        }),
{
    let ls = c.controls_lines();
    assert(ls[25] == binding_line("key_left"@, c.left));
    assert(apply_all(bindings_prefix(c, b, 2), spec_settings_entries(lines_text(ls.subrange(25, 80)))) == apply_all(bindings_prefix(c, b, 3), spec_settings_entries(lines_text(ls.subrange(26, 80))))) by {
        reveal_strlit("key_left");
        lemma_binding_entry("key_left"@, c.left);
        lemma_entries_lines_step(ls, 25);
        lemma_apply_all_concat(bindings_prefix(c, b, 2), entry_of(ls[25]), spec_settings_entries(lines_text(ls.subrange(26, 80))));
        lemma_apply_binding_2(c, b);
        assert(entry_of(ls[25]).drop_first() =~= Seq::<(Seq<char>, Seq<char>)>::empty());
        assert(apply_all(bindings_prefix(c, b, 3), entry_of(ls[25]).drop_first()) == bindings_prefix(c, b, 3));
    }
    assert(ls[26] == Seq::<char>::empty());
    lemma_entries_lines_step(ls, 26);
    assert(spec_settings_entries(lines_text(ls.subrange(26, 80))) == spec_settings_entries(lines_text(ls.subrange(27, 80)))) by {
        assert(entry_of(ls[26]) + spec_settings_entries(lines_text(ls.subrange(27, 80))) =~= spec_settings_entries(lines_text(ls.subrange(27, 80))));
    }
    assert(ls[27] == "# 向右平移 (Move Right)"@);
    assert(spec_settings_entries(lines_text(ls.subrange(27, 80))) == spec_settings_entries(lines_text(ls.subrange(28, 80)))) by {
        reveal_strlit("# 向右平移 (Move Right)");
        lemma_comment_entry(ls[27]);
        lemma_entries_lines_step(ls, 27);
        assert(entry_of(ls[27]) + spec_settings_entries(lines_text(ls.subrange(28, 80))) =~= spec_settings_entries(lines_text(ls.subrange(28, 80))));
    }
    assert(ls[28] == binding_line("key_right"@, c.right));
    assert(apply_all(bindings_prefix(c, b, 3), spec_settings_entries(lines_text(ls.subrange(28, 80)))) == apply_all(bindings_prefix(c, b, 4), spec_settings_entries(lines_text(ls.subrange(29, 80))))) by {
        reveal_strlit("key_right");
        lemma_binding_entry("key_right"@, c.right);
        lemma_entries_lines_step(ls, 28);
        lemma_apply_all_concat(bindings_prefix(c, b, 3), entry_of(ls[28]), spec_settings_entries(lines_text(ls.subrange(29, 80))));
        lemma_apply_binding_3(c, b);
        assert(entry_of(ls[28]).drop_first() =~= Seq::<(Seq<char>, Seq<char>)>::empty());
        assert(apply_all(bindings_prefix(c, b, 4), entry_of(ls[28]).drop_first()) == bindings_prefix(c, b, 4));
    }
    assert(ls[29] == Seq::<char>::empty());
    lemma_entries_lines_step(ls, 29);
    assert(spec_settings_entries(lines_text(ls.subrange(29, 80))) == spec_settings_entries(lines_text(ls.subrange(30, 80)))) by {
        assert(entry_of(ls[29]) + spec_settings_entries(lines_text(ls.subrange(30, 80))) =~= spec_settings_entries(lines_text(ls.subrange(30, 80))));
    }
}

proof fn lemma_controls_lines_30_35(c: ControlBindings, b: ControlBindings)
    requires
        c.all_named(),
    ensures
        ({
            let ls = c.controls_lines();
            apply_all(bindings_prefix(c, b, 4), spec_settings_entries(lines_text(ls.subrange(30, 80)))) == apply_all(
                bindings_prefix(c, b, 6),
                spec_settings_entries(lines_text(ls.subrange(35, 80))),
            )
        }),
{
    let ls = c.controls_lines();
    assert(ls[30] == "# 跳躍 / 創造模式向上飛行 (Jump / Ascend)"@);
    assert(spec_settings_entries(lines_text(ls.subrange(30, 80))) == spec_settings_entries(lines_text(ls.subrange(31, 80)))) by {
        reveal_strlit("# 跳躍 / 創造模式向上飛行 (Jump / Ascend)");
        lemma_comment_entry(ls[30]);
        lemma_entries_lines_step(ls, 30);
        assert(entry_of(ls[30]) + spec_settings_entries(lines_text(ls.subrange(31, 80))) =~= spec_settings_entries(lines_text(ls.subrange(31, 80))));
    }
    assert(ls[31] == binding_line("key_jump"@, c.jump));
    assert(apply_all(bindings_prefix(c, b, 4), spec_settings_entries(lines_text(ls.subrange(31, 80)))) == apply_all(bindings_prefix(c, b, 5), spec_settings_entries(lines_text(ls.subrange(32, 80))))) by {
        reveal_strlit("key_jump");
        lemma_binding_entry("key_jump"@, c.jump);
        lemma_entries_lines_step(ls, 31);
        lemma_apply_all_concat(bindings_prefix(c, b, 4), entry_of(ls[31]), spec_settings_entries(lines_text(ls.subrange(32, 80))));
        lemma_apply_binding_4(c, b);
        assert(entry_of(ls[31]).drop_first() =~= Seq::<(Seq<char>, Seq<char>)>::empty());
        assert(apply_all(bindings_prefix(c, b, 5), entry_of(ls[31]).drop_first()) == bindings_prefix(c, b, 5));
    }
    assert(ls[32] == Seq::<char>::empty());
    lemma_entries_lines_step(ls, 32);
    assert(spec_settings_entries(lines_text(ls.subrange(32, 80))) == spec_settings_entries(lines_text(ls.subrange(33, 80)))) by {
        assert(entry_of(ls[32]) + spec_settings_entries(lines_text(ls.subrange(33, 80))) =~= spec_settings_entries(lines_text(ls.subrange(33, 80))));
    }
    assert(ls[33] == "# 疾跑 (Sprint)"@);
    assert(spec_settings_entries(lines_text(ls.subrange(33, 80))) == spec_settings_entries(lines_text(ls.subrange(34, 80)))) by {
        reveal_strlit("# 疾跑 (Sprint)");
        lemma_comment_entry(ls[33]);
        lemma_entries_lines_step(ls, 33);
        assert(entry_of(ls[33]) + spec_settings_entries(lines_text(ls.subrange(34, 80))) =~= spec_settings_entries(lines_text(ls.subrange(34, 80))));
    }
    assert(ls[34] == binding_line("key_sprint"@, c.sprint));
    assert(apply_all(bindings_prefix(c, b, 5), spec_settings_entries(lines_text(ls.subrange(34, 80)))) == apply_all(bindings_prefix(c, b, 6), spec_settings_entries(lines_text(ls.subrange(35, 80))))) by {
        reveal_strlit("key_sprint");
        lemma_binding_entry("key_sprint"@, c.sprint);
        lemma_entries_lines_step(ls, 34);
        lemma_apply_all_concat(bindings_prefix(c, b, 5), entry_of(ls[34]), spec_settings_entries(lines_text(ls.subrange(35, 80))));
        lemma_apply_binding_5(c, b);
        assert(entry_of(ls[34]).drop_first() =~= Seq::<(Seq<char>, Seq<char>)>::empty());
        assert(apply_all(bindings_prefix(c, b, 6), entry_of(ls[34]).drop_first()) == bindings_prefix(c, b, 6));
    }
}

proof fn lemma_controls_lines_35_40(c: ControlBindings, b: ControlBindings)
    requires
        c.all_named(),
    ensures
        ({
            let ls = c.controls_lines();
            apply_all(bindings_prefix(c, b, 6), spec_settings_entries(lines_text(ls.subrange(35, 80)))) == apply_all(
                bindings_prefix(c, b, 7),
                spec_settings_entries(lines_text(ls.subrange(40, 80))),
            )
        }),
{
    let ls = c.controls_lines();
    assert(ls[35] == Seq::<char>::empty());
    lemma_entries_lines_step(ls, 35);
    assert(spec_settings_entries(lines_text(ls.subrange(35, 80))) == spec_settings_entries(lines_text(ls.subrange(36, 80)))) by {
        assert(entry_of(ls[35]) + spec_settings_entries(lines_text(ls.subrange(36, 80))) =~= spec_settings_entries(lines_text(ls.subrange(36, 80))));
    }
    assert(ls[36] == "# 潛行 / 創造模式向下滑行 (Sneak / Descend)"@);
    assert(spec_settings_entries(lines_text(ls.subrange(36, 80))) == spec_settings_entries(lines_text(ls.subrange(37, 80)))) by {
        reveal_strlit("# 潛行 / 創造模式向下滑行 (Sneak / Descend)");
        lemma_comment_entry(ls[36]);
        lemma_entries_lines_step(ls, 36);
        assert(entry_of(ls[36]) + spec_settings_entries(lines_text(ls.subrange(37, 80))) =~= spec_settings_entries(lines_text(ls.subrange(37, 80))));
    }
    assert(ls[37] == binding_line("key_sneak"@, c.sneak));
    assert(apply_all(bindings_prefix(c, b, 6), spec_settings_entries(lines_text(ls.subrange(37, 80)))) == apply_all(bindings_prefix(c, b, 7), spec_settings_entries(lines_text(ls.subrange(38, 80))))) by {
        reveal_strlit("key_sneak");
        lemma_binding_entry("key_sneak"@, c.sneak);
        lemma_entries_lines_step(ls, 37);
        lemma_apply_all_concat(bindings_prefix(c, b, 6), entry_of(ls[37]), spec_settings_entries(lines_text(ls.subrange(38, 80))));
        lemma_apply_binding_6(c, b);
        assert(entry_of(ls[37]).drop_first() =~= Seq::<(Seq<char>, Seq<char>)>::empty());
        assert(apply_all(bindings_prefix(c, b, 7), entry_of(ls[37]).drop_first()) == bindings_prefix(c, b, 7));
    }
    assert(ls[38] == Seq::<char>::empty());
    lemma_entries_lines_step(ls, 38);
    assert(spec_settings_entries(lines_text(ls.subrange(38, 80))) == spec_settings_entries(lines_text(ls.subrange(39, 80)))) by {
        assert(entry_of(ls[38]) + spec_settings_entries(lines_text(ls.subrange(39, 80))) =~= spec_settings_entries(lines_text(ls.subrange(39, 80))));
    }
    assert(ls[39] == "# 開啟 / 關閉背包 (Toggle Inventory)"@);
    assert(spec_settings_entries(lines_text(ls.subrange(39, 80))) == spec_settings_entries(lines_text(ls.subrange(40, 80)))) by {
        reveal_strlit("# 開啟 / 關閉背包 (Toggle Inventory)");
        lemma_comment_entry(ls[39]);
        lemma_entries_lines_step(ls, 39);
        assert(entry_of(ls[39]) + spec_settings_entries(lines_text(ls.subrange(40, 80))) =~= spec_settings_entries(lines_text(ls.subrange(40, 80))));
    }
}

proof fn lemma_controls_lines_40_45(c: ControlBindings, b: ControlBindings)
    requires
        c.all_named(),
    ensures
        ({
            let ls = c.controls_lines();
            apply_all(bindings_prefix(c, b, 7), spec_settings_entries(lines_text(ls.subrange(40, 80)))) == apply_all(
                bindings_prefix(c, b, 8),
                spec_settings_entries(lines_text(ls.subrange(45, 80))),
            )
        }),
{
    let ls = c.controls_lines();
    assert(ls[40] == binding_line("key_inventory"@, c.inventory));
    assert(apply_all(bindings_prefix(c, b, 7), spec_settings_entries(lines_text(ls.subrange(40, 80)))) == apply_all(bindings_prefix(c, b, 8), spec_settings_entries(lines_text(ls.subrange(41, 80))))) by {
        reveal_strlit("key_inventory");
        lemma_binding_entry("key_inventory"@, c.inventory);
        lemma_entries_lines_step(ls, 40);
        lemma_apply_all_concat(bindings_prefix(c, b, 7), entry_of(ls[40]), spec_settings_entries(lines_text(ls.subrange(41, 80))));
        lemma_apply_binding_7(c, b);
        assert(entry_of(ls[40]).drop_first() =~= Seq::<(Seq<char>, Seq<char>)>::empty());
        assert(apply_all(bindings_prefix(c, b, 8), entry_of(ls[40]).drop_first()) == bindings_prefix(c, b, 8));
    }
    assert(ls[41] == Seq::<char>::empty());
    lemma_entries_lines_step(ls, 41);
    assert(spec_settings_entries(lines_text(ls.subrange(41, 80))) == spec_settings_entries(lines_text(ls.subrange(42, 80)))) by {
        assert(entry_of(ls[41]) + spec_settings_entries(lines_text(ls.subrange(42, 80))) =~= spec_settings_entries(lines_text(ls.subrange(42, 80))));
    }
    assert(ls[42] == "# ---------------------------------------------------------------------"@);
    assert(spec_settings_entries(lines_text(ls.subrange(42, 80))) == spec_settings_entries(lines_text(ls.subrange(43, 80)))) by {
        reveal_strlit("# ---------------------------------------------------------------------");
        lemma_comment_entry(ls[42]);
        lemma_entries_lines_step(ls, 42);
        assert(entry_of(ls[42]) + spec_settings_entries(lines_text(ls.subrange(43, 80))) =~= spec_settings_entries(lines_text(ls.subrange(43, 80))));
    }
    assert(ls[43] == "# 2. 系統功能與模式切換快捷鍵 (System & Gameplay Hotkeys)"@);
    assert(spec_settings_entries(lines_text(ls.subrange(43, 80))) == spec_settings_entries(lines_text(ls.subrange(44, 80)))) by {
        reveal_strlit("# 2. 系統功能與模式切換快捷鍵 (System & Gameplay Hotkeys)");
        lemma_comment_entry(ls[43]);
        lemma_entries_lines_step(ls, 43);
        assert(entry_of(ls[43]) + spec_settings_entries(lines_text(ls.subrange(44, 80))) =~= spec_settings_entries(lines_text(ls.subrange(44, 80))));
    }
    assert(ls[44] == "# ---------------------------------------------------------------------"@);
    assert(spec_settings_entries(lines_text(ls.subrange(44, 80))) == spec_settings_entries(lines_text(ls.subrange(45, 80)))) by {
        reveal_strlit("# ---------------------------------------------------------------------");
        lemma_comment_entry(ls[44]);
        lemma_entries_lines_step(ls, 44);
        assert(entry_of(ls[44]) + spec_settings_entries(lines_text(ls.subrange(45, 80))) =~= spec_settings_entries(lines_text(ls.subrange(45, 80))));
    }
}

proof fn lemma_controls_lines_45_50(c: ControlBindings, b: ControlBindings)
    requires
        c.all_named(),
    ensures
        ({
            let ls = c.controls_lines();
            apply_all(bindings_prefix(c, b, 8), spec_settings_entries(lines_text(ls.subrange(45, 80)))) == apply_all(
                bindings_prefix(c, b, 9),
                spec_settings_entries(lines_text(ls.subrange(50, 80))),
            )
        }),
{
    let ls = c.controls_lines();
    assert(ls[45] == Seq::<char>::empty());
    lemma_entries_lines_step(ls, 45);
    assert(spec_settings_entries(lines_text(ls.subrange(45, 80))) == spec_settings_entries(lines_text(ls.subrange(46, 80)))) by {
        assert(entry_of(ls[45]) + spec_settings_entries(lines_text(ls.subrange(46, 80))) =~= spec_settings_entries(lines_text(ls.subrange(46, 80))));
    }
    assert(ls[46] == "# 開啟 / 關閉聊天框 (Open Chat)"@);
    assert(spec_settings_entries(lines_text(ls.subrange(46, 80))) == spec_settings_entries(lines_text(ls.subrange(47, 80)))) by {
        reveal_strlit("# 開啟 / 關閉聊天框 (Open Chat)");
        lemma_comment_entry(ls[46]);
        lemma_entries_lines_step(ls, 46);
        assert(entry_of(ls[46]) + spec_settings_entries(lines_text(ls.subrange(47, 80))) =~= spec_settings_entries(lines_text(ls.subrange(47, 80))));
    }
    assert(ls[47] == binding_line("key_chat"@, c.chat));
    assert(apply_all(bindings_prefix(c, b, 8), spec_settings_entries(lines_text(ls.subrange(47, 80)))) == apply_all(bindings_prefix(c, b, 9), spec_settings_entries(lines_text(ls.subrange(48, 80))))) by {
        reveal_strlit("key_chat");
        lemma_binding_entry("key_chat"@, c.chat);
        lemma_entries_lines_step(ls, 47);
        lemma_apply_all_concat(bindings_prefix(c, b, 8), entry_of(ls[47]), spec_settings_entries(lines_text(ls.subrange(48, 80))));
        lemma_apply_binding_8(c, b);
        assert(entry_of(ls[47]).drop_first() =~= Seq::<(Seq<char>, Seq<char>)>::empty());
        assert(apply_all(bindings_prefix(c, b, 9), entry_of(ls[47]).drop_first()) == bindings_prefix(c, b, 9));
    }
    assert(ls[48] == Seq::<char>::empty());
    lemma_entries_lines_step(ls, 48);
    assert(spec_settings_entries(lines_text(ls.subrange(48, 80))) == spec_settings_entries(lines_text(ls.subrange(49, 80)))) by {
        assert(entry_of(ls[48]) + spec_settings_entries(lines_text(ls.subrange(49, 80))) =~= spec_settings_entries(lines_text(ls.subrange(49, 80))));
    }
    assert(ls[49] == "# 時間加速 (Accelerate Time)"@);
    assert(spec_settings_entries(lines_text(ls.subrange(49, 80))) == spec_settings_entries(lines_text(ls.subrange(50, 80)))) by {
        reveal_strlit("# 時間加速 (Accelerate Time)");
        lemma_comment_entry(ls[49]);
        lemma_entries_lines_step(ls, 49);
        assert(entry_of(ls[49]) + spec_settings_entries(lines_text(ls.subrange(50, 80))) =~= spec_settings_entries(lines_text(ls.subrange(50, 80))));
    }
}

proof fn lemma_controls_lines_50_55(c: ControlBindings, b: ControlBindings)
    requires
        c.all_named(),
    ensures
        ({
            let ls = c.controls_lines();
            apply_all(bindings_prefix(c, b, 9), spec_settings_entries(lines_text(ls.subrange(50, 80)))) == apply_all(
                bindings_prefix(c, b, 11),
                spec_settings_entries(lines_text(ls.subrange(55, 80))),
            )
        }),
{
    let ls = c.controls_lines();
    assert(ls[50] == binding_line("key_time_speed"@, c.time_speed));
    assert(apply_all(bindings_prefix(c, b, 9), spec_settings_entries(lines_text(ls.subrange(50, 80)))) == apply_all(bindings_prefix(c, b, 10), spec_settings_entries(lines_text(ls.subrange(51, 80))))) by {
        reveal_strlit("key_time_speed");
        lemma_binding_entry("key_time_speed"@, c.time_speed);
        lemma_entries_lines_step(ls, 50);
        lemma_apply_all_concat(bindings_prefix(c, b, 9), entry_of(ls[50]), spec_settings_entries(lines_text(ls.subrange(51, 80))));
        lemma_apply_binding_9(c, b);
        assert(entry_of(ls[50]).drop_first() =~= Seq::<(Seq<char>, Seq<char>)>::empty());
        assert(apply_all(bindings_prefix(c, b, 10), entry_of(ls[50]).drop_first()) == bindings_prefix(c, b, 10));
    }
    assert(ls[51] == Seq::<char>::empty());
    lemma_entries_lines_step(ls, 51);
    assert(spec_settings_entries(lines_text(ls.subrange(51, 80))) == spec_settings_entries(lines_text(ls.subrange(52, 80)))) by {
        assert(entry_of(ls[51]) + spec_settings_entries(lines_text(ls.subrange(52, 80))) =~= spec_settings_entries(lines_text(ls.subrange(52, 80))));
    }
    assert(ls[52] == "# 開啟 / 關閉成就樹 (Advancements Screen)"@);
    assert(spec_settings_entries(lines_text(ls.subrange(52, 80))) == spec_settings_entries(lines_text(ls.subrange(53, 80)))) by {
        reveal_strlit("# 開啟 / 關閉成就樹 (Advancements Screen)");
        lemma_comment_entry(ls[52]);
        lemma_entries_lines_step(ls, 52);
        assert(entry_of(ls[52]) + spec_settings_entries(lines_text(ls.subrange(53, 80))) =~= spec_settings_entries(lines_text(ls.subrange(53, 80))));
    }
    assert(ls[53] == binding_line("key_advancements"@, c.advancements));
    assert(apply_all(bindings_prefix(c, b, 10), spec_settings_entries(lines_text(ls.subrange(53, 80)))) == apply_all(bindings_prefix(c, b, 11), spec_settings_entries(lines_text(ls.subrange(54, 80))))) by {
        reveal_strlit("key_advancements");
        lemma_binding_entry("key_advancements"@, c.advancements);
        lemma_entries_lines_step(ls, 53);
        lemma_apply_all_concat(bindings_prefix(c, b, 10), entry_of(ls[53]), spec_settings_entries(lines_text(ls.subrange(54, 80))));
        lemma_apply_binding_10(c, b);
        assert(entry_of(ls[53]).drop_first() =~= Seq::<(Seq<char>, Seq<char>)>::empty());
        assert(apply_all(bindings_prefix(c, b, 11), entry_of(ls[53]).drop_first()) == bindings_prefix(c, b, 11));
    }
    assert(ls[54] == Seq::<char>::empty());
    lemma_entries_lines_step(ls, 54);
    assert(spec_settings_entries(lines_text(ls.subrange(54, 80))) == spec_settings_entries(lines_text(ls.subrange(55, 80)))) by {
        assert(entry_of(ls[54]) + spec_settings_entries(lines_text(ls.subrange(55, 80))) =~= spec_settings_entries(lines_text(ls.subrange(55, 80))));
    }
}

proof fn lemma_controls_lines_55_60(c: ControlBindings, b: ControlBindings)
    requires
        c.all_named(),
    ensures
        ({
            let ls = c.controls_lines();
            apply_all(bindings_prefix(c, b, 11), spec_settings_entries(lines_text(ls.subrange(55, 80)))) == apply_all(
                bindings_prefix(c, b, 13),
                spec_settings_entries(lines_text(ls.subrange(60, 80))),
            )
        }),
{
    let ls = c.controls_lines();
    assert(ls[55] == "# 開啟 / 關閉 F3 偵錯 Overlay (Debug Info)"@);
    assert(spec_settings_entries(lines_text(ls.subrange(55, 80))) == spec_settings_entries(lines_text(ls.subrange(56, 80)))) by {
        reveal_strlit("# 開啟 / 關閉 F3 偵錯 Overlay (Debug Info)");
        lemma_comment_entry(ls[55]);
        lemma_entries_lines_step(ls, 55);
        assert(entry_of(ls[55]) + spec_settings_entries(lines_text(ls.subrange(56, 80))) =~= spec_settings_entries(lines_text(ls.subrange(56, 80))));
    }
    assert(ls[56] == binding_line("key_debug"@, c.debug));
    assert(apply_all(bindings_prefix(c, b, 11), spec_settings_entries(lines_text(ls.subrange(56, 80)))) == apply_all(bindings_prefix(c, b, 12), spec_settings_entries(lines_text(ls.subrange(57, 80))))) by {
        reveal_strlit("key_debug");
        lemma_binding_entry("key_debug"@, c.debug);
        lemma_entries_lines_step(ls, 56);
        lemma_apply_all_concat(bindings_prefix(c, b, 11), entry_of(ls[56]), spec_settings_entries(lines_text(ls.subrange(57, 80))));
        lemma_apply_binding_11(c, b);
        assert(entry_of(ls[56]).drop_first() =~= Seq::<(Seq<char>, Seq<char>)>::empty());
        assert(apply_all(bindings_prefix(c, b, 12), entry_of(ls[56]).drop_first()) == bindings_prefix(c, b, 12));
    }
    assert(ls[57] == Seq::<char>::empty());
    lemma_entries_lines_step(ls, 57);
    assert(spec_settings_entries(lines_text(ls.subrange(57, 80))) == spec_settings_entries(lines_text(ls.subrange(58, 80)))) by {
        assert(entry_of(ls[57]) + spec_settings_entries(lines_text(ls.subrange(58, 80))) =~= spec_settings_entries(lines_text(ls.subrange(58, 80))));
    }
    assert(ls[58] == "# 切換第一人稱 / 第三人稱視角 (Toggle Camera View)"@);
    assert(spec_settings_entries(lines_text(ls.subrange(58, 80))) == spec_settings_entries(lines_text(ls.subrange(59, 80)))) by {
        reveal_strlit("# 切換第一人稱 / 第三人稱視角 (Toggle Camera View)");
        lemma_comment_entry(ls[58]);
        lemma_entries_lines_step(ls, 58);
        assert(entry_of(ls[58]) + spec_settings_entries(lines_text(ls.subrange(59, 80))) =~= spec_settings_entries(lines_text(ls.subrange(59, 80))));
    }
    assert(ls[59] == binding_line("key_perspective"@, c.perspective));
    assert(apply_all(bindings_prefix(c, b, 12), spec_settings_entries(lines_text(ls.subrange(59, 80)))) == apply_all(bindings_prefix(c, b, 13), spec_settings_entries(lines_text(ls.subrange(60, 80))))) by {
        reveal_strlit("key_perspective");
        lemma_binding_entry("key_perspective"@, c.perspective);
        lemma_entries_lines_step(ls, 59);
        lemma_apply_all_concat(bindings_prefix(c, b, 12), entry_of(ls[59]), spec_settings_entries(lines_text(ls.subrange(60, 80))));
        lemma_apply_binding_12(c, b);
        assert(entry_of(ls[59]).drop_first() =~= Seq::<(Seq<char>, Seq<char>)>::empty());
        assert(apply_all(bindings_prefix(c, b, 13), entry_of(ls[59]).drop_first()) == bindings_prefix(c, b, 13));
    }
}

proof fn lemma_controls_lines_60_65(c: ControlBindings, b: ControlBindings)
    requires
        c.all_named(),
    ensures
        ({
            let ls = c.controls_lines();
            apply_all(bindings_prefix(c, b, 13), spec_settings_entries(lines_text(ls.subrange(60, 80)))) == apply_all(
                bindings_prefix(c, b, 14),
                spec_settings_entries(lines_text(ls.subrange(65, 80))),
            )
        }),
{
    let ls = c.controls_lines();
    assert(ls[60] == Seq::<char>::empty());
    lemma_entries_lines_step(ls, 60);
    assert(spec_settings_entries(lines_text(ls.subrange(60, 80))) == spec_settings_entries(lines_text(ls.subrange(61, 80)))) by {
        assert(entry_of(ls[60]) + spec_settings_entries(lines_text(ls.subrange(61, 80))) =~= spec_settings_entries(lines_text(ls.subrange(61, 80))));
    }
    assert(ls[61] == "# 切換生存 / 創造遊戲模式 (Toggle Game Mode)"@);
    assert(spec_settings_entries(lines_text(ls.subrange(61, 80))) == spec_settings_entries(lines_text(ls.subrange(62, 80)))) by {
        reveal_strlit("# 切換生存 / 創造遊戲模式 (Toggle Game Mode)");
        lemma_comment_entry(ls[61]);
        lemma_entries_lines_step(ls, 61);
        assert(entry_of(ls[61]) + spec_settings_entries(lines_text(ls.subrange(62, 80))) =~= spec_settings_entries(lines_text(ls.subrange(62, 80))));
    }
    assert(ls[62] == binding_line("key_gamemode"@, c.gamemode));
    assert(apply_all(bindings_prefix(c, b, 13), spec_settings_entries(lines_text(ls.subrange(62, 80)))) == apply_all(bindings_prefix(c, b, 14), spec_settings_entries(lines_text(ls.subrange(63, 80))))) by {
        reveal_strlit("key_gamemode");
        lemma_binding_entry("key_gamemode"@, c.gamemode);
        lemma_entries_lines_step(ls, 62);
        lemma_apply_all_concat(bindings_prefix(c, b, 13), entry_of(ls[62]), spec_settings_entries(lines_text(ls.subrange(63, 80))));
        lemma_apply_binding_13(c, b);
        assert(entry_of(ls[62]).drop_first() =~= Seq::<(Seq<char>, Seq<char>)>::empty());
        assert(apply_all(bindings_prefix(c, b, 14), entry_of(ls[62]).drop_first()) == bindings_prefix(c, b, 14));
    }
    assert(ls[63] == Seq::<char>::empty());
    lemma_entries_lines_step(ls, 63);
    assert(spec_settings_entries(lines_text(ls.subrange(63, 80))) == spec_settings_entries(lines_text(ls.subrange(64, 80)))) by {
        assert(entry_of(ls[63]) + spec_settings_entries(lines_text(ls.subrange(64, 80))) =~= spec_settings_entries(lines_text(ls.subrange(64, 80))));
    }
    assert(ls[64] == "# 暫停選單 / 關閉界面 (Pause Menu / Close UI)"@);
    assert(spec_settings_entries(lines_text(ls.subrange(64, 80))) == spec_settings_entries(lines_text(ls.subrange(65, 80)))) by {
        reveal_strlit("# 暫停選單 / 關閉界面 (Pause Menu / Close UI)");
        lemma_comment_entry(ls[64]);
        lemma_entries_lines_step(ls, 64);
        assert(entry_of(ls[64]) + spec_settings_entries(lines_text(ls.subrange(65, 80))) =~= spec_settings_entries(lines_text(ls.subrange(65, 80))));
    }
}

proof fn lemma_controls_lines_65_70(c: ControlBindings, b: ControlBindings)
    requires
        c.all_named(),
    ensures
        ({
            let ls = c.controls_lines();
            apply_all(bindings_prefix(c, b, 14), spec_settings_entries(lines_text(ls.subrange(65, 80)))) == apply_all(
                bindings_prefix(c, b, 15),
                spec_settings_entries(lines_text(ls.subrange(70, 80))),
            )
        }),
{
    let ls = c.controls_lines();
    assert(ls[65] == binding_line("key_pause"@, c.pause));
    assert(apply_all(bindings_prefix(c, b, 14), spec_settings_entries(lines_text(ls.subrange(65, 80)))) == apply_all(bindings_prefix(c, b, 15), spec_settings_entries(lines_text(ls.subrange(66, 80))))) by {
        reveal_strlit("key_pause");
        lemma_binding_entry("key_pause"@, c.pause);
        lemma_entries_lines_step(ls, 65);
        lemma_apply_all_concat(bindings_prefix(c, b, 14), entry_of(ls[65]), spec_settings_entries(lines_text(ls.subrange(66, 80))));
        lemma_apply_binding_14(c, b);
        assert(entry_of(ls[65]).drop_first() =~= Seq::<(Seq<char>, Seq<char>)>::empty());
        assert(apply_all(bindings_prefix(c, b, 15), entry_of(ls[65]).drop_first()) == bindings_prefix(c, b, 15));
    }
    assert(ls[66] == Seq::<char>::empty());
    lemma_entries_lines_step(ls, 66);
    assert(spec_settings_entries(lines_text(ls.subrange(66, 80))) == spec_settings_entries(lines_text(ls.subrange(67, 80)))) by {
        assert(entry_of(ls[66]) + spec_settings_entries(lines_text(ls.subrange(67, 80))) =~= spec_settings_entries(lines_text(ls.subrange(67, 80))));
    }
    assert(ls[67] == "# ---------------------------------------------------------------------"@);
    assert(spec_settings_entries(lines_text(ls.subrange(67, 80))) == spec_settings_entries(lines_text(ls.subrange(68, 80)))) by {
        reveal_strlit("# ---------------------------------------------------------------------");
        lemma_comment_entry(ls[67]);
        lemma_entries_lines_step(ls, 67);
        assert(entry_of(ls[67]) + spec_settings_entries(lines_text(ls.subrange(68, 80))) =~= spec_settings_entries(lines_text(ls.subrange(68, 80))));
    }
    assert(ls[68] == "# 3. 快捷欄物品選擇 1 - 9 (Hotbar Item Selection 1-9)"@);
    assert(spec_settings_entries(lines_text(ls.subrange(68, 80))) == spec_settings_entries(lines_text(ls.subrange(69, 80)))) by {
        reveal_strlit("# 3. 快捷欄物品選擇 1 - 9 (Hotbar Item Selection 1-9)");
        lemma_comment_entry(ls[68]);
        lemma_entries_lines_step(ls, 68);
        assert(entry_of(ls[68]) + spec_settings_entries(lines_text(ls.subrange(69, 80))) =~= spec_settings_entries(lines_text(ls.subrange(69, 80))));
    }
    assert(ls[69] == "# ---------------------------------------------------------------------"@);
    assert(spec_settings_entries(lines_text(ls.subrange(69, 80))) == spec_settings_entries(lines_text(ls.subrange(70, 80)))) by {
        reveal_strlit("# ---------------------------------------------------------------------");
        lemma_comment_entry(ls[69]);
        lemma_entries_lines_step(ls, 69);
        assert(entry_of(ls[69]) + spec_settings_entries(lines_text(ls.subrange(70, 80))) =~= spec_settings_entries(lines_text(ls.subrange(70, 80))));
    }
}

proof fn lemma_controls_lines_70_75(c: ControlBindings, b: ControlBindings)
    requires
        c.all_named(),
    ensures
        ({
            let ls = c.controls_lines();
            apply_all(bindings_prefix(c, b, 15), spec_settings_entries(lines_text(ls.subrange(70, 80)))) == apply_all(
                bindings_prefix(c, b, 19),
                spec_settings_entries(lines_text(ls.subrange(75, 80))),
            )
        }),
{
    let ls = c.controls_lines();
    assert(ls[70] == Seq::<char>::empty());
    lemma_entries_lines_step(ls, 70);
    assert(spec_settings_entries(lines_text(ls.subrange(70, 80))) == spec_settings_entries(lines_text(ls.subrange(71, 80)))) by {
        assert(entry_of(ls[70]) + spec_settings_entries(lines_text(ls.subrange(71, 80))) =~= spec_settings_entries(lines_text(ls.subrange(71, 80))));
    }
    assert(ls[71] == binding_line("key_hotbar_1"@, c.hotbar_1));
    assert(apply_all(bindings_prefix(c, b, 15), spec_settings_entries(lines_text(ls.subrange(71, 80)))) == apply_all(bindings_prefix(c, b, 16), spec_settings_entries(lines_text(ls.subrange(72, 80))))) by {
        reveal_strlit("key_hotbar_1");
        lemma_binding_entry("key_hotbar_1"@, c.hotbar_1);
        lemma_entries_lines_step(ls, 71);
        lemma_apply_all_concat(bindings_prefix(c, b, 15), entry_of(ls[71]), spec_settings_entries(lines_text(ls.subrange(72, 80))));
        lemma_apply_binding_15(c, b);
        assert(entry_of(ls[71]).drop_first() =~= Seq::<(Seq<char>, Seq<char>)>::empty());
        assert(apply_all(bindings_prefix(c, b, 16), entry_of(ls[71]).drop_first()) == bindings_prefix(c, b, 16));
    }
    assert(ls[72] == binding_line("key_hotbar_2"@, c.hotbar_2));
    assert(apply_all(bindings_prefix(c, b, 16), spec_settings_entries(lines_text(ls.subrange(72, 80)))) == apply_all(bindings_prefix(c, b, 17), spec_settings_entries(lines_text(ls.subrange(73, 80))))) by {
        reveal_strlit("key_hotbar_2");
        lemma_binding_entry("key_hotbar_2"@, c.hotbar_2);
        lemma_entries_lines_step(ls, 72);
        lemma_apply_all_concat(bindings_prefix(c, b, 16), entry_of(ls[72]), spec_settings_entries(lines_text(ls.subrange(73, 80))));
        lemma_apply_binding_16(c, b);
        assert(entry_of(ls[72]).drop_first() =~= Seq::<(Seq<char>, Seq<char>)>::empty());
        assert(apply_all(bindings_prefix(c, b, 17), entry_of(ls[72]).drop_first()) == bindings_prefix(c, b, 17));
    }
    assert(ls[73] == binding_line("key_hotbar_3"@, c.hotbar_3));
    assert(apply_all(bindings_prefix(c, b, 17), spec_settings_entries(lines_text(ls.subrange(73, 80)))) == apply_all(bindings_prefix(c, b, 18), spec_settings_entries(lines_text(ls.subrange(74, 80))))) by {
        reveal_strlit("key_hotbar_3");
        lemma_binding_entry("key_hotbar_3"@, c.hotbar_3);
        lemma_entries_lines_step(ls, 73);
        lemma_apply_all_concat(bindings_prefix(c, b, 17), entry_of(ls[73]), spec_settings_entries(lines_text(ls.subrange(74, 80))));
        lemma_apply_binding_17(c, b);
        assert(entry_of(ls[73]).drop_first() =~= Seq::<(Seq<char>, Seq<char>)>::empty());
        assert(apply_all(bindings_prefix(c, b, 18), entry_of(ls[73]).drop_first()) == bindings_prefix(c, b, 18));
    }
    assert(ls[74] == binding_line("key_hotbar_4"@, c.hotbar_4));
    assert(apply_all(bindings_prefix(c, b, 18), spec_settings_entries(lines_text(ls.subrange(74, 80)))) == apply_all(bindings_prefix(c, b, 19), spec_settings_entries(lines_text(ls.subrange(75, 80))))) by {
        reveal_strlit("key_hotbar_4");
        lemma_binding_entry("key_hotbar_4"@, c.hotbar_4);
        lemma_entries_lines_step(ls, 74);
        lemma_apply_all_concat(bindings_prefix(c, b, 18), entry_of(ls[74]), spec_settings_entries(lines_text(ls.subrange(75, 80))));
        lemma_apply_binding_18(c, b);
        assert(entry_of(ls[74]).drop_first() =~= Seq::<(Seq<char>, Seq<char>)>::empty());
        assert(apply_all(bindings_prefix(c, b, 19), entry_of(ls[74]).drop_first()) == bindings_prefix(c, b, 19));
    }
}

proof fn lemma_controls_lines_75_80(c: ControlBindings, b: ControlBindings)
    requires
        c.all_named(),
    ensures
        ({
            let ls = c.controls_lines();
            apply_all(bindings_prefix(c, b, 19), spec_settings_entries(lines_text(ls.subrange(75, 80)))) == apply_all(
                bindings_prefix(c, b, 24),
                spec_settings_entries(lines_text(ls.subrange(80, 80))),
            )
        }),
{
    let ls = c.controls_lines();
    assert(ls[75] == binding_line("key_hotbar_5"@, c.hotbar_5));
    assert(apply_all(bindings_prefix(c, b, 19), spec_settings_entries(lines_text(ls.subrange(75, 80)))) == apply_all(bindings_prefix(c, b, 20), spec_settings_entries(lines_text(ls.subrange(76, 80))))) by {
        reveal_strlit("key_hotbar_5");
        lemma_binding_entry("key_hotbar_5"@, c.hotbar_5);
        lemma_entries_lines_step(ls, 75);
        lemma_apply_all_concat(bindings_prefix(c, b, 19), entry_of(ls[75]), spec_settings_entries(lines_text(ls.subrange(76, 80))));
        lemma_apply_binding_19(c, b);
        assert(entry_of(ls[75]).drop_first() =~= Seq::<(Seq<char>, Seq<char>)>::empty());
        assert(apply_all(bindings_prefix(c, b, 20), entry_of(ls[75]).drop_first()) == bindings_prefix(c, b, 20));
    }
    assert(ls[76] == binding_line("key_hotbar_6"@, c.hotbar_6));
    assert(apply_all(bindings_prefix(c, b, 20), spec_settings_entries(lines_text(ls.subrange(76, 80)))) == apply_all(bindings_prefix(c, b, 21), spec_settings_entries(lines_text(ls.subrange(77, 80))))) by {
        reveal_strlit("key_hotbar_6");
        lemma_binding_entry("key_hotbar_6"@, c.hotbar_6);
        lemma_entries_lines_step(ls, 76);
        lemma_apply_all_concat(bindings_prefix(c, b, 20), entry_of(ls[76]), spec_settings_entries(lines_text(ls.subrange(77, 80))));
        lemma_apply_binding_20(c, b);
        assert(entry_of(ls[76]).drop_first() =~= Seq::<(Seq<char>, Seq<char>)>::empty());
        assert(apply_all(bindings_prefix(c, b, 21), entry_of(ls[76]).drop_first()) == bindings_prefix(c, b, 21));
    }
    assert(ls[77] == binding_line("key_hotbar_7"@, c.hotbar_7));
    assert(apply_all(bindings_prefix(c, b, 21), spec_settings_entries(lines_text(ls.subrange(77, 80)))) == apply_all(bindings_prefix(c, b, 22), spec_settings_entries(lines_text(ls.subrange(78, 80))))) by {
        reveal_strlit("key_hotbar_7");
        lemma_binding_entry("key_hotbar_7"@, c.hotbar_7);
        lemma_entries_lines_step(ls, 77);
        lemma_apply_all_concat(bindings_prefix(c, b, 21), entry_of(ls[77]), spec_settings_entries(lines_text(ls.subrange(78, 80))));
        lemma_apply_binding_21(c, b);
        assert(entry_of(ls[77]).drop_first() =~= Seq::<(Seq<char>, Seq<char>)>::empty());
        assert(apply_all(bindings_prefix(c, b, 22), entry_of(ls[77]).drop_first()) == bindings_prefix(c, b, 22));
    }
    assert(ls[78] == binding_line("key_hotbar_8"@, c.hotbar_8));
    assert(apply_all(bindings_prefix(c, b, 22), spec_settings_entries(lines_text(ls.subrange(78, 80)))) == apply_all(bindings_prefix(c, b, 23), spec_settings_entries(lines_text(ls.subrange(79, 80))))) by {
        reveal_strlit("key_hotbar_8");
        lemma_binding_entry("key_hotbar_8"@, c.hotbar_8);
        lemma_entries_lines_step(ls, 78);
        lemma_apply_all_concat(bindings_prefix(c, b, 22), entry_of(ls[78]), spec_settings_entries(lines_text(ls.subrange(79, 80))));
        lemma_apply_binding_22(c, b);
        assert(entry_of(ls[78]).drop_first() =~= Seq::<(Seq<char>, Seq<char>)>::empty());
        assert(apply_all(bindings_prefix(c, b, 23), entry_of(ls[78]).drop_first()) == bindings_prefix(c, b, 23));
    }
    assert(ls[79] == binding_line("key_hotbar_9"@, c.hotbar_9));
    assert(apply_all(bindings_prefix(c, b, 23), spec_settings_entries(lines_text(ls.subrange(79, 80)))) == apply_all(bindings_prefix(c, b, 24), spec_settings_entries(lines_text(ls.subrange(80, 80))))) by {
        reveal_strlit("key_hotbar_9");
        lemma_binding_entry("key_hotbar_9"@, c.hotbar_9);
        lemma_entries_lines_step(ls, 79);
        lemma_apply_all_concat(bindings_prefix(c, b, 23), entry_of(ls[79]), spec_settings_entries(lines_text(ls.subrange(80, 80))));
        lemma_apply_binding_23(c, b);
        assert(entry_of(ls[79]).drop_first() =~= Seq::<(Seq<char>, Seq<char>)>::empty());
        assert(apply_all(bindings_prefix(c, b, 24), entry_of(ls[79]).drop_first()) == bindings_prefix(c, b, 24));
    }
}

/// Reading back the controls file written for bindings in which every action has a named key
/// binds every action as those bindings do, whatever the bindings were before.
pub proof fn lemma_controls_file_reads_back(c: ControlBindings, b: ControlBindings)
    requires
        c.all_named(),
    ensures
        apply_all(b, spec_settings_entries(c.spec_controls_text())) == c,
{
    let ls = c.controls_lines();
    assert(ls.subrange(0, 80) =~= ls);
    lemma_controls_lines_0_5(c, b);
    lemma_controls_lines_5_10(c, b);
    lemma_controls_lines_10_15(c, b);
    lemma_controls_lines_15_20(c, b);
    lemma_controls_lines_20_25(c, b);
    lemma_controls_lines_25_30(c, b);
    lemma_controls_lines_30_35(c, b);
    lemma_controls_lines_35_40(c, b);
    lemma_controls_lines_40_45(c, b);
    lemma_controls_lines_45_50(c, b);
    lemma_controls_lines_50_55(c, b);
    lemma_controls_lines_55_60(c, b);
    lemma_controls_lines_60_65(c, b);
    lemma_controls_lines_65_70(c, b);
    lemma_controls_lines_70_75(c, b);
    lemma_controls_lines_75_80(c, b);
    assert(ls.subrange(80, 80) =~= Seq::<Seq<char>>::empty());
    assert(lines_text(ls.subrange(80, 80)) == Seq::<char>::empty());
    assert(spec_settings_entries(Seq::<char>::empty()) == Seq::<(Seq<char>, Seq<char>)>::empty());
    assert(bindings_prefix(c, b, 0) == b);
    assert(bindings_prefix(c, b, 24) == c);
}

/// The settings that are not fractional numbers: view distance, display switches, frame cap,
/// difficulty, language, key bindings, multiplayer fields and resource packs.
#[derive(Debug, Clone)]
pub struct GeneralSettings {
    pub render_distance: i32,
    pub fullscreen: bool,
    pub vsync: bool,
    pub fps_cap: u32,
    pub difficulty: Difficulty,
    pub language: Language,
    pub controls: ControlBindings,
    pub mp_host_port: String,
    pub mp_server_address: String,
    pub mp_join_port: String,
    pub mp_username: String,
    pub resource_packs: Vec<String>,
    pub toggles: ToggleSettings,
}

/// The on/off display and accessibility settings.
#[derive(Debug, Clone, Copy)]
pub struct ToggleSettings {
    pub dynamic_resolution: bool,
    pub subtitles: bool,
    pub high_contrast: bool,
    pub reduce_flashing: bool,
    pub toggle_sprint: bool,
    pub toggle_sneak: bool,
    pub camera_bobbing: bool,
    pub damage_tilt: bool,
}

/// The on/off settings a new player starts with: camera bobbing and damage tilt on, the rest off.
pub open spec fn spec_default_toggles() -> ToggleSettings {
    ToggleSettings {
        dynamic_resolution: false,
        subtitles: false,
        high_contrast: false,
        reduce_flashing: false,
        toggle_sprint: false,
        toggle_sneak: false,
        camera_bobbing: true,
        damage_tilt: true,
    }
}

/// Whether setting `key` is one of the on/off settings.
pub open spec fn is_toggle_key(key: Seq<char>) -> bool {
    key == "dynamic_resolution"@
        || key == "subtitles"@
        || key == "high_contrast"@
        || key == "reduce_flashing"@
        || key == "toggle_sprint"@
        || key == "toggle_sneak"@
        || key == "camera_bobbing"@
        || key == "damage_tilt"@
}

impl ToggleSettings {
    /// The on/off settings a new player starts with.
    pub fn new() -> (r: ToggleSettings)
        ensures
            r == spec_default_toggles(),
    {
        ToggleSettings {
            dynamic_resolution: false,
            subtitles: false,
            high_contrast: false,
            reduce_flashing: false,
            toggle_sprint: false,
            toggle_sneak: false,
            camera_bobbing: true,
            damage_tilt: true,
        }
    }

    /// These settings after on/off setting `key` read `value`; other keys change nothing.
    pub open spec fn spec_apply(self, key: Seq<char>, value: Seq<char>) -> ToggleSettings {
        if key == "dynamic_resolution"@ {
            ToggleSettings { dynamic_resolution: spec_parse_bool(value, self.dynamic_resolution), ..self }
        } else if key == "subtitles"@ {
            ToggleSettings { subtitles: spec_parse_bool(value, self.subtitles), ..self }
        } else if key == "high_contrast"@ {
            ToggleSettings { high_contrast: spec_parse_bool(value, self.high_contrast), ..self }
        } else if key == "reduce_flashing"@ {
            ToggleSettings { reduce_flashing: spec_parse_bool(value, self.reduce_flashing), ..self }
        } else if key == "toggle_sprint"@ {
            ToggleSettings { toggle_sprint: spec_parse_bool(value, self.toggle_sprint), ..self }
        } else if key == "toggle_sneak"@ {
            ToggleSettings { toggle_sneak: spec_parse_bool(value, self.toggle_sneak), ..self }
        } else if key == "camera_bobbing"@ {
            ToggleSettings { camera_bobbing: spec_parse_bool(value, self.camera_bobbing), ..self }
        } else if key == "damage_tilt"@ {
            ToggleSettings { damage_tilt: spec_parse_bool(value, self.damage_tilt), ..self }
        } else {
            self
        }
    }

    /// Apply on/off setting `k`; true when `k` is one.
    pub fn apply_setting(&mut self, k: &Vec<char>, value: &str) -> (handled: bool)
        ensures
            *final(self) == old(self).spec_apply(k@, value@),
            handled == is_toggle_key(k@),
    {
        if crate::text::chars_equal(k, "dynamic_resolution") {
            self.dynamic_resolution = parse_bool(value, self.dynamic_resolution);
            true
        } else if crate::text::chars_equal(k, "subtitles") {
            self.subtitles = parse_bool(value, self.subtitles);
            true
        } else if crate::text::chars_equal(k, "high_contrast") {
            self.high_contrast = parse_bool(value, self.high_contrast);
            true
        } else if crate::text::chars_equal(k, "reduce_flashing") {
            self.reduce_flashing = parse_bool(value, self.reduce_flashing);
            true
        } else if crate::text::chars_equal(k, "toggle_sprint") {
            self.toggle_sprint = parse_bool(value, self.toggle_sprint);
            true
        } else if crate::text::chars_equal(k, "toggle_sneak") {
            self.toggle_sneak = parse_bool(value, self.toggle_sneak);
            true
        } else if crate::text::chars_equal(k, "camera_bobbing") {
            self.camera_bobbing = parse_bool(value, self.camera_bobbing);
            true
        } else if crate::text::chars_equal(k, "damage_tilt") {
            self.damage_tilt = parse_bool(value, self.damage_tilt);
            true
        } else {
            false
        }
    }
}

/// General settings as values.
pub struct GeneralView {
    pub render_distance: i32,
    pub fullscreen: bool,
    pub vsync: bool,
    pub fps_cap: u32,
    pub difficulty: Difficulty,
    pub language: Language,
    pub controls: ControlBindings,
    pub mp_host_port: Seq<char>,
    pub mp_server_address: Seq<char>,
    pub mp_join_port: Seq<char>,
    pub mp_username: Seq<char>,
    pub resource_packs: Seq<Seq<char>>,
    pub toggles: ToggleSettings,
}

impl View for GeneralSettings {
    type V = GeneralView;

    open spec fn view(&self) -> GeneralView {
        GeneralView {
            render_distance: self.render_distance,
            fullscreen: self.fullscreen,
            vsync: self.vsync,
            fps_cap: self.fps_cap,
            difficulty: self.difficulty,
            language: self.language,
            controls: self.controls,
            mp_host_port: self.mp_host_port@,
            mp_server_address: self.mp_server_address@,
            mp_join_port: self.mp_join_port@,
            mp_username: self.mp_username@,
            resource_packs: text_views(self.resource_packs@),
            toggles: self.toggles,
        }
    }
}

/// The general settings a new player starts with.
pub open spec fn spec_default_general() -> GeneralView {
    GeneralView {
        render_distance: 8,
        fullscreen: false,
        vsync: true,
        fps_cap: 0,
        difficulty: Difficulty::Normal,
        language: Language::English,
        controls: ControlBindings::spec_default(),
        mp_host_port: "25565"@,
        mp_server_address: "127.0.0.1"@,
        mp_join_port: "25565"@,
        mp_username: "PLAYER"@,
        resource_packs: Seq::empty(),
        toggles: spec_default_toggles(),
    }
}

/// Whether setting `key` is one of the view settings, the difficulty or the language.
pub open spec fn is_view_key(key: Seq<char>) -> bool {
    key == "render_distance"@ || key == "fullscreen"@ || key == "vsync"@ || key == "fps_cap"@ || key == "difficulty"@
        || key == "language"@
}

/// Whether setting `key` is one of the multiplayer form's fields or the resource packs.
pub open spec fn is_form_key(key: Seq<char>) -> bool {
    key == "mp_host_port"@ || key == "mp_server_address"@ || key == "mp_join_port"@ || key == "mp_username"@
        || key == "resource_packs"@
}

/// Whether setting `key` is one of the general settings.
pub open spec fn is_general_key(key: Seq<char>) -> bool {
    is_view_key(key) || is_form_key(key) || is_toggle_key(key) || control_slot(key) >= 0
}

/// The general settings after view setting `key` read `value`: numbers that do not read keep
/// the value before them; other keys change nothing.
pub open spec fn spec_apply_view(g: GeneralView, key: Seq<char>, value: Seq<char>) -> GeneralView {
    if key == "render_distance"@ {
        GeneralView {
            render_distance: match parse_i32(value) {
                Some(v) => v as i32,
                None => g.render_distance,
            },
            ..g
        }
    } else if key == "fullscreen"@ {
        GeneralView { fullscreen: spec_parse_bool(value, g.fullscreen), ..g }
    } else if key == "vsync"@ {
        GeneralView { vsync: spec_parse_bool(value, g.vsync), ..g }
    } else if key == "fps_cap"@ {
        GeneralView {
            fps_cap: match parse_unsigned(value, u32::MAX as nat) {
                Some(v) => v as u32,
                None => g.fps_cap,
            },
            ..g
        }
    } else if key == "difficulty"@ {
        GeneralView { difficulty: Difficulty::spec_parse(value), ..g }
    } else if key == "language"@ {
        GeneralView { language: Language::spec_parse(value), ..g }
    } else {
        g
    }
}

/// The general settings after form setting `key` read `value`; other keys change nothing.
pub open spec fn spec_apply_form(g: GeneralView, key: Seq<char>, value: Seq<char>) -> GeneralView {
    if key == "mp_host_port"@ {
        GeneralView { mp_host_port: value, ..g }
    } else if key == "mp_server_address"@ {
        GeneralView { mp_server_address: value, ..g }
    } else if key == "mp_join_port"@ {
        GeneralView { mp_join_port: value, ..g }
    } else if key == "mp_username"@ {
        GeneralView { mp_username: value, ..g }
    } else if key == "resource_packs"@ {
        GeneralView { resource_packs: spec_resource_packs(value), ..g }
    } else {
        g
    }
}

/// The general settings after one `key`/`value` setting of a settings file: numbers that do not
/// read keep the value before them; unknown keys change nothing.
pub open spec fn spec_apply_general(g: GeneralView, key: Seq<char>, value: Seq<char>) -> GeneralView {
    if is_view_key(key) {
        spec_apply_view(g, key, value)
    } else if is_form_key(key) {
        spec_apply_form(g, key, value)
    } else if is_toggle_key(key) {
        GeneralView { toggles: g.toggles.spec_apply(key, value), ..g }
    } else {
        GeneralView { controls: g.controls.spec_apply(key, value), ..g }
    }
}

/// The general settings held to their ranges: a view distance of 2 to 16 chunks and a frame
/// cap of at most 240.
pub open spec fn spec_sanitize_general(g: GeneralView) -> GeneralView {
    GeneralView {
        render_distance: if g.render_distance < 2 { 2 } else if g.render_distance > 16 { 16 } else { g.render_distance },
        fps_cap: if g.fps_cap > 240 { 240 } else { g.fps_cap },
        ..g
    }
}

impl GeneralSettings {
    /// The general settings a new player starts with.
    pub fn new() -> (r: GeneralSettings)
        ensures
            r@ == spec_default_general(),
    {
        let r = GeneralSettings {
            render_distance: 8,
            fullscreen: false,
            vsync: true,
            fps_cap: 0,
            difficulty: Difficulty::Normal,
            language: Language::English,
            controls: ControlBindings::default(),
            mp_host_port: String::from_str("25565"),
            mp_server_address: String::from_str("127.0.0.1"),
            mp_join_port: String::from_str("25565"),
            mp_username: String::from_str("PLAYER"),
            resource_packs: Vec::new(),
            toggles: ToggleSettings::new(),
        };
        assert(text_views(r.resource_packs@) =~= Seq::<Seq<char>>::empty());
        r
    }

    /// Apply one `key`/`value` setting of a settings file; true when `key` is a general
    /// setting.
    pub fn apply_setting(&mut self, key: &str, value: &str) -> (handled: bool)
        ensures
            final(self)@ == spec_apply_general(old(self)@, key@, value@),
            handled == is_general_key(key@),
    {
        let k = chars_of(key);
        if self.apply_view_setting(&k, value) {
            true
        } else if self.apply_form_setting(&k, value) {
            true
        } else if self.toggles.apply_setting(&k, value) {
            true
        } else {
            let slot = control_slot_of(&k);
            self.controls.apply_setting(key, value);
            slot.is_some()
        }
    }

    fn apply_view_setting(&mut self, k: &Vec<char>, value: &str) -> (handled: bool)
        ensures
            final(self)@ == spec_apply_view(old(self)@, k@, value@),
            handled == is_view_key(k@),
    {
        let v = chars_of(value);
        if crate::text::chars_equal(k, "render_distance") {
            match parse_i32_chars(&v) {
                Some(d) => {
                    self.render_distance = d;
                },
                None => {},
            }
            true
        } else if crate::text::chars_equal(k, "fullscreen") {
            self.fullscreen = parse_bool(value, self.fullscreen);
            true
        } else if crate::text::chars_equal(k, "vsync") {
            self.vsync = parse_bool(value, self.vsync);
            true
        } else if crate::text::chars_equal(k, "fps_cap") {
            match parse_unsigned_chars(&v, 4294967295) {
                Some(c) => {
                    self.fps_cap = c as u32;
                },
                None => {},
            }
            true
        } else if crate::text::chars_equal(k, "difficulty") {
            self.difficulty = Difficulty::parse(value);
            true
        } else if crate::text::chars_equal(k, "language") {
            self.language = Language::parse(value);
            true
        } else {
            false
        }
    }

    #[verifier::rlimit(100)]
    fn apply_form_setting(&mut self, k: &Vec<char>, value: &str) -> (handled: bool)
        ensures
            final(self)@ == spec_apply_form(old(self)@, k@, value@),
            handled == is_form_key(k@),
    {
        if crate::text::chars_equal(k, "mp_host_port") {
            self.mp_host_port = String::from_str(value);
            true
        } else if crate::text::chars_equal(k, "mp_server_address") {
            self.mp_server_address = String::from_str(value);
            true
        } else if crate::text::chars_equal(k, "mp_join_port") {
            self.mp_join_port = String::from_str(value);
            true
        } else if crate::text::chars_equal(k, "mp_username") {
            self.mp_username = String::from_str(value);
            true
        } else if crate::text::chars_equal(k, "resource_packs") {
            self.resource_packs = parse_resource_packs(value);
            true
        } else {
            false
        }
    }

    /// Hold the view distance to 2 to 16 chunks and the frame cap to at most 240.
    #[verifier::rlimit(100)]
    pub fn sanitize(&mut self)
        ensures
            final(self)@ == spec_sanitize_general(old(self)@),
    {
        if self.render_distance < 2 {
            self.render_distance = 2;
        } else if self.render_distance > 16 {
            self.render_distance = 16;
        }
        if self.fps_cap > 240 {
            self.fps_cap = 240;
        }
    }
}

/// A settings-file line: the key, a colon and the value.
pub open spec fn setting_line(key: Seq<char>, value: Seq<char>) -> Seq<char> {
    key + seq![':'] + value
}

/// An integer written in decimal, with a minus sign when negative.
pub open spec fn signed_decimal(i: int) -> Seq<char> {
    if i < 0 {
        seq!['-'] + decimal((-i) as nat)
    } else {
        decimal(i as nat)
    }
}

/// A truth value as the settings file writes it.
pub open spec fn bool_text(b: bool) -> Seq<char> {
    if b {
        "true"@
    } else {
        "false"@
    }
}

/// Texts joined with commas between them.
pub open spec fn comma_joined(s: Seq<Seq<char>>) -> Seq<char>
    decreases s.len(),
{
    if s.len() == 0 {
        Seq::empty()
    } else if s.len() == 1 {
        s[0]
    } else {
        comma_joined(s.drop_last()) + seq![','] + s.last()
    }
}

/// The lines the settings file holds for the general settings `v`, in file order: the view
/// settings, difficulty and language, the key bindings, the multiplayer form, the on/off display
/// and accessibility settings and the resource packs. The frame rate cap is written as at most
/// 240.
pub open spec fn spec_general_file_lines(v: GeneralView) -> Seq<Seq<char>> {
    seq![
        setting_line("render_distance"@, signed_decimal(v.render_distance as int)),
        setting_line("fullscreen"@, bool_text(v.fullscreen)),
        setting_line("vsync"@, bool_text(v.vsync)),
        setting_line("fps_cap"@, decimal((if v.fps_cap > 240 { 240 } else { v.fps_cap }) as nat)),
        setting_line("difficulty"@, v.difficulty.spec_as_str()),
        setting_line("language"@, v.language.spec_as_str()),
        setting_line("key_forward"@, spec_key_name(v.controls.forward)),
        setting_line("key_backward"@, spec_key_name(v.controls.backward)),
        setting_line("key_left"@, spec_key_name(v.controls.left)),
        setting_line("key_right"@, spec_key_name(v.controls.right)),
        setting_line("key_jump"@, spec_key_name(v.controls.jump)),
        setting_line("key_sprint"@, spec_key_name(v.controls.sprint)),
        setting_line("key_sneak"@, spec_key_name(v.controls.sneak)),
        setting_line("key_inventory"@, spec_key_name(v.controls.inventory)),
        setting_line("key_chat"@, spec_key_name(v.controls.chat)),
        setting_line("key_advancements"@, spec_key_name(v.controls.advancements)),
        setting_line("key_debug"@, spec_key_name(v.controls.debug)),
        setting_line("key_perspective"@, spec_key_name(v.controls.perspective)),
        setting_line("key_gamemode"@, spec_key_name(v.controls.gamemode)),
        setting_line("key_pause"@, spec_key_name(v.controls.pause)),
        setting_line("mp_host_port"@, v.mp_host_port),
        setting_line("mp_server_address"@, v.mp_server_address),
        setting_line("mp_join_port"@, v.mp_join_port),
        setting_line("mp_username"@, v.mp_username),
        setting_line("dynamic_resolution"@, bool_text(v.toggles.dynamic_resolution)),
        setting_line("subtitles"@, bool_text(v.toggles.subtitles)),
        setting_line("high_contrast"@, bool_text(v.toggles.high_contrast)),
        setting_line("reduce_flashing"@, bool_text(v.toggles.reduce_flashing)),
        setting_line("toggle_sprint"@, bool_text(v.toggles.toggle_sprint)),
        setting_line("toggle_sneak"@, bool_text(v.toggles.toggle_sneak)),
        setting_line("camera_bobbing"@, bool_text(v.toggles.camera_bobbing)),
        setting_line("damage_tilt"@, bool_text(v.toggles.damage_tilt)),
        setting_line("resource_packs"@, comma_joined(v.resource_packs)),
    ]
}

fn setting_text(key: &str, value: &str) -> (r: String)
    ensures
        r@ == setting_line(key@, value@),
{
    let mut s = String::from_str(key);
    push_char(&mut s, ':');
    append_str(&mut s, value);
    s
}

fn signed_decimal_text(i: i32) -> (r: String)
    ensures
        r@ == signed_decimal(i as int),
{
    if i < 0 {
        let mut s = String::new();
        push_char(&mut s, '-');
        let m: i64 = -(i as i64);
        let d = u64_to_decimal(m as u64);
        append_str(&mut s, d.as_str());
        proof {
            assert(s@ =~= seq!['-'] + decimal((-(i as int)) as nat));
        }
        s
    } else {
        u64_to_decimal(i as u64)
    }
}

fn bool_str(b: bool) -> (r: &'static str)
    ensures
        r@ == bool_text(b),
{
    if b {
        "true"
    } else {
        "false"
    }
}

fn comma_joined_text(parts: &Vec<String>) -> (r: String)
    ensures
        r@ == comma_joined(text_views(parts@)),
{
    let mut s = String::new();
    let mut i: usize = 0;
    while i < parts.len()
        invariant
            i <= parts@.len(),
            s@ == comma_joined(text_views(parts@).take(i as int)),
        decreases parts@.len() - i,
    {
        proof {
            assert(text_views(parts@).take(i + 1).drop_last() =~= text_views(parts@).take(i as int));
        }
        if i > 0 {
            push_char(&mut s, ',');
        }
        append_str(&mut s, parts[i].as_str());
        proof {
            if i == 0 {
                assert(s@ =~= text_views(parts@).take(1)[0]);
            }
        }
        i += 1;
    }
    proof {
        assert(text_views(parts@).take(parts@.len() as int) =~= text_views(parts@));
    }
    s
}

impl GeneralSettings {
    /// The lines the settings file holds for these settings; see `spec_general_file_lines`.
    pub fn file_lines(&self) -> (r: Vec<String>)
        ensures
            text_views(r@) == spec_general_file_lines(self@),
    {
        let mut lines: Vec<String> = Vec::new();
        lines.push(setting_text("render_distance", signed_decimal_text(self.render_distance).as_str()));
        lines.push(setting_text("fullscreen", bool_str(self.fullscreen)));
        lines.push(setting_text("vsync", bool_str(self.vsync)));
        let cap: u32 = if self.fps_cap > 240 {
            240
        } else {
            self.fps_cap
        };
        lines.push(setting_text("fps_cap", u64_to_decimal(cap as u64).as_str()));
        lines.push(setting_text("difficulty", self.difficulty.as_str()));
        lines.push(setting_text("language", self.language.as_str()));
        lines.push(setting_text("key_forward", key_name(self.controls.forward)));
        lines.push(setting_text("key_backward", key_name(self.controls.backward)));
        lines.push(setting_text("key_left", key_name(self.controls.left)));
        lines.push(setting_text("key_right", key_name(self.controls.right)));
        lines.push(setting_text("key_jump", key_name(self.controls.jump)));
        lines.push(setting_text("key_sprint", key_name(self.controls.sprint)));
        lines.push(setting_text("key_sneak", key_name(self.controls.sneak)));
        lines.push(setting_text("key_inventory", key_name(self.controls.inventory)));
        lines.push(setting_text("key_chat", key_name(self.controls.chat)));
        lines.push(setting_text("key_advancements", key_name(self.controls.advancements)));
        lines.push(setting_text("key_debug", key_name(self.controls.debug)));
        lines.push(setting_text("key_perspective", key_name(self.controls.perspective)));
        lines.push(setting_text("key_gamemode", key_name(self.controls.gamemode)));
        lines.push(setting_text("key_pause", key_name(self.controls.pause)));
        lines.push(setting_text("mp_host_port", self.mp_host_port.as_str()));
        lines.push(setting_text("mp_server_address", self.mp_server_address.as_str()));
        lines.push(setting_text("mp_join_port", self.mp_join_port.as_str()));
        lines.push(setting_text("mp_username", self.mp_username.as_str()));
        lines.push(setting_text("dynamic_resolution", bool_str(self.toggles.dynamic_resolution)));
        lines.push(setting_text("subtitles", bool_str(self.toggles.subtitles)));
        lines.push(setting_text("high_contrast", bool_str(self.toggles.high_contrast)));
        lines.push(setting_text("reduce_flashing", bool_str(self.toggles.reduce_flashing)));
        lines.push(setting_text("toggle_sprint", bool_str(self.toggles.toggle_sprint)));
        lines.push(setting_text("toggle_sneak", bool_str(self.toggles.toggle_sneak)));
        lines.push(setting_text("camera_bobbing", bool_str(self.toggles.camera_bobbing)));
        lines.push(setting_text("damage_tilt", bool_str(self.toggles.damage_tilt)));
        lines.push(setting_text("resource_packs", comma_joined_text(&self.resource_packs).as_str()));
        proof {
            assert(text_views(lines@) =~= spec_general_file_lines(self@));
        }
        lines
    }
}

} // verus!
