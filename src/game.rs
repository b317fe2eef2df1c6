//! What the engine knows of the game: its state codes, its scene names and
//! a snapshot of the memory fields read on one tick.

use vstd::prelude::*;
use crate::text::text_eq;

verus! {

pub const MENU_TITLE: &'static str = "Menu_Title";

pub const QUIT_TO_MENU: &'static str = "Quit_To_Menu";

pub const OPENING_SEQUENCE: &'static str = "Opening_Sequence";

pub const GAME_STATE_INACTIVE: i32 = 0;

pub const GAME_STATE_MAIN_MENU: i32 = 1;

pub const GAME_STATE_LOADING: i32 = 2;

pub const GAME_STATE_ENTERING_LEVEL: i32 = 3;

pub const GAME_STATE_PLAYING: i32 = 4;

pub const GAME_STATE_EXITING_LEVEL: i32 = 6;

pub const GAME_STATE_CUTSCENE: i32 = 7;

pub const UI_STATE_CUTSCENE: i32 = 3;

pub const UI_STATE_PLAYING: i32 = 4;

pub const UI_STATE_PAUSED: i32 = 5;

pub const HERO_TRANSITION_STATE_WAITING_TO_ENTER_LEVEL: i32 = 2;

/// Texts longer than this (in UTF-16 units) are not read as scene names.
pub const MAX_STRING_UNITS: u32 = 2048;

/// Game states in which continuous split rules may fire.
pub open spec fn non_menu_game_state(game_state: i32) -> bool {
    game_state == GAME_STATE_PLAYING || game_state == GAME_STATE_CUTSCENE
}

/// Whether `game_state` is playing or a cutscene.
pub fn is_non_menu_game_state(game_state: i32) -> (r: bool)
    ensures
        r == non_menu_game_state(game_state),
{
    game_state == GAME_STATE_PLAYING || game_state == GAME_STATE_CUTSCENE
}

/// Scene names that count as a menu: none at all, the title screen, or the
/// scene that leads back to it.
pub open spec fn menu_like(s: Seq<char>) -> bool {
    s.len() == 0 || s == MENU_TITLE@ || s == QUIT_TO_MENU@
}

pub fn is_menu(s: &str) -> (r: bool)
    ensures
        r == menu_like(s@),
{
    s.is_empty() || text_eq(s, MENU_TITLE) || text_eq(s, QUIT_TO_MENU)
}

/// Values that the scene-name fields hold for a moment while the object
/// graph is being rebuilt; they never name a scene.
pub open spec fn garbage_scene_name(s: Seq<char>) -> bool {
    s == "Untagged"@ || s == "left1"@ || s == "oncomplete"@ || s == "Attack Range"@
        || s == "onstart"@ || s == "position"@ || s == "looptype"@ || s == "integer1"@
        || s == "gameObject"@ || s == "eventTarget"@ || s == "material"@
}

pub fn is_garbage_scene_name(s: &str) -> (r: bool)
    ensures
        r == garbage_scene_name(s@),
{
    text_eq(s, "Untagged") || text_eq(s, "left1") || text_eq(s, "oncomplete") || text_eq(
        s,
        "Attack Range",
    ) || text_eq(s, "onstart") || text_eq(s, "position") || text_eq(s, "looptype") || text_eq(
        s,
        "integer1",
    ) || text_eq(s, "gameObject") || text_eq(s, "eventTarget") || text_eq(s, "material")
}

/// Where the length and the UTF-16 units of a managed string lie, from the
/// string's address.
pub struct StringListOffsets {
    pub string_len: u64,
    pub string_contents: u64,
}

impl StringListOffsets {
    pub fn new() -> (r: StringListOffsets)
        ensures
            r.string_len == 0x10,
            r.string_contents == 0x14,
    {
        StringListOffsets { string_len: 0x10, string_contents: 0x14 }
    }
}

// Positions of the player-data flags in `GameFields::player_flags`.
pub const DEFEATED_MOSS_MOTHER: usize = 0;
pub const HAS_NEEDLE_THROW: usize = 1;
pub const DEFEATED_BELL_BEAST: usize = 2;
pub const BELL_SHRINE_BONE_FOREST: usize = 3;
pub const HAS_DASH: usize = 4;
pub const DEFEATED_LACE1: usize = 5;
pub const BELL_SHRINE_WILDS: usize = 6;
pub const HAS_BROLLY: usize = 7;
pub const DEFEATED_SONG_GOLEM: usize = 8;
pub const BELL_SHRINE_GREYMOOR: usize = 9;
pub const DEFEATED_VAMPIRE_GNAT_BOSS: usize = 10;
pub const HAS_WALL_JUMP: usize = 11;
pub const BELL_SHRINE_SHELLWOOD: usize = 12;
pub const SPINNER_DEFEATED: usize = 13;
pub const BELL_SHRINE_BELLHART: usize = 14;
pub const DEFEATED_LAST_JUDGE: usize = 15;
pub const DEFEATED_PHANTOM: usize = 16;
pub const ACT2_STARTED: usize = 17;
pub const DEFEATED_COGWORK_DANCERS: usize = 18;
pub const COMPLETED_LIBRARY_ENTRY_BATTLE: usize = 19;
pub const DEFEATED_TROBBIO: usize = 20;
pub const HAS_HARPOON_DASH: usize = 21;
pub const HANG04_BATTLE: usize = 22;
pub const DEFEATED_LACE_TOWER: usize = 23;
pub const HAS_MELODY_LIBRARIAN: usize = 24;
pub const HAS_MELODY_ARCHITECT: usize = 25;
pub const HAS_MELODY_CONDUCTOR: usize = 26;
pub const UNLOCKED_MELODY_LIFT: usize = 27;
pub const COMPLETED_MEMORY_REAPER: usize = 28;
pub const SAVEDFLEA_ANT_03: usize = 29;
pub const SAVEDFLEA_BELLTOWN_04: usize = 30;
pub const SAVEDFLEA_BONE_06: usize = 31;
pub const SAVEDFLEA_BONE_EAST_05: usize = 32;
pub const SAVEDFLEA_BONE_EAST_10_CHURCH: usize = 33;
pub const SAVEDFLEA_BONE_EAST_17B: usize = 34;
pub const SAVEDFLEA_CORAL_24: usize = 35;
pub const SAVEDFLEA_CORAL_35: usize = 36;
pub const SAVEDFLEA_CRAWL_06: usize = 37;
pub const SAVEDFLEA_DOCK_03D: usize = 38;
pub const SAVEDFLEA_DOCK_16: usize = 39;
pub const SAVEDFLEA_DUST_09: usize = 40;
pub const SAVEDFLEA_DUST_12: usize = 41;
pub const SAVEDFLEA_GREYMOOR_06: usize = 42;
pub const SAVEDFLEA_GREYMOOR_15B: usize = 43;
pub const SAVEDFLEA_LIBRARY_01: usize = 44;
pub const SAVEDFLEA_LIBRARY_09: usize = 45;
pub const SAVEDFLEA_PEAK_05C: usize = 46;
pub const SAVEDFLEA_SHADOW_10: usize = 47;
pub const SAVEDFLEA_SHADOW_28: usize = 48;
pub const SAVEDFLEA_SHELLWOOD_03: usize = 49;
pub const SAVEDFLEA_SLAB_06: usize = 50;
pub const SAVEDFLEA_SLAB_CELL: usize = 51;
pub const SAVEDFLEA_SONG_11: usize = 52;
pub const SAVEDFLEA_SONG_14: usize = 53;
pub const SAVEDFLEA_UNDER_21: usize = 54;
pub const SAVEDFLEA_UNDER_23: usize = 55;
pub const TAMED_GIANT_FLEA: usize = 56;
pub const MET_TROUPE_HUNTER_WILD: usize = 57;
pub const CARAVAN_LECH_SAVED: usize = 58;
pub const UNLOCKED_AQUEDUCT_STATION: usize = 59;
pub const UNLOCKED_BELLTOWN_STATION: usize = 60;
pub const UNLOCKED_BONEFOREST_EAST_STATION: usize = 61;
pub const UNLOCKED_CITY_STATION: usize = 62;
pub const UNLOCKED_CORAL_TOWER_STATION: usize = 63;
pub const UNLOCKED_DOCKS_STATION: usize = 64;
pub const UNLOCKED_GREYMOOR_STATION: usize = 65;
pub const UNLOCKED_PEAK_STATION: usize = 66;
pub const UNLOCKED_SHADOW_STATION: usize = 67;
pub const UNLOCKED_SHELLWOOD_STATION: usize = 68;
pub const UNLOCKED_SONG_TUBE: usize = 69;
pub const UNLOCKED_UNDER_TUBE: usize = 70;
pub const UNLOCKED_CITY_BELLWAY_TUBE: usize = 71;
pub const UNLOCKED_HANG_TUBE: usize = 72;
pub const UNLOCKED_ENCLAVE_TUBE: usize = 73;
pub const UNLOCKED_ARBORIUM_TUBE: usize = 74;
pub const SEEN_MAPPER_BONETOWN: usize = 75;
pub const SEEN_MAPPER_BONE_FOREST: usize = 76;
pub const SEEN_MAPPER_DOCKS: usize = 77;
pub const SEEN_MAPPER_WILDS: usize = 78;
pub const SEEN_MAPPER_CRAWL: usize = 79;
pub const SEEN_MAPPER_GREYMOOR: usize = 80;
pub const SEEN_MAPPER_BELLHART: usize = 81;
pub const SEEN_MAPPER_SHELLWOOD: usize = 82;
pub const SEEN_MAPPER_HUNTERS_NEST: usize = 83;
pub const SEEN_MAPPER_JUDGE_STEPS: usize = 84;
pub const SEEN_MAPPER_DUSTPENS: usize = 85;
pub const SEEN_MAPPER_PEAK: usize = 86;
pub const SEEN_MAPPER_SHADOW: usize = 87;
pub const SEEN_MAPPER_CORAL_CAVERNS: usize = 88;
pub const MET_CITY_MERCHANT_ENCLAVE: usize = 89;
pub const MET_SHERMA_ENCLAVE: usize = 90;
pub const UNLOCKED_DUST_CAGE: usize = 91;
pub const SEEN_FLEATOPIA_EMPTY: usize = 92;
pub const HAS_DOUBLE_JUMP: usize = 93;
pub const HAS_SUPER_JUMP: usize = 94;
pub const COLLECTED_HEART_FLOWER: usize = 95;
pub const COLLECTED_HEART_CORAL: usize = 96;
pub const COLLECTED_HEART_HUNTER: usize = 97;
pub const COLLECTED_HEART_CLOVER: usize = 98;
pub const COMPLETED_RED_MEMORY: usize = 99;
pub const BELLTOWN_GREETER_HOUSE_FULL_DLG: usize = 100;

/// How many player-data flags a snapshot holds.
pub const PLAYER_FLAG_COUNT: usize = 101;

// Positions of the player-data integers in `GameFields::player_ints`.
pub const HEALTH: usize = 0;

pub const NAIL_UPGRADES: usize = 1;

pub const GREEN_PRINCE_LOCATION: usize = 2;

/// How many player-data integers a snapshot holds.
pub const PLAYER_INT_COUNT: usize = 3;

/// The memory fields read on one tick. A field that could not be read holds
/// its default (`false`, `0`, empty text), except the player-data integers,
/// which keep `None` so that a rule can tell a missing value from zero.
pub struct GameFields {
    pub game_state: i32,
    pub ui_state: i32,
    pub accepting_input: bool,
    pub hero_transition_state: i32,
    pub scene_load_activation_allowed: bool,
    pub hazard_death: bool,
    pub hero_recoil_frozen: bool,
    pub scene_name: String,
    pub next_scene_name: String,
    pub player_flags: Vec<bool>,
    pub player_ints: Vec<Option<i32>>,
}

impl GameFields {
    /// The player-data flag at `i`; `false` where the snapshot has none.
    pub open spec fn flag(&self, i: int) -> bool {
        0 <= i < self.player_flags@.len() && self.player_flags@[i]
    }

    /// The player-data integer at `i`; `None` where the snapshot has none.
    pub open spec fn int_at(&self, i: int) -> Option<i32> {
        if 0 <= i < self.player_ints@.len() {
            self.player_ints@[i]
        } else {
            None
        }
    }

    pub fn get_flag(&self, i: usize) -> (r: bool)
        ensures
            r == self.flag(i as int),
    {
        i < self.player_flags.len() && self.player_flags[i]
    }

    pub fn get_int(&self, i: usize) -> (r: Option<i32>)
        ensures
            r == self.int_at(i as int),
    {
        if i < self.player_ints.len() {
            self.player_ints[i]
        } else {
            None
        }
    }
}

} // verus!
