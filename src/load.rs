//! Whether the run clock should stand still: loads, menus and transitions.

use vstd::prelude::*;
use crate::game::{
    GameFields, GAME_STATE_CUTSCENE, GAME_STATE_ENTERING_LEVEL, GAME_STATE_EXITING_LEVEL,
    GAME_STATE_LOADING, GAME_STATE_MAIN_MENU, GAME_STATE_PLAYING,
    HERO_TRANSITION_STATE_WAITING_TO_ENTER_LEVEL, MENU_TITLE, QUIT_TO_MENU, UI_STATE_CUTSCENE,
    UI_STATE_PAUSED, UI_STATE_PLAYING,
};
use crate::text::text_eq;

verus! {

/// The teleport latch: set when the game goes from the main menu to playing,
/// kept while it is playing or entering a level, cleared otherwise.
pub open spec fn teleport_latch(look: bool, last_game_state: i32, game_state: i32) -> bool {
    (look || (game_state == GAME_STATE_PLAYING && last_game_state == GAME_STATE_MAIN_MENU)) && (
    game_state == GAME_STATE_PLAYING || game_state == GAME_STATE_ENTERING_LEVEL)
}

pub fn next_teleport_latch(look: bool, last_game_state: i32, game_state: i32) -> (r: bool)
    ensures
        r == teleport_latch(look, last_game_state, game_state),
{
    let mut look = look;
    if game_state == GAME_STATE_PLAYING && last_game_state == GAME_STATE_MAIN_MENU {
        look = true;
    }
    if look && (game_state != GAME_STATE_PLAYING && game_state != GAME_STATE_ENTERING_LEVEL) {
        look = false;
    }
    look
}

/// The scene fields show a way into or out of the menus.
pub open spec fn loading_menu(scene: Seq<char>, next: Seq<char>) -> bool {
    (scene != MENU_TITLE@ && next.len() == 0) || (scene != MENU_TITLE@ && next == MENU_TITLE@)
        || scene == QUIT_TO_MENU@
}

/// Whether the time of this tick is load time, given the teleport latch.
pub open spec fn load_time(look_for_teleporting: bool, f: GameFields) -> bool {
    let gs = f.game_state;
    let ui = f.ui_state;
    let scene = f.scene_name@;
    let next = f.next_scene_name@;
    ||| look_for_teleporting
    ||| ((gs == GAME_STATE_PLAYING || gs == GAME_STATE_ENTERING_LEVEL) && ui != UI_STATE_PLAYING)
    ||| (gs != GAME_STATE_PLAYING && gs != GAME_STATE_CUTSCENE && !f.accepting_input)
    ||| ((gs == GAME_STATE_EXITING_LEVEL && f.scene_load_activation_allowed) || gs
        == GAME_STATE_LOADING)
    ||| f.hero_transition_state == HERO_TRANSITION_STATE_WAITING_TO_ENTER_LEVEL
    ||| (ui != UI_STATE_PLAYING && (loading_menu(scene, next) || (ui != UI_STATE_PAUSED && ui
        != UI_STATE_CUTSCENE && next.len() != 0)) && next != scene)
}

/// Classifies this tick's time as load time or not.
pub fn is_load_time(look_for_teleporting: bool, fields: &GameFields) -> (r: bool)
    ensures
        r == load_time(look_for_teleporting, *fields),
{
    let gs = fields.game_state;
    let ui = fields.ui_state;
    let scene = fields.scene_name.as_str();
    let next = fields.next_scene_name.as_str();
    let scene_is_title = text_eq(scene, MENU_TITLE);
    let loading_menu = (!scene_is_title && next.is_empty()) || (!scene_is_title && text_eq(
        next,
        MENU_TITLE,
    )) || text_eq(scene, QUIT_TO_MENU);
    look_for_teleporting || ((gs == GAME_STATE_PLAYING || gs == GAME_STATE_ENTERING_LEVEL) && ui
        != UI_STATE_PLAYING) || (gs != GAME_STATE_PLAYING && gs != GAME_STATE_CUTSCENE
        && !fields.accepting_input) || ((gs == GAME_STATE_EXITING_LEVEL
        && fields.scene_load_activation_allowed) || gs == GAME_STATE_LOADING) || (
    fields.hero_transition_state == HERO_TRANSITION_STATE_WAITING_TO_ENTER_LEVEL) || (ui
        != UI_STATE_PLAYING && (loading_menu || (ui != UI_STATE_PAUSED && ui != UI_STATE_CUTSCENE
        && !next.is_empty())) && !text_eq(next, scene))
}

} // verus!
