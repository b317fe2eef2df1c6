use silksong_autosplit::game::{
    is_garbage_scene_name, is_menu, GameFields, StringListOffsets, DEFEATED_MOSS_MOTHER,
    GAME_STATE_CUTSCENE, GAME_STATE_ENTERING_LEVEL, GAME_STATE_LOADING, GAME_STATE_MAIN_MENU,
    GAME_STATE_PLAYING, HEALTH, NAIL_UPGRADES, PLAYER_INT_COUNT, PLAYER_FLAG_COUNT,
    UI_STATE_PAUSED, UI_STATE_PLAYING,
};
use silksong_autosplit::load::{is_load_time, next_teleport_latch};
use silksong_autosplit::host::{
    index_from_host, DisplayValue, DisplayVar, HostCommand, TimerObservation,
};
use silksong_autosplit::run::AutoSplitterState;
use silksong_autosplit::settings::{default_splits, Settings};
use silksong_autosplit::scenes::SceneStore;
use silksong_autosplit::splits::{continuous_splits, splits, transition_splits, Split};
use silksong_autosplit::text::{str_take_right, text_eq, text_starts_with};
use silksong_autosplit::timer::{
    is_timer_state_between_runs, should_split, SplitterAction, TimerPhase,
};
use silksong_autosplit::scenes::ScenePair;

fn fields() -> GameFields {
    GameFields {
        game_state: GAME_STATE_PLAYING,
        ui_state: UI_STATE_PLAYING,
        accepting_input: true,
        hero_transition_state: 0,
        scene_load_activation_allowed: false,
        hazard_death: false,
        hero_recoil_frozen: false,
        scene_name: String::from("Bone_01"),
        next_scene_name: String::new(),
        player_flags: vec![false; PLAYER_FLAG_COUNT],
        player_ints: vec![None; PLAYER_INT_COUNT],
    }
}

fn observe(phase: TimerPhase, index: Option<u64>, history: Vec<bool>) -> TimerObservation {
    TimerObservation { phase, split_index: index, segments_splitted: history }
}

fn show(v: DisplayVar, n: i64) -> HostCommand {
    HostCommand::Show(v, DisplayValue::Count(n))
}

fn dash(v: DisplayVar) -> HostCommand {
    HostCommand::Show(v, DisplayValue::Dash)
}

#[test]
fn text_helpers() {
    assert!(text_eq("Menu_Title", "Menu_Title"));
    assert!(!text_eq("Menu_Title", "Menu_Titl"));
    assert!(!text_eq("ab", "ba"));
    assert!(text_starts_with("Greymoor_05", "Greymoor"));
    assert!(!text_starts_with("Grey", "Greymoor"));
    assert!(text_starts_with("anything", ""));
    assert_eq!(str_take_right("hello", 3), "llo");
    assert_eq!(str_take_right("hello", 9), "hello");
    assert_eq!(str_take_right("hello", 0), "");
}

#[test]
fn menus_and_garbage_names() {
    assert!(is_menu(""));
    assert!(is_menu("Menu_Title"));
    assert!(is_menu("Quit_To_Menu"));
    assert!(!is_menu("Tut_01"));
    assert!(is_garbage_scene_name("Untagged"));
    assert!(is_garbage_scene_name("material"));
    assert!(!is_garbage_scene_name("Bone_01"));
    let offsets = StringListOffsets::new();
    assert_eq!(offsets.string_len, 0x10);
    assert_eq!(offsets.string_contents, 0x14);
}

#[test]
fn actions_and_phases() {
    assert_eq!(should_split(true), SplitterAction::Split);
    assert_eq!(should_split(false), SplitterAction::Pass);
    assert_eq!(SplitterAction::Pass.or_else(|| SplitterAction::Skip), SplitterAction::Skip);
    assert_eq!(SplitterAction::Reset.or_else(|| SplitterAction::Skip), SplitterAction::Reset);
    assert_eq!(SplitterAction::default(), SplitterAction::Pass);
    assert!(is_timer_state_between_runs(TimerPhase::NotRunning));
    assert!(is_timer_state_between_runs(TimerPhase::Ended));
    assert!(!is_timer_state_between_runs(TimerPhase::Running));
    assert!(!is_timer_state_between_runs(TimerPhase::Paused));
    assert_eq!(index_from_host(Some(4)), Some(4));
    assert_eq!(index_from_host(None), None);
    assert_eq!(index_from_host(Some(u64::MAX)), None);
    assert_eq!(DisplayVar::DeltaHits.name(), "delta hits");
    assert_eq!(DisplayVar::PbHits.name(), "pb hits");
    assert_eq!(Split::default(), Split::ManualSplit);
}

#[test]
fn settings_getters() {
    let s = Settings::new(true, vec![Split::StartNewGame, Split::MossMother, Split::EndingSplit]);
    assert!(s.get_hit_counter());
    assert_eq!(s.get_splits_len(), 3);
    assert_eq!(s.get_splits(), vec![Split::StartNewGame, Split::MossMother, Split::EndingSplit]);
    assert_eq!(s.get_split(1), Some(Split::MossMother));
    assert_eq!(s.get_split(3), None);
    assert_eq!(default_splits(), vec![Split::StartNewGame, Split::EndingSplit]);
}

#[test]
fn comparison_fold_takes_minimum_and_extends() {
    let mut cmp = vec![10, 25];
    Settings::update_comparison_hits(&mut cmp, &[12, 20, 33]);
    assert_eq!(cmp, vec![10, 20, 33]);
    let mut cmp = vec![10, 25, 40];
    Settings::update_comparison_hits(&mut cmp, &[]);
    assert_eq!(cmp, vec![10, 25, 40]);
}

// A stale current-scene update on the way to the menu is ignored.
#[test]
fn detector_ignores_spurious_current_scene() {
    let mut ss = SceneStore::new();
    assert!(ss.transition_now(String::from("A"), String::new(), true));
    assert!(ss.transition_now(String::from("A"), String::from("Menu_Title"), true));
    let p = ss.pair();
    assert_eq!((p.old, p.current), ("A", "Menu_Title"));
    assert!(!ss.transition_now(String::from("B"), String::from("Menu_Title"), true));
    // the pair still follows the next-scene update
    let p = ss.pair();
    assert_eq!((p.old, p.current), ("B", "Menu_Title"));
    assert!(!ss.transition_now(String::from("B"), String::from("Menu_Title"), true));
}

#[test]
fn detector_reports_plain_transitions() {
    let mut ss = SceneStore::default();
    assert!(ss.transition_now(String::from("Bone_01"), String::new(), false));
    let p = ss.pair();
    assert_eq!((p.old, p.current), ("", "Bone_01"));
    // with no next scene known, a current-scene change alone is not trusted
    assert!(!ss.transition_now(String::from("Bone_02"), String::from("Bone_03"), false));
    let p = ss.pair();
    assert_eq!((p.old, p.current), ("Bone_01", "Bone_02"));
    // garbage and unchanged values are not taken
    assert!(!ss.transition_now(String::from("Untagged"), String::new(), true));
    assert!(ss.transition_now(String::from("Bone_02"), String::from("Bone_05"), true));
    let p = ss.pair();
    assert_eq!((p.old, p.current), ("Bone_02", "Bone_05"));
    assert!(!ss.transition_now(String::from("Bone_02"), String::from("Bone_05"), true));
    assert!(!ss.split_this_transition());
}

#[test]
fn continuous_rule_takes_priority() {
    let mut f = fields();
    f.player_flags[DEFEATED_MOSS_MOTHER] = true;
    let mut ss = SceneStore::new();
    assert_eq!(splits(&Split::MossMother, &f, false, &mut ss), SplitterAction::Split);
    assert!(ss.split_this_transition());
    assert_eq!(continuous_splits(&Split::MossMother, &f), SplitterAction::Split);
    f.game_state = GAME_STATE_MAIN_MENU;
    assert_eq!(continuous_splits(&Split::MossMother, &f), SplitterAction::Pass);
    f.game_state = GAME_STATE_CUTSCENE;
    assert_eq!(continuous_splits(&Split::ManualSplit, &f), SplitterAction::ManualSplit);
}

#[test]
fn count_rules() {
    let mut f = fields();
    assert_eq!(continuous_splits(&Split::NeedleUpgrade2, &f), SplitterAction::Pass);
    f.player_ints[NAIL_UPGRADES] = Some(2);
    assert_eq!(continuous_splits(&Split::NeedleUpgrade2, &f), SplitterAction::Split);
    assert_eq!(continuous_splits(&Split::NeedleUpgrade3, &f), SplitterAction::Pass);
    assert_eq!(continuous_splits(&Split::PlayerDeath, &f), SplitterAction::Pass);
    f.player_ints[HEALTH] = Some(0);
    assert_eq!(continuous_splits(&Split::PlayerDeath, &f), SplitterAction::Split);
}

#[test]
fn transition_rules() {
    let f = fields();
    let pair = |old: &'static str, current: &'static str| ScenePair { old, current };
    let t = |s: Split, old, cur| transition_splits(&s, &pair(old, cur), &f);
    assert_eq!(t(Split::StartNewGame, "Opening_Sequence", "Tut_01"), SplitterAction::Split);
    assert_eq!(t(Split::StartNewGame, "Menu_Title", "Tut_01"), SplitterAction::Pass);
    assert_eq!(t(Split::EndingSplit, "Cradle", "Cinematic_Ending_C"), SplitterAction::Split);
    assert_eq!(t(Split::EnterGreymoor, "Bone_10", "Greymoor_01"), SplitterAction::Split);
    assert_eq!(t(Split::EnterGreymoor, "Greymoor_02", "Greymoor_01"), SplitterAction::Pass);
    assert_eq!(t(Split::EnterBellhart, "Belltown_07", "Belltown"), SplitterAction::Split);
    assert_eq!(t(Split::EnterWormways, "Aspid_01", "Crawl_01"), SplitterAction::Split);
    assert_eq!(t(Split::EnterWormways, "Crawl_02", "Crawl_01"), SplitterAction::Pass);
    assert_eq!(t(Split::AnyTransition, "Bone_01", "Bone_02"), SplitterAction::Split);
    assert_eq!(t(Split::AnyTransition, "Bone_01", "Menu_Title"), SplitterAction::Pass);
    assert_eq!(t(Split::Menu, "Bone_01", "Menu_Title"), SplitterAction::Split);
    assert_eq!(t(Split::MossMotherTrans, "Bone_01", "Bone_02"), SplitterAction::Pass);
}

#[test]
fn load_time_classifier() {
    let f = fields();
    assert!(!is_load_time(false, &f));
    assert!(is_load_time(true, &f));
    let mut g = fields();
    g.ui_state = UI_STATE_PAUSED;
    assert!(is_load_time(false, &g));
    let mut g = fields();
    g.game_state = GAME_STATE_LOADING;
    assert!(is_load_time(false, &g));
    let mut g = fields();
    g.hero_transition_state = 2;
    assert!(is_load_time(false, &g));
    assert!(next_teleport_latch(false, GAME_STATE_MAIN_MENU, GAME_STATE_PLAYING));
    assert!(next_teleport_latch(true, GAME_STATE_PLAYING, GAME_STATE_ENTERING_LEVEL));
    assert!(!next_teleport_latch(true, GAME_STATE_PLAYING, GAME_STATE_LOADING));
    assert!(!next_teleport_latch(false, GAME_STATE_PLAYING, GAME_STATE_PLAYING));
}

#[test]
fn reconciliation_is_idempotent() {
    let mut st = AutoSplitterState::new(TimerPhase::NotRunning, None, vec![], true);
    let obs = observe(TimerPhase::Running, Some(0), vec![]);
    let first = st.update(&obs, true);
    assert!(first.is_empty());
    assert_eq!(st.timer_state(), TimerPhase::Running);
    assert_eq!(st.segment_hits(), &vec![0]);
    let second = st.update(&obs, true);
    assert!(second.is_empty());
    assert_eq!(st.segment_hits(), &vec![0]);
    assert_eq!(st.split_index(), Some(0));
}

#[test]
fn undo_folds_hits_back() {
    let mut st = AutoSplitterState::new(TimerPhase::Running, Some(0), vec![], true);
    st.update(&observe(TimerPhase::Running, Some(0), vec![]), true);
    st.add_hit();
    st.update(&observe(TimerPhase::Running, Some(1), vec![true]), true);
    st.add_hit();
    st.add_hit();
    st.update(&observe(TimerPhase::Running, Some(3), vec![true, false, true]), true);
    st.add_hit();
    assert_eq!(st.hits(), 4);
    assert_eq!(st.segments_splitted(), &vec![true, false, true]);
    assert_eq!(st.segment_hits(), &vec![1, 0, 2, 1]);
    let cmds = st.update(&observe(TimerPhase::Running, Some(1), vec![true]), true);
    assert_eq!(st.hits(), 4);
    assert_eq!(st.segment_hits(), &vec![1, 3]);
    assert_eq!(st.segments_splitted(), &vec![true]);
    assert_eq!(st.cumulative_hits(), &vec![1]);
    assert_eq!(
        cmds,
        vec![
            show(DisplayVar::SegmentHits, 3),
            dash(DisplayVar::ComparisonHits),
            dash(DisplayVar::DeltaHits),
        ]
    );
}

#[test]
fn reset_never_raises_comparison() {
    let mut st = AutoSplitterState::new(TimerPhase::Running, Some(0), vec![10, 25, 40], true);
    st.update(&observe(TimerPhase::Running, Some(0), vec![]), false);
    for _ in 0..12 {
        st.add_hit();
    }
    st.update(&observe(TimerPhase::Running, Some(1), vec![true]), false);
    for _ in 0..8 {
        st.add_hit();
    }
    st.update(&observe(TimerPhase::Running, Some(2), vec![true, true]), false);
    assert_eq!(st.cumulative_hits(), &vec![12, 20]);
    let cmds = st.update(&observe(TimerPhase::NotRunning, None, vec![]), false);
    assert_eq!(st.comparison_hits(), &vec![10, 20, 40]);
    assert_eq!(st.hits(), 0);
    assert!(st.segment_hits().is_empty());
    assert!(st.cumulative_hits().is_empty());
    assert_eq!(st.split_index(), None);
    assert_eq!(
        cmds,
        vec![HostCommand::SaveComparison, dash(DisplayVar::Hits), dash(DisplayVar::SegmentHits)]
    );
}

// Health reaching zero while playing counts one hit in the active segment.
#[test]
fn health_zero_counts_a_hit() {
    let mut st = AutoSplitterState::new(TimerPhase::Running, Some(2), vec![3, 5, 9], true);
    let mut f = fields();
    f.player_ints[HEALTH] = Some(0);
    let cmds = st.handle_hits(true, &f);
    assert_eq!(st.hits(), 1);
    assert_eq!(st.segment_hits(), &vec![0, 0, 1]);
    assert_eq!(
        cmds,
        vec![show(DisplayVar::Hits, 1), show(DisplayVar::SegmentHits, 1), show(DisplayVar::DeltaHits, -8)]
    );
    // no second hit while health stays at zero
    assert!(st.handle_hits(true, &f).is_empty());
    assert_eq!(st.hits(), 1);
    let mut st = AutoSplitterState::new(TimerPhase::Running, Some(2), vec![3], true);
    let cmds = st.handle_hits(true, &f);
    assert_eq!(cmds[2], dash(DisplayVar::DeltaHits));
    // nothing is counted when the hit counter is off
    let mut st = AutoSplitterState::new(TimerPhase::Running, Some(2), vec![3], true);
    assert!(st.handle_hits(false, &f).is_empty());
    assert_eq!(st.hits(), 0);
}

#[test]
fn recoil_and_hazard_edges() {
    let mut st = AutoSplitterState::new(TimerPhase::Running, Some(0), vec![], true);
    let mut f = fields();
    f.hero_recoil_frozen = true;
    f.hazard_death = true;
    st.handle_hits(true, &f);
    assert_eq!(st.hits(), 2);
    st.handle_hits(true, &f);
    assert_eq!(st.hits(), 2);
    f.hero_recoil_frozen = false;
    st.handle_hits(true, &f);
    f.hero_recoil_frozen = true;
    st.handle_hits(true, &f);
    assert_eq!(st.hits(), 3);
    assert_eq!(st.segment_hits(), &vec![3]);
}

// Ending keeps the record when the attempt is no longer than it.
#[test]
fn end_keeps_comparison_and_shows_best() {
    let mut st = AutoSplitterState::new(TimerPhase::Running, Some(0), vec![10, 25], true);
    st.update(&observe(TimerPhase::Running, Some(0), vec![]), true);
    for _ in 0..5 {
        st.add_hit();
    }
    st.update(&observe(TimerPhase::Running, Some(1), vec![true]), true);
    for _ in 0..26 {
        st.add_hit();
    }
    let cmds = st.update(&observe(TimerPhase::Ended, Some(2), vec![true, true]), true);
    assert_eq!(st.cumulative_hits(), &vec![5, 31]);
    assert_eq!(st.comparison_hits(), &vec![10, 25]);
    assert_eq!(cmds, vec![show(DisplayVar::PbHits, 25)]);
    assert_eq!(st.timer_state(), TimerPhase::Ended);
}

#[test]
fn end_cuts_longer_comparison() {
    let mut st = AutoSplitterState::new(TimerPhase::Running, None, vec![1, 2, 3, 4], false);
    let cmds = st.update(&observe(TimerPhase::Ended, None, vec![]), false);
    assert_eq!(st.split_index(), Some(1));
    assert_eq!(st.comparison_hits(), &vec![1]);
    assert_eq!(st.cumulative_hits(), &vec![0]);
    assert_eq!(cmds, vec![show(DisplayVar::PbHits, 1)]);
}

#[test]
fn executor_starts_and_splits() {
    let settings = Settings::new(true, vec![Split::StartNewGame, Split::MossMother]);
    let mut st = AutoSplitterState::new(TimerPhase::NotRunning, None, vec![4], false);
    let mut ss = SceneStore::new();
    let mut f = fields();
    f.scene_load_activation_allowed = true;
    f.scene_name = String::from("Opening_Sequence");
    st.handle_splits(&settings, &f, &mut ss);
    f.next_scene_name = String::from("Tut_01");
    let cmds = st.handle_splits(&settings, &f, &mut ss);
    assert_eq!(cmds, vec![HostCommand::Start]);
    assert_eq!(st.timer_state(), TimerPhase::Running);
    assert_eq!(st.split_index(), Some(0));
    st.add_hit();
    f.player_flags[DEFEATED_MOSS_MOTHER] = true;
    let cmds = st.handle_splits(&settings, &f, &mut ss);
    assert_eq!(
        cmds,
        vec![
            HostCommand::Split,
            show(DisplayVar::SegmentHits, 0),
            dash(DisplayVar::ComparisonHits),
            dash(DisplayVar::DeltaHits),
        ]
    );
    assert_eq!(st.split_index(), Some(1));
    assert_eq!(st.segments_splitted(), &vec![true]);
    assert_eq!(st.cumulative_hits(), &vec![1]);
    assert_eq!(st.segment_hits(), &vec![1, 0]);
    // no split left after the last one
    assert!(st.handle_splits(&settings, &f, &mut ss).is_empty());
}

#[test]
fn manual_split_is_counted_without_host_index() {
    let settings = Settings::new(false, vec![Split::StartNewGame, Split::ManualSplit]);
    let mut st = AutoSplitterState::new(TimerPhase::Running, None, vec![], false);
    st.update(&observe(TimerPhase::Running, None, vec![]), false);
    let mut ss = SceneStore::new();
    let cmds = st.handle_splits(&settings, &fields(), &mut ss);
    assert_eq!(cmds, vec![HostCommand::ManualSplit]);
    assert_eq!(st.split_index(), Some(1));
    assert_eq!(st.segments_splitted(), &vec![true]);
    // a host that reports indices gets the same bookkeeping and command
    let mut st = AutoSplitterState::new(TimerPhase::Running, Some(0), vec![], true);
    let cmds = st.handle_splits(&settings, &fields(), &mut ss);
    assert_eq!(cmds, vec![HostCommand::ManualSplit]);
    assert_eq!(st.split_index(), Some(1));
    assert_eq!(st.segments_splitted(), &vec![true]);
    assert_eq!(st.segment_hits(), &vec![0, 0]);
    assert_eq!(st.cumulative_hits(), &vec![0]);
}

#[test]
fn reset_clears_index_whatever_the_host_reports() {
    let mut st = AutoSplitterState::new(TimerPhase::Running, Some(3), vec![], true);
    st.add_hit();
    st.update(&observe(TimerPhase::NotRunning, Some(3), vec![]), true);
    assert_eq!(st.split_index(), None);
    assert_eq!(st.timer_state(), TimerPhase::NotRunning);
    assert_eq!(st.hits(), 0);
    // the same observation again changes nothing
    assert!(st.update(&observe(TimerPhase::NotRunning, Some(3), vec![]), true).is_empty());
    assert_eq!(st.split_index(), None);
}

#[test]
fn end_advances_index_past_host() {
    let mut st = AutoSplitterState::new(TimerPhase::Running, Some(1), vec![], true);
    st.add_hit();
    st.update(&observe(TimerPhase::Ended, Some(1), vec![true]), true);
    assert_eq!(st.split_index(), Some(2));
    assert_eq!(st.cumulative_hits(), &vec![1, 1]);
}

#[test]
fn attach_mid_run_then_host_skip() {
    let mut st = AutoSplitterState::new(TimerPhase::Running, Some(5), vec![], true);
    assert_eq!(st.segment_hits().len(), 6);
    st.update(&observe(TimerPhase::Running, Some(6), vec![true, true, true, true, true, false]), true);
    assert_eq!(st.split_index(), Some(6));
    assert_eq!(st.segment_hits().len(), 7);
    assert!(st.cumulative_hits().is_empty());
}

#[test]
fn tick_runs_every_stage() {
    let settings = Settings::new(true, vec![Split::StartNewGame, Split::MossMother]);
    let mut st = AutoSplitterState::new(TimerPhase::NotRunning, None, vec![], true);
    let mut ss = SceneStore::new();
    let mut f = fields();
    f.hero_recoil_frozen = true;
    let cmds = st.tick(&settings, &observe(TimerPhase::Running, Some(0), vec![]), &f, &mut ss);
    assert_eq!(
        cmds,
        vec![
            HostCommand::ResumeGameTime,
            show(DisplayVar::Hits, 1),
            show(DisplayVar::SegmentHits, 1),
            dash(DisplayVar::DeltaHits),
        ]
    );
    f.ui_state = UI_STATE_PAUSED;
    let cmds = st.tick(&settings, &observe(TimerPhase::Running, Some(0), vec![]), &f, &mut ss);
    assert_eq!(cmds, vec![HostCommand::PauseGameTime]);
}

#[test]
fn startup_displays() {
    let settings = Settings::new(true, vec![Split::StartNewGame, Split::EndingSplit]);
    let st = AutoSplitterState::new(TimerPhase::NotRunning, None, vec![17], false);
    let cmds = st.startup_commands(&settings);
    assert_eq!(cmds.len(), 8);
    assert_eq!(cmds[5], show(DisplayVar::Hits, 0));
    assert_eq!(cmds[7], show(DisplayVar::PbHits, 17));
    let quiet = Settings::new(false, vec![Split::StartNewGame]);
    assert_eq!(st.startup_commands(&quiet).len(), 5);
}
