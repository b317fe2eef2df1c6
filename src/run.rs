//! The run state synchroniser: per-attempt bookkeeping kept consistent with
//! the host timer, the split executor, the load-time classifier and the hit
//! tracker.

use vstd::prelude::*;
use crate::game::{GameFields, GAME_STATE_INACTIVE, GAME_STATE_PLAYING, HEALTH};
use crate::scenes::{SceneModel, SceneStore};
use crate::splits::{rule_action, splits, Split};
use crate::tally::{
    all_nonneg, entry_or_zero, lemma_entry_le_sum, lemma_insert_zero_sum, lemma_resized_zero_sum,
    lemma_sum_concat, lemma_sum_nonneg, lemma_sum_zeros, lemma_update_sum, resize_counts, resized,
    sum_of,
};
use crate::load::{load_time, teleport_latch};
use crate::timer::{between_runs, is_timer_state_between_runs, SplitterAction, TimerPhase};
use crate::host::{
    host_index, index_from_host, DisplayValue, DisplayVar, HostCommand, TimerObservation,
};
use crate::settings::{fold_comparison, Settings};

verus! {

/// The index of a segment, counting an unset index as zero.
pub open spec fn index_or_zero(i: Option<usize>) -> int {
    match i {
        Some(v) => v as int,
        None => 0,
    }
}

/// What an `AutoSplitterState` holds, as plain values.
#[verifier::ext_equal]
pub struct RunModel {
    pub timer_state: TimerPhase,
    pub split_index: Option<usize>,
    pub segments_splitted: Seq<bool>,
    pub look_for_teleporting: bool,
    pub last_game_state: i32,
    pub hits: i64,
    pub segment_hits: Seq<i64>,
    pub cumulative_hits: Seq<i64>,
    pub comparison_hits: Seq<i64>,
    pub last_recoil: bool,
    pub last_hazard: bool,
    pub last_health_0: bool,
    pub host_reports_index: bool,
    pub last_host_index: Option<usize>,
}

/// The segment at `o` was split: one more resolved segment, a fresh slot for
/// the next one, and the cumulative count recorded at the boundary.
pub open spec fn split_step(m: RunModel, o: int) -> RunModel {
    RunModel {
        segments_splitted: m.segments_splitted.push(true),
        segment_hits: m.segment_hits.push(0),
        cumulative_hits: resized(m.cumulative_hits, o + 1, m.hits),
        ..m
    }
}

/// A zero slot inserted at `o`, or the sequence grown with zeros to reach it.
pub open spec fn insert_slot(s: Seq<i64>, o: int) -> Seq<i64> {
    if o <= s.len() {
        s.insert(o, 0)
    } else {
        resized(s, o + 1, 0)
    }
}

/// The segment at `o` was skipped: its slot moves up behind a fresh one.
pub open spec fn skip_step(m: RunModel, o: int) -> RunModel {
    RunModel {
        segments_splitted: m.segments_splitted.push(false),
        segment_hits: insert_slot(m.segment_hits, o),
        ..m
    }
}

/// Going back to segment `n`: the counts of the segments after it are added
/// to its own.
pub open spec fn fold_back(s: Seq<i64>, n: int) -> Seq<i64> {
    if n < s.len() {
        s.subrange(0, n + 1).update(n, (s[n] + sum_of(s.subrange(n + 1, s.len() as int))) as i64)
    } else {
        resized(s, n + 1, 0)
    }
}

/// From `i`, back past every segment just before it that was skipped.
pub open spec fn back_past_skips(splitted: Seq<bool>, i: int) -> int
    decreases i,
{
    if 1 <= i && i <= splitted.len() && !splitted[i - 1] {
        back_past_skips(splitted, i - 1)
    } else {
        i
    }
}

/// The display after moving to segment `i`: its hits, its comparison and
/// the delta against it.
pub open spec fn segment_display(m: RunModel, i: int) -> Seq<HostCommand> {
    seq![HostCommand::Show(DisplayVar::SegmentHits, DisplayValue::Count(entry_or_zero(m.segment_hits, i)))]
        + if 0 <= i < m.comparison_hits.len() {
        seq![
            HostCommand::Show(DisplayVar::ComparisonHits, DisplayValue::Count(m.comparison_hits[i])),
            HostCommand::Show(DisplayVar::DeltaHits, delta_value(m.hits, m.comparison_hits[i])),
        ]
    } else {
        seq![
            HostCommand::Show(DisplayVar::ComparisonHits, DisplayValue::Dash),
            HostCommand::Show(DisplayVar::DeltaHits, DisplayValue::Dash),
        ]
    }
}

/// `hits - c`, or the dash where it does not fit.
pub open spec fn delta_value(hits: i64, c: i64) -> DisplayValue {
    if i64::MIN <= hits - c <= i64::MAX {
        DisplayValue::Count((hits - c) as i64)
    } else {
        DisplayValue::Dash
    }
}

/// The best final count, where the record has one.
pub open spec fn pb_display(cmp: Seq<i64>) -> Seq<HostCommand> {
    if cmp.len() > 0 {
        seq![HostCommand::Show(DisplayVar::PbHits, DisplayValue::Count(cmp.last()))]
    } else {
        seq![]
    }
}

/// The counters right after a reset.
pub open spec fn reset_display(hit_counter: bool) -> Seq<HostCommand> {
    if hit_counter {
        seq![
            HostCommand::Show(DisplayVar::Hits, DisplayValue::Count(0)),
            HostCommand::Show(DisplayVar::SegmentHits, DisplayValue::Count(0)),
        ]
    } else {
        seq![
            HostCommand::Show(DisplayVar::Hits, DisplayValue::Dash),
            HostCommand::Show(DisplayVar::SegmentHits, DisplayValue::Dash),
        ]
    }
}

impl RunModel {
    /// Hit counts are never negative and the segments never hold more hits
    /// than the attempt; a segment index always has a successor.
    pub open spec fn counts_ok(self) -> bool {
        &&& self.hits >= 0
        &&& all_nonneg(self.segment_hits)
        &&& sum_of(self.segment_hits) <= self.hits
        &&& (self.split_index matches Some(i) ==> i < usize::MAX)
    }

    /// The timer is running or paused.
    pub open spec fn active(self) -> bool {
        self.timer_state == TimerPhase::Running || self.timer_state == TimerPhase::Paused
    }

    /// The counts are valid; while the run is active there is a hit slot for
    /// every segment up to the one in progress; and no more boundaries are
    /// recorded than segments were ended.
    pub open spec fn wf(self) -> bool {
        &&& self.counts_ok()
        &&& (self.active() ==> self.segment_hits.len() >= index_or_zero(self.split_index) + 1)
        &&& self.cumulative_hits.len() <= index_or_zero(self.split_index)
    }

    /// The attempt's record folded into the comparison, and every per-attempt
    /// count cleared.
    pub open spec fn after_reset(self) -> RunModel {
        RunModel {
            comparison_hits: fold_comparison(self.comparison_hits, self.cumulative_hits),
            segments_splitted: Seq::empty(),
            hits: 0,
            segment_hits: Seq::empty(),
            cumulative_hits: Seq::empty(),
            look_for_teleporting: false,
            last_game_state: GAME_STATE_INACTIVE,
            ..self
        }
    }

    /// Whether an observation shows nothing new.
    pub open spec fn observed(self, phase: TimerPhase, index: Option<u64>) -> bool {
        self.timer_state == phase && self.last_host_index == (if self.host_reports_index {
            host_index(index)
        } else {
            None
        })
    }
}

/// The segments crossed from `o` up to `n`, each split or skipped as the host
/// history says (a segment it has no entry for counts as skipped).
pub open spec fn advance(m: RunModel, o: int, n: int, history: Seq<bool>) -> RunModel
    decreases n - o,
{
    if o >= n {
        m
    } else {
        let crossed = if 0 <= o < history.len() {
            history[o]
        } else {
            false
        };
        advance(if crossed { split_step(m, o) } else { skip_step(m, o) }, o + 1, n, history)
    }
}

/// Crossing segments changes neither the phase, the index, the hit total,
/// the record nor the host's capability.
pub proof fn lemma_advance_keeps(m: RunModel, o: int, n: int, history: Seq<bool>)
    ensures
        advance(m, o, n, history).timer_state == m.timer_state,
        advance(m, o, n, history).split_index == m.split_index,
        advance(m, o, n, history).hits == m.hits,
        advance(m, o, n, history).comparison_hits == m.comparison_hits,
        advance(m, o, n, history).host_reports_index == m.host_reports_index,
    decreases n - o,
{
    if o < n {
        let crossed = if 0 <= o < history.len() {
            history[o]
        } else {
            false
        };
        lemma_advance_keeps(
            if crossed { split_step(m, o) } else { skip_step(m, o) },
            o + 1,
            n,
            history,
        );
    }
}

/// Crossing segments from `o` to `n` adds a hit slot for each, and records
/// no boundary past `n`.
pub proof fn lemma_advance_lengths(m: RunModel, o: int, n: int, history: Seq<bool>)
    requires
        0 <= o <= n,
    ensures
        advance(m, o, n, history).segment_hits.len() >= m.segment_hits.len() + (n - o),
        advance(m, o, n, history).cumulative_hits.len() <= if m.cumulative_hits.len() <= n {
            n
        } else {
            m.cumulative_hits.len() as int
        },
    decreases n - o,
{
    if o < n {
        let crossed = if 0 <= o < history.len() {
            history[o]
        } else {
            false
        };
        lemma_advance_lengths(
            if crossed { split_step(m, o) } else { skip_step(m, o) },
            o + 1,
            n,
            history,
        );
    }
}

/// Going back past skipped segments never goes below zero nor past the start.
pub proof fn lemma_back_past_skips_bounds(splitted: Seq<bool>, i: int)
    requires
        0 <= i,
    ensures
        0 <= back_past_skips(splitted, i) <= i,
    decreases i,
{
    if 1 <= i && i <= splitted.len() && !splitted[i - 1] {
        lemma_back_past_skips_bounds(splitted, i - 1);
    }
}

/// Going back from a later segment to segment `n`.
pub open spec fn undo(m: RunModel, n: int) -> RunModel {
    RunModel {
        segment_hits: fold_back(m.segment_hits, n),
        cumulative_hits: if n < m.cumulative_hits.len() {
            m.cumulative_hits.subrange(0, back_past_skips(m.segments_splitted, n))
        } else {
            m.cumulative_hits
        },
        segments_splitted: if n < m.segments_splitted.len() {
            m.segments_splitted.subrange(0, n)
        } else {
            m.segments_splitted
        },
        ..m
    }
}

/// The index that ending the attempt leaves: the host's where it reports a
/// later one, else one past the current.
pub open spec fn end_index(m: RunModel, new_index: Option<usize>) -> int {
    let old_i = index_or_zero(m.split_index);
    if m.host_reports_index && new_index is Some && old_i < new_index->0 {
        new_index->0 as int
    } else if old_i + 1 < usize::MAX {
        old_i + 1
    } else {
        old_i
    }
}

/// Reset: the attempt folded into the record and cleared.
pub open spec fn reset_model(m: RunModel, hit_counter: bool) -> (RunModel, Seq<HostCommand>) {
    let r = RunModel { split_index: None, ..m.after_reset() };
    (
        r,
        seq![HostCommand::SaveComparison] + (if m.timer_state == TimerPhase::Ended {
            pb_display(r.comparison_hits)
        } else {
            seq![]
        }) + reset_display(hit_counter),
    )
}

/// The index a run starts at: the host's where it reports one, else the
/// engine's own.
pub open spec fn start_index(m: RunModel, new_index: Option<usize>) -> Option<usize> {
    if m.host_reports_index {
        new_index
    } else {
        m.split_index
    }
}

/// Start: a zero slot for each segment up to the one in progress, and no
/// boundary recorded past it.
pub open spec fn start_model(m: RunModel, new_index: Option<usize>) -> RunModel {
    let s = start_index(m, new_index);
    let i = index_or_zero(s);
    RunModel {
        split_index: s,
        segment_hits: resized(m.segment_hits, i + 1, 0),
        cumulative_hits: if i < m.cumulative_hits.len() {
            m.cumulative_hits.subrange(0, i)
        } else {
            m.cumulative_hits
        },
        ..m
    }
}

/// End: the final boundary recorded, and the record cut to the attempt.
pub open spec fn end_model(m: RunModel, new_index: Option<usize>) -> (RunModel, Seq<HostCommand>) {
    let i = end_index(m, new_index);
    let cmp = if i < m.comparison_hits.len() {
        m.comparison_hits.subrange(0, i)
    } else {
        m.comparison_hits
    };
    (
        RunModel {
            split_index: Some(i as usize),
            cumulative_hits: resized(m.cumulative_hits, i, m.hits),
            comparison_hits: cmp,
            ..m
        },
        pb_display(cmp),
    )
}

/// The host moved from segment `o` to segment `n` by itself: undo, or
/// splits and skips made in its UI.
pub open spec fn follow_model(m: RunModel, o: int, n: int, history: Seq<bool>, hit_counter: bool) -> (
    RunModel,
    Seq<HostCommand>,
) {
    let moved = if n < o {
        undo(m, n)
    } else {
        advance(m, o, n, history)
    };
    let r = RunModel { split_index: Some(n as usize), ..moved };
    (r, if hit_counter && n != o { segment_display(r, n) } else { seq![] })
}

/// The bookkeeping of a change in the host timer, before the phase is taken
/// over.
pub open spec fn reconcile(
    m: RunModel,
    phase: TimerPhase,
    new_index: Option<usize>,
    history: Seq<bool>,
    hit_counter: bool,
) -> (RunModel, Seq<HostCommand>) {
    if phase == TimerPhase::NotRunning && m.timer_state != TimerPhase::NotRunning {
        reset_model(m, hit_counter)
    } else if (phase == TimerPhase::Running || phase == TimerPhase::Paused) && between_runs(
        m.timer_state,
    ) {
        (start_model(m, new_index), seq![])
    } else if (phase == TimerPhase::Paused && m.timer_state == TimerPhase::Running) || (phase
        == TimerPhase::Running && m.timer_state == TimerPhase::Paused) {
        (m, seq![])
    } else if phase == TimerPhase::Ended && (m.timer_state == TimerPhase::Running
        || m.timer_state == TimerPhase::Paused) {
        end_model(m, new_index)
    } else if m.host_reports_index && new_index is Some && m.split_index is Some {
        follow_model(m, m.split_index->0 as int, new_index->0 as int, history, hit_counter)
    } else {
        (m, seq![])
    }
}

/// One reconciliation step: nothing when the observation shows nothing new;
/// else the bookkeeping, the phase taken over from the host, and the host's
/// index remembered.
pub open spec fn update_model(
    m: RunModel,
    phase: TimerPhase,
    index: Option<u64>,
    history: Seq<bool>,
    hit_counter: bool,
) -> (RunModel, Seq<HostCommand>) {
    let new_index = if m.host_reports_index {
        host_index(index)
    } else {
        None
    };
    if phase == m.timer_state && new_index == m.last_host_index {
        (m, seq![])
    } else {
        let (r, c) = reconcile(m, phase, new_index, history, hit_counter);
        (RunModel { timer_state: phase, last_host_index: new_index, ..r }, c)
    }
}

/// How far the split executor can still go: the splits left after the
/// segment in progress while the run is active, nothing otherwise.
pub open spec fn executor_measure(m: RunModel, n_splits: int) -> int {
    if (m.timer_state == TimerPhase::Running || m.timer_state == TimerPhase::Paused)
        && index_or_zero(m.split_index) < n_splits {
        n_splits - index_or_zero(m.split_index)
    } else {
        0
    }
}

/// The run started by the first split's rule.
pub open spec fn started(m: RunModel) -> RunModel {
    RunModel {
        timer_state: TimerPhase::Running,
        split_index: Some(0),
        segment_hits: resized(m.segment_hits, 1, 0),
        cumulative_hits: Seq::empty(),
        ..m
    }
}

/// The segment at `idx` ended by a split.
pub open spec fn split_done(m: RunModel, idx: int) -> RunModel {
    RunModel { split_index: Some((idx + 1) as usize), ..split_step(m, idx) }
}

/// The segment at `idx` skipped.
pub open spec fn skip_done(m: RunModel, idx: int) -> RunModel {
    RunModel { split_index: Some((idx + 1) as usize), ..skip_step(m, idx) }
}

/// The attempt reset by a rule.
pub open spec fn reset_done(m: RunModel) -> RunModel {
    RunModel { timer_state: TimerPhase::NotRunning, split_index: None, ..m.after_reset() }
}

/// What the executor does with the action asked for the split after segment
/// `idx`: the new state, the commands, whether anything was asked, and
/// whether to evaluate again.
pub open spec fn apply_model(m: RunModel, a: SplitterAction, idx: int, hit_counter: bool) -> (
    RunModel,
    Seq<HostCommand>,
    bool,
    bool,
) {
    if a == SplitterAction::Reset {
        (
            reset_done(m),
            seq![HostCommand::Reset, HostCommand::SaveComparison] + reset_display(hit_counter),
            true,
            true,
        )
    } else if a == SplitterAction::Skip {
        let r = skip_done(m, idx);
        (
            r,
            seq![HostCommand::SkipSplit] + (if hit_counter {
                segment_display(r, idx + 1)
            } else {
                seq![]
            }),
            true,
            true,
        )
    } else if a == SplitterAction::Split || a == SplitterAction::ManualSplit {
        let r = split_done(m, idx);
        (
            r,
            seq![
                if a == SplitterAction::Split {
                    HostCommand::Split
                } else {
                    HostCommand::ManualSplit
                },
            ] + (if hit_counter {
                segment_display(r, idx + 1)
            } else {
                seq![]
            }),
            true,
            false,
        )
    } else {
        (m, seq![], a != SplitterAction::Pass, false)
    }
}

/// One evaluation of the split executor: the new state, the commands, whether
/// the rule asked for anything, and whether to evaluate again (after a skip
/// or a reset).
pub open spec fn executor_step(
    m: RunModel,
    splits: Seq<Split>,
    fields: GameFields,
    trans_now: bool,
    old: Seq<char>,
    cur: Seq<char>,
    hit_counter: bool,
) -> (RunModel, Seq<HostCommand>, bool, bool) {
    if m.timer_state == TimerPhase::NotRunning {
        if splits.len() > 0 {
            let a = rule_action(splits[0], fields, trans_now, old, cur);
            if a == SplitterAction::Split {
                (started(m), seq![HostCommand::Start], true, false)
            } else {
                (m, seq![], a != SplitterAction::Pass, false)
            }
        } else {
            (m, seq![], false, false)
        }
    } else if m.timer_state == TimerPhase::Running || m.timer_state == TimerPhase::Paused {
        let idx = index_or_zero(m.split_index);
        if idx + 1 < splits.len() {
            apply_model(m, rule_action(splits[idx + 1], fields, trans_now, old, cur), idx, hit_counter)
        } else {
            (m, seq![], false, false)
        }
    } else {
        (m, seq![], false, false)
    }
}

/// The split executor: evaluates the rule of the split after the segment in
/// progress (the first split while the timer is not running) and applies
/// what it asks for; a skip or a reset evaluates again at once, a split ends
/// the tick. Gives the new state, the commands, and whether any rule asked
/// for anything.
pub open spec fn executor_model(
    m: RunModel,
    splits: Seq<Split>,
    fields: GameFields,
    trans_now: bool,
    old: Seq<char>,
    cur: Seq<char>,
    hit_counter: bool,
) -> (RunModel, Seq<HostCommand>, bool)
    decreases executor_measure(m, splits.len() as int),
{
    let s = executor_step(m, splits, fields, trans_now, old, cur, hit_counter);
    if s.3 && executor_measure(s.0, splits.len() as int) < executor_measure(
        m,
        splits.len() as int,
    ) {
        let rest = executor_model(s.0, splits, fields, trans_now, old, cur, hit_counter);
        (rest.0, s.1 + rest.1, s.2 || rest.2)
    } else {
        (s.0, s.1, s.2)
    }
}

/// One hit: the total and the current segment's slot (grown with zeros up to
/// it where needed) go up by one, and the counters are shown. A total that
/// cannot grow any more is left as it is.
pub open spec fn hit_model(m: RunModel) -> (RunModel, Seq<HostCommand>) {
    if m.hits == i64::MAX {
        (m, seq![])
    } else {
        let i = index_or_zero(m.split_index);
        let grown = if i < m.segment_hits.len() {
            m.segment_hits
        } else {
            resized(m.segment_hits, i + 1, 0)
        };
        let seg = grown.update(i, (grown[i] + 1) as i64);
        let hits = (m.hits + 1) as i64;
        (
            RunModel { hits, segment_hits: seg, ..m },
            seq![
                HostCommand::Show(DisplayVar::Hits, DisplayValue::Count(hits)),
                HostCommand::Show(DisplayVar::SegmentHits, DisplayValue::Count(seg[i])),
                HostCommand::Show(
                    DisplayVar::DeltaHits,
                    if i < m.comparison_hits.len() {
                        delta_value(hits, m.comparison_hits[i])
                    } else {
                        DisplayValue::Dash
                    },
                ),
            ],
        )
    }
}

/// A hit where `fired`, nothing otherwise.
pub open spec fn hit_if(m: RunModel, fired: bool) -> (RunModel, Seq<HostCommand>) {
    if fired {
        hit_model(m)
    } else {
        (m, seq![])
    }
}

/// The health field reads exactly zero while the game is playing.
pub open spec fn health_zero(f: GameFields) -> bool {
    f.int_at(HEALTH as int) == Some(0i32) && f.game_state == GAME_STATE_PLAYING
}

/// The hit tracker: while hits are counted and the timer runs, one hit for
/// each of the three conditions that became true since the last tick.
pub open spec fn tracker_model(m: RunModel, hit_counter: bool, f: GameFields) -> (
    RunModel,
    Seq<HostCommand>,
) {
    if !hit_counter || m.timer_state != TimerPhase::Running {
        (m, seq![])
    } else {
        let a = hit_if(m, !m.last_recoil && f.hero_recoil_frozen);
        let m1 = RunModel { last_recoil: f.hero_recoil_frozen, ..a.0 };
        let b = hit_if(m1, !m.last_hazard && f.hazard_death);
        let m2 = RunModel { last_hazard: f.hazard_death, ..b.0 };
        let c = hit_if(m2, !m.last_health_0 && health_zero(f));
        (RunModel { last_health_0: health_zero(f), ..c.0 }, a.1 + b.1 + c.1)
    }
}

/// The load-time classifier's step: while the timer runs, the teleport latch
/// and the last game state move on and the game clock is paused or resumed.
pub open spec fn load_model(m: RunModel, f: GameFields) -> (RunModel, Option<HostCommand>) {
    if m.timer_state != TimerPhase::Running {
        (m, None)
    } else {
        let look = teleport_latch(m.look_for_teleporting, m.last_game_state, f.game_state);
        (
            RunModel { look_for_teleporting: look, last_game_state: f.game_state, ..m },
            Some(
                if load_time(look, f) {
                    HostCommand::PauseGameTime
                } else {
                    HostCommand::ResumeGameTime
                },
            ),
        )
    }
}

/// Everything the synchroniser keeps between ticks.
pub struct AutoSplitterState {
    timer_state: TimerPhase,
    split_index: Option<usize>,
    segments_splitted: Vec<bool>,
    look_for_teleporting: bool,
    last_game_state: i32,
    hits: i64,
    segment_hits: Vec<i64>,
    cumulative_hits: Vec<i64>,
    comparison_hits: Vec<i64>,
    last_recoil: bool,
    last_hazard: bool,
    last_health_0: bool,
    host_reports_index: bool,
    last_host_index: Option<usize>,
}

impl View for AutoSplitterState {
    type V = RunModel;

    closed spec fn view(&self) -> RunModel {
        RunModel {
            timer_state: self.timer_state,
            split_index: self.split_index,
            segments_splitted: self.segments_splitted@,
            look_for_teleporting: self.look_for_teleporting,
            last_game_state: self.last_game_state,
            hits: self.hits,
            segment_hits: self.segment_hits@,
            cumulative_hits: self.cumulative_hits@,
            comparison_hits: self.comparison_hits@,
            last_recoil: self.last_recoil,
            last_hazard: self.last_hazard,
            last_health_0: self.last_health_0,
            host_reports_index: self.host_reports_index,
            last_host_index: self.last_host_index,
        }
    }
}

impl AutoSplitterState {
    /// The state on attaching to a host timer in `timer_state` at
    /// `split_index`, with the persisted comparison record. A host that reports
    /// split indices lets the engine follow undo and skip made in its UI.
    pub fn new(
        timer_state: TimerPhase,
        split_index: Option<u64>,
        comparison_hits: Vec<i64>,
        host_reports_index: bool,
    ) -> (r: AutoSplitterState)
        ensures
            r@.wf(),
            r@.timer_state == timer_state,
            r@.split_index == (if host_reports_index {
                host_index(split_index)
            } else {
                None::<usize>
            }),
            r@.segments_splitted == Seq::new(
                index_or_zero(r@.split_index) as nat,
                |k: int| false,
            ),
            r@.comparison_hits == comparison_hits@,
            r@.hits == 0,
            r@.segment_hits == (if r@.active() {
                Seq::new((index_or_zero(r@.split_index) + 1) as nat, |k: int| 0i64)
            } else {
                Seq::<i64>::empty()
            }),
            r@.cumulative_hits.len() == 0,
            !r@.look_for_teleporting,
            r@.last_game_state == GAME_STATE_INACTIVE,
            !r@.last_recoil && !r@.last_hazard && !r@.last_health_0,
            r@.host_reports_index == host_reports_index,
            r@.last_host_index == r@.split_index,
    {
        let split_index = if host_reports_index {
            index_from_host(split_index)
        } else {
            None
        };
        let n: usize = match split_index {
            Some(i) => i,
            None => 0,
        };
        let mut segments_splitted: Vec<bool> = Vec::new();
        while segments_splitted.len() < n
            invariant
                segments_splitted@.len() <= n,
                forall|k: int| 0 <= k < segments_splitted@.len() ==> !segments_splitted@[k],
            decreases n - segments_splitted@.len(),
        {
            segments_splitted.push(false);
        }
        let mut segment_hits: Vec<i64> = Vec::new();
        if timer_state == TimerPhase::Running || timer_state == TimerPhase::Paused {
            resize_counts(&mut segment_hits, n + 1, 0);
        }
        let r = AutoSplitterState {
            timer_state,
            split_index,
            segments_splitted,
            look_for_teleporting: false,
            last_game_state: GAME_STATE_INACTIVE,
            hits: 0,
            segment_hits,
            cumulative_hits: Vec::new(),
            comparison_hits,
            last_recoil: false,
            last_hazard: false,
            last_health_0: false,
            host_reports_index,
            last_host_index: split_index,
        };
        assert(r@.segments_splitted =~= Seq::new(index_or_zero(r@.split_index) as nat, |k: int| false));
        assert(r@.segment_hits =~= (if r@.active() {
            Seq::new((index_or_zero(r@.split_index) + 1) as nat, |k: int| 0i64)
        } else {
            Seq::<i64>::empty()
        }));
        proof {
            if r@.active() {
                lemma_sum_zeros((n + 1) as nat);
            }
        }
        r
    }

    pub fn timer_state(&self) -> (r: TimerPhase)
        ensures
            r == self@.timer_state,
    {
        self.timer_state
    }

    pub fn split_index(&self) -> (r: Option<usize>)
        ensures
            r == self@.split_index,
    {
        self.split_index
    }

    pub fn hits(&self) -> (r: i64)
        ensures
            r == self@.hits,
    {
        self.hits
    }

    pub fn segments_splitted(&self) -> (r: &Vec<bool>)
        ensures
            r@ == self@.segments_splitted,
    {
        &self.segments_splitted
    }

    pub fn segment_hits(&self) -> (r: &Vec<i64>)
        ensures
            r@ == self@.segment_hits,
    {
        &self.segment_hits
    }

    pub fn cumulative_hits(&self) -> (r: &Vec<i64>)
        ensures
            r@ == self@.cumulative_hits,
    {
        &self.cumulative_hits
    }

    pub fn comparison_hits(&self) -> (r: &Vec<i64>)
        ensures
            r@ == self@.comparison_hits,
    {
        &self.comparison_hits
    }

    pub fn look_for_teleporting(&self) -> (r: bool)
        ensures
            r == self@.look_for_teleporting,
    {
        self.look_for_teleporting
    }

    /// Reconciles the bookkeeping with what the host timer shows now. An
    /// observation with nothing new changes nothing and asks for nothing; the
    /// state then remembers the observation, so a repeat is such a one.
    pub fn update(&mut self, obs: &TimerObservation, hit_counter: bool) -> (cmds: Vec<HostCommand>)
        requires
            old(self)@.wf(),
        ensures
            (final(self)@, cmds@) == update_model(
                old(self)@,
                obs.phase,
                obs.split_index,
                obs.segments_splitted@,
                hit_counter,
            ),
            final(self)@.wf(),
            final(self)@.observed(obs.phase, obs.split_index),
            old(self)@.observed(obs.phase, obs.split_index) ==> final(self)@ == old(self)@
                && cmds@.len() == 0,
    {
        let mut cmds: Vec<HostCommand> = Vec::new();
        let new_state = obs.phase;
        let new_index = if self.host_reports_index {
            index_from_host(obs.split_index)
        } else {
            None
        };
        if new_state == self.timer_state && new_index == self.last_host_index {
            return cmds;
        }
        let ghost m = self@;
        self.reconcile(new_state, new_index, &obs.segments_splitted, hit_counter, &mut cmds);
        let ghost r = self@;
        proof {
            if m.host_reports_index && new_index is Some && m.split_index is Some {
                lemma_advance_keeps(
                    m,
                    m.split_index->0 as int,
                    new_index->0 as int,
                    obs.segments_splitted@,
                );
            }
            assert(r.host_reports_index == m.host_reports_index);
        }
        self.timer_state = new_state;
        self.last_host_index = new_index;
        assert(self@ =~= (RunModel { timer_state: new_state, last_host_index: new_index, ..r }));
        cmds
    }

    fn reconcile(
        &mut self,
        new_state: TimerPhase,
        new_index: Option<usize>,
        history: &Vec<bool>,
        hit_counter: bool,
        cmds: &mut Vec<HostCommand>,
    )
        requires
            old(self)@.wf(),
            old(cmds)@.len() == 0,
            new_index matches Some(i) ==> i < usize::MAX,
        ensures
            (final(self)@, final(cmds)@) == reconcile(
                old(self)@,
                new_state,
                new_index,
                history@,
                hit_counter,
            ),
            (RunModel { timer_state: new_state, ..final(self)@ }).wf(),
    {
        let ghost m = self@;
        if new_state == TimerPhase::NotRunning && self.timer_state != TimerPhase::NotRunning {
            let show_pb = self.timer_state == TimerPhase::Ended;
            self.reset_bookkeeping(hit_counter, show_pb, cmds);
            assert(cmds@ =~= reset_model(old(self)@, hit_counter).1);
        } else if (new_state == TimerPhase::Running || new_state == TimerPhase::Paused)
            && is_timer_state_between_runs(self.timer_state) {
            let start = if self.host_reports_index {
                new_index
            } else {
                self.split_index
            };
            let n: usize = match start {
                Some(i) => i,
                None => 0,
            };
            proof {
                lemma_resized_zero_sum(self@.segment_hits, (n + 1) as nat);
            }
            self.split_index = start;
            resize_counts(&mut self.segment_hits, n + 1, 0);
            self.cumulative_hits.truncate(n);
            assert(self@ =~= start_model(old(self)@, new_index));
        } else if (new_state == TimerPhase::Paused && self.timer_state == TimerPhase::Running) || (
        new_state == TimerPhase::Running && self.timer_state == TimerPhase::Paused) {
        } else if new_state == TimerPhase::Ended && (self.timer_state == TimerPhase::Running
            || self.timer_state == TimerPhase::Paused) {
            self.end_attempt(new_index, cmds);
        } else if self.host_reports_index && new_index.is_some() && self.split_index.is_some() {
            let n = new_index.unwrap();
            let o = self.split_index.unwrap();
            if n < o {
                self.undo_to(n);
                proof {
                    lemma_back_past_skips_bounds(m.segments_splitted, n as int);
                }
            } else {
                self.advance_to(o, n, history);
                proof {
                    lemma_advance_lengths(m, o as int, n as int, history@);
                }
            }
            self.split_index = Some(n);
            if hit_counter && n != o {
                self.show_segment(n, cmds);
            }
            assert(cmds@ =~= follow_model(old(self)@, o as int, n as int, history@, hit_counter).1);
        }
    }

    fn end_attempt(&mut self, new_index: Option<usize>, cmds: &mut Vec<HostCommand>)
        requires
            old(self)@.counts_ok(),
            old(cmds)@.len() == 0,
            new_index matches Some(i) ==> i < usize::MAX,
        ensures
            (final(self)@, final(cmds)@) == end_model(old(self)@, new_index),
            final(self)@.counts_ok(),
    {
        let old_i: usize = match self.split_index {
            Some(i) => i,
            None => 0,
        };
        let i: usize = match new_index {
            Some(ni) if self.host_reports_index && old_i < ni => ni,
            _ => if old_i + 1 < usize::MAX {
                old_i + 1
            } else {
                old_i
            },
        };
        self.split_index = Some(i);
        resize_counts(&mut self.cumulative_hits, i, self.hits);
        if i < self.comparison_hits.len() {
            self.comparison_hits.truncate(i);
        }
        if self.comparison_hits.len() > 0 {
            let last = self.comparison_hits[self.comparison_hits.len() - 1];
            cmds.push(HostCommand::Show(DisplayVar::PbHits, DisplayValue::Count(last)));
        }
        assert(cmds@ =~= pb_display(self@.comparison_hits));
        assert(self@ =~= end_model(old(self)@, new_index).0);
    }

    /// Detects a scene transition from this tick's snapshot, then runs the
    /// split executor.
    pub fn handle_splits(
        &mut self,
        settings: &Settings,
        fields: &GameFields,
        ss: &mut SceneStore,
    ) -> (cmds: Vec<HostCommand>)
        requires
            old(self)@.wf(),
        ensures
            final(self)@.wf(),
            ({
                let t = old(ss)@.tick(
                    fields.scene_name@,
                    fields.next_scene_name@,
                    fields.scene_load_activation_allowed,
                );
                let e = executor_model(
                    old(self)@,
                    settings.splits@,
                    *fields,
                    t.1,
                    t.0.pair().0,
                    t.0.pair().1,
                    settings.hit_counter,
                );
                &&& final(self)@ == e.0
                &&& cmds@ == e.1
                &&& final(ss)@ == (SceneModel {
                    split_this_transition: e.2 || t.0.split_this_transition,
                    ..t.0
                })
            }),
    {
        let trans_now = ss.transition_now(
            fields.scene_name.clone(),
            fields.next_scene_name.clone(),
            fields.scene_load_activation_allowed,
        );
        let ghost t0 = ss@;
        let ghost old_scene = t0.pair().0;
        let ghost cur_scene = t0.pair().1;
        let ghost m0 = self@;
        let ghost e0 = executor_model(
            m0,
            settings.splits@,
            *fields,
            trans_now,
            old_scene,
            cur_scene,
            settings.hit_counter,
        );
        let mut cmds: Vec<HostCommand> = Vec::new();
        let mut done = false;
        let ghost mut marked = false;
        while !done
            invariant
                self@.wf(),
                old_scene == t0.pair().0,
                cur_scene == t0.pair().1,
                ss@ == (SceneModel { split_this_transition: marked || t0.split_this_transition, ..t0 }),
                !done ==> ({
                    let e = executor_model(
                        self@,
                        settings.splits@,
                        *fields,
                        trans_now,
                        old_scene,
                        cur_scene,
                        settings.hit_counter,
                    );
                    &&& e0.0 == e.0
                    &&& e0.1 == cmds@ + e.1
                    &&& e0.2 == (marked || e.2)
                }),
                done ==> e0.0 == self@ && e0.1 == cmds@ && e0.2 == marked,
            decreases (if done {
                0
            } else {
                1 + executor_measure(self@, settings.splits@.len() as int)
            }),
        {
            let ghost m = self@;
            let ghost before = cmds@;
            assert(ss@.pair() == t0.pair());
            let again = self.execute_once(settings, fields, trans_now, ss, &mut cmds);
            proof {
                let st = executor_step(
                    m,
                    settings.splits@,
                    *fields,
                    trans_now,
                    old_scene,
                    cur_scene,
                    settings.hit_counter,
                );
                marked = marked || st.2;
                if again {
                    assert(0 <= executor_measure(self@, settings.splits@.len() as int) < executor_measure(
                        m,
                        settings.splits@.len() as int,
                    ));
                }
                assert(cmds@ =~= before + st.1);
            }
            done = !again;
        }
        cmds
    }

    /// One evaluation of the split executor; answers whether to evaluate
    /// again.
    fn execute_once(
        &mut self,
        settings: &Settings,
        fields: &GameFields,
        trans_now: bool,
        ss: &mut SceneStore,
        cmds: &mut Vec<HostCommand>,
    ) -> (again: bool)
        requires
            old(self)@.wf(),
        ensures
            final(self)@.wf(),
            ({
                let st = executor_step(
                    old(self)@,
                    settings.splits@,
                    *fields,
                    trans_now,
                    old(ss)@.pair().0,
                    old(ss)@.pair().1,
                    settings.hit_counter,
                );
                &&& final(self)@ == st.0
                &&& final(cmds)@ == old(cmds)@ + st.1
                &&& again == st.3
                &&& final(ss)@ == (SceneModel {
                    split_this_transition: st.2 || old(ss)@.split_this_transition,
                    ..old(ss)@
                })
                &&& again ==> 0 <= executor_measure(st.0, settings.splits@.len() as int)
                    < executor_measure(old(self)@, settings.splits@.len() as int)
            }),
    {
        let ghost m = self@;
        let ghost before = cmds@;
        if self.timer_state == TimerPhase::NotRunning {
            if let Some(split) = settings.get_split(0) {
                let a = splits(&split, fields, trans_now, ss);
                if a == SplitterAction::Split {
                    cmds.push(HostCommand::Start);
                    self.timer_state = TimerPhase::Running;
                    self.split_index = Some(0);
                    proof {
                        lemma_resized_zero_sum(self@.segment_hits, 1);
                    }
                    resize_counts(&mut self.segment_hits, 1, 0);
                    self.cumulative_hits.clear();
                    assert(self@ =~= started(m));
                }
            }
            assert(cmds@ =~= before + executor_step(m, settings.splits@, *fields, trans_now, old(ss)@.pair().0, old(ss)@.pair().1, settings.hit_counter).1);
            return false;
        }
        if self.timer_state != TimerPhase::Running && self.timer_state != TimerPhase::Paused {
            return false;
        }
        let idx: usize = match self.split_index {
            Some(i) => i,
            None => 0,
        };
        if idx + 1 >= settings.splits.len() {
            return false;
        }
        let split = settings.splits[idx + 1];
        let a = splits(&split, fields, trans_now, ss);
        self.apply_action(a, idx, settings.hit_counter, cmds)
    }

    fn apply_action(
        &mut self,
        a: SplitterAction,
        idx: usize,
        hit_counter: bool,
        cmds: &mut Vec<HostCommand>,
    ) -> (again: bool)
        requires
            old(self)@.wf(),
            old(self)@.timer_state == TimerPhase::Running || old(self)@.timer_state
                == TimerPhase::Paused,
            idx == index_or_zero(old(self)@.split_index),
            idx + 1 < usize::MAX,
        ensures
            final(self)@.wf(),
            final(self)@ == apply_model(old(self)@, a, idx as int, hit_counter).0,
            final(cmds)@ == old(cmds)@ + apply_model(old(self)@, a, idx as int, hit_counter).1,
            again == apply_model(old(self)@, a, idx as int, hit_counter).3,
    {
        let ghost m = self@;
        let ghost before = cmds@;
        if a == SplitterAction::Reset {
            cmds.push(HostCommand::Reset);
            self.reset_bookkeeping(hit_counter, false, cmds);
            self.timer_state = TimerPhase::NotRunning;
            assert(self@ =~= reset_done(m));
            assert(cmds@ =~= before + (seq![HostCommand::Reset, HostCommand::SaveComparison]
                + reset_display(hit_counter)));
            true
        } else if a == SplitterAction::Skip {
            cmds.push(HostCommand::SkipSplit);
            self.skip_segment(idx);
            self.split_index = Some(idx + 1);
            assert(self@ =~= skip_done(m, idx as int));
            if hit_counter {
                self.show_segment(idx + 1, cmds);
            }
            assert(cmds@ =~= before + apply_model(m, a, idx as int, hit_counter).1);
            true
        } else if a == SplitterAction::Split || a == SplitterAction::ManualSplit {
            if a == SplitterAction::Split {
                cmds.push(HostCommand::Split);
            } else {
                cmds.push(HostCommand::ManualSplit);
            }
            self.split_segment(idx);
            self.split_index = Some(idx + 1);
            assert(self@ =~= split_done(m, idx as int));
            if hit_counter {
                self.show_segment(idx + 1, cmds);
            }
            assert(cmds@ =~= before + apply_model(m, a, idx as int, hit_counter).1);
            false
        } else {
            assert(cmds@ =~= before + apply_model(m, a, idx as int, hit_counter).1);
            false
        }
    }

    /// Counts one hit.
    pub fn add_hit(&mut self) -> (cmds: Vec<HostCommand>)
        requires
            old(self)@.wf(),
        ensures
            (final(self)@, cmds@) == hit_model(old(self)@),
            final(self)@.wf(),
            final(self)@.timer_state == old(self)@.timer_state,
            final(self)@.split_index == old(self)@.split_index,
            final(self)@.cumulative_hits == old(self)@.cumulative_hits,
    {
        let mut cmds: Vec<HostCommand> = Vec::new();
        if self.hits == i64::MAX {
            return cmds;
        }
        let ghost m = self@;
        let i: usize = match self.split_index {
            Some(i) => i,
            None => 0,
        };
        if i >= self.segment_hits.len() {
            proof {
                lemma_resized_zero_sum(self@.segment_hits, (i + 1) as nat);
            }
            resize_counts(&mut self.segment_hits, i + 1, 0);
        }
        proof {
            lemma_entry_le_sum(self@.segment_hits, i as int);
            lemma_update_sum(self@.segment_hits, i as int, (self@.segment_hits[i as int] + 1) as i64);
        }
        self.hits = self.hits + 1;
        let v = self.segment_hits[i] + 1;
        self.segment_hits.set(i, v);
        cmds.push(HostCommand::Show(DisplayVar::Hits, DisplayValue::Count(self.hits)));
        cmds.push(HostCommand::Show(DisplayVar::SegmentHits, DisplayValue::Count(v)));
        if i < self.comparison_hits.len() {
            let d = delta(self.hits, self.comparison_hits[i]);
            cmds.push(HostCommand::Show(DisplayVar::DeltaHits, d));
        } else {
            cmds.push(HostCommand::Show(DisplayVar::DeltaHits, DisplayValue::Dash));
        }
        assert(self@ =~= hit_model(m).0);
        assert(cmds@ =~= hit_model(m).1);
        cmds
    }

    /// The hit tracker: counts a hit on each rising edge of the recoil,
    /// hazard-death and zero-health conditions.
    #[verifier::rlimit(40)]
    pub fn handle_hits(&mut self, hit_counter: bool, fields: &GameFields) -> (cmds: Vec<
        HostCommand,
    >)
        requires
            old(self)@.wf(),
        ensures
            (final(self)@, cmds@) == tracker_model(old(self)@, hit_counter, *fields),
            final(self)@.wf(),
    {
        let mut cmds: Vec<HostCommand> = Vec::new();
        if !hit_counter || self.timer_state != TimerPhase::Running {
            return cmds;
        }
        let ghost m = self@;
        let recoil = fields.hero_recoil_frozen;
        if !self.last_recoil && recoil {
            let mut c = self.add_hit();
            cmds.append(&mut c);
        }
        self.last_recoil = recoil;
        let ghost c1 = cmds@;
        let hazard = fields.hazard_death;
        if !self.last_hazard && hazard {
            let mut c = self.add_hit();
            cmds.append(&mut c);
        }
        self.last_hazard = hazard;
        let ghost c2 = cmds@;
        let health_0 = match fields.get_int(HEALTH) {
            Some(h) => h == 0,
            None => false,
        } && fields.game_state == GAME_STATE_PLAYING;
        if !self.last_health_0 && health_0 {
            let mut c = self.add_hit();
            cmds.append(&mut c);
        }
        self.last_health_0 = health_0;
        proof {
            let t = tracker_model(m, hit_counter, *fields);
            assert(self@ =~= t.0);
            assert(cmds@ =~= t.1);
        }
        cmds
    }

    /// The load-time classifier's step; asks the host to pause or resume the
    /// game clock while the timer runs.
    pub fn load_removal(&mut self, fields: &GameFields) -> (r: Option<HostCommand>)
        ensures
            (final(self)@, r) == load_model(old(self)@, *fields),
            final(self)@.wf() == old(self)@.wf(),
    {
        if self.timer_state != TimerPhase::Running {
            return None;
        }
        let look = crate::load::next_teleport_latch(
            self.look_for_teleporting,
            self.last_game_state,
            fields.game_state,
        );
        self.look_for_teleporting = look;
        let paused = crate::load::is_load_time(look, fields);
        self.last_game_state = fields.game_state;
        if paused {
            Some(HostCommand::PauseGameTime)
        } else {
            Some(HostCommand::ResumeGameTime)
        }
    }

    /// One tick of the engine: reconcile with the host timer, run the split
    /// executor, classify the time and track hits. Gives the commands for the
    /// host, in order.
    pub fn tick(
        &mut self,
        settings: &Settings,
        obs: &TimerObservation,
        fields: &GameFields,
        ss: &mut SceneStore,
    ) -> (cmds: Vec<HostCommand>)
        requires
            old(self)@.wf(),
        ensures
            final(self)@.wf(),
            ({
                let u = update_model(
                    old(self)@,
                    obs.phase,
                    obs.split_index,
                    obs.segments_splitted@,
                    settings.hit_counter,
                );
                let t = old(ss)@.tick(
                    fields.scene_name@,
                    fields.next_scene_name@,
                    fields.scene_load_activation_allowed,
                );
                let e = executor_model(
                    u.0,
                    settings.splits@,
                    *fields,
                    t.1,
                    t.0.pair().0,
                    t.0.pair().1,
                    settings.hit_counter,
                );
                let l = load_model(e.0, *fields);
                let h = tracker_model(l.0, settings.hit_counter, *fields);
                &&& final(self)@ == h.0
                &&& cmds@ == u.1 + e.1 + (if l.1 is Some {
                    seq![l.1->0]
                } else {
                    seq![]
                }) + h.1
                &&& final(ss)@ == (SceneModel {
                    split_this_transition: e.2 || t.0.split_this_transition,
                    ..t.0
                })
            }),
    {
        let mut cmds = self.update(obs, settings.hit_counter);
        let mut executed = self.handle_splits(settings, fields, ss);
        cmds.append(&mut executed);
        let ghost executor_state = self@;
        let ghost before_load = cmds@;
        match self.load_removal(fields) {
            Some(c) => cmds.push(c),
            None => {},
        }
        let ghost after_load = cmds@;
        let mut hits = self.handle_hits(settings.hit_counter, fields);
        cmds.append(&mut hits);
        assert(after_load =~= before_load + match load_model(executor_state, *fields).1 {
            Some(c) => seq![c],
            None => seq![],
        });
        cmds
    }

    /// The displays published when the engine starts: every variable shows
    /// the dash, the counters show zero where hits are counted, and the best
    /// final count shows where the record covers every split.
    pub fn startup_commands(&self, settings: &Settings) -> (cmds: Vec<HostCommand>)
        ensures
            cmds@ == seq![
                HostCommand::Show(DisplayVar::Hits, DisplayValue::Dash),
                HostCommand::Show(DisplayVar::SegmentHits, DisplayValue::Dash),
                HostCommand::Show(DisplayVar::PbHits, DisplayValue::Dash),
                HostCommand::Show(DisplayVar::ComparisonHits, DisplayValue::Dash),
                HostCommand::Show(DisplayVar::DeltaHits, DisplayValue::Dash),
            ] + (if settings.hit_counter {
                seq![
                    HostCommand::Show(DisplayVar::Hits, DisplayValue::Count(0)),
                    HostCommand::Show(DisplayVar::SegmentHits, DisplayValue::Count(0)),
                ]
            } else {
                seq![]
            }) + (if self@.comparison_hits.len() + 1 == settings.splits@.len() {
                pb_display(self@.comparison_hits)
            } else {
                seq![]
            }),
    {
        let mut cmds: Vec<HostCommand> = Vec::new();
        cmds.push(HostCommand::Show(DisplayVar::Hits, DisplayValue::Dash));
        cmds.push(HostCommand::Show(DisplayVar::SegmentHits, DisplayValue::Dash));
        cmds.push(HostCommand::Show(DisplayVar::PbHits, DisplayValue::Dash));
        cmds.push(HostCommand::Show(DisplayVar::ComparisonHits, DisplayValue::Dash));
        cmds.push(HostCommand::Show(DisplayVar::DeltaHits, DisplayValue::Dash));
        if settings.hit_counter {
            cmds.push(HostCommand::Show(DisplayVar::Hits, DisplayValue::Count(0)));
            cmds.push(HostCommand::Show(DisplayVar::SegmentHits, DisplayValue::Count(0)));
        }
        let n = self.comparison_hits.len();
        if n > 0 && n < settings.splits.len() && n + 1 == settings.splits.len() {
            cmds.push(
                HostCommand::Show(DisplayVar::PbHits, DisplayValue::Count(self.comparison_hits[n - 1])),
            );
        }
        assert(cmds@ =~= seq![
            HostCommand::Show(DisplayVar::Hits, DisplayValue::Dash),
            HostCommand::Show(DisplayVar::SegmentHits, DisplayValue::Dash),
            HostCommand::Show(DisplayVar::PbHits, DisplayValue::Dash),
            HostCommand::Show(DisplayVar::ComparisonHits, DisplayValue::Dash),
            HostCommand::Show(DisplayVar::DeltaHits, DisplayValue::Dash),
        ] + (if settings.hit_counter {
            seq![
                HostCommand::Show(DisplayVar::Hits, DisplayValue::Count(0)),
                HostCommand::Show(DisplayVar::SegmentHits, DisplayValue::Count(0)),
            ]
        } else {
            seq![]
        }) + (if self@.comparison_hits.len() + 1 == settings.splits@.len() {
            pb_display(self@.comparison_hits)
        } else {
            seq![]
        }));
        cmds
    }

    /// Appends the display of segment `i`.
    fn show_segment(&self, i: usize, cmds: &mut Vec<HostCommand>)
        ensures
            final(cmds)@ == old(cmds)@ + segment_display(self@, i as int),
    {
        let seg = if i < self.segment_hits.len() {
            self.segment_hits[i]
        } else {
            0
        };
        cmds.push(HostCommand::Show(DisplayVar::SegmentHits, DisplayValue::Count(seg)));
        if i < self.comparison_hits.len() {
            let c = self.comparison_hits[i];
            cmds.push(HostCommand::Show(DisplayVar::ComparisonHits, DisplayValue::Count(c)));
            cmds.push(HostCommand::Show(DisplayVar::DeltaHits, delta(self.hits, c)));
        } else {
            cmds.push(HostCommand::Show(DisplayVar::ComparisonHits, DisplayValue::Dash));
            cmds.push(HostCommand::Show(DisplayVar::DeltaHits, DisplayValue::Dash));
        }
        assert(final(cmds)@ =~= old(cmds)@ + segment_display(self@, i as int));
    }

    /// Folds the attempt into the comparison record and clears it.
    fn reset_bookkeeping(&mut self, hit_counter: bool, show_pb: bool, cmds: &mut Vec<HostCommand>)
        requires
            old(self)@.counts_ok(),
        ensures
            final(self)@ == (RunModel { split_index: None, ..old(self)@.after_reset() }),
            final(self)@.counts_ok(),
            final(cmds)@ == old(cmds)@ + seq![HostCommand::SaveComparison] + (if show_pb {
                pb_display(final(self)@.comparison_hits)
            } else {
                seq![]
            }) + reset_display(hit_counter),
    {
        Settings::update_comparison_hits(&mut self.comparison_hits, self.cumulative_hits.as_slice());
        cmds.push(HostCommand::SaveComparison);
        if show_pb && self.comparison_hits.len() > 0 {
            let last = self.comparison_hits[self.comparison_hits.len() - 1];
            cmds.push(HostCommand::Show(DisplayVar::PbHits, DisplayValue::Count(last)));
        }
        self.split_index = None;
        self.segments_splitted.clear();
        self.hits = 0;
        self.segment_hits.clear();
        self.cumulative_hits.clear();
        if hit_counter {
            cmds.push(HostCommand::Show(DisplayVar::Hits, DisplayValue::Count(0)));
            cmds.push(HostCommand::Show(DisplayVar::SegmentHits, DisplayValue::Count(0)));
        } else {
            cmds.push(HostCommand::Show(DisplayVar::Hits, DisplayValue::Dash));
            cmds.push(HostCommand::Show(DisplayVar::SegmentHits, DisplayValue::Dash));
        }
        self.look_for_teleporting = false;
        self.last_game_state = GAME_STATE_INACTIVE;
        assert(final(cmds)@ =~= old(cmds)@ + seq![HostCommand::SaveComparison] + (if show_pb {
            pb_display(self@.comparison_hits)
        } else {
            seq![]
        }) + reset_display(hit_counter));
        assert(self@ =~= (RunModel { split_index: None, ..old(self)@.after_reset() }));
    }

    /// Records that the segment at `o` was split.
    fn split_segment(&mut self, o: usize)
        requires
            old(self)@.counts_ok(),
            o < usize::MAX,
        ensures
            final(self)@ == split_step(old(self)@, o as int),
            final(self)@.counts_ok(),
    {
        proof {
            lemma_sum_concat(self@.segment_hits, seq![0i64]);
            crate::tally::lemma_sum_single(0);
            assert(self@.segment_hits.push(0) =~= self@.segment_hits + seq![0i64]);
        }
        self.segments_splitted.push(true);
        self.segment_hits.push(0);
        resize_counts(&mut self.cumulative_hits, o + 1, self.hits);
        assert(self@ =~= split_step(old(self)@, o as int));
    }

    /// Records that the segment at `o` was skipped.
    fn skip_segment(&mut self, o: usize)
        requires
            old(self)@.counts_ok(),
            o < usize::MAX,
        ensures
            final(self)@ == skip_step(old(self)@, o as int),
            final(self)@.counts_ok(),
    {
        self.segments_splitted.push(false);
        if o <= self.segment_hits.len() {
            proof {
                lemma_insert_zero_sum(self@.segment_hits, o as int);
            }
            self.segment_hits.insert(o, 0);
        } else {
            proof {
                lemma_resized_zero_sum(self@.segment_hits, (o + 1) as nat);
            }
            resize_counts(&mut self.segment_hits, o + 1, 0);
        }
        assert(self@ =~= skip_step(old(self)@, o as int));
    }

    /// Goes back to segment `n`, folding the hits of the later segments into
    /// its slot.
    fn undo_to(&mut self, n: usize)
        requires
            old(self)@.counts_ok(),
            n < usize::MAX,
        ensures
            final(self)@ == undo(old(self)@, n as int),
            final(self)@.counts_ok(),
            final(self)@.hits == old(self)@.hits,
    {
        let ghost s0 = self@.segment_hits;
        if n < self.segment_hits.len() {
            let mut folded: i64 = 0;
            while self.segment_hits.len() > n + 1
                invariant
                    n < s0.len(),
                    n + 1 <= self.segment_hits@.len() <= s0.len(),
                    self.segment_hits@ == s0.subrange(0, self.segment_hits@.len() as int),
                    folded == sum_of(s0.subrange(self.segment_hits@.len() as int, s0.len() as int)),
                    all_nonneg(s0),
                    sum_of(s0) <= self.hits,
                    self@ == (RunModel { segment_hits: self@.segment_hits, ..old(self)@ }),
                decreases self.segment_hits@.len(),
            {
                let ghost len = self.segment_hits@.len() as int;
                proof {
                    let rest = s0.subrange(len, s0.len() as int);
                    let last = s0.subrange(len - 1, s0.len() as int);
                    assert(last =~= seq![s0[len - 1]] + rest);
                    lemma_sum_concat(seq![s0[len - 1]], rest);
                    crate::tally::lemma_sum_single(s0[len - 1]);
                    assert(s0 =~= s0.subrange(0, len - 1) + last);
                    lemma_sum_concat(s0.subrange(0, len - 1), last);
                    lemma_sum_nonneg(s0.subrange(0, len - 1));
                    lemma_sum_nonneg(rest);
                    lemma_entry_le_sum(s0, len - 1);
                }
                let v = self.segment_hits.pop().unwrap();
                folded = folded + v;
            }
            proof {
                let head = s0.subrange(0, n as int);
                let tail = s0.subrange(n + 1, s0.len() as int);
                assert(s0 =~= head + seq![s0[n as int]] + tail);
                lemma_sum_concat(head + seq![s0[n as int]], tail);
                lemma_sum_concat(head, seq![s0[n as int]]);
                crate::tally::lemma_sum_single(s0[n as int]);
                lemma_sum_nonneg(head);
                lemma_sum_nonneg(tail);
                lemma_update_sum(self@.segment_hits, n as int, (s0[n as int] + folded) as i64);
                assert(self@.segment_hits =~= head + seq![s0[n as int]]);
                lemma_sum_concat(head, seq![s0[n as int]]);
            }
            let cur = self.segment_hits[n];
            self.segment_hits.set(n, cur + folded);
        } else {
            proof {
                lemma_resized_zero_sum(self@.segment_hits, (n + 1) as nat);
            }
            resize_counts(&mut self.segment_hits, n + 1, 0);
        }
        if n < self.cumulative_hits.len() {
            let mut i = n;
            let ghost pre = self@;
            while 1 <= i && i <= self.segments_splitted.len() && !self.segments_splitted[i - 1]
                invariant
                    i <= n,
                    self@ == pre,
                    back_past_skips(self@.segments_splitted, i as int) == back_past_skips(
                        self@.segments_splitted,
                        n as int,
                    ),
                decreases i,
            {
                i = i - 1;
            }
            assert(back_past_skips(self@.segments_splitted, i as int) == i);
            self.cumulative_hits.truncate(i);
        }
        self.segments_splitted.truncate(n);
        assert(self@.segment_hits =~= fold_back(s0, n as int));
        assert(self@ =~= undo(old(self)@, n as int));
    }

    /// Crosses the segments from `o` up to `n` as the host history says.
    fn advance_to(&mut self, o: usize, n: usize, history: &Vec<bool>)
        requires
            old(self)@.counts_ok(),
            o <= n < usize::MAX,
        ensures
            final(self)@ == advance(old(self)@, o as int, n as int, history@),
            final(self)@.counts_ok(),
    {
        let mut i = o;
        while i < n
            invariant
                o <= i <= n < usize::MAX,
                self@.counts_ok(),
                advance(self@, i as int, n as int, history@) == advance(
                    old(self)@,
                    o as int,
                    n as int,
                    history@,
                ),
            decreases n - i,
        {
            let crossed = i < history.len() && history[i];
            if crossed {
                self.split_segment(i);
            } else {
                self.skip_segment(i);
            }
            i = i + 1;
        }
    }
}

/// `hits - c`, or the dash where it does not fit.
fn delta(hits: i64, c: i64) -> (r: DisplayValue)
    ensures
        r == delta_value(hits, c),
{
    match hits.checked_sub(c) {
        Some(d) => DisplayValue::Count(d),
        None => DisplayValue::Dash,
    }
}

/// Reconciling twice with the same observation: the second call changes
/// nothing and asks for nothing; and a call whose observation shows nothing
/// new is itself such a call.
pub proof fn lemma_update_idempotent(
    m: RunModel,
    phase: TimerPhase,
    index: Option<u64>,
    history: Seq<bool>,
    hit_counter: bool,
)
    requires
        m.wf(),
    ensures
        update_model(update_model(m, phase, index, history, hit_counter).0, phase, index, history, hit_counter)
            == (update_model(m, phase, index, history, hit_counter).0, Seq::<HostCommand>::empty()),
        m.observed(phase, index) ==> update_model(m, phase, index, history, hit_counter) == (
            m,
            Seq::<HostCommand>::empty(),
        ),
{
    let new_index = if m.host_reports_index {
        host_index(index)
    } else {
        None
    };
    if m.host_reports_index && new_index is Some && m.split_index is Some {
        lemma_advance_keeps(m, m.split_index->0 as int, new_index->0 as int, history);
    }
}

/// Going back with undo keeps the hit total, keeps the sum of the segment
/// counts, and gives the segment returned to its own count plus all the
/// counts of the segments discarded after it.
pub proof fn lemma_undo_conserves_hits(
    m: RunModel,
    phase: TimerPhase,
    index: Option<u64>,
    history: Seq<bool>,
    hit_counter: bool,
)
    requires
        m.wf(),
        m.host_reports_index,
        m.timer_state == TimerPhase::Running || m.timer_state == TimerPhase::Paused,
        phase == m.timer_state,
        m.split_index is Some,
        host_index(index) is Some,
        host_index(index) != m.last_host_index,
        host_index(index)->0 < m.split_index->0,
        host_index(index)->0 < m.segment_hits.len(),
    ensures
        ({
            let r = update_model(m, phase, index, history, hit_counter).0;
            let n = host_index(index)->0 as int;
            &&& r.hits == m.hits
            &&& r.segment_hits.len() == n + 1
            &&& r.segment_hits[n] == m.segment_hits[n] + sum_of(
                m.segment_hits.subrange(n + 1, m.segment_hits.len() as int),
            )
            &&& sum_of(r.segment_hits) == sum_of(m.segment_hits)
        }),
{
    let n = host_index(index)->0 as int;
    let s = m.segment_hits;
    let head = s.subrange(0, n);
    let tail = s.subrange(n + 1, s.len() as int);
    assert(s =~= head + seq![s[n]] + tail);
    lemma_sum_concat(head + seq![s[n]], tail);
    lemma_sum_concat(head, seq![s[n]]);
    crate::tally::lemma_sum_single(s[n]);
    lemma_sum_nonneg(head);
    lemma_sum_nonneg(tail);
    let kept = s.subrange(0, n + 1);
    assert(kept =~= head + seq![s[n]]);
    lemma_update_sum(kept, n, (s[n] + sum_of(tail)) as i64);
}

/// Folding an attempt into the comparison record never raises an entry, and
/// leaves every entry past the attempt's record as it was.
pub proof fn lemma_fold_never_raises(cmp: Seq<i64>, cum: Seq<i64>)
    ensures
        forall|k: int|
            0 <= k < cmp.len() ==> #[trigger] fold_comparison(cmp, cum)[k] <= cmp[k] && (k
                >= cum.len() ==> fold_comparison(cmp, cum)[k] == cmp[k]),
{
}

/// After a reset observed from the host, every comparison entry is at most
/// what it was, and unchanged where the attempt recorded no count.
pub proof fn lemma_reset_never_raises_comparison(
    m: RunModel,
    index: Option<u64>,
    history: Seq<bool>,
    hit_counter: bool,
)
    requires
        m.wf(),
        m.timer_state != TimerPhase::NotRunning,
    ensures
        ({
            let r = update_model(m, TimerPhase::NotRunning, index, history, hit_counter).0;
            forall|k: int|
                0 <= k < m.comparison_hits.len() ==> #[trigger] r.comparison_hits[k]
                    <= m.comparison_hits[k] && (k >= m.cumulative_hits.len()
                    ==> r.comparison_hits[k] == m.comparison_hits[k])
        }),
{
    lemma_fold_never_raises(m.comparison_hits, m.cumulative_hits);
}

/// A reset asked for by a rule, like one observed from the host, never
/// raises a comparison entry and leaves every entry past the attempt's record
/// as it was.
pub proof fn lemma_executor_reset_never_raises_comparison(m: RunModel, idx: int, hit_counter: bool)
    ensures
        ({
            let r = apply_model(m, SplitterAction::Reset, idx, hit_counter).0;
            &&& r.hits == 0
            &&& r.cumulative_hits.len() == 0
            &&& r.segments_splitted.len() == 0
            &&& forall|k: int|
                0 <= k < m.comparison_hits.len() ==> #[trigger] r.comparison_hits[k]
                    <= m.comparison_hits[k] && (k >= m.cumulative_hits.len()
                    ==> r.comparison_hits[k] == m.comparison_hits[k])
        }),
{
    lemma_fold_never_raises(m.comparison_hits, m.cumulative_hits);
}

/// Below the largest count, a hit raises the total and the current segment's
/// count by one and leaves every other segment's count as it was.
pub proof fn lemma_hit_counts_one(m: RunModel)
    requires
        m.wf(),
        m.hits < i64::MAX,
    ensures
        ({
            let r = hit_model(m).0;
            let i = index_or_zero(m.split_index);
            &&& r.hits == m.hits + 1
            &&& r.segment_hits[i] == entry_or_zero(m.segment_hits, i) + 1
            &&& forall|j: int|
                0 <= j < r.segment_hits.len() && j != i ==> #[trigger] r.segment_hits[j]
                    == entry_or_zero(m.segment_hits, j)
        }),
{
    let i = index_or_zero(m.split_index);
    if i < m.segment_hits.len() {
        lemma_entry_le_sum(m.segment_hits, i);
    } else {
        lemma_resized_zero_sum(m.segment_hits, (i + 1) as nat);
        lemma_entry_le_sum(resized(m.segment_hits, i + 1, 0), i);
    }
}

} // verus!
