//! Detection of scene transitions from the two scene-name fields, which the
//! game updates asynchronously and out of order.

use vstd::prelude::*;
use crate::game::{garbage_scene_name, is_garbage_scene_name, is_menu, menu_like};
use crate::text::text_eq;

verus! {

/// The scenes a transition rule looks at: where the player comes from and
/// where they are (or are about to be).
pub struct ScenePair<'a> {
    pub old: &'a str,
    pub current: &'a str,
}

/// What a `SceneStore` holds, as plain values.
pub struct SceneModel {
    pub prev: Seq<char>,
    pub curr: Seq<char>,
    pub next: Seq<char>,
    pub new_data_curr: bool,
    pub new_data_next: bool,
    pub last_next: bool,
    pub split_this_transition: bool,
}

/// Whether a value read for a field that now holds `stored` is taken.
pub open spec fn accepted_scene_name(v: Seq<char>, stored: Seq<char>) -> bool {
    v.len() > 0 && v != stored && !garbage_scene_name(v)
}

impl SceneModel {
    pub open spec fn initial() -> SceneModel {
        SceneModel {
            prev: Seq::empty(),
            curr: Seq::empty(),
            next: Seq::empty(),
            new_data_curr: false,
            new_data_next: false,
            last_next: true,
            split_this_transition: false,
        }
    }

    /// After a value of the current-scene field has been read.
    pub open spec fn observe_curr(self, csn: Seq<char>) -> SceneModel {
        if accepted_scene_name(csn, self.curr) {
            SceneModel { prev: self.curr, curr: csn, new_data_curr: csn != self.next, ..self }
        } else {
            self
        }
    }

    /// After a value of the next-scene field has been read.
    pub open spec fn observe_next(self, nsn: Seq<char>) -> SceneModel {
        if accepted_scene_name(nsn, self.next) {
            SceneModel { next: nsn, new_data_next: true, ..self }
        } else {
            self
        }
    }

    /// A current-scene update that only reflects a stale value on the way to
    /// a menu.
    pub open spec fn spurious_curr(self) -> bool {
        menu_like(self.next) && !menu_like(self.prev) && !menu_like(self.curr)
    }

    /// Consumes the pending updates: the new model, and whether a transition
    /// happens now.
    pub open spec fn detect(self) -> (SceneModel, bool) {
        if self.new_data_next {
            (
                SceneModel {
                    new_data_curr: false,
                    new_data_next: false,
                    last_next: true,
                    split_this_transition: false,
                    ..self
                },
                true,
            )
        } else if self.new_data_curr {
            if self.spurious_curr() {
                (SceneModel { new_data_curr: false, ..self }, false)
            } else {
                (
                    SceneModel {
                        new_data_curr: false,
                        last_next: false,
                        split_this_transition: false,
                        ..self
                    },
                    true,
                )
            }
        } else {
            (self, false)
        }
    }

    /// The scenes that rules see: the transition in flight when the last
    /// update came from the next-scene field, else the last one completed.
    pub open spec fn pair(self) -> (Seq<char>, Seq<char>) {
        if self.last_next && self.next != self.curr {
            (self.curr, self.next)
        } else {
            (self.prev, self.curr)
        }
    }

    /// One tick: read both fields (the next-scene one only while the game
    /// allows the next scene to activate), then detect.
    pub open spec fn tick(self, csn: Seq<char>, nsn: Seq<char>, armed: bool) -> (SceneModel, bool) {
        let after_curr = self.observe_curr(csn);
        if armed {
            after_curr.observe_next(nsn).detect()
        } else {
            after_curr.detect()
        }
    }
}

/// A current-scene update that is the only news and only reflects a stale
/// value on the way to a menu is consumed without reporting a transition, and
/// leaves which update the pair follows as it was.
pub proof fn lemma_spurious_update_ignored(s: SceneModel)
    requires
        !s.new_data_next,
        s.new_data_curr,
        s.spurious_curr(),
    ensures
        !s.detect().1,
        !s.detect().0.new_data_curr,
        s.detect().0.last_next == s.last_next,
        s.detect().0.pair() == s.pair(),
{
}

/// The previous, current and next scene names, with the marks that say which
/// of them changed since the last detection.
pub struct SceneStore {
    prev_scene_name: String,
    curr_scene_name: String,
    next_scene_name: String,
    new_data_curr: bool,
    new_data_next: bool,
    last_next: bool,
    split_this_transition: bool,
}

impl View for SceneStore {
    type V = SceneModel;

    closed spec fn view(&self) -> SceneModel {
        SceneModel {
            prev: self.prev_scene_name@,
            curr: self.curr_scene_name@,
            next: self.next_scene_name@,
            new_data_curr: self.new_data_curr,
            new_data_next: self.new_data_next,
            last_next: self.last_next,
            split_this_transition: self.split_this_transition,
        }
    }
}

impl SceneStore {
    pub fn new() -> (r: SceneStore)
        ensures
            r@ == SceneModel::initial(),
    {
        let r = SceneStore {
            prev_scene_name: String::new(),
            curr_scene_name: String::new(),
            next_scene_name: String::new(),
            new_data_curr: false,
            new_data_next: false,
            last_next: true,
            split_this_transition: false,
        };
        assert(r@ == SceneModel::initial());
        r
    }

    pub fn pair(&self) -> (r: ScenePair<'_>)
        ensures
            (r.old@, r.current@) == self@.pair(),
    {
        if self.last_next && !text_eq(self.next_scene_name.as_str(), self.curr_scene_name.as_str()) {
            ScenePair { old: self.curr_scene_name.as_str(), current: self.next_scene_name.as_str() }
        } else {
            ScenePair { old: self.prev_scene_name.as_str(), current: self.curr_scene_name.as_str() }
        }
    }

    /// Whether a rule has asked for an action since the last transition.
    pub fn split_this_transition(&self) -> (r: bool)
        ensures
            r == self@.split_this_transition,
    {
        self.split_this_transition
    }

    /// Records that a rule asked for an action during this transition.
    pub fn mark_split_this_transition(&mut self)
        ensures
            final(self)@ == (SceneModel { split_this_transition: true, ..old(self)@ }),
    {
        self.split_this_transition = true;
    }

    pub fn new_curr_scene_name(&mut self, csn: String)
        ensures
            final(self)@ == old(self)@.observe_curr(csn@),
    {
        if !csn.as_str().is_empty() && !text_eq(csn.as_str(), self.curr_scene_name.as_str())
            && !is_garbage_scene_name(csn.as_str()) {
            let mut csn = csn;
            std::mem::swap(&mut self.curr_scene_name, &mut csn);
            self.prev_scene_name = csn;
            self.new_data_curr = !text_eq(
                self.curr_scene_name.as_str(),
                self.next_scene_name.as_str(),
            );
        }
    }

    pub fn new_next_scene_name(&mut self, nsn: String)
        ensures
            final(self)@ == old(self)@.observe_next(nsn@),
    {
        if !nsn.as_str().is_empty() && !text_eq(nsn.as_str(), self.next_scene_name.as_str())
            && !is_garbage_scene_name(nsn.as_str()) {
            self.next_scene_name = nsn;
            self.new_data_next = !self.next_scene_name.as_str().is_empty();
        }
    }

    /// Takes this tick's values of the current-scene and next-scene fields
    /// (empty where unreadable) and whether the game allows the next scene to
    /// activate; answers whether a transition happens now.
    pub fn transition_now(&mut self, curr: String, next: String, activation_allowed: bool) -> (r:
        bool)
        ensures
            (final(self)@, r) == old(self)@.tick(curr@, next@, activation_allowed),
    {
        self.new_curr_scene_name(curr);
        if activation_allowed {
            self.new_next_scene_name(next);
        }
        if self.new_data_next {
            self.new_data_curr = false;
            self.new_data_next = false;
            self.last_next = true;
            self.split_this_transition = false;
            true
        } else if self.new_data_curr {
            self.new_data_curr = false;
            if is_menu(self.next_scene_name.as_str()) && !is_menu(self.prev_scene_name.as_str())
                && !is_menu(self.curr_scene_name.as_str()) {
                return false;
            }
            self.last_next = false;
            self.split_this_transition = false;
            true
        } else {
            false
        }
    }
}

impl Default for SceneStore {
    fn default() -> (r: SceneStore)
        ensures
            r@ == SceneModel::initial(),
    {
        SceneStore::new()
    }
}

} // verus!
