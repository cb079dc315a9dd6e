//! Dashboard session state: the ordered fan list, the selected index,
//! the cached latest snapshot, and the navigation debounce.
//!
//! The session decides; it performs no storage access itself. A
//! navigation call reports whether the selection moved, and the caller
//! then fetches the newly selected fan's snapshot and hands it back
//! through [`App::update_fan_data`]. Clock readings come in as explicit
//! epoch-millisecond arguments.

use vstd::prelude::*;

use crate::fan::Fan;
use crate::fan_data::FanData;
use crate::time_status::CLOCK_BOUND;

verus! {

/// Milliseconds that must pass after a selection change before the next
/// one is honoured.
pub const NAV_DEBOUNCE_MILLIS: i64 = 500;

/// The dashboard session.
pub struct App {
    /// 0-based selection into `fans`; 0 when the list is empty.
    pub index: usize,
    /// The selected fan's cached latest snapshot, absent when the last
    /// fetch found no row or failed.
    pub fan_data: Option<FanData>,
    /// The fans shown as tabs, in display order.
    pub fans: Vec<Fan>,
    /// Epoch milliseconds of the last honoured selection change (or of
    /// construction).
    pub last_change: i64,
}

impl App {
    /// Session well-formedness: the selection stays inside the list
    /// (and at 0 for an empty list), and the debounce clock stays in
    /// the range the time arithmetic accepts.
    pub open spec fn wf(self) -> bool {
        &&& (self.fans.len() == 0 ==> self.index == 0)
        &&& (self.fans.len() > 0 ==> self.index < self.fans.len())
        &&& -CLOCK_BOUND <= self.last_change <= CLOCK_BOUND
    }

    /// A navigation request at `now_millis` is honoured only when the
    /// list is non-empty and the debounce window has passed.
    pub open spec fn nav_allowed(self, now_millis: int) -> bool {
        self.fans.len() > 0 && now_millis - NAV_DEBOUNCE_MILLIS > self.last_change
    }

    /// The selection after an honoured `next`: one step forward,
    /// wrapping past the last fan to 0.
    pub open spec fn next_index(self) -> int
        recommends
            self.fans.len() > 0,
    {
        (self.index + 1) % (self.fans.len() as int)
    }

    /// The selection after an honoured `previous`: one step back,
    /// wrapping past 0 to the last fan.
    pub open spec fn previous_index(self) -> int
        recommends
            self.fans.len() > 0,
    {
        if self.index > 0 {
            self.index - 1
        } else {
            self.fans.len() - 1
        }
    }

    /// A fresh session: selection at 0, the given fan list and initial
    /// snapshot, the debounce clock set to construction time.
    pub fn new(fans: Vec<Fan>, fan_data: Option<FanData>, now_millis: i64) -> (app: App)
        requires
            -CLOCK_BOUND <= now_millis <= CLOCK_BOUND,
        ensures
            app.wf(),
            app.index == 0,
            app.fans == fans,
            app.fan_data == fan_data,
            app.last_change == now_millis,
    {
        App { index: 0, fan_data, fans, last_change: now_millis }
    }

    /// Moves the selection one fan forward, wrapping, unless the
    /// request is throttled or the list is empty; reports whether it
    /// moved, in which case the caller must fetch the newly selected
    /// fan's snapshot and pass it to `update_fan_data`.
    pub fn next(&mut self, now_millis: i64) -> (changed: bool)
        requires
            old(self).wf(),
            -CLOCK_BOUND <= now_millis <= CLOCK_BOUND,
        ensures
            final(self).wf(),
            changed == old(self).nav_allowed(now_millis as int),
            !changed ==> *final(self) == *old(self),
            changed ==> final(self).index as int == old(self).next_index(),
            changed ==> final(self).last_change == now_millis,
            changed ==> final(self).fans == old(self).fans,
            changed ==> final(self).fan_data == old(self).fan_data,
    {
        if self.fans.len() > 0 && now_millis - NAV_DEBOUNCE_MILLIS > self.last_change {
            self.index = (self.index + 1) % self.fans.len();
            self.last_change = now_millis;
            true
        } else {
            false
        }
    }

    /// Moves the selection one fan back, wrapping, under the same
    /// throttling and empty-list rules as `next`.
    pub fn previous(&mut self, now_millis: i64) -> (changed: bool)
        requires
            old(self).wf(),
            -CLOCK_BOUND <= now_millis <= CLOCK_BOUND,
        ensures
            final(self).wf(),
            changed == old(self).nav_allowed(now_millis as int),
            !changed ==> *final(self) == *old(self),
            changed ==> final(self).index as int == old(self).previous_index(),
            changed ==> final(self).last_change == now_millis,
            changed ==> final(self).fans == old(self).fans,
            changed ==> final(self).fan_data == old(self).fan_data,
    {
        if self.fans.len() > 0 && now_millis - NAV_DEBOUNCE_MILLIS > self.last_change {
            if self.index > 0 {
                self.index = self.index - 1;
            } else {
                self.index = self.fans.len() - 1;
            }
            self.last_change = now_millis;
            true
        } else {
            false
        }
    }

    /// Replaces the cached snapshot with a fresh fetch result; the old
    /// snapshot is discarded, absence stands for "no data".
    pub fn update_fan_data(&mut self, fan_data: Option<FanData>)
        requires
            old(self).wf(),
        ensures
            final(self).wf(),
            final(self).fan_data == fan_data,
            final(self).index == old(self).index,
            final(self).fans == old(self).fans,
            final(self).last_change == old(self).last_change,
    {
        self.fan_data = fan_data;
    }
}

/// Law: with the debounce window respected, selecting the next fan and
/// then the previous one returns the selection to where it began, for
/// any non-empty fan list.
pub proof fn lemma_next_then_previous_restores(s0: App, s1: App)
    requires
        s0.wf(),
        s0.fans.len() >= 1,
        s1.fans == s0.fans,
        s1.index as int == s0.next_index(),
    ensures
        s1.previous_index() == s0.index,
{
    let n = s0.fans.len() as int;
    assert(0 <= (s0.index + 1) % n < n) by (nonlinear_arith)
        requires
            n > 0,
    ;
    if s0.index + 1 < n {
        assert((s0.index + 1) % n == s0.index + 1) by (nonlinear_arith)
            requires
                0 <= s0.index + 1 < n,
        ;
    } else {
        assert(s0.index + 1 == n);
        assert(n % n == 0) by (nonlinear_arith)
            requires
                n > 0,
        ;
    }
}

/// Law: two navigation requests within the debounce window move the
/// selection at most once. The two transitions are given as `next`'s
/// contract describes them: the first at `t1` from `s0` to `s1`, the
/// second at `t2` from `s1` to `s2`, with `t2` no more than the
/// debounce interval after `t1`.
pub proof fn lemma_debounce_at_most_one_change(s0: App, s1: App, s2: App, t1: int, t2: int)
    requires
        t2 - t1 <= NAV_DEBOUNCE_MILLIS,
        (if s0.nav_allowed(t1) {
            s1.index as int == s0.next_index() && s1.last_change == t1 && s1.fans == s0.fans
        } else {
            s1 == s0
        }),
        (if s1.nav_allowed(t2) {
            s2.index as int == s1.next_index() && s2.last_change == t2 && s2.fans == s1.fans
        } else {
            s2 == s1
        }),
    ensures
        s2.index == s1.index || s1.index == s0.index,
{
    if s0.nav_allowed(t1) {
        assert(!s1.nav_allowed(t2));
    }
}

} // verus!
