//! The time-of-day window in which a reboot is permitted.

use crate::text::{
    lemma_text_lt_asymmetric, lemma_text_lt_irreflexive, lemma_text_lt_total,
    lemma_text_lt_transitive, text_less, text_lt,
};
use vstd::prelude::*;

verus! {

/// A reboot window: two times of day written as zero-padded "HH:MM".
#[derive(Debug, Clone, PartialEq, Eq)]
pub struct RebootWindow {
    pub lower: String,
    pub upper: String,
}

/// A `RebootWindow` with its bounds as sequences of characters.
pub struct WindowView {
    pub lower: Seq<char>,
    pub upper: Seq<char>,
}

impl View for RebootWindow {
    type V = WindowView;

    open spec fn view(&self) -> WindowView {
        WindowView { lower: self.lower@, upper: self.upper@ }
    }
}

impl WindowView {
    /// The window ends on the day after it begins.
    pub open spec fn crosses_midnight(self) -> bool {
        !text_lt(self.lower, self.upper)
    }

    /// `now` lies strictly inside the window. Both bounds are outside it.
    pub open spec fn admits(self, now: Seq<char>) -> bool {
        if self.crosses_midnight() {
            text_lt(now, self.upper) || text_lt(self.lower, now)
        } else {
            text_lt(self.lower, now) && text_lt(now, self.upper)
        }
    }
}

/// Whether a reboot is permitted at `now`, a time of day written like the
/// bounds of `window`.
pub fn is_within_reboot_window(window: &RebootWindow, now: &str) -> (allowed: bool)
    ensures
        allowed == window@.admits(now@),
        text_lt(window@.lower, window@.upper) ==> (allowed <==> text_lt(window@.lower, now@)
            && text_lt(now@, window@.upper)),
        !text_lt(window@.lower, window@.upper) ==> (allowed <==> text_lt(now@, window@.upper)
            || text_lt(window@.lower, now@)),
{
    let lower: &str = window.lower.as_str();
    let upper: &str = window.upper.as_str();
    if text_less(lower, upper) {
        text_less(lower, now) && text_less(now, upper)
    } else {
        text_less(now, upper) || text_less(lower, now)
    }
}

/// A time that is one of the window's bounds is outside the window,
/// whether or not the window crosses midnight.
pub proof fn lemma_window_excludes_bounds(window: WindowView, now: Seq<char>)
    requires
        now == window.lower || now == window.upper,
    ensures
        !window.admits(now),
{
    lemma_text_lt_irreflexive(now);
}

/// A window that does not cross midnight admits the times strictly between
/// its bounds, and no others.
pub proof fn lemma_plain_window(window: WindowView, now: Seq<char>)
    requires
        text_lt(window.lower, window.upper),
    ensures
        window.admits(now) <==> text_lt(window.lower, now) && text_lt(now, window.upper),
{
}

/// A window that crosses midnight admits the times before its upper bound
/// and those after its lower bound, and no others.
pub proof fn lemma_midnight_window(window: WindowView, now: Seq<char>)
    requires
        !text_lt(window.lower, window.upper),
    ensures
        window.admits(now) <==> text_lt(now, window.upper) || text_lt(window.lower, now),
{
}

/// A window crosses midnight exactly when its lower bound is its upper
/// bound or comes after it.
pub proof fn lemma_crossing_bounds(window: WindowView)
    ensures
        window.crosses_midnight() <==> window.lower == window.upper || text_lt(
            window.upper,
            window.lower,
        ),
{
    lemma_text_lt_irreflexive(window.lower);
    if window.lower != window.upper {
        lemma_text_lt_total(window.lower, window.upper);
        if text_lt(window.lower, window.upper) {
            lemma_text_lt_asymmetric(window.lower, window.upper);
        }
    }
}

/// A window that crosses midnight admits, its bounds aside, the times that
/// the window between the same bounds within one day does not.
pub proof fn lemma_midnight_window_is_the_rest_of_the_day(window: WindowView, now: Seq<char>)
    requires
        text_lt(window.upper, window.lower),
    ensures
        window.admits(now) <==> now != window.lower && now != window.upper && !(WindowView {
            lower: window.upper,
            upper: window.lower,
        }).admits(now),
{
    let day = WindowView { lower: window.upper, upper: window.lower };
    lemma_text_lt_asymmetric(window.upper, window.lower);
    lemma_text_lt_irreflexive(now);
    if text_lt(now, window.upper) {
        lemma_text_lt_asymmetric(now, window.upper);
        lemma_text_lt_transitive(now, window.upper, window.lower);
    }
    if text_lt(window.lower, now) {
        lemma_text_lt_asymmetric(window.lower, now);
        lemma_text_lt_transitive(window.upper, window.lower, now);
    }
    if now != window.upper {
        lemma_text_lt_total(now, window.upper);
    }
    if now != window.lower {
        lemma_text_lt_total(now, window.lower);
    }
}

} // verus!
