//! Finding the tab the user is looking at: the first tab that is visible and focused,
//! else the first tab that is visible.

use vstd::prelude::*;
use crate::error::{BrowserError, BrowserErrorView};

verus! {

/// The question asked of each tab.
#[derive(Clone, Copy, PartialEq, Eq, Structural)]
pub enum TabCheck {
    /// Is the tab visible and does its document have focus? (the stronger signal)
    VisibleAndFocused,
    /// Is the tab visible?
    Visible,
}

/// The script that asks `check` of a tab.
pub open spec fn check_expression(check: TabCheck) -> Seq<char> {
    match check {
        TabCheck::VisibleAndFocused => "document.visibilityState === 'visible' && document.hasFocus()"@,
        TabCheck::Visible => "document.visibilityState === 'visible'"@,
    }
}

/// The script that asks `check` of a tab.
pub fn tab_check_expression(check: TabCheck) -> (res: &'static str)
    ensures
        res@ == check_expression(check),
{
    match check {
        TabCheck::VisibleAndFocused => "document.visibilityState === 'visible' && document.hasFocus()",
        TabCheck::Visible => "document.visibilityState === 'visible'",
    }
}

/// The first pass asks for exactly what the second pass asks, and in addition that the
/// document has focus: its script is the `Visible` script joined with
/// `document.hasFocus()` by `&&`, so a tab passes it only when it passes both. The
/// `Visible` script asks whether the document's visibility state is 'visible'.
pub proof fn lemma_focused_check_is_conjunction()
    ensures
        check_expression(TabCheck::Visible) == "document.visibilityState === 'visible'"@,
        check_expression(TabCheck::VisibleAndFocused) == check_expression(TabCheck::Visible)
            + " && "@ + "document.hasFocus()"@,
{
    reveal_strlit("document.visibilityState === 'visible' && document.hasFocus()");
    reveal_strlit("document.visibilityState === 'visible'");
    reveal_strlit(" && ");
    reveal_strlit("document.hasFocus()");
    assert(check_expression(TabCheck::VisibleAndFocused) =~= check_expression(TabCheck::Visible)
        + " && "@ + "document.hasFocus()"@);
}

/// What to do next while looking for the active tab.
pub enum TabSearchAction {
    /// Evaluate the check's script in tab `tab` (in the order the browser lists tabs).
    Probe { tab: usize, check: TabCheck },
    /// This tab is the active one.
    Found(usize),
    Fail(BrowserError),
}

/// A search through `tab_count` tabs: first every tab is asked `VisibleAndFocused`,
/// then, if none answered yes, every tab is asked `Visible`.
pub struct ActiveTabSearch {
    pub tab_count: usize,
    pub check: TabCheck,
    /// The tab being asked.
    pub index: usize,
}

/// The failure when no tab qualifies.
pub open spec fn no_active_tab(a: TabSearchAction) -> bool {
    a is Fail && a->Fail_0@ == BrowserErrorView::TabOperationFailed("No active tab found"@)
}

/// The search moves on from tab `index` of pass `check`: to the next tab, to the first
/// tab of the second pass, or to failure.
pub open spec fn search_moves_on(s: ActiveTabSearch, next: ActiveTabSearch, act: TabSearchAction) -> bool {
    if s.index + 1 < s.tab_count {
        &&& next == ActiveTabSearch { index: (s.index + 1) as usize, ..s }
        &&& act == TabSearchAction::Probe { tab: (s.index + 1) as usize, check: s.check }
    } else if s.check == TabCheck::VisibleAndFocused {
        &&& next == ActiveTabSearch { index: 0, check: TabCheck::Visible, ..s }
        &&& act == TabSearchAction::Probe { tab: 0, check: TabCheck::Visible }
    } else {
        no_active_tab(act)
    }
}

impl ActiveTabSearch {
    /// Starts the search among `tab_count` tabs.
    pub fn start(tab_count: usize) -> (res: (ActiveTabSearch, TabSearchAction))
        ensures
            res.0.tab_count == tab_count,
            res.0.index == 0,
            res.0.check == TabCheck::VisibleAndFocused,
            tab_count > 0 ==> res.1 == (TabSearchAction::Probe { tab: 0, check: TabCheck::VisibleAndFocused }),
            tab_count == 0 ==> no_active_tab(res.1),
    {
        let s = ActiveTabSearch { tab_count, check: TabCheck::VisibleAndFocused, index: 0 };
        if tab_count > 0 {
            (s, TabSearchAction::Probe { tab: 0, check: TabCheck::VisibleAndFocused })
        } else {
            (s, TabSearchAction::Fail(BrowserError::TabOperationFailed("No active tab found".to_owned())))
        }
    }

    /// Takes the probed tab's answer (`None` when the script failed or returned no
    /// boolean) and says what to do next: a tab that answers yes is the active one.
    pub fn step(&mut self, answer: Option<bool>) -> (act: TabSearchAction)
        requires
            old(self).index < old(self).tab_count,
        ensures
            answer == Some(true) ==> act == TabSearchAction::Found(old(self).index)
                && *final(self) == *old(self),
            answer != Some(true) ==> search_moves_on(*old(self), *final(self), act),
            act is Probe ==> final(self).index < final(self).tab_count,
    {
        if answer == Some(true) {
            return TabSearchAction::Found(self.index);
        }
        if self.index + 1 < self.tab_count {
            self.index = self.index + 1;
            TabSearchAction::Probe { tab: self.index, check: self.check }
        } else if self.check == TabCheck::VisibleAndFocused {
            self.index = 0;
            self.check = TabCheck::Visible;
            TabSearchAction::Probe { tab: 0, check: TabCheck::Visible }
        } else {
            TabSearchAction::Fail(BrowserError::TabOperationFailed("No active tab found".to_owned()))
        }
    }
}

/// The first position from `k` on where `answers` holds, if any.
pub open spec fn first_yes_from(answers: Seq<bool>, k: int) -> Option<int>
    decreases answers.len() - k,
{
    if k < 0 || k >= answers.len() {
        None
    } else if answers[k] {
        Some(k)
    } else {
        first_yes_from(answers, k + 1)
    }
}

/// The first yes at or after `k`, when `i` answers yes and none of `k..i` does, is `i`.
pub proof fn lemma_first_yes_at(answers: Seq<bool>, k: int, i: int)
    requires
        0 <= k <= i < answers.len(),
        answers[i],
        forall|j: int| k <= j < i ==> !answers[j],
    ensures
        first_yes_from(answers, k) == Some(i),
    decreases i - k,
{
    if k < i {
        lemma_first_yes_at(answers, k + 1, i);
    }
}

/// With no yes at or after `k`, there is no first yes.
pub proof fn lemma_no_yes(answers: Seq<bool>, k: int)
    requires
        0 <= k,
        forall|j: int| k <= j < answers.len() ==> !answers[j],
    ensures
        first_yes_from(answers, k) is None,
    decreases answers.len() - k,
{
    if k < answers.len() {
        lemma_no_yes(answers, k + 1);
    }
}

/// Which tab is active: the first tab answering yes to "visible and focused?" when
/// there is one, whatever the others answer to "visible?"; else the first tab answering
/// yes to "visible?"; and none when no tab is visible or focused.
pub proof fn lemma_chosen_tab(focused: Seq<bool>, visible: Seq<bool>)
    ensures
        forall|i: int|
            0 <= i < focused.len() && #[trigger] focused[i] && (forall|j: int| 0 <= j < i ==> !focused[j])
                ==> chosen_tab(focused, visible) == Some(i),
        (forall|j: int| 0 <= j < focused.len() ==> !focused[j]) ==> forall|i: int|
            0 <= i < visible.len() && #[trigger] visible[i] && (forall|j: int| 0 <= j < i ==> !visible[j])
                ==> chosen_tab(focused, visible) == Some(i),
        (forall|j: int| 0 <= j < focused.len() ==> !focused[j]) && (forall|j: int|
            0 <= j < visible.len() ==> !visible[j]) ==> chosen_tab(focused, visible) is None,
{
    assert forall|i: int|
        0 <= i < focused.len() && #[trigger] focused[i] && (forall|j: int| 0 <= j < i ==> !focused[j])
            implies chosen_tab(focused, visible) == Some(i) by {
        lemma_first_yes_at(focused, 0, i);
    }
    if forall|j: int| 0 <= j < focused.len() ==> !focused[j] {
        lemma_no_yes(focused, 0);
        assert forall|i: int|
            0 <= i < visible.len() && #[trigger] visible[i] && (forall|j: int| 0 <= j < i ==> !visible[j])
                implies chosen_tab(focused, visible) == Some(i) by {
            lemma_first_yes_at(visible, 0, i);
        }
        if forall|j: int| 0 <= j < visible.len() ==> !visible[j] {
            lemma_no_yes(visible, 0);
        }
    }
}

/// The active tab among tabs that answer `focused[i]` to "visible and focused?" and
/// `visible[i]` to "visible?": the first that is visible and focused, else the first
/// that is visible, else none.
pub open spec fn chosen_tab(focused: Seq<bool>, visible: Seq<bool>) -> Option<int> {
    match first_yes_from(focused, 0) {
        Some(i) => Some(i),
        None => first_yes_from(visible, 0),
    }
}

/// The answer that tab `s.index` gives to the question of the current pass.
pub open spec fn current_answer(s: ActiveTabSearch, focused: Seq<bool>, visible: Seq<bool>) -> bool {
    if s.check == TabCheck::VisibleAndFocused {
        focused[s.index as int]
    } else {
        visible[s.index as int]
    }
}

/// Where a search standing at `s` ends when the tabs answer as `focused` and `visible`
/// say: the tab found, or none.
pub open spec fn search_outcome(s: ActiveTabSearch, focused: Seq<bool>, visible: Seq<bool>) -> Option<int>
    decreases (if s.check == TabCheck::VisibleAndFocused { 1int } else { 0int }), s.tab_count - s.index,
{
    if s.index >= s.tab_count {
        None
    } else if current_answer(s, focused, visible) {
        Some(s.index as int)
    } else if s.index + 1 < s.tab_count {
        search_outcome(ActiveTabSearch { index: (s.index + 1) as usize, ..s }, focused, visible)
    } else if s.check == TabCheck::VisibleAndFocused {
        search_outcome(ActiveTabSearch { index: 0, check: TabCheck::Visible, ..s }, focused, visible)
    } else {
        None
    }
}

/// Each step of the search keeps to its outcome: a tab is found only where the search
/// ends, the search fails only where it ends with none, and otherwise it moves on to a
/// position with the same outcome.
pub proof fn lemma_step_keeps_outcome(
    s: ActiveTabSearch,
    answer: Option<bool>,
    next: ActiveTabSearch,
    act: TabSearchAction,
    focused: Seq<bool>,
    visible: Seq<bool>,
)
    requires
        s.index < s.tab_count,
        (answer == Some(true)) == current_answer(s, focused, visible),
        answer == Some(true) ==> act == TabSearchAction::Found(s.index),
        answer != Some(true) ==> search_moves_on(s, next, act),
    ensures
        act matches TabSearchAction::Found(i) ==> search_outcome(s, focused, visible) == Some(i as int),
        act is Fail ==> search_outcome(s, focused, visible) is None,
        act is Probe ==> search_outcome(next, focused, visible) == search_outcome(s, focused, visible),
{
}

/// Within one pass, the search ends at the first tab from its position that answers yes.
proof fn lemma_pass_outcome(s: ActiveTabSearch, focused: Seq<bool>, visible: Seq<bool>)
    requires
        s.index < s.tab_count,
        focused.len() == s.tab_count,
        visible.len() == s.tab_count,
    ensures
        s.check == TabCheck::Visible ==> search_outcome(s, focused, visible) == first_yes_from(
            visible,
            s.index as int,
        ),
        s.check == TabCheck::VisibleAndFocused ==> search_outcome(s, focused, visible) == match first_yes_from(
            focused,
            s.index as int,
        ) {
            Some(i) => Some(i),
            None => first_yes_from(visible, 0),
        },
    decreases (if s.check == TabCheck::VisibleAndFocused { 1int } else { 0int }), s.tab_count - s.index,
{
    if current_answer(s, focused, visible) {
    } else if s.index + 1 < s.tab_count {
        lemma_pass_outcome(ActiveTabSearch { index: (s.index + 1) as usize, ..s }, focused, visible);
    } else if s.check == TabCheck::VisibleAndFocused {
        lemma_pass_outcome(ActiveTabSearch { index: 0, check: TabCheck::Visible, ..s }, focused, visible);
        assert(first_yes_from(focused, s.index + 1) is None);
    } else {
        assert(first_yes_from(visible, s.index + 1) is None);
    }
}

/// A search started among tabs that answer as `focused` and `visible` say ends at the
/// first tab that is visible and focused, else at the first tab that is visible, and
/// fails only when no tab is visible.
pub proof fn lemma_search_finds_chosen_tab(focused: Seq<bool>, visible: Seq<bool>)
    requires
        focused.len() == visible.len(),
        0 < focused.len() <= usize::MAX,
    ensures
        search_outcome(
            ActiveTabSearch {
                tab_count: focused.len() as usize,
                check: TabCheck::VisibleAndFocused,
                index: 0,
            },
            focused,
            visible,
        ) == chosen_tab(focused, visible),
{
    lemma_pass_outcome(
        ActiveTabSearch { tab_count: focused.len() as usize, check: TabCheck::VisibleAndFocused, index: 0 },
        focused,
        visible,
    );
}

} // verus!
