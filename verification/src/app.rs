//! The navigation tabs of the sidebar.
use vstd::prelude::*;

verus! {

/// Which tab is selected in the sidebar.
#[derive(Clone, Copy, Debug, PartialEq, Eq, Structural)]
pub enum NavTab {
    Dashboard,
    Actions,
    Tools,
    Settings,
}

impl NavTab {
    /// Every tab, in the order of the sidebar.
    pub const ALL: [NavTab; 4] = [NavTab::Dashboard, NavTab::Actions, NavTab::Tools, NavTab::Settings];

    /// The message key of the tab's localized label.
    pub open spec fn spec_label_key(self) -> Seq<char> {
        match self {
            NavTab::Dashboard => "tab_dashboard"@,
            NavTab::Actions => "tab_actions"@,
            NavTab::Tools => "tab_tools"@,
            NavTab::Settings => "tab_settings"@,
        }
    }

    /// The message key of the tab's localized label.
    pub fn label_key(self) -> (r: &'static str)
        ensures
            r@ == self.spec_label_key(),
    {
        match self {
            NavTab::Dashboard => "tab_dashboard",
            NavTab::Actions => "tab_actions",
            NavTab::Tools => "tab_tools",
            NavTab::Settings => "tab_settings",
        }
    }
}

impl Default for NavTab {
    /// The dashboard is shown first.
    fn default() -> (r: NavTab)
        ensures
            r == NavTab::Dashboard,
    {
        NavTab::Dashboard
    }
}

/// The sidebar lists every tab exactly once.
pub proof fn lemma_all_tabs_listed_once(tab: NavTab)
    ensures
        NavTab::ALL@.len() == 4,
        NavTab::ALL@.contains(tab),
        forall|i: int, j: int| 0 <= i < j < 4 ==> NavTab::ALL@[i] != NavTab::ALL@[j],
{
    assert(NavTab::ALL@ =~= seq![NavTab::Dashboard, NavTab::Actions, NavTab::Tools, NavTab::Settings]);
    let k: int = match tab {
        NavTab::Dashboard => 0,
        NavTab::Actions => 1,
        NavTab::Tools => 2,
        NavTab::Settings => 3,
    };
    assert(NavTab::ALL@[k] == tab);
}

/// Distinct tabs have distinct labels.
pub proof fn lemma_label_keys_distinct(a: NavTab, b: NavTab)
    requires
        a != b,
    ensures
        a.spec_label_key() != b.spec_label_key(),
{
    reveal_strlit("tab_dashboard");
    reveal_strlit("tab_actions");
    reveal_strlit("tab_tools");
    reveal_strlit("tab_settings");
    assert(a.spec_label_key()[4] != b.spec_label_key()[4] || a.spec_label_key().len()
        != b.spec_label_key().len());
}

} // verus!
