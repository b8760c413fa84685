//! The five tabs of the interface and how Tab and Shift+Tab move between them.
use vstd::prelude::*;

verus! {

/// The number of tabs.
pub const TAB_COUNT: usize = 5;

/// A tab of the interface.
#[derive(Debug, Clone, Copy, PartialEq, Eq, Structural)]
pub enum AppTab {
    Wizard,
    History,
    Batch,
    Server,
    Settings,
}

impl AppTab {
    /// The tabs in display order.
    pub open spec fn all_list() -> Seq<AppTab> {
        seq![AppTab::Wizard, AppTab::History, AppTab::Batch, AppTab::Server, AppTab::Settings]
    }

    /// The tab's position in the tab bar.
    pub open spec fn spec_index(self) -> nat {
        match self {
            AppTab::Wizard => 0,
            AppTab::History => 1,
            AppTab::Batch => 2,
            AppTab::Server => 3,
            AppTab::Settings => 4,
        }
    }

    /// The tab at position `idx`; the Wizard for any position past the last.
    pub open spec fn spec_from_index(idx: nat) -> AppTab {
        if idx == 0 {
            AppTab::Wizard
        } else if idx == 1 {
            AppTab::History
        } else if idx == 2 {
            AppTab::Batch
        } else if idx == 3 {
            AppTab::Server
        } else if idx == 4 {
            AppTab::Settings
        } else {
            AppTab::Wizard
        }
    }

    /// The tab that Tab moves to: the next one, round to the first.
    pub open spec fn spec_after(self) -> AppTab {
        Self::spec_from_index((self.spec_index() + 1) % 5)
    }

    /// The tab that Shift+Tab moves to: the previous one, round to the last.
    pub open spec fn spec_before(self) -> AppTab {
        Self::spec_from_index((self.spec_index() + 4) % 5)
    }

    /// The tab's title in the tab bar.
    pub open spec fn title_text(self) -> Seq<char> {
        match self {
            AppTab::Wizard => " Wizard "@,
            AppTab::History => " History "@,
            AppTab::Batch => " Batch CSV "@,
            AppTab::Server => " Server "@,
            AppTab::Settings => " Settings "@,
        }
    }

    /// The tabs in display order.
    pub fn all() -> (r: Vec<AppTab>)
        ensures
            r@ == Self::all_list(),
    {
        let r = vec![AppTab::Wizard, AppTab::History, AppTab::Batch, AppTab::Server, AppTab::Settings];
        proof {
            assert(r@ =~= Self::all_list());
        }
        r
    }

    /// The tab's title in the tab bar.
    pub fn title(&self) -> (r: &'static str)
        ensures
            r@ == self.title_text(),
    {
        match self {
            AppTab::Wizard => " Wizard ",
            AppTab::History => " History ",
            AppTab::Batch => " Batch CSV ",
            AppTab::Server => " Server ",
            AppTab::Settings => " Settings ",
        }
    }

    /// The tab's position in the tab bar.
    pub fn index(&self) -> (r: usize)
        ensures
            r == self.spec_index(),
    {
        match self {
            AppTab::Wizard => 0,
            AppTab::History => 1,
            AppTab::Batch => 2,
            AppTab::Server => 3,
            AppTab::Settings => 4,
        }
    }

    /// The tab at position `idx`; the Wizard for any position past the last.
    pub fn from_index(idx: usize) -> (r: AppTab)
        ensures
            r == Self::spec_from_index(idx as nat),
    {
        match idx {
            0 => AppTab::Wizard,
            1 => AppTab::History,
            2 => AppTab::Batch,
            3 => AppTab::Server,
            4 => AppTab::Settings,
            _ => AppTab::Wizard,
        }
    }

    /// The tab that Tab moves to.
    pub fn after(&self) -> (r: AppTab)
        ensures
            r == self.spec_after(),
    {
        Self::from_index((self.index() + 1) % TAB_COUNT)
    }

    /// The tab that Shift+Tab moves to.
    pub fn before(&self) -> (r: AppTab)
        ensures
            r == self.spec_before(),
    {
        Self::from_index((self.index() + 4) % TAB_COUNT)
    }
}

/// Positions and tabs correspond one to one: every tab is found again at
/// its own position, and every position of the bar holds the tab whose
/// position it is.
pub proof fn law_tab_positions(t: AppTab, idx: nat)
    ensures
        AppTab::spec_from_index(t.spec_index()) == t,
        t.spec_index() < TAB_COUNT,
        AppTab::all_list()[t.spec_index() as int] == t,
        idx < TAB_COUNT ==> AppTab::spec_from_index(idx).spec_index() == idx,
{
}

/// Shift+Tab undoes Tab and Tab undoes Shift+Tab, and five presses of Tab
/// come back to the tab where they started.
pub proof fn law_tab_cycle(t: AppTab)
    ensures
        t.spec_after().spec_before() == t,
        t.spec_before().spec_after() == t,
        t.spec_after().spec_after().spec_after().spec_after().spec_after() == t,
{
}

} // verus!
