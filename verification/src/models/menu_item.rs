//! One entry of the console's left-hand menu, holding its tab pages and
//! which of them is active.

use vstd::prelude::*;

use super::tab_page::TabPage;

verus! {

/// One menu entry of the console shell.
pub struct MenuItem {
    pub name: String,
    pub tabs: Vec<TabPage>,
    pub active_tab: usize,
}

impl MenuItem {
    /// A menu entry with the given tabs; the first tab starts active.
    pub fn new(name: String, tabs: Vec<TabPage>) -> (r: MenuItem)
        ensures
            r.name@ == name@,
            r.tabs == tabs,
            r.active_tab == 0,
    {
        MenuItem { name, tabs, active_tab: 0 }
    }
}

} // verus!
