//! The software-wallet menu: its tabs and the placeholder handlers that log
//! what each tab is about to do.

use vstd::prelude::*;

use crate::events::string_of;
use crate::models::menu_item::MenuItem;
use crate::models::tab_page::TabPage;

verus! {

/// The software-wallet menu entry with its four tabs.
pub fn create_software_menu() -> (r: MenuItem)
    ensures
        r.name@ == "Software Wallet"@,
        r.active_tab == 0,
        r.tabs@.len() == 4,
        r.tabs@[0].name@ == "Master Key"@,
        r.tabs@[1].name@ == "Identity"@,
        r.tabs@[2].name@ == "Vote"@,
        r.tabs@[3].name@ == "Stake"@,
        forall|i: int| 0 <= i < 4 ==> (#[trigger] r.tabs@[i]).logs@.len() == 0,
{
    let mut tabs: Vec<TabPage> = Vec::new();
    tabs.push(TabPage::new(string_of("Master Key")));
    tabs.push(TabPage::new(string_of("Identity")));
    tabs.push(TabPage::new(string_of("Vote")));
    tabs.push(TabPage::new(string_of("Stake")));
    assert(tabs@[0].logs@.len() == 0);
    assert(tabs@[1].logs@.len() == 0);
    assert(tabs@[2].logs@.len() == 0);
    assert(tabs@[3].logs@.len() == 0);
    MenuItem::new(string_of("Software Wallet"), tabs)
}

/// Opens the wallet creation and import tab.
pub fn handle_create_import_tab(tab: &mut TabPage)
    ensures
        final(tab).logs.deep_view() == old(tab).logs.deep_view().push(
            "Opening wallet creation/import interface..."@,
        ),
        final(tab).scroll == (old(tab).logs@.len() + 1) as u16,
        final(tab).name == old(tab).name,
        final(tab).config == old(tab).config,
{
    tab.add_log(string_of("Opening wallet creation/import interface..."));
}

/// Opens the transaction history tab.
pub fn handle_transactions_tab(tab: &mut TabPage)
    ensures
        final(tab).logs.deep_view() == old(tab).logs.deep_view().push(
            "Loading transaction history..."@,
        ),
        final(tab).scroll == (old(tab).logs@.len() + 1) as u16,
        final(tab).name == old(tab).name,
        final(tab).config == old(tab).config,
{
    tab.add_log(string_of("Loading transaction history..."));
}

/// Opens the backup tab.
pub fn handle_backup_tab(tab: &mut TabPage)
    ensures
        final(tab).logs.deep_view() == old(tab).logs.deep_view().push(
            "Preparing wallet backup..."@,
        ),
        final(tab).scroll == (old(tab).logs@.len() + 1) as u16,
        final(tab).name == old(tab).name,
        final(tab).config == old(tab).config,
{
    tab.add_log(string_of("Preparing wallet backup..."));
}

} // verus!
