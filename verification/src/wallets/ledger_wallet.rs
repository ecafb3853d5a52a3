//! The hardware-wallet menu: its tabs and the placeholder handlers that log
//! what each tab is about to do.

use vstd::prelude::*;

use crate::events::string_of;
use crate::models::menu_item::MenuItem;
use crate::models::tab_page::TabPage;

verus! {

/// The hardware-wallet menu entry with its four tabs.
pub fn create_ledger_menu() -> (r: MenuItem)
    ensures
        r.name@ == "Ledger Wallet"@,
        r.active_tab == 0,
        r.tabs@.len() == 4,
        r.tabs@[0].name@ == "Master Key"@,
        r.tabs@[1].name@ == "Identity"@,
        r.tabs@[2].name@ == "Vote"@,
        r.tabs@[3].name@ == "Stake"@,
        forall|i: int| 0 <= i < 4 ==> (#[trigger] r.tabs@[i]).logs@.len() == 0,
{
    let mut tabs: Vec<TabPage> = Vec::new();
    tabs.push(TabPage::new(string_of("Master Key")));
    tabs.push(TabPage::new(string_of("Identity")));
    tabs.push(TabPage::new(string_of("Vote")));
    tabs.push(TabPage::new(string_of("Stake")));
    assert(tabs@[0].logs@.len() == 0);
    assert(tabs@[1].logs@.len() == 0);
    assert(tabs@[2].logs@.len() == 0);
    assert(tabs@[3].logs@.len() == 0);
    MenuItem::new(string_of("Ledger Wallet"), tabs)
}

/// Opens the identity tab.
pub fn handle_identity_tab(tab: &mut TabPage)
    ensures
        final(tab).logs.deep_view() == old(tab).logs.deep_view().push(
            "Opening identity interface..."@,
        ),
        final(tab).scroll == (old(tab).logs@.len() + 1) as u16,
        final(tab).name == old(tab).name,
        final(tab).config == old(tab).config,
{
    tab.add_log(string_of("Opening identity interface..."));
}

/// Opens the master-key tab.
pub fn handle_master_key_tab(tab: &mut TabPage)
    ensures
        final(tab).logs.deep_view() == old(tab).logs.deep_view().push(
            "Attempting to connect to Ledger device..."@,
        ),
        final(tab).scroll == (old(tab).logs@.len() + 1) as u16,
        final(tab).name == old(tab).name,
        final(tab).config == old(tab).config,
{
    tab.add_log(string_of("Attempting to connect to Ledger device..."));
}

/// Opens the transfer tab.
pub fn handle_transfer_tab(tab: &mut TabPage)
    ensures
        final(tab).logs.deep_view() == old(tab).logs.deep_view().push(
            "Opening transfer interface..."@,
        ),
        final(tab).scroll == (old(tab).logs@.len() + 1) as u16,
        final(tab).name == old(tab).name,
        final(tab).config == old(tab).config,
{
    tab.add_log(string_of("Opening transfer interface..."));
}

/// Opens the settings tab.
pub fn handle_settings_tab(tab: &mut TabPage)
    ensures
        final(tab).logs.deep_view() == old(tab).logs.deep_view().push(
            "Loading Ledger settings..."@,
        ),
        final(tab).scroll == (old(tab).logs@.len() + 1) as u16,
        final(tab).name == old(tab).name,
        final(tab).config == old(tab).config,
{
    tab.add_log(string_of("Loading Ledger settings..."));
}

} // verus!
