//! The console shell's top-level model: the menu entries and which of them
//! is selected, with the click handling that drives them.

use vstd::prelude::*;

use crate::models::menu_item::MenuItem;
use crate::wallets::{ledger_wallet, software_wallet, solana_cli};

verus! {

/// The console shell: its menus and the current selection.
pub struct App {
    pub menu_items: Vec<MenuItem>,
    pub selected_menu: usize,
}

impl App {
    /// The selection always points at a menu entry.
    pub open spec fn wf(&self) -> bool {
        self.selected_menu < self.menu_items@.len()
    }

    /// The shell with its three menus, the first selected.
    pub fn new() -> (r: App)
        ensures
            r.wf(),
            r.selected_menu == 0,
            r.menu_items@.len() == 3,
            r.menu_items@[0].name@ == "Solana CLI"@,
            r.menu_items@[1].name@ == "Ledger Wallet"@,
            r.menu_items@[2].name@ == "Software Wallet"@,
    {
        let mut menu_items: Vec<MenuItem> = Vec::new();
        menu_items.push(solana_cli::create_cli_menu());
        menu_items.push(ledger_wallet::create_ledger_menu());
        menu_items.push(software_wallet::create_software_menu());
        App { menu_items, selected_menu: 0 }
    }

    /// Selects the menu entry on the clicked row (the list starts one row
    /// down); a click outside the list changes nothing.
    pub fn handle_menu_click(&mut self, row: u16) -> (r: bool)
        requires
            old(self).wf(),
        ensures
            final(self).wf(),
            final(self).menu_items == old(self).menu_items,
            r == (1 <= row && row - 1 < old(self).menu_items@.len()),
            r ==> final(self).selected_menu == row - 1,
            !r ==> final(self).selected_menu == old(self).selected_menu,
    {
        if row >= 1 {
            let index = row - 1;
            if (index as usize) < self.menu_items.len() {
                self.selected_menu = index as usize;
                return true;
            }
        }
        false
    }

    /// The selected menu entry.
    pub fn current_menu_item(&self) -> (r: &MenuItem)
        requires
            self.wf(),
        ensures
            *r == self.menu_items@[self.selected_menu as int],
    {
        &self.menu_items[self.selected_menu]
    }

    /// The selected menu entry, for mutation in place.
    pub fn current_menu_item_mut(&mut self) -> (r: &mut MenuItem)
        requires
            old(self).wf(),
        ensures
            *r == old(self).menu_items@[old(self).selected_menu as int],
            final(self).selected_menu == old(self).selected_menu,
            final(self).menu_items@ == old(self).menu_items@.update(
                old(self).selected_menu as int,
                *final(r),
            ),
            final(self).wf(),
    {
        let i = self.selected_menu;
        &mut self.menu_items[i]
    }

    /// Activates the tab under the clicked column, given the width of one
    /// tab button; a click past the last tab changes nothing.
    pub fn handle_tab_click(&mut self, relative_column: u16, tab_width: u16) -> (r: bool)
        requires
            old(self).wf(),
            tab_width > 0,
        ensures
            final(self).wf(),
            final(self).selected_menu == old(self).selected_menu,
            ({
                let sel = old(self).selected_menu as int;
                let clicked = relative_column as int / tab_width as int;
                &&& r == (clicked < old(self).menu_items@[sel].tabs@.len())
                &&& r ==> final(self).menu_items@ == old(self).menu_items@.update(
                    sel,
                    MenuItem {
                        active_tab: clicked as usize,
                        ..old(self).menu_items@[sel]
                    },
                )
                &&& !r ==> *final(self) == *old(self)
            }),
    {
        let clicked_tab = (relative_column / tab_width) as usize;
        let i = self.selected_menu;
        if clicked_tab < self.menu_items[i].tabs.len() {
            let item = &mut self.menu_items[i];
            item.active_tab = clicked_tab;
            true
        } else {
            false
        }
    }
}

} // verus!
