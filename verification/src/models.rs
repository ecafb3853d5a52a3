//! Data model of the menu-driven console shell: menu entries and the tab
//! pages they hold.

pub mod menu_item;
pub mod tab_page;
