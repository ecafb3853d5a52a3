//! The wallet and CLI menus of the console shell: builders for their menu
//! entries and the handlers behind their tabs.

pub mod ledger_wallet;
pub mod software_wallet;
pub mod solana_cli;
