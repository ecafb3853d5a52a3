use xoon::app::App;
use xoon::models::tab_page::TabPage;
use xoon::quit::QuitCounter;
use xoon::tailer::LogBatcher;
use xoon::wallets::{ledger_wallet, software_wallet, solana_cli};

#[test]
fn the_shell_starts_on_the_first_menu() {
    let app = App::new();
    assert_eq!(app.selected_menu, 0);
    assert_eq!(app.menu_items.len(), 3);
    assert_eq!(app.current_menu_item().name, "Solana CLI");
}

#[test]
fn menu_clicks_select_by_row() {
    let mut app = App::new();
    assert!(app.handle_menu_click(2));
    assert_eq!(app.selected_menu, 1);
    assert_eq!(app.current_menu_item().name, "Ledger Wallet");
    assert!(!app.handle_menu_click(0));
    assert!(!app.handle_menu_click(4));
    assert_eq!(app.selected_menu, 1);
}

#[test]
fn tab_clicks_activate_by_column() {
    let mut app = App::new();
    app.handle_menu_click(2);
    assert!(app.handle_tab_click(25, 10));
    assert_eq!(app.current_menu_item().active_tab, 2);
    assert!(!app.handle_tab_click(55, 10));
    assert_eq!(app.current_menu_item().active_tab, 2);
}

#[test]
fn current_menu_item_mut_edits_in_place() {
    let mut app = App::new();
    app.handle_menu_click(3);
    app.current_menu_item_mut().active_tab = 1;
    assert_eq!(app.current_menu_item().active_tab, 1);
}

#[test]
fn tab_pages_log_and_scroll() {
    let mut tab = TabPage::new("T".to_string());
    tab.add_log("one".to_string());
    tab.add_log("two".to_string());
    assert_eq!(tab.logs, vec!["one".to_string(), "two".to_string()]);
    assert_eq!(tab.scroll, 2);
}

#[test]
fn wallet_menus_have_their_tabs() {
    let ledger = ledger_wallet::create_ledger_menu();
    assert_eq!(ledger.name, "Ledger Wallet");
    assert_eq!(ledger.active_tab, 0);
    let names: Vec<&str> = ledger.tabs.iter().map(|t| t.name.as_str()).collect();
    assert_eq!(names, ["Master Key", "Identity", "Vote", "Stake"]);

    let software = software_wallet::create_software_menu();
    assert_eq!(software.name, "Software Wallet");
    assert_eq!(software.tabs.len(), 4);
}

#[test]
fn tab_handlers_log_their_messages() {
    let mut tab = TabPage::new("T".to_string());
    ledger_wallet::handle_master_key_tab(&mut tab);
    ledger_wallet::handle_identity_tab(&mut tab);
    ledger_wallet::handle_transfer_tab(&mut tab);
    ledger_wallet::handle_settings_tab(&mut tab);
    software_wallet::handle_create_import_tab(&mut tab);
    software_wallet::handle_transactions_tab(&mut tab);
    software_wallet::handle_backup_tab(&mut tab);
    assert_eq!(
        tab.logs,
        vec![
            "Attempting to connect to Ledger device...".to_string(),
            "Opening identity interface...".to_string(),
            "Opening transfer interface...".to_string(),
            "Loading Ledger settings...".to_string(),
            "Opening wallet creation/import interface...".to_string(),
            "Loading transaction history...".to_string(),
            "Preparing wallet backup...".to_string(),
        ]
    );
}

#[test]
fn cli_menu_carries_the_installation_guide() {
    let cli = solana_cli::create_cli_menu();
    assert_eq!(cli.name, "Solana CLI");
    assert_eq!(cli.tabs.len(), 1);
    let tab = &cli.tabs[0];
    assert_eq!(tab.name, "Install CLI");
    assert_eq!(tab.config.len(), 4);
    assert_eq!(tab.config[0], "Solana CLI Installation Guide:");
    assert_eq!(tab.config[3], "3. solana --version");
}

#[test]
fn install_check_reports_both_outcomes() {
    let mut tab = TabPage::new("Install CLI".to_string());
    solana_cli::handle_install_cli_tab(&mut tab, Some("solana-cli 1.17.0".to_string()));
    solana_cli::handle_install_cli_tab(&mut tab, None);
    assert_eq!(
        tab.logs,
        vec![
            "Solana CLI already installed: solana-cli 1.17.0".to_string(),
            "Solana CLI not found. Please follow the installation guide above.".to_string(),
        ]
    );
}

#[test]
fn batcher_flushes_on_the_size_threshold() {
    let mut batcher = LogBatcher::new();
    for i in 0..9 {
        assert_eq!(batcher.push(format!("l{}", i), 0), None);
    }
    let text = batcher.push("l9".to_string(), 0).expect("tenth line flushes");
    assert_eq!(text, "l0\nl1\nl2\nl3\nl4\nl5\nl6\nl7\nl8\nl9");
    assert_eq!(batcher.pending_len(), 0);
}

#[test]
fn batcher_flushes_on_the_time_threshold() {
    let mut batcher = LogBatcher::new();
    assert_eq!(batcher.push("early".to_string(), 99), None);
    let text = batcher.push("late".to_string(), 100).expect("elapsed time flushes");
    assert_eq!(text, "early\nlate");
}

#[test]
fn batcher_flush_drains_the_rest() {
    let mut batcher = LogBatcher::new();
    assert_eq!(batcher.flush(), None);
    batcher.push("a".to_string(), 0);
    batcher.push("b".to_string(), 0);
    assert_eq!(batcher.flush(), Some("a\nb".to_string()));
    assert_eq!(batcher.pending_len(), 0);
}

#[test]
fn quitting_takes_four_quick_presses() {
    let mut quit = QuitCounter::new(0);
    assert!(!quit.press(100));
    assert!(!quit.press(200));
    assert!(!quit.press(300));
    assert!(quit.press(400));
}

#[test]
fn a_pause_resets_the_quit_count() {
    let mut quit = QuitCounter::new(0);
    assert!(!quit.press(100));
    assert!(!quit.press(200));
    assert!(!quit.press(300));
    assert!(!quit.press(2500 + 300));
    assert!(!quit.press(2900));
    assert!(!quit.press(3000));
    assert!(quit.press(3100));
}
