//! The CLI menu: an installation guide tab, and a handler that reports
//! whether the CLI is installed from a version probe made outside the
//! library.

use vstd::prelude::*;

use crate::events::string_of;
use crate::models::menu_item::MenuItem;
use crate::models::tab_page::TabPage;
use vstd::string::StringExecFns;

verus! {

/// The CLI menu entry, holding the installation guide.
pub fn create_cli_menu() -> (r: MenuItem)
    ensures
        r.name@ == "Solana CLI"@,
        r.active_tab == 0,
        r.tabs@.len() == 1,
        r.tabs@[0].name@ == "Install CLI"@,
        r.tabs@[0].logs@.len() == 0,
        r.tabs@[0].config.deep_view() == seq![
            "Solana CLI Installation Guide:"@,
            "1. sh -c \"$(curl -sSfL https://release.solana.com/v1.17.0/install)\""@,
            "2. export PATH=\"/root/.local/share/solana/install/active_release/bin:$PATH\""@,
            "3. solana --version"@,
        ],
{
    let mut tab = TabPage::new(string_of("Install CLI"));
    let ghost c0 = tab.config.deep_view();
    tab.config.push(string_of("Solana CLI Installation Guide:"));
    tab.config.push(
        string_of("1. sh -c \"$(curl -sSfL https://release.solana.com/v1.17.0/install)\""),
    );
    tab.config.push(
        string_of("2. export PATH=\"/root/.local/share/solana/install/active_release/bin:$PATH\""),
    );
    tab.config.push(string_of("3. solana --version"));
    assert(tab.config.deep_view() =~~= seq![
        "Solana CLI Installation Guide:"@,
        "1. sh -c \"$(curl -sSfL https://release.solana.com/v1.17.0/install)\""@,
        "2. export PATH=\"/root/.local/share/solana/install/active_release/bin:$PATH\""@,
        "3. solana --version"@,
    ]);
    let mut tabs: Vec<TabPage> = Vec::new();
    tabs.push(tab);
    MenuItem::new(string_of("Solana CLI"), tabs)
}

/// The log line the installation check writes, given the version text the
/// probe reported for an installed CLI.
pub open spec fn install_cli_msg(version_output: Option<Seq<char>>) -> Seq<char> {
    match version_output {
        Option::Some(version) => "Solana CLI already installed: "@ + version,
        Option::None => "Solana CLI not found. Please follow the installation guide above."@,
    }
}

/// Reports the installation check's outcome on the tab: `version_output` is
/// the version text of an installed CLI, or nothing when the probe failed.
pub fn handle_install_cli_tab(tab: &mut TabPage, version_output: Option<String>)
    ensures
        final(tab).logs.deep_view() == old(tab).logs.deep_view().push(
            install_cli_msg(version_output.deep_view()),
        ),
        final(tab).scroll == (old(tab).logs@.len() + 1) as u16,
        final(tab).name == old(tab).name,
        final(tab).config == old(tab).config,
{
    match version_output {
        Option::Some(version) => {
            let msg = string_of("Solana CLI already installed: ").concat(version.as_str());
            tab.add_log(msg);
        },
        Option::None => {
            tab.add_log(
                string_of("Solana CLI not found. Please follow the installation guide above."),
            );
        },
    }
}

} // verus!
