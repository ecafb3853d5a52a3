use xoon::probe::{
    extract_ledger_path, extract_log_path, extract_solana_path, extract_validator_path,
    output_indicates_running,
};
use xoon::script::{default_script, script_file_name, NetworkProfile};

#[test]
fn process_listing_with_the_validator_name_means_running() {
    let listing = "root 4242 0.3 1.2 solana-validator --ledger ./ledger\n";
    assert!(output_indicates_running(listing));
    assert!(!output_indicates_running("root 1 0.0 init\nroot 2 bash\n"));
}

#[test]
fn default_testnet_script_yields_the_expected_paths() {
    let script = default_script(NetworkProfile::Testnet);
    assert_eq!(
        extract_validator_path(&script),
        Some("solana-validator".to_string())
    );
    assert_eq!(extract_ledger_path(&script), Some("./ledger".to_string()));
    assert_eq!(extract_log_path(&script), Some("./validator.log".to_string()));
}

#[test]
fn solana_tool_sits_beside_the_validator_binary() {
    let script = default_script(NetworkProfile::Testnet);
    assert_eq!(extract_solana_path(&script), Some("solana".to_string()));

    let abs = "#!/bin/bash\nexec /usr/local/bin/solana-validator \\\n    --ledger ./ledger";
    assert_eq!(
        extract_solana_path(abs),
        Some("/usr/local/bin/solana".to_string())
    );
}

#[test]
fn extraction_needs_whitespace_after_the_marker() {
    assert_eq!(extract_validator_path("execsolana-validator"), None);
    assert_eq!(
        extract_validator_path("reexec  here\nexec target"),
        Some("here".to_string())
    );
}

#[test]
fn capture_stops_at_whitespace_and_backslash() {
    assert_eq!(
        extract_ledger_path("--ledger /data/ledger \\\n --log x"),
        Some("/data/ledger".to_string())
    );
    assert_eq!(extract_ledger_path("--ledger \\\n"), None);
}

#[test]
fn missing_markers_yield_nothing() {
    assert_eq!(extract_validator_path(""), None);
    assert_eq!(extract_ledger_path("exec solana-validator"), None);
    assert_eq!(extract_solana_path("echo hello"), None);
}

#[test]
fn empty_mainnet_template_has_no_launch_line() {
    let script = default_script(NetworkProfile::Mainnet);
    assert_eq!(extract_validator_path(&script), None);
    assert_eq!(extract_solana_path(&script), None);
}

#[test]
fn script_files_are_named_by_network() {
    assert_eq!(
        script_file_name(NetworkProfile::Testnet),
        "validator-testnet.sh"
    );
    assert_eq!(
        script_file_name(NetworkProfile::Mainnet),
        "validator-mainnet.sh"
    );
}

#[test]
fn testnet_template_is_a_launch_script() {
    let script = default_script(NetworkProfile::Testnet);
    assert!(script.starts_with("#!/bin/bash\nexec solana-validator"));
    assert!(script.contains("--entrypoint testnet.x1.xyz:8001"));
}
