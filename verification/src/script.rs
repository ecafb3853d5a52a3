//! The launch-script store: which script file belongs to which network
//! profile, the built-in default templates, and how edited content is
//! prepared for saving. Reading and writing the file itself happens outside
//! the library; the content passes through here as plain text.

use vstd::prelude::*;

use crate::lines::{trim_end_spec, trim_end_text};
use vstd::string::StringExecFns;

verus! {

/// Which network the validator joins; selects the script file and template.
#[derive(Clone, Copy, Debug, PartialEq, Eq, Structural)]
pub enum NetworkProfile {
    Testnet,
    Mainnet,
}

/// The reference launch command for the test network, written verbatim the
/// first time the script file is created.
pub const DEFAULT_TESTNET_SCRIPT: &'static str = r#"#!/bin/bash
exec solana-validator \
    --identity ~/.config/solana/identity.json \
    --vote-account ~/.config/solana/vote.json \
    --known-validator Abt4r6uhFs7yPwR3jT5qbnLjBtasgHkRVAd1W6H5yonT \
    --known-validator 5NfpgFCwrYzcgJkda9bRJvccycLUo3dvVQsVAK2W43Um \
    --known-validator FcrZRBfVk2h634L9yvkysJdmvdAprq1NM4u263NuR6LC \
    --known-validator Tpsu5EYTJAXAat19VEh54zuauHvUBuryivSFRC3RiFk \
    --only-known-rpc \
    --log ./validator.log \
    --ledger ./ledger \
    --rpc-port 8899 \
    --full-rpc-api \
    --dynamic-port-range 8000-8020 \
    --entrypoint testnet.x1.xyz:8001 \
    --entrypoint testnet.x1.xyz:8000 \
    --entrypoint testnet.x1.xyz:8000 \
    --entrypoint owlnet.dev:8001 \
    --wal-recovery-mode skip_any_corrupted_record \
    --limit-ledger-size 50000000 \
    --enable-rpc-transaction-history \
    --enable-extended-tx-metadata-storage \
    --rpc-pubsub-enable-block-subscription \
    --full-snapshot-interval-slots 5000 \
    --maximum-incremental-snapshots-to-retain 10 \
    --maximum-full-snapshots-to-retain 50"#;

/// The placeholder launch script for the main network.
pub const DEFAULT_MAINNET_SCRIPT: &'static str = r#"#!/bin/bash
# Mainnet validator script will be added here
"#;

/// The script file that belongs to the given network profile.
pub open spec fn script_file_name_spec(network: NetworkProfile) -> Seq<char> {
    match network {
        NetworkProfile::Testnet => "validator-testnet.sh"@,
        NetworkProfile::Mainnet => "validator-mainnet.sh"@,
    }
}

/// The script file that belongs to the given network profile.
pub fn script_file_name(network: NetworkProfile) -> (r: String)
    ensures
        r@ == script_file_name_spec(network),
{
    match network {
        NetworkProfile::Testnet => String::from_str("validator-testnet.sh"),
        NetworkProfile::Mainnet => String::from_str("validator-mainnet.sh"),
    }
}

/// The built-in default template for the given network profile.
pub open spec fn default_script_spec(network: NetworkProfile) -> Seq<char> {
    match network {
        NetworkProfile::Testnet => DEFAULT_TESTNET_SCRIPT@,
        NetworkProfile::Mainnet => DEFAULT_MAINNET_SCRIPT@,
    }
}

/// The built-in default template for the given network profile.
pub fn default_script(network: NetworkProfile) -> (r: String)
    ensures
        r@ == default_script_spec(network),
{
    match network {
        NetworkProfile::Testnet => String::from_str(DEFAULT_TESTNET_SCRIPT),
        NetworkProfile::Mainnet => String::from_str(DEFAULT_MAINNET_SCRIPT),
    }
}

/// The script text to show for a network: the file's content where the file
/// exists, the default template otherwise.
pub fn get_script_content(network: NetworkProfile, existing: Option<String>) -> (r: String)
    ensures
        r@ == match existing {
            Option::Some(c) => c@,
            Option::None => default_script_spec(network),
        },
{
    match existing {
        Option::Some(c) => c,
        Option::None => default_script(network),
    }
}

/// What a save writes: the network's script file name and the edited content
/// with trailing whitespace removed.
pub fn prepare_save(network: NetworkProfile, content: &str) -> (r: (String, String))
    ensures
        r.0@ == script_file_name_spec(network),
        r.1@ == trim_end_spec(content@),
{
    (script_file_name(network), trim_end_text(content))
}

} // verus!
