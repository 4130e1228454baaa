use crate::address::{address_text, Address};
use crate::text::{decimal, u64_to_decimal};
use vstd::prelude::*;

verus! {

/// Why a command is refused before or after it talks to the chain.
#[derive(Debug, Clone, PartialEq, Eq)]
pub enum CliError {
    /// A count of minutes (or a timestamp) is too large for 64 bits once
    /// turned into seconds; the label names the argument.
    Overflow { label: String },
    /// A decimal amount that `parse_units` refuses.
    InvalidAmount { value: String, decimals: u8 },
    /// A raw base-unit amount that is not a decimal `uint256`.
    InvalidRawAmount { value: String },
    /// The system clock reads before the Unix epoch.
    ClockBeforeEpoch,
    /// Neither `--collateral` nor a default collateral in the deployment file.
    CollateralNotSet,
    /// The deployment file lacks a contract entry.
    MissingKey { key: String },
    /// A contract entry of the deployment file is not an address.
    InvalidAddress { key: String, raw: String },
    /// The deployment file's default collateral is not an address.
    InvalidDefaultCollateral,
    /// A write command without a private key.
    MissingPrivateKey,
    /// The private key is not a valid secp256k1 key in hexadecimal.
    InvalidPrivateKey,
    /// The sale may not pull the amount from the wallet yet.
    InsufficientAllowance { allowance: String, required: String },
    /// The wallet holds less collateral than the amount.
    InsufficientBalance { balance: String, required: String },
    /// A sale command that names neither a sale nor a project.
    SaleTargetMissing,
    /// The factory has no collateral management, so it cannot set collateral.
    SetCollateralUnsupported { factory: Address },
    /// The factory has no collateral management, so it cannot report on collateral.
    CollateralQueryUnsupported { factory: Address },
}

impl CliError {
    /// An `Overflow` error naming `label`.
    pub open spec fn is_overflow_on(self, label: Seq<char>) -> bool {
        match self {
            CliError::Overflow { label: l } => l@ == label,
            _ => false,
        }
    }

    /// An `InvalidAmount` error naming `value` and `decimals`.
    pub open spec fn is_invalid_amount(self, value: Seq<char>, decimals: u8) -> bool {
        match self {
            CliError::InvalidAmount { value: v, decimals: d } => v@ == value && d == decimals,
            _ => false,
        }
    }

    /// A `MissingKey` error naming `key`.
    pub open spec fn is_missing_key(self, key: Seq<char>) -> bool {
        match self {
            CliError::MissingKey { key: k } => k@ == key,
            _ => false,
        }
    }

    /// An `InvalidAddress` error naming `key` and the text `raw`.
    pub open spec fn is_invalid_address(self, key: Seq<char>, raw: Seq<char>) -> bool {
        match self {
            CliError::InvalidAddress { key: k, raw: r } => k@ == key && r@ == raw,
            _ => false,
        }
    }

    /// An `InvalidRawAmount` error naming `value`.
    pub open spec fn is_invalid_raw_amount(self, value: Seq<char>) -> bool {
        match self {
            CliError::InvalidRawAmount { value: v } => v@ == value,
            _ => false,
        }
    }

    /// The message of the error, as the command line prints it.
    pub open spec fn message_text(self) -> Seq<char> {
        match self {
            CliError::Overflow { label } => "overflow on "@ + label@,
            CliError::InvalidAmount { value, decimals } => "invalid amount `"@ + value@ + "` for "@
                + decimal(decimals as nat) + " decimals"@,
            CliError::InvalidRawAmount { value } => "invalid raw uint256 amount `"@ + value@
                + "`"@,
            CliError::ClockBeforeEpoch => "system clock before unix epoch"@,
            CliError::CollateralNotSet =>
                "collateral not set: pass --collateral or configure USDM in deployment file"@,
            CliError::MissingKey { key } => "missing key `"@ + key@ + "` in deployment file"@,
            CliError::InvalidAddress { key, raw } => "invalid address for key `"@ + key@ + "`: "@
                + raw@,
            CliError::InvalidDefaultCollateral => "invalid USDM address in deployment file"@,
            CliError::MissingPrivateKey =>
                "write command: set --private-key or BACKED_PRIVATE_KEY"@,
            CliError::InvalidPrivateKey => "invalid private key format"@,
            CliError::InsufficientAllowance { allowance, required } =>
                "insufficient allowance: allowance="@ + allowance@ + " required="@ + required@
                + ". Run `sale approve-collateral` first."@,
            CliError::InsufficientBalance { balance, required } =>
                "insufficient balance: balance="@ + balance@ + " required="@ + required@,
            CliError::SaleTargetMissing => "set --sale or --project-id"@,
            CliError::SetCollateralUnsupported { factory } => "factory "@ + address_text(factory@)
                + " does not support set-collateral (allowedCollateral missing). Use a latest AgentRaiseFactory address."@,
            CliError::CollateralQueryUnsupported { factory } => "factory "@ + address_text(
                factory@,
            ) + " does not expose allowedCollateral(address). Likely legacy deployment."@,
        }
    }

    /// The message of the error.
    pub fn message(&self) -> (s: String)
        ensures
            s@ == self.message_text(),
    {
        match self {
            CliError::Overflow { label } => {
                let mut s = "overflow on ".to_owned();
                s.append(label.as_str());
                s
            },
            CliError::InvalidAmount { value, decimals } => {
                let mut s = "invalid amount `".to_owned();
                s.append(value.as_str());
                s.append("` for ");
                let d = u64_to_decimal(*decimals as u64);
                s.append(d.as_str());
                s.append(" decimals");
                s
            },
            CliError::InvalidRawAmount { value } => {
                let mut s = "invalid raw uint256 amount `".to_owned();
                s.append(value.as_str());
                s.append("`");
                s
            },
            CliError::ClockBeforeEpoch => "system clock before unix epoch".to_owned(),
            CliError::CollateralNotSet => {
                "collateral not set: pass --collateral or configure USDM in deployment file".to_owned()
            },
            CliError::MissingKey { key } => {
                let mut s = "missing key `".to_owned();
                s.append(key.as_str());
                s.append("` in deployment file");
                s
            },
            CliError::InvalidAddress { key, raw } => {
                let mut s = "invalid address for key `".to_owned();
                s.append(key.as_str());
                s.append("`: ");
                s.append(raw.as_str());
                s
            },
            CliError::InvalidDefaultCollateral => {
                "invalid USDM address in deployment file".to_owned()
            },
            CliError::MissingPrivateKey => {
                "write command: set --private-key or BACKED_PRIVATE_KEY".to_owned()
            },
            CliError::InvalidPrivateKey => "invalid private key format".to_owned(),
            CliError::InsufficientAllowance { allowance, required } => {
                let mut s = "insufficient allowance: allowance=".to_owned();
                s.append(allowance.as_str());
                s.append(" required=");
                s.append(required.as_str());
                s.append(". Run `sale approve-collateral` first.");
                s
            },
            CliError::InsufficientBalance { balance, required } => {
                let mut s = "insufficient balance: balance=".to_owned();
                s.append(balance.as_str());
                s.append(" required=");
                s.append(required.as_str());
                s
            },
            CliError::SaleTargetMissing => "set --sale or --project-id".to_owned(),
            CliError::SetCollateralUnsupported { factory } => {
                let mut s = "factory ".to_owned();
                let a = factory.to_text();
                s.append(a.as_str());
                s.append(
                    " does not support set-collateral (allowedCollateral missing). Use a latest AgentRaiseFactory address.",
                );
                s
            },
            CliError::CollateralQueryUnsupported { factory } => {
                let mut s = "factory ".to_owned();
                let a = factory.to_text();
                s.append(a.as_str());
                s.append(" does not expose allowedCollateral(address). Likely legacy deployment.");
                s
            },
        }
    }
}

} // verus!
