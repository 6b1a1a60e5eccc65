//! The token that stands in for an asset of the host chain: its errors, its
//! announcements, and how a failure of the host is reported.
use vstd::prelude::*;

use crate::types::{AccountId, Balance};

verus! {

/// What the host's asset extension can fail with.
#[derive(Debug, PartialEq, Eq, Clone)]
pub enum Psp22ErrorExtension {
    TotalSupplyFailed,
    BalanceOfFailed,
    AllowanceFailed,
    TransferFailed,
    TransferFromFailed,
    ApproveFailed,
    BalanceNoAllocated,
    CallerNotAllowed,
    BalanceTooLow,
    BalanceTooHigh,
    BalanceNotZero,
    InconsistentState,
    InsufficientAllowance,
    IncreaseAllowanceFailed,
    InsufficientBalance,
    DecreaseAllowanceFailed,
    TokenNameFailed,
    TokenSymbolFailed,
    TokenDecimalsFailed,
    MintFailed,
    BurnFailed,
    Custom(String),
}

/// What a token answers a request that it refuses.
#[derive(Debug, PartialEq, Eq, Clone)]
pub enum PSP22Error {
    Custom(String),
    InsufficientBalance,
    InsufficientAllowance,
    ZeroRecipientAddress,
    ZeroSenderAddress,
    SafeTransferCheckFailed(String),
}

/// Tokens moved; from nobody where they were minted, to nobody where they
/// were burnt.
#[derive(Debug, PartialEq, Eq, Clone, Copy)]
pub struct Transfer {
    pub from: Option<AccountId>,
    pub to: Option<AccountId>,
    pub value: Balance,
}

/// An owner allowed a spender to move this much.
#[derive(Debug, PartialEq, Eq, Clone, Copy)]
pub struct Approval {
    pub owner: AccountId,
    pub spender: AccountId,
    pub value: Balance,
}

/// The token of the asset with the number `asset_id` on the host chain.
#[derive(Debug, PartialEq, Eq, Clone, Copy, Default)]
pub struct MyPSP22 {
    asset_id: u32,
}

/// What the host's status code says: zero is success, one to eleven name a
/// failure each.
pub open spec fn status_result(status_code: u32) -> Result<(), Psp22ErrorExtension> {
    if status_code == 0 {
        Ok(())
    } else if status_code == 1 {
        Err(Psp22ErrorExtension::TotalSupplyFailed)
    } else if status_code == 2 {
        Err(Psp22ErrorExtension::BalanceOfFailed)
    } else if status_code == 3 {
        Err(Psp22ErrorExtension::AllowanceFailed)
    } else if status_code == 4 {
        Err(Psp22ErrorExtension::TransferFailed)
    } else if status_code == 5 {
        Err(Psp22ErrorExtension::TransferFromFailed)
    } else if status_code == 6 {
        Err(Psp22ErrorExtension::ApproveFailed)
    } else if status_code == 7 {
        Err(Psp22ErrorExtension::IncreaseAllowanceFailed)
    } else if status_code == 8 {
        Err(Psp22ErrorExtension::DecreaseAllowanceFailed)
    } else if status_code == 9 {
        Err(Psp22ErrorExtension::TokenNameFailed)
    } else if status_code == 10 {
        Err(Psp22ErrorExtension::TokenSymbolFailed)
    } else {
        Err(Psp22ErrorExtension::TokenDecimalsFailed)
    }
}

impl Psp22ErrorExtension {
    /// The name of the failure; of a custom one, its message.
    pub open spec fn text(&self) -> Seq<char> {
        match self {
            Psp22ErrorExtension::TotalSupplyFailed => "TotalSupplyFailed"@,
            Psp22ErrorExtension::BalanceOfFailed => "BalanceOfFailed"@,
            Psp22ErrorExtension::AllowanceFailed => "AllowanceFailed"@,
            Psp22ErrorExtension::TransferFailed => "TransferFailed"@,
            Psp22ErrorExtension::TransferFromFailed => "TransferFromFailed"@,
            Psp22ErrorExtension::ApproveFailed => "ApproveFailed"@,
            Psp22ErrorExtension::BalanceNoAllocated => "BalanceNoAllocated"@,
            Psp22ErrorExtension::CallerNotAllowed => "CallerNotAllowed"@,
            Psp22ErrorExtension::BalanceTooLow => "BalanceTooLow"@,
            Psp22ErrorExtension::BalanceTooHigh => "BalanceTooHigh"@,
            Psp22ErrorExtension::BalanceNotZero => "BalanceNotZero"@,
            Psp22ErrorExtension::InconsistentState => "InconsistentState"@,
            Psp22ErrorExtension::InsufficientAllowance => "InsufficientAllowance"@,
            Psp22ErrorExtension::IncreaseAllowanceFailed => "IncreaseAllowanceFailed"@,
            Psp22ErrorExtension::InsufficientBalance => "InsufficientBalance"@,
            Psp22ErrorExtension::DecreaseAllowanceFailed => "DecreaseAllowanceFailed"@,
            Psp22ErrorExtension::TokenNameFailed => "TokenNameFailed"@,
            Psp22ErrorExtension::TokenSymbolFailed => "TokenSymbolFailed"@,
            Psp22ErrorExtension::TokenDecimalsFailed => "TokenDecimalsFailed"@,
            Psp22ErrorExtension::MintFailed => "MintFailed"@,
            Psp22ErrorExtension::BurnFailed => "BurnFailed"@,
            Psp22ErrorExtension::Custom(msg) => msg@,
        }
    }

    /// The name of the failure; of a custom one, its message.
    pub fn as_str(&self) -> (r: String)
        ensures
            r@ == self.text(),
    {
        match self {
            Psp22ErrorExtension::TotalSupplyFailed => "TotalSupplyFailed".to_owned(),
            Psp22ErrorExtension::BalanceOfFailed => "BalanceOfFailed".to_owned(),
            Psp22ErrorExtension::AllowanceFailed => "AllowanceFailed".to_owned(),
            Psp22ErrorExtension::TransferFailed => "TransferFailed".to_owned(),
            Psp22ErrorExtension::TransferFromFailed => "TransferFromFailed".to_owned(),
            Psp22ErrorExtension::ApproveFailed => "ApproveFailed".to_owned(),
            Psp22ErrorExtension::BalanceNoAllocated => "BalanceNoAllocated".to_owned(),
            Psp22ErrorExtension::CallerNotAllowed => "CallerNotAllowed".to_owned(),
            Psp22ErrorExtension::BalanceTooLow => "BalanceTooLow".to_owned(),
            Psp22ErrorExtension::BalanceTooHigh => "BalanceTooHigh".to_owned(),
            Psp22ErrorExtension::BalanceNotZero => "BalanceNotZero".to_owned(),
            Psp22ErrorExtension::InconsistentState => "InconsistentState".to_owned(),
            Psp22ErrorExtension::InsufficientAllowance => "InsufficientAllowance".to_owned(),
            Psp22ErrorExtension::InsufficientBalance => "InsufficientBalance".to_owned(),
            Psp22ErrorExtension::IncreaseAllowanceFailed => "IncreaseAllowanceFailed".to_owned(),
            Psp22ErrorExtension::DecreaseAllowanceFailed => "DecreaseAllowanceFailed".to_owned(),
            Psp22ErrorExtension::TokenNameFailed => "TokenNameFailed".to_owned(),
            Psp22ErrorExtension::TokenSymbolFailed => "TokenSymbolFailed".to_owned(),
            Psp22ErrorExtension::TokenDecimalsFailed => "TokenDecimalsFailed".to_owned(),
            Psp22ErrorExtension::Custom(msg) => msg.clone(),
            Psp22ErrorExtension::MintFailed => "MintFailed".to_owned(),
            Psp22ErrorExtension::BurnFailed => "BurnFailed".to_owned(),
        }
    }

    /// Reads the host's status code; the host sends none above eleven.
    pub fn from_status_code(status_code: u32) -> (r: Result<(), Self>)
        requires
            status_code <= 11,
        ensures
            r == status_result(status_code),
    {
        match status_code {
            0 => Ok(()),
            1 => Err(Psp22ErrorExtension::TotalSupplyFailed),
            2 => Err(Psp22ErrorExtension::BalanceOfFailed),
            3 => Err(Psp22ErrorExtension::AllowanceFailed),
            4 => Err(Psp22ErrorExtension::TransferFailed),
            5 => Err(Psp22ErrorExtension::TransferFromFailed),
            6 => Err(Psp22ErrorExtension::ApproveFailed),
            7 => Err(Psp22ErrorExtension::IncreaseAllowanceFailed),
            8 => Err(Psp22ErrorExtension::DecreaseAllowanceFailed),
            9 => Err(Psp22ErrorExtension::TokenNameFailed),
            10 => Err(Psp22ErrorExtension::TokenSymbolFailed),
            _ => Err(Psp22ErrorExtension::TokenDecimalsFailed),
        }
    }
}

/// What the token answers where the host answered `response` to a request
/// whose failure goes by the name of `failure`: the host's value where it
/// gave one, and else a custom error with the name of `failure` as its text,
/// whatever the host failed with.
pub fn report<T>(response: Result<T, Psp22ErrorExtension>, failure: Psp22ErrorExtension) -> (r:
    Result<T, PSP22Error>)
    ensures
        match response {
            Ok(value) => r == Ok::<T, PSP22Error>(value),
            Err(_) => r matches Err(PSP22Error::Custom(text)) && text@ == failure.text(),
        },
{
    match response {
        Ok(value) => Ok(value),
        Err(_) => Err(PSP22Error::Custom(failure.as_str())),
    }
}

/// The amount that the token answers where the host answered `response` to a
/// query: the host's amount, and nothing where the host failed.
pub fn amount_or_zero(response: Result<Balance, Psp22ErrorExtension>) -> (r: Balance)
    ensures
        r == (match response {
            Ok(amount) => amount,
            Err(_) => 0,
        }),
{
    match response {
        Ok(amount) => amount,
        Err(_) => 0,
    }
}

impl MyPSP22 {
    /// The number of the asset on the host chain.
    pub closed spec fn spec_asset_id(&self) -> u32 {
        self.asset_id
    }

    /// The token of the asset with the number `asset_id`.
    pub fn new(asset_id: u32) -> (r: Self)
        ensures
            r.spec_asset_id() == asset_id,
    {
        MyPSP22 { asset_id }
    }

    /// The number of the asset on the host chain.
    #[verifier::when_used_as_spec(spec_asset_id)]
    pub fn asset_id(&self) -> (r: u32)
        ensures
            r == self.spec_asset_id(),
    {
        self.asset_id
    }

    /// The announcement that `amount` moved.
    pub fn _emit_transfer_event(
        &self,
        from: Option<AccountId>,
        to: Option<AccountId>,
        amount: Balance,
    ) -> (r: Transfer)
        ensures
            r == (Transfer { from, to, value: amount }),
    {
        Transfer { from, to, value: amount }
    }

    /// The announcement that `owner` allowed `spender` to move `amount`.
    pub fn _emit_approval_event(&self, owner: AccountId, spender: AccountId, amount: Balance) -> (r:
        Approval)
        ensures
            r == (Approval { owner, spender, value: amount }),
    {
        Approval { owner, spender, value: amount }
    }
}

} // verus!
