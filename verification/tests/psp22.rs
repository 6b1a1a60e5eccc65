use uniswap_v2::psp22::{
    amount_or_zero, report, Approval, MyPSP22, PSP22Error, Psp22ErrorExtension, Transfer,
};
use uniswap_v2::types::AccountId;

fn alice() -> AccountId {
    AccountId::from([1u8; 32])
}

fn bob() -> AccountId {
    AccountId::from([2u8; 32])
}

#[test]
fn failures_have_their_names() {
    assert_eq!(Psp22ErrorExtension::TotalSupplyFailed.as_str(), "TotalSupplyFailed");
    assert_eq!(Psp22ErrorExtension::BalanceOfFailed.as_str(), "BalanceOfFailed");
    assert_eq!(Psp22ErrorExtension::AllowanceFailed.as_str(), "AllowanceFailed");
    assert_eq!(Psp22ErrorExtension::TransferFailed.as_str(), "TransferFailed");
    assert_eq!(Psp22ErrorExtension::TransferFromFailed.as_str(), "TransferFromFailed");
    assert_eq!(Psp22ErrorExtension::ApproveFailed.as_str(), "ApproveFailed");
    assert_eq!(Psp22ErrorExtension::BalanceNoAllocated.as_str(), "BalanceNoAllocated");
    assert_eq!(Psp22ErrorExtension::CallerNotAllowed.as_str(), "CallerNotAllowed");
    assert_eq!(Psp22ErrorExtension::BalanceTooLow.as_str(), "BalanceTooLow");
    assert_eq!(Psp22ErrorExtension::BalanceTooHigh.as_str(), "BalanceTooHigh");
    assert_eq!(Psp22ErrorExtension::BalanceNotZero.as_str(), "BalanceNotZero");
    assert_eq!(Psp22ErrorExtension::InconsistentState.as_str(), "InconsistentState");
    assert_eq!(Psp22ErrorExtension::InsufficientAllowance.as_str(), "InsufficientAllowance");
    assert_eq!(
        Psp22ErrorExtension::IncreaseAllowanceFailed.as_str(),
        "IncreaseAllowanceFailed"
    );
    assert_eq!(Psp22ErrorExtension::InsufficientBalance.as_str(), "InsufficientBalance");
    assert_eq!(
        Psp22ErrorExtension::DecreaseAllowanceFailed.as_str(),
        "DecreaseAllowanceFailed"
    );
    assert_eq!(Psp22ErrorExtension::TokenNameFailed.as_str(), "TokenNameFailed");
    assert_eq!(Psp22ErrorExtension::TokenSymbolFailed.as_str(), "TokenSymbolFailed");
    assert_eq!(Psp22ErrorExtension::TokenDecimalsFailed.as_str(), "TokenDecimalsFailed");
    assert_eq!(Psp22ErrorExtension::MintFailed.as_str(), "MintFailed");
    assert_eq!(Psp22ErrorExtension::BurnFailed.as_str(), "BurnFailed");
    assert_eq!(Psp22ErrorExtension::Custom("out of gas".to_string()).as_str(), "out of gas");
}

#[test]
fn status_codes_name_failures() {
    assert_eq!(Psp22ErrorExtension::from_status_code(0), Ok(()));
    assert_eq!(
        Psp22ErrorExtension::from_status_code(1),
        Err(Psp22ErrorExtension::TotalSupplyFailed)
    );
    assert_eq!(
        Psp22ErrorExtension::from_status_code(2),
        Err(Psp22ErrorExtension::BalanceOfFailed)
    );
    assert_eq!(
        Psp22ErrorExtension::from_status_code(3),
        Err(Psp22ErrorExtension::AllowanceFailed)
    );
    assert_eq!(
        Psp22ErrorExtension::from_status_code(4),
        Err(Psp22ErrorExtension::TransferFailed)
    );
    assert_eq!(
        Psp22ErrorExtension::from_status_code(5),
        Err(Psp22ErrorExtension::TransferFromFailed)
    );
    assert_eq!(
        Psp22ErrorExtension::from_status_code(6),
        Err(Psp22ErrorExtension::ApproveFailed)
    );
    assert_eq!(
        Psp22ErrorExtension::from_status_code(7),
        Err(Psp22ErrorExtension::IncreaseAllowanceFailed)
    );
    assert_eq!(
        Psp22ErrorExtension::from_status_code(8),
        Err(Psp22ErrorExtension::DecreaseAllowanceFailed)
    );
    assert_eq!(
        Psp22ErrorExtension::from_status_code(9),
        Err(Psp22ErrorExtension::TokenNameFailed)
    );
    assert_eq!(
        Psp22ErrorExtension::from_status_code(10),
        Err(Psp22ErrorExtension::TokenSymbolFailed)
    );
    assert_eq!(
        Psp22ErrorExtension::from_status_code(11),
        Err(Psp22ErrorExtension::TokenDecimalsFailed)
    );
}

#[test]
fn a_failure_of_the_host_is_reported_by_the_requests_name() {
    let failed: Result<(), Psp22ErrorExtension> = Err(Psp22ErrorExtension::BalanceTooLow);
    assert_eq!(
        report(failed, Psp22ErrorExtension::TransferFailed),
        Err(PSP22Error::Custom("TransferFailed".to_string()))
    );
    let failed: Result<u8, Psp22ErrorExtension> =
        Err(Psp22ErrorExtension::Custom("whatever".to_string()));
    assert_eq!(
        report(failed, Psp22ErrorExtension::TokenDecimalsFailed),
        Err(PSP22Error::Custom("TokenDecimalsFailed".to_string()))
    );
    let name: Result<Vec<u8>, Psp22ErrorExtension> = Ok(vec![76, 85]);
    assert_eq!(report(name, Psp22ErrorExtension::TokenNameFailed), Ok(vec![76, 85]));
    assert_eq!(report(Ok(()), Psp22ErrorExtension::MintFailed), Ok(()));
    assert_eq!(amount_or_zero(Ok(17)), 17);
    assert_eq!(amount_or_zero(Err(Psp22ErrorExtension::BalanceOfFailed)), 0);
}

#[test]
fn the_token_knows_its_asset() {
    let token = MyPSP22::new(7);
    assert_eq!(token.asset_id(), 7);
    assert_eq!(MyPSP22::default().asset_id(), 0);
    assert_eq!(
        token._emit_transfer_event(Some(alice()), None, 5),
        Transfer { from: Some(alice()), to: None, value: 5 }
    );
    assert_eq!(
        token._emit_approval_event(alice(), bob(), 9),
        Approval { owner: alice(), spender: bob(), value: 9 }
    );
}
