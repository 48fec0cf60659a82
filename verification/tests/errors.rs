use spin_wheel::SpinError;

#[test]
fn every_error_has_its_message() {
    assert_eq!(SpinError::CountOverflowAddItem.message(), "Count Overflow To Add Item");
    assert_eq!(SpinError::IndexOverflowSetItem.message(), "Index Overflow To Set Item");
    assert_eq!(SpinError::IncorrectUserState.message(), "Incorrect User State");
    assert_eq!(SpinError::ClaimAmountError.message(), "Incorrect Claim Amount");
    assert_eq!(SpinError::UnauthorizedAdmin.message(), "Unauthorized Admin");
}

#[test]
fn messages_are_distinct() {
    let all = [
        SpinError::CountOverflowAddItem,
        SpinError::IndexOverflowSetItem,
        SpinError::IncorrectUserState,
        SpinError::ClaimAmountError,
        SpinError::UnauthorizedAdmin,
    ];
    for (i, a) in all.iter().enumerate() {
        for (j, b) in all.iter().enumerate() {
            assert_eq!(i == j, a.message() == b.message());
            assert_eq!(i == j, a == b);
        }
    }
}
