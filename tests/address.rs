use piggy_bank::address::{same_account, AccountAddress, Address, ContractAddress};

#[test]
fn account_matches_itself() {
    let a = AccountAddress([2u8; 32]);
    assert!(Address::Account(a).matches_account(&a));
    assert!(same_account(&a, &a));
}

#[test]
fn account_does_not_match_another() {
    let a = AccountAddress([2u8; 32]);
    let mut bytes = [2u8; 32];
    bytes[0] = 1;
    let b = AccountAddress(bytes);
    assert!(!Address::Account(b).matches_account(&a));
    assert!(!same_account(&a, &b));
}

#[test]
fn contract_never_matches_an_account() {
    let a = AccountAddress([0u8; 32]);
    let c = Address::Contract(ContractAddress { index: 0, subindex: 0 });
    assert!(!c.matches_account(&a));
}
