use near_deposit_withdraw::account_id::{is_valid_account_id, AccountId};
use near_deposit_withdraw::contract::{deposit_account_id, AuroraDepositWithdrawContract, Withdrawal};
use near_deposit_withdraw::contract_account_id::{
    hex_str_to_aurora_id, is_decodable_aurora_text, ContractAccountId,
};
use near_deposit_withdraw::error::ContractError;
use near_deposit_withdraw::keyed_map::KeyedMap;
use near_deposit_withdraw::types::{FtDepositMessage, FtDepositMessageData, XccAccountId};

const ADDRESS_HEX: &str = "00112233445566778899aabbccddeeff00ff10ab";
const ADDRESS: [u8; 20] = [
    0x00, 0x11, 0x22, 0x33, 0x44, 0x55, 0x66, 0x77, 0x88, 0x99, 0xaa, 0xbb, 0xcc, 0xdd, 0xee,
    0xff, 0x00, 0xff, 0x10, 0xab,
];

fn acc(name: &str) -> AccountId {
    AccountId::try_new(name.to_string()).unwrap()
}

fn contract() -> AuroraDepositWithdrawContract {
    AuroraDepositWithdrawContract::new(acc("aurora"))
}

fn deposit_msg(xcc: Option<XccAccountId>) -> Option<FtDepositMessage> {
    Some(FtDepositMessage { xcc_account_id: xcc, data: FtDepositMessageData {} })
}

/// A contract in which alice.near holds 100 of token.near.
fn funded() -> AuroraDepositWithdrawContract {
    let mut c = contract();
    let mut held = KeyedMap::new();
    held.insert(acc("token.near"), 100u128);
    c.user_tokens.insert(ContractAccountId::Near(acc("alice.near")), held);
    c
}

fn alice() -> ContractAccountId {
    ContractAccountId::Near(acc("alice.near"))
}

#[test]
fn account_names_are_checked() {
    for valid in ["aa", "a-a", "a-aa", "100", "0o", "com", "near", "bowen", "b-o_w_e-n", "alice.near", "a_b.c-d"] {
        assert!(is_valid_account_id(valid.as_bytes()), "{valid}");
        assert!(AccountId::try_new(valid.to_string()).is_some());
    }
    let long = "a".repeat(65);
    for invalid in ["a", "A", "Alice.near", "a..b", "-a", "a-", "a b", "_near", "near.", "a@b", "", long.as_str()] {
        assert!(!is_valid_account_id(invalid.as_bytes()), "{invalid}");
        assert!(AccountId::try_new(invalid.to_string()).is_none());
    }
    assert!(is_valid_account_id("a".repeat(64).as_bytes()));
    assert_eq!(acc("alice.near").as_str(), "alice.near");
}

#[test]
fn aurora_address_text_with_and_without_prefix() {
    assert_eq!(hex_str_to_aurora_id(ADDRESS_HEX), Ok(ADDRESS));
    let prefixed = format!("0x{ADDRESS_HEX}");
    assert_eq!(hex_str_to_aurora_id(&prefixed), Ok(ADDRESS));
    let upper = ADDRESS_HEX.to_uppercase();
    assert_eq!(hex_str_to_aurora_id(&upper), Ok(ADDRESS));
}

#[test]
fn aurora_address_text_of_wrong_length_is_refused() {
    for text in ["", "0x", "abc", "0x00112233445566778899aabbccddeeff00ff10", "00112233445566778899aabbccddeeff00ff10ab00"] {
        assert_eq!(
            hex_str_to_aurora_id(text),
            Err(ContractError::ParseAuroraAccountId(text.to_string()))
        );
    }
    // Forty-two bytes that do not start with 0x.
    let text = format!("ab{ADDRESS_HEX}");
    assert_eq!(hex_str_to_aurora_id(&text), Err(ContractError::ParseAuroraAccountId(text.clone())));
}

#[test]
fn account_text() {
    assert_eq!(alice().to_string(), "alice.near");
    assert_eq!(ContractAccountId::Aurora(ADDRESS).to_string(), ADDRESS_HEX);
    assert_eq!(ContractAccountId::Aurora([0xff; 20]).to_string(), "f".repeat(40));
}

#[test]
fn aurora_text_reads_back() {
    for id in [ADDRESS, [0u8; 20], [0xff; 20]] {
        let text = ContractAccountId::Aurora(id).to_string();
        assert_eq!(hex_str_to_aurora_id(&text), Ok(id));
        assert_eq!(hex_str_to_aurora_id(&format!("0x{text}")), Ok(id));
    }
}

#[test]
fn account_conversions() {
    let near: ContractAccountId = acc("bob.near").into();
    assert_eq!(near, ContractAccountId::Near(acc("bob.near")));
    assert_eq!(Result::<AccountId, ContractError>::from(near), Ok(acc("bob.near")));
    assert_eq!(
        Result::<AccountId, ContractError>::from(ContractAccountId::Aurora(ADDRESS)),
        Err(ContractError::AccountConversion)
    );
}

#[test]
fn withdrawal_account_is_the_signer_without_an_address() {
    let r = ContractAccountId::try_from_aurora_id(None, "aurora", &acc("caller.near"), &acc("signer.near"));
    assert_eq!(r, Ok(ContractAccountId::Near(acc("signer.near"))));
}

#[test]
fn only_the_aurora_engine_names_aurora_addresses() {
    let xcc = || Some(XccAccountId::Aurora(format!("0x{ADDRESS_HEX}")));
    let r = ContractAccountId::try_from_aurora_id(xcc(), "aurora", &acc("aurora"), &acc("s.near"));
    assert_eq!(r, Ok(ContractAccountId::Aurora(ADDRESS)));
    let r = ContractAccountId::try_from_aurora_id(xcc(), "aurora", &acc("relay.aurora"), &acc("s.near"));
    assert_eq!(r, Ok(ContractAccountId::Aurora(ADDRESS)));
    let r = ContractAccountId::try_from_aurora_id(xcc(), "aurora", &acc("mallory.near"), &acc("s.near"));
    assert_eq!(r, Err(ContractError::AccountConversion));
    let bad = Some(XccAccountId::Aurora("0x1234".to_string()));
    let r = ContractAccountId::try_from_aurora_id(bad, "aurora", &acc("aurora"), &acc("s.near"));
    assert_eq!(r, Err(ContractError::ParseAuroraAccountId("0x1234".to_string())));
}

#[test]
fn a_new_contract_holds_nothing() {
    let c = contract();
    assert_eq!(c.aurora_engine, acc("aurora"));
    assert_eq!(c.get_user_balance(alice(), acc("token.near")), 0);
    assert!(!c.user_tokens.contains_key(&alice()));
}

#[test]
fn balance_query() {
    let c = funded();
    assert_eq!(c.get_user_balance(alice(), acc("token.near")), 100);
    assert_eq!(c.get_user_balance(alice(), acc("other.near")), 0);
    assert_eq!(c.get_user_balance(ContractAccountId::Near(acc("bob.near")), acc("token.near")), 0);
}

#[test]
fn deposit_registers_the_sender() {
    let mut c = contract();
    let r = c.internal_ft_on_transfer(acc("alice.near"), 50, deposit_msg(None), acc("token.near"));
    assert_eq!(r, Ok(0));
    assert!(c.user_tokens.contains_key(&alice()));
    // The account held no balance of the token, so none is opened.
    assert_eq!(c.get_user_balance(alice(), acc("token.near")), 0);
    assert_eq!(c.user_tokens.get(&alice()).unwrap().get(&acc("token.near")), None);
}

#[test]
fn deposit_adds_to_a_held_balance() {
    let mut c = funded();
    let r = c.internal_ft_on_transfer(acc("alice.near"), 25, deposit_msg(None), acc("token.near"));
    assert_eq!(r, Ok(0));
    assert_eq!(c.get_user_balance(alice(), acc("token.near")), 125);
    let r = c.internal_ft_on_transfer(acc("alice.near"), 5, deposit_msg(None), acc("other.near"));
    assert_eq!(r, Ok(0));
    assert_eq!(c.get_user_balance(alice(), acc("other.near")), 0);
    assert_eq!(c.get_user_balance(alice(), acc("token.near")), 125);
}

#[test]
fn deposit_for_an_aurora_address() {
    let mut c = contract();
    let xcc = Some(XccAccountId::Aurora(ADDRESS_HEX.to_string()));
    let r = c.internal_ft_on_transfer(acc("alice.near"), 7, deposit_msg(xcc), acc("token.near"));
    assert_eq!(r, Ok(0));
    assert!(c.user_tokens.contains_key(&ContractAccountId::Aurora(ADDRESS)));
    assert!(!c.user_tokens.contains_key(&alice()));
}

#[test]
fn deposit_refusals_change_nothing() {
    let mut c = funded();
    let r = c.internal_ft_on_transfer(acc("bob.near"), 7, None, acc("token.near"));
    assert_eq!(r, Err(ContractError::Deserialize));
    let xcc = Some(XccAccountId::Aurora("0xabc".to_string()));
    let r = c.internal_ft_on_transfer(acc("bob.near"), 7, deposit_msg(xcc), acc("token.near"));
    assert_eq!(r, Err(ContractError::ParseAuroraAccountId("0xabc".to_string())));
    assert!(!c.user_tokens.contains_key(&ContractAccountId::Near(acc("bob.near"))));
    assert_eq!(c.get_user_balance(alice(), acc("token.near")), 100);
}

#[test]
fn withdrawal_of_nothing_does_nothing() {
    let mut c = contract();
    let r = c.withdraw_to_aurora_acc(acc("token.near"), 0, None, &acc("x.near"), &acc("alice.near"));
    assert_eq!(r, Ok(Withdrawal::NoTransfer));
    assert!(!c.user_tokens.contains_key(&alice()));
}

#[test]
fn withdrawal_for_an_unregistered_account() {
    let mut c = contract();
    let r = c.withdraw_to_aurora_acc(acc("token.near"), 1, None, &acc("x.near"), &acc("alice.near"));
    assert_eq!(r, Err(ContractError::AccountNotRegistered("alice.near".to_string())));
    let xcc = Some(XccAccountId::Aurora(ADDRESS_HEX.to_string()));
    let r = c.withdraw_to_aurora_acc(acc("token.near"), 1, xcc, &acc("aurora"), &acc("alice.near"));
    assert_eq!(r, Err(ContractError::AccountNotRegistered(ADDRESS_HEX.to_string())));
}

#[test]
fn withdrawal_above_the_balance_is_refused() {
    let mut c = funded();
    let r = c.withdraw_to_aurora_acc(acc("token.near"), 101, None, &acc("x.near"), &acc("alice.near"));
    assert_eq!(r, Err(ContractError::UserBalanceNotEnough));
    assert_eq!(c.get_user_balance(alice(), acc("token.near")), 100);
}

#[test]
fn withdrawal_to_a_near_account() {
    let mut c = funded();
    let r = c.withdraw_to_aurora_acc(acc("token.near"), 40, None, &acc("x.near"), &acc("alice.near"));
    assert_eq!(
        r,
        Ok(Withdrawal::FtTransfer {
            token_id: acc("token.near"),
            receiver_id: acc("alice.near"),
            amount: 40,
            memo: "withdraw".to_string(),
        })
    );
    assert_eq!(c.get_user_balance(alice(), acc("token.near")), 60);
    let r = c.withdraw_to_aurora_acc(acc("token.near"), 60, None, &acc("x.near"), &acc("alice.near"));
    assert!(r.is_ok());
    assert_eq!(c.get_user_balance(alice(), acc("token.near")), 0);
}

#[test]
fn withdrawal_to_an_aurora_address() {
    let mut c = contract();
    let mut held = KeyedMap::new();
    held.insert(acc("token.near"), 9u128);
    c.user_tokens.insert(ContractAccountId::Aurora(ADDRESS), held);
    let xcc = Some(XccAccountId::Aurora(format!("0x{ADDRESS_HEX}")));
    let r = c.withdraw_to_aurora_acc(acc("token.near"), 9, xcc, &acc("aurora"), &acc("alice.near"));
    assert_eq!(
        r,
        Ok(Withdrawal::FtTransferCall {
            token_id: acc("token.near"),
            receiver_id: acc("aurora"),
            amount: 9,
            msg: ADDRESS_HEX.to_string(),
            memo: "withdraw".to_string(),
        })
    );
    assert_eq!(c.get_user_balance(ContractAccountId::Aurora(ADDRESS), acc("token.near")), 0);
}

#[test]
fn withdrawal_naming_an_address_from_another_caller_is_refused() {
    let mut c = funded();
    let xcc = Some(XccAccountId::Aurora(ADDRESS_HEX.to_string()));
    let r = c.withdraw_to_aurora_acc(acc("token.near"), 1, xcc, &acc("alice.near"), &acc("alice.near"));
    assert_eq!(r, Err(ContractError::AccountConversion));
}

#[test]
fn withdrawal_of_a_token_never_held_pays_and_debits_nothing() {
    let mut c = funded();
    let r = c.withdraw_to_aurora_acc(acc("other.near"), 5, None, &acc("x.near"), &acc("alice.near"));
    assert_eq!(
        r,
        Ok(Withdrawal::FtTransfer {
            token_id: acc("other.near"),
            receiver_id: acc("alice.near"),
            amount: 5,
            memo: "withdraw".to_string(),
        })
    );
    assert_eq!(c.get_user_balance(alice(), acc("token.near")), 100);
    assert_eq!(c.get_user_balance(alice(), acc("other.near")), 0);
}

#[test]
fn withdrawal_undoes_deposit() {
    let mut c = funded();
    c.internal_ft_on_transfer(acc("alice.near"), 33, deposit_msg(None), acc("token.near")).unwrap();
    assert_eq!(c.get_user_balance(alice(), acc("token.near")), 133);
    c.withdraw_to_aurora_acc(acc("token.near"), 33, None, &acc("x.near"), &acc("alice.near")).unwrap();
    assert_eq!(c.get_user_balance(alice(), acc("token.near")), 100);
}

#[test]
fn balances_change_only_where_named() {
    let mut c = funded();
    let mut held = KeyedMap::new();
    held.insert(acc("token.near"), 8u128);
    c.user_tokens.insert(ContractAccountId::Near(acc("bob.near")), held);
    c.withdraw_to_aurora_acc(acc("token.near"), 3, None, &acc("x.near"), &acc("bob.near")).unwrap();
    assert_eq!(c.get_user_balance(alice(), acc("token.near")), 100);
    assert_eq!(c.get_user_balance(ContractAccountId::Near(acc("bob.near")), acc("token.near")), 5);
}

#[test]
fn error_messages() {
    assert_eq!(ContractError::UserBalanceNotEnough.to_string(), "User has not enough balance");
    assert_eq!(ContractError::ParseAuroraAccountId("x".to_string()).to_string(), "Could not parse aurora account");
    assert_eq!(ContractError::AccountConversion.to_string(), "Error while converting aurora account");
    assert_eq!(ContractError::AccountNotRegistered("a".to_string()).to_string(), "Account is not registered");
    assert_eq!(ContractError::Deserialize.to_string(), "Deserialize");
}

#[test]
fn keyed_map_insert_and_get() {
    let mut m: KeyedMap<AccountId, u128> = KeyedMap::new();
    assert_eq!(m.insert(acc("a.near"), 1), None);
    assert_eq!(m.insert(acc("b.near"), 2), None);
    assert_eq!(m.insert(acc("a.near"), 3), Some(1));
    assert_eq!(m.get(&acc("a.near")), Some(&3));
    assert_eq!(m.get(&acc("b.near")), Some(&2));
    assert_eq!(m.get(&acc("c.near")), None);
    assert!(m.contains_key(&acc("b.near")));
    assert!(!m.contains_key(&acc("c.near")));
}

#[test]
fn decodable_aurora_text() {
    assert!(is_decodable_aurora_text(ADDRESS_HEX));
    assert!(is_decodable_aurora_text(&format!("0x{ADDRESS_HEX}")));
    // Texts of another length are refused before any digit is read.
    assert!(is_decodable_aurora_text("0xzz"));
    assert!(!is_decodable_aurora_text("00112233445566778899aabbccddeeff00ff10ag"));
    assert!(!is_decodable_aurora_text("0x00112233445566778899aabbccddeeff00ff10a "));
    // Forty bytes that start with 0x are read as forty digits.
    assert!(!is_decodable_aurora_text("0x112233445566778899aabbccddeeff00ff10ab"));
}

#[test]
fn deposit_account_resolution() {
    assert_eq!(deposit_account_id(&None, &acc("bob.near")), Err(ContractError::Deserialize));
    assert_eq!(deposit_account_id(&deposit_msg(None), &acc("bob.near")), Ok(ContractAccountId::Near(acc("bob.near"))));
    let xcc = Some(XccAccountId::Aurora(format!("0x{ADDRESS_HEX}")));
    assert_eq!(deposit_account_id(&deposit_msg(xcc), &acc("bob.near")), Ok(ContractAccountId::Aurora(ADDRESS)));
}

#[test]
fn keyed_map_entries_keep_first_order() {
    let mut m: KeyedMap<AccountId, u128> = KeyedMap::new();
    m.insert(acc("b.near"), 1);
    m.insert(acc("a.near"), 2);
    m.insert(acc("b.near"), 3);
    assert_eq!(m.entries(), &[(acc("b.near"), 3), (acc("a.near"), 2)][..]);
}
