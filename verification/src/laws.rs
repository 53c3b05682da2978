//! What holds of the contract across its operations.
use vstd::prelude::*;
use vstd::utf8::{encode_utf8, is_ascii_chars, is_ascii_chars_encode_utf8};
use crate::account_id::{is_account_alnum, is_account_separator, valid_account_id};
use crate::contract::{balance_of, credit, debit, deposit_account, payout, Balances, WithdrawalView};
use crate::types::{FtDepositMessage, FtDepositMessageData, XccAccountId};
use vstd::std_specs::convert::FromSpec;
use crate::account_id::AccountId;
use crate::contract_account_id::{
    aurora_hex_digits, aurora_text_decodes, parse_aurora_id, xcc_account, AuroraId, ContractAccountId,
    ContractAccountIdView,
};
use crate::error::ContractError;
use crate::error::ContractErrorView;
use crate::hex_codec::{hex_digit_value, hex_text_value, is_hex_text, lower_hex_digit, lower_hex_text};

verus! {

/// A deposit followed by a withdrawal of the same amount of the same token
/// for the same account gives back the balances from before, where the
/// account already held a balance of the token.
pub proof fn withdrawal_undoes_deposit(b: Balances, account: ContractAccountIdView, token: Seq<char>, amount: u128)
    requires
        b.dom().contains(account),
        b[account].dom().contains(token),
        b[account][token] + amount <= u128::MAX,
    ensures
        debit(credit(b, account, token, amount), account, token, amount) == b,
{
    let after = debit(credit(b, account, token, amount), account, token, amount);
    assert(after[account] =~= b[account]);
    assert(after =~= b);
}

/// After a deposit, the account's balance of the token has grown by the
/// amount where it held one before, and is still zero where it held none.
pub proof fn deposit_then_balance(b: Balances, account: ContractAccountIdView, token: Seq<char>, amount: u128)
    requires
        balance_of(b, account, token) + amount <= u128::MAX,
    ensures
        balance_of(credit(b, account, token, amount), account, token) == if b.dom().contains(
            account,
        ) && b[account].dom().contains(token) {
            b[account][token] + amount
        } else {
            0
        },
{
}

/// After a withdrawal that was not refused, the account's balance of the
/// token has shrunk by the amount where it held one.
pub proof fn withdrawal_then_balance(b: Balances, account: ContractAccountIdView, token: Seq<char>, amount: u128)
    requires
        amount <= balance_of(b, account, token),
    ensures
        balance_of(debit(b, account, token, amount), account, token) == balance_of(
            b,
            account,
            token,
        ) - amount,
{
}

/// A deposit changes no balance but the one of its account and token, and
/// a withdrawal changes none but the one of its account and token.
pub proof fn balances_change_only_where_named(
    b: Balances,
    account: ContractAccountIdView,
    token: Seq<char>,
    amount: u128,
    other_account: ContractAccountIdView,
    other_token: Seq<char>,
)
    requires
        other_account != account || other_token != token,
    ensures
        balance_of(credit(b, account, token, amount), other_account, other_token) == balance_of(
            b,
            other_account,
            other_token,
        ),
        balance_of(debit(b, account, token, amount), other_account, other_token) == balance_of(
            b,
            other_account,
            other_token,
        ),
{
}

/// Registered accounts stay registered: a deposit registers its account
/// and no other, and a withdrawal registers and drops none.
pub proof fn registration_is_kept(b: Balances, account: ContractAccountIdView, token: Seq<char>, amount: u128)
    ensures
        credit(b, account, token, amount).dom() == b.dom().insert(account),
        debit(b, account, token, amount).dom() == b.dom(),
{
    assert(credit(b, account, token, amount).dom() =~= b.dom().insert(account));
    assert(debit(b, account, token, amount).dom() =~= b.dom());
}

/// No operation opens a new token balance: after a deposit or a
/// withdrawal, an account holds a balance of the same tokens as before (a
/// newly registered one of none).
pub proof fn token_balances_are_never_opened(b: Balances, account: ContractAccountIdView, token: Seq<char>, amount: u128)
    ensures
        forall|a: ContractAccountIdView| #[trigger]
            credit(b, account, token, amount).dom().contains(a) ==> credit(
                b,
                account,
                token,
                amount,
            )[a].dom() == if b.dom().contains(a) {
                b[a].dom()
            } else {
                Set::<Seq<char>>::empty()
            },
        forall|a: ContractAccountIdView| #[trigger]
            debit(b, account, token, amount).dom().contains(a) ==> debit(
                b,
                account,
                token,
                amount,
            )[a].dom() == b[a].dom(),
{
    assert forall|a: ContractAccountIdView| #[trigger]
        credit(b, account, token, amount).dom().contains(a) implies credit(
        b,
        account,
        token,
        amount,
    )[a].dom() == if b.dom().contains(a) {
        b[a].dom()
    } else {
        Set::<Seq<char>>::empty()
    } by {
        if a == account {
            if b.dom().contains(a) {
                assert(credit(b, account, token, amount)[a].dom() =~= b[a].dom());
            } else {
                assert(credit(b, account, token, amount)[a].dom() =~= Set::<Seq<char>>::empty());
            }
        }
    }
    assert forall|a: ContractAccountIdView| #[trigger]
        debit(b, account, token, amount).dom().contains(a) implies debit(
        b,
        account,
        token,
        amount,
    )[a].dom() == b[a].dom() by {
        if a == account && b.dom().contains(a) && b[a].dom().contains(token) {
            assert(debit(b, account, token, amount)[a].dom() =~= b[a].dom());
        }
    }
}

proof fn lemma_lower_hex_digit(n: u8)
    requires
        n < 16,
    ensures
        lower_hex_digit(n) as u32 == (if n < 10 {
            n + 48
        } else {
            n + 87
        }),
{
}

/// The text that names an Aurora address, its lower-case hex as a
/// withdrawal sends it to the Aurora engine, reads back as the same address,
/// with or without a leading `0x`; reading it cannot fail on a digit.
pub proof fn aurora_text_reads_back(id: Seq<u8>)
    requires
        id.len() == 20,
    ensures
        aurora_text_decodes(encode_utf8(lower_hex_text(id))),
        parse_aurora_id(lower_hex_text(id)) == Ok::<Seq<u8>, ContractErrorView>(id),
        aurora_text_decodes(encode_utf8(seq!['0', 'x'] + lower_hex_text(id))),
        parse_aurora_id(seq!['0', 'x'] + lower_hex_text(id)) == Ok::<Seq<u8>, ContractErrorView>(id),
{
    let t = lower_hex_text(id);
    let p = seq!['0', 'x'] + t;
    assert forall|i: int| 0 <= i < t.len() implies '\0' <= #[trigger] t[i] <= '\u{7f}' by {
        lemma_lower_hex_digit(id[i / 2] / 16);
        lemma_lower_hex_digit(id[i / 2] % 16);
    }
    assert(is_ascii_chars(t));
    assert forall|i: int| 0 <= i < p.len() implies '\0' <= #[trigger] p[i] <= '\u{7f}' by {
        if i >= 2 {
            assert(p[i] == t[i - 2]);
        }
    }
    assert(is_ascii_chars(p));
    is_ascii_chars_encode_utf8(t);
    is_ascii_chars_encode_utf8(p);
    let bt = encode_utf8(t);
    let bp = encode_utf8(p);
    assert(bt.len() == 40);
    assert(bp.len() == 42);
    assert(bp[0] == 48);
    assert(bp[1] == 120);
    assert(bp.subrange(2, 42) =~= bt) by {
        assert forall|i: int| 0 <= i < 40 implies bp.subrange(2, 42)[i] == bt[i] by {
            assert(p[i + 2] == t[i]);
        }
    }
    assert forall|k: int| 0 <= k < 20 implies
        hex_digit_value(#[trigger] bt[2 * k]) == Some((id[k] / 16) as u8)
        && hex_digit_value(bt[2 * k + 1]) == Some((id[k] % 16) as u8) by {
        lemma_lower_hex_digit(id[k] / 16);
        lemma_lower_hex_digit(id[k] % 16);
        assert(t[2 * k] == lower_hex_digit(id[k] / 16));
        assert(t[2 * k + 1] == lower_hex_digit(id[k] % 16));
    }
    assert forall|i: int| 0 <= i < bt.len() implies (#[trigger] hex_digit_value(bt[i])) is Some by {
        let k = i / 2;
        if i % 2 == 0 {
            assert(i == 2 * k);
        } else {
            assert(i == 2 * k + 1);
        }
    }
    assert(is_hex_text(bt));
    assert(hex_text_value(bt) =~= id) by {
        assert forall|k: int| 0 <= k < 20 implies #[trigger] hex_text_value(bt)[k] == id[k] by {
            assert(hex_digit_value(bt[2 * k]) == Some((id[k] / 16) as u8));
            assert(hex_digit_value(bt[2 * k + 1]) == Some((id[k] % 16) as u8));
        }
    }
}

/// A NEAR account taken as a contract account converts back to the same
/// account name; an Aurora address converts to none.
pub proof fn account_conversion_round_trip(account: AccountId, id: AuroraId)
    ensures
        <Result<AccountId, ContractError> as FromSpec<ContractAccountId>>::from_spec(
            <ContractAccountId as FromSpec<AccountId>>::from_spec(account),
        ) == Ok::<AccountId, ContractError>(account),
        <Result<AccountId, ContractError> as FromSpec<ContractAccountId>>::from_spec(
            ContractAccountId::Aurora(id),
        ) == Err::<AccountId, ContractError>(ContractError::AccountConversion),
{
}

/// A withdrawal that names no cross-chain account pays its signer, whoever
/// called and whatever the Aurora engine is, also when the signer calls
/// directly.
pub proof fn signer_is_paid_without_an_address(
    aurora_engine: Seq<char>,
    predecessor: Seq<char>,
    signer: Seq<char>,
)
    ensures
        xcc_account(None, aurora_engine, predecessor, signer)
            == Ok::<ContractAccountIdView, ContractErrorView>(ContractAccountIdView::Near(signer)),
{
}

/// The transfer that pays an Aurora address is an `ft_transfer_call` of the
/// token to the Aurora engine whose message reads back as that very address;
/// the transfer that pays a NEAR account is an `ft_transfer` to that account.
/// Both move the withdrawn amount and carry the memo `withdraw`.
pub proof fn payouts_reach_the_account_paid(
    id: Seq<u8>,
    name: Seq<char>,
    token: Seq<char>,
    amount: u128,
    aurora_engine: Seq<char>,
)
    requires
        id.len() == 20,
    ensures
        payout(ContractAccountIdView::Aurora(id), token, amount, aurora_engine) matches
            WithdrawalView::FtTransferCall { token_id, receiver_id, amount: a, msg, memo } && token_id
            == token && receiver_id == aurora_engine && a == amount && parse_aurora_id(msg) == Ok::<
            Seq<u8>,
            ContractErrorView,
        >(id) && memo == "withdraw"@,
        payout(ContractAccountIdView::Near(name), token, amount, aurora_engine) matches
            WithdrawalView::FtTransfer { token_id, receiver_id, amount: a, memo } && token_id
            == token && receiver_id == name && a == amount && memo == "withdraw"@,
{
    aurora_text_reads_back(id);
}

/// The account that a deposit credits agrees with reading the address
/// text: a message that names Aurora text is credited to the address that
/// the text reads as, and refused with the reading's error where it has
/// none; a message that names no address is credited to the sender; a
/// message that could not be read is refused.
pub proof fn deposit_credits_the_named_account(
    text: String,
    sender: Seq<char>,
    data: FtDepositMessageData,
)
    ensures
        forall|id: Seq<u8>|
            parse_aurora_id(text@) == Ok::<Seq<u8>, ContractErrorView>(id) ==> deposit_account(
                Some(FtDepositMessage { xcc_account_id: Some(XccAccountId::Aurora(text)), data }),
                sender,
            ) == Ok::<ContractAccountIdView, ContractErrorView>(ContractAccountIdView::Aurora(id)),
        forall|e: ContractErrorView|
            parse_aurora_id(text@) == Err::<Seq<u8>, ContractErrorView>(e) ==> deposit_account(
                Some(FtDepositMessage { xcc_account_id: Some(XccAccountId::Aurora(text)), data }),
                sender,
            ) == Err::<ContractAccountIdView, ContractErrorView>(e),
        deposit_account(Some(FtDepositMessage { xcc_account_id: None, data }), sender) == Ok::<
            ContractAccountIdView,
            ContractErrorView,
        >(ContractAccountIdView::Near(sender)),
        deposit_account(None, sender) == Err::<ContractAccountIdView, ContractErrorView>(
            ContractErrorView::Deserialize,
        ),
{
}

/// Hex digits are read in either case: `A` to `F` mean what `a` to `f` mean,
/// ten to fifteen, and `0` to `9` mean zero to nine; no other byte is a
/// digit.
pub proof fn hex_digits_in_either_case(c: u8)
    ensures
        65 <= c <= 70 ==> hex_digit_value(c) == Some((c - 55) as u8) && hex_digit_value(
            (c + 32) as u8,
        ) == hex_digit_value(c),
        97 <= c <= 102 ==> hex_digit_value(c) == Some((c - 87) as u8),
        48 <= c <= 57 ==> hex_digit_value(c) == Some((c - 48) as u8),
        hex_digit_value(c) is Some <==> (48 <= c <= 57 || 97 <= c <= 102 || 65 <= c <= 70),
{
}

/// A byte that is a hex digit of either case: `0` to `9`, `a` to `f`, `A`
/// to `F`.
pub open spec fn is_hex_digit_byte(c: u8) -> bool {
    48 <= c <= 57 || 97 <= c <= 102 || 65 <= c <= 70
}

/// An Aurora address text of forty bytes, or of forty-two that start with
/// `0x`, whose digits are hex digits of either case, upper, lower or mixed,
/// reads as an address; it is one byte for each two digits.
pub proof fn address_text_of_any_case_reads(text: Seq<char>)
    requires
        aurora_hex_digits(encode_utf8(text)) is Some,
        forall|i: int|
            0 <= i < aurora_hex_digits(encode_utf8(text))->0.len() ==> is_hex_digit_byte(
                #[trigger] aurora_hex_digits(encode_utf8(text))->0[i],
            ),
    ensures
        aurora_text_decodes(encode_utf8(text)),
        parse_aurora_id(text) matches Ok(id) && id.len() == 20,
{
    let d = aurora_hex_digits(encode_utf8(text))->0;
    assert forall|i: int| 0 <= i < d.len() implies (#[trigger] hex_digit_value(d[i])) is Some by {
        assert(is_hex_digit_byte(d[i]));
        hex_digits_in_either_case(d[i]);
    }
}

/// The bytes of a NEAR account name: an ASCII digit or lower-case letter
/// may follow a first letter, and no other byte may; `-`, `_` and `.` may
/// stand between two such bytes.
pub proof fn account_name_bytes(c: u8)
    ensures
        valid_account_id(seq![97u8, c]) <==> (48 <= c <= 57 || 97 <= c <= 122),
        (c == 45 || c == 95 || c == 46) ==> valid_account_id(seq![97u8, c, 97u8]),
        !valid_account_id(seq![97u8, 46u8, 46u8, 97u8]),
{
    let s = seq![97u8, c];
    if valid_account_id(s) {
        assert(is_account_alnum(s[1]) || is_account_separator(s[1]));
        if is_account_separator(s[1]) {
            assert(false);
        }
    }
    let t = seq![97u8, 46u8, 46u8, 97u8];
    assert(is_account_separator(t[2]));
}

/// The text that names an account, as a refused withdrawal reports it: a
/// NEAR account's own name, and for an Aurora address a text that reads back
/// as that address.
pub proof fn account_text_names_the_account(name: Seq<char>, id: Seq<u8>)
    requires
        id.len() == 20,
    ensures
        ContractAccountIdView::Near(name).text() == name,
        parse_aurora_id(ContractAccountIdView::Aurora(id).text()) == Ok::<Seq<u8>, ContractErrorView>(
            id,
        ),
{
    aurora_text_reads_back(id);
}

/// An Aurora address named in a withdrawal is taken when the Aurora engine
/// itself, or an account whose name ends with the engine's, calls, and it is
/// the address that the text reads as; a caller whose name is shorter than
/// the engine's is refused with an account-conversion error.
pub proof fn engine_may_name_addresses(
    text: String,
    aurora_engine: Seq<char>,
    prefix: Seq<char>,
    caller: Seq<char>,
    signer: Seq<char>,
)
    ensures
        forall|id: Seq<u8>|
            parse_aurora_id(text@) == Ok::<Seq<u8>, ContractErrorView>(id) ==> xcc_account(
                Some(XccAccountId::Aurora(text)),
                aurora_engine,
                prefix + aurora_engine,
                signer,
            ) == Ok::<ContractAccountIdView, ContractErrorView>(ContractAccountIdView::Aurora(id)),
        caller.len() < aurora_engine.len() ==> xcc_account(
            Some(XccAccountId::Aurora(text)),
            aurora_engine,
            caller,
            signer,
        ) == Err::<ContractAccountIdView, ContractErrorView>(ContractErrorView::AccountConversion),
{
    let p = prefix + aurora_engine;
    assert(p.subrange(p.len() - aurora_engine.len(), p.len() as int) =~= aurora_engine);
}

/// A name made only of lower-case letters is a valid account name exactly
/// when it has from two to sixty-four bytes.
pub proof fn letter_names_by_length(s: Seq<u8>)
    requires
        forall|i: int| 0 <= i < s.len() ==> 97 <= #[trigger] s[i] <= 122,
    ensures
        valid_account_id(s) <==> 2 <= s.len() <= 64,
{
}

/// An address text whose length in bytes is neither forty nor forty-two is
/// refused with an error that carries the text, and so is one of forty-two
/// bytes that does not start with `0x`.
pub proof fn address_text_of_wrong_length_is_refused(text: Seq<char>)
    ensures
        encode_utf8(text).len() != 40 && encode_utf8(text).len() != 42 ==> parse_aurora_id(text)
            == Err::<Seq<u8>, ContractErrorView>(ContractErrorView::ParseAuroraAccountId(text)),
        encode_utf8(text).len() == 42 && !(encode_utf8(text)[0] == 48 && encode_utf8(text)[1]
            == 120) ==> parse_aurora_id(text) == Err::<Seq<u8>, ContractErrorView>(
            ContractErrorView::ParseAuroraAccountId(text),
        ),
{
}

} // verus!
