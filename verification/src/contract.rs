//! The contract: its state, deposits, withdrawals and balance queries.
use vstd::prelude::*;
use vstd::utf8::encode_utf8;
use crate::account_id::{valid_account_id, AccountId};
use crate::contract_account_id::{
    account_result_view, aurora_text_decodes, ends_with, hex_str_to_aurora_id, parse_aurora_id, xcc_account,
    ContractAccountId, ContractAccountIdView,
};
use crate::error::{ContractError, ContractErrorView};
use crate::hex_codec::{hex_encode, lower_hex_text};
use crate::keyed_map::KeyedMap;
use crate::types::{FtDepositMessage, XccAccountId};

verus! {

/// The yoctoNEAR attached to each token transfer that a withdrawal sends.
pub const WITHDRAW_ATTACHED_DEPOSIT: u128 = 1;

/// The weight with which a withdrawal's transfer shares the unused gas.
pub const WITHDRAW_GAS_WEIGHT: u64 = 1;

/// The balances of every registered account: for each account, the amount
/// it holds of each token, the token named by its contract's account name.
pub type Balances = Map<ContractAccountIdView, Map<Seq<char>, u128>>;

/// The amount of the token that the account holds; nothing where either is
/// unknown.
pub open spec fn balance_of(b: Balances, account: ContractAccountIdView, token: Seq<char>) -> u128 {
    if b.dom().contains(account) && b[account].dom().contains(token) {
        b[account][token]
    } else {
        0
    }
}

/// A deposit of `amount` of `token` for `account`: the account is registered,
/// with no balances, if it was not; the amount is added to the account's
/// balance of the token only where it holds one already.
pub open spec fn credit(b: Balances, account: ContractAccountIdView, token: Seq<char>, amount: u128) -> Balances {
    let held = if b.dom().contains(account) {
        b[account]
    } else {
        Map::empty()
    };
    let updated = if held.dom().contains(token) {
        held.insert(token, (held[token] + amount) as u128)
    } else {
        held
    };
    b.insert(account, updated)
}

/// A withdrawal of `amount` of `token` from `account`: the amount is taken
/// from the account's balance of the token where it holds one; nothing
/// changes otherwise.
pub open spec fn debit(b: Balances, account: ContractAccountIdView, token: Seq<char>, amount: u128) -> Balances {
    if b.dom().contains(account) && b[account].dom().contains(token) {
        b.insert(account, b[account].insert(token, (b[account][token] - amount) as u128))
    } else {
        b
    }
}

/// The account that a deposit is for: the Aurora address that the message
/// names, or else the sender. A message that could not be read is refused.
pub open spec fn deposit_account(msg: Option<FtDepositMessage>, sender: Seq<char>) -> Result<
    ContractAccountIdView,
    ContractErrorView,
> {
    match msg {
        None => Err(ContractErrorView::Deserialize),
        Some(m) => match m.xcc_account_id {
            Some(XccAccountId::Aurora(text)) => match parse_aurora_id(text@) {
                Ok(id) => Ok(ContractAccountIdView::Aurora(id)),
                Err(e) => Err(e),
            },
            None => Ok(ContractAccountIdView::Near(sender)),
        },
    }
}

/// The account that a deposit is for: the Aurora address that the message
/// names, or else the sender. A message that could not be read (`None`) is
/// refused, and so is an Aurora address text of the wrong length.
pub fn deposit_account_id(msg: &Option<FtDepositMessage>, sender_id: &AccountId) -> (res: Result<
    ContractAccountId,
    ContractError,
>)
    requires
        *msg matches Some(m) ==> (m.xcc_account_id matches Some(XccAccountId::Aurora(text))
            ==> aurora_text_decodes(encode_utf8(text@))),
    ensures
        account_result_view(res) == deposit_account(*msg, sender_id@),
        *msg matches Some(m) ==> (m.xcc_account_id is None ==> (res matches Ok(
            ContractAccountId::Near(a),
        ) && a@ == sender_id@)),
        *msg matches Some(m) ==> (m.xcc_account_id matches Some(XccAccountId::Aurora(text)) ==> (
        parse_aurora_id(text@) matches Ok(id) ==> (res matches Ok(ContractAccountId::Aurora(a))
            && a@ == id))),
{
    match msg {
        Some(msg) => match &msg.xcc_account_id {
            Some(XccAccountId::Aurora(aurora_id)) => match hex_str_to_aurora_id(aurora_id.as_str()) {
                Ok(id) => Ok(ContractAccountId::Aurora(id)),
                Err(e) => Err(e),
            },
            None => Ok(ContractAccountId::Near(sender_id.clone())),
        },
        None => Err(ContractError::Deserialize),
    }
}

/// The token transfer that a withdrawal asks to be sent.
#[derive(Debug, PartialEq, Eq)]
pub enum Withdrawal {
    /// Nothing is sent: nothing was asked for.
    NoTransfer,
    /// `ft_transfer` on the token's contract, to a NEAR account.
    FtTransfer { token_id: AccountId, receiver_id: AccountId, amount: u128, memo: String },
    /// `ft_transfer_call` on the token's contract, to the Aurora engine, whose
    /// message names the Aurora address.
    FtTransferCall {
        token_id: AccountId,
        receiver_id: AccountId,
        amount: u128,
        msg: String,
        memo: String,
    },
}

/// A [`Withdrawal`] with its names and texts taken as characters.
pub enum WithdrawalView {
    NoTransfer,
    FtTransfer { token_id: Seq<char>, receiver_id: Seq<char>, amount: u128, memo: Seq<char> },
    FtTransferCall {
        token_id: Seq<char>,
        receiver_id: Seq<char>,
        amount: u128,
        msg: Seq<char>,
        memo: Seq<char>,
    },
}

impl View for Withdrawal {
    type V = WithdrawalView;

    open spec fn view(&self) -> WithdrawalView {
        match self {
            Withdrawal::NoTransfer => WithdrawalView::NoTransfer,
            Withdrawal::FtTransfer { token_id, receiver_id, amount, memo } => WithdrawalView::FtTransfer {
                token_id: token_id@,
                receiver_id: receiver_id@,
                amount: *amount,
                memo: memo@,
            },
            Withdrawal::FtTransferCall { token_id, receiver_id, amount, msg, memo } => WithdrawalView::FtTransferCall {
                token_id: token_id@,
                receiver_id: receiver_id@,
                amount: *amount,
                msg: msg@,
                memo: memo@,
            },
        }
    }
}

/// The transfer that pays `amount` of `token` to `account`: straight to a
/// NEAR account, or through the Aurora engine to an Aurora address, whose
/// lower-case hex text is the message. Both carry the memo `withdraw`.
pub open spec fn payout(account: ContractAccountIdView, token: Seq<char>, amount: u128, aurora_engine: Seq<char>) -> WithdrawalView {
    match account {
        ContractAccountIdView::Near(name) => WithdrawalView::FtTransfer {
            token_id: token,
            receiver_id: name,
            amount,
            memo: "withdraw"@,
        },
        ContractAccountIdView::Aurora(id) => WithdrawalView::FtTransferCall {
            token_id: token,
            receiver_id: aurora_engine,
            amount,
            msg: lower_hex_text(id),
            memo: "withdraw"@,
        },
    }
}

/// The state of the contract.
pub struct AuroraDepositWithdrawContract {
    /// The account of the Aurora engine, through which Aurora addresses are
    /// paid and which alone may name them in a withdrawal.
    pub aurora_engine: AccountId,
    /// For each registered account, its balance of each token.
    pub user_tokens: KeyedMap<ContractAccountId, KeyedMap<AccountId, u128>>,
}

impl AuroraDepositWithdrawContract {
    /// The balances that the state holds.
    pub open spec fn balances(self) -> Balances {
        self.user_tokens@.map_values(|m: KeyedMap<AccountId, u128>| m@)
    }

    /// A contract that pays Aurora addresses through `aurora_engine` and
    /// holds no balances.
    pub fn new(aurora_engine: AccountId) -> (contract: Self)
        ensures
            contract.aurora_engine == aurora_engine,
            valid_account_id(encode_utf8(contract.aurora_engine@)),
            contract.balances() == Map::<ContractAccountIdView, Map<Seq<char>, u128>>::empty(),
    {
        // An account name is always valid; reading it says so.
        let _name: &str = aurora_engine.as_str();
        let contract = AuroraDepositWithdrawContract { aurora_engine, user_tokens: KeyedMap::new() };
        assert(contract.balances() =~= Map::<ContractAccountIdView, Map<Seq<char>, u128>>::empty());
        contract
    }

    /// The amount of `token` that `user` holds: zero where the user is not
    /// registered or holds no balance of the token.
    pub fn get_user_balance(&self, user: ContractAccountId, token: AccountId) -> (balance: u128)
        ensures
            balance == balance_of(self.balances(), user@, token@),
    {
        match self.user_tokens.get(&user) {
            Some(balances) => match balances.get(&token) {
                Some(el) => *el,
                None => 0,
            },
            None => 0,
        }
    }

    /// Withdraws `amount` of `token_id` for the account that
    /// `xcc_account_id` names (the signer when it names none), and says which
    /// transfer pays it out. `predecessor` and `signer` are the calling and
    /// the signing account of the request.
    ///
    /// Nothing happens for an amount of zero. The request is refused where
    /// the account cannot be made out, where it is not registered, and where
    /// it holds less of the token than asked; a refused request changes
    /// nothing. Otherwise the amount is taken from the account's balance of
    /// the token, where it holds one, and the transfer is returned.
    pub fn withdraw_to_aurora_acc(
        &mut self,
        token_id: AccountId,
        amount: u128,
        xcc_account_id: Option<XccAccountId>,
        predecessor: &AccountId,
        signer: &AccountId,
    ) -> (res: Result<Withdrawal, ContractError>)
        requires
            amount != 0 ==> (xcc_account_id matches Some(XccAccountId::Aurora(text)) ==> (
            ends_with(predecessor@, old(self).aurora_engine@) ==> aurora_text_decodes(
                encode_utf8(text@),
            ))),
        ensures
            final(self).aurora_engine == old(self).aurora_engine,
            amount != 0 ==> (res matches Ok(w) ==> (xcc_account(
                xcc_account_id,
                old(self).aurora_engine@,
                predecessor@,
                signer@,
            ) matches Ok(ContractAccountIdView::Aurora(id)) ==> (w matches Withdrawal::FtTransferCall {
                token_id: t,
                receiver_id: r,
                amount: a,
                msg: m,
                ..
            } && t@ == token_id@ && r@ == old(self).aurora_engine@ && a == amount && m@
                == lower_hex_text(id)))),
            amount != 0 ==> (res matches Ok(w) ==> (xcc_account(
                xcc_account_id,
                old(self).aurora_engine@,
                predecessor@,
                signer@,
            ) matches Ok(ContractAccountIdView::Near(name)) ==> (w matches Withdrawal::FtTransfer {
                token_id: t,
                receiver_id: r,
                amount: a,
                ..
            } && t@ == token_id@ && r@ == name && a == amount))),
            amount == 0 ==> res == Ok::<Withdrawal, ContractError>(Withdrawal::NoTransfer)
                && final(self).balances() == old(self).balances(),
            amount != 0 ==> match xcc_account(
                xcc_account_id,
                old(self).aurora_engine@,
                predecessor@,
                signer@,
            ) {
                Err(e) => res matches Err(r) && r@ == e && final(self).balances() == old(
                    self,
                ).balances(),
                Ok(account) => if !old(self).balances().dom().contains(account) {
                    res matches Err(r) && r@ == ContractErrorView::AccountNotRegistered(
                        account.text(),
                    ) && final(self).balances() == old(self).balances()
                } else if old(self).balances()[account].dom().contains(token_id@) && old(
                    self,
                ).balances()[account][token_id@] < amount {
                    res matches Err(r) && r@ == ContractErrorView::UserBalanceNotEnough
                        && final(self).balances() == old(self).balances()
                } else {
                    &&& res matches Ok(w) && w@ == payout(
                        account,
                        token_id@,
                        amount,
                        old(self).aurora_engine@,
                    )
                    &&& final(self).balances() == debit(
                        old(self).balances(),
                        account,
                        token_id@,
                        amount,
                    )
                },
            },
    {
        if amount == 0 {
            return Ok(Withdrawal::NoTransfer);
        }
        let receiver_id = match ContractAccountId::try_from_aurora_id(
            xcc_account_id,
            self.aurora_engine.as_str(),
            predecessor,
            signer,
        ) {
            Ok(account) => account,
            Err(e) => return Err(e),
        };
        let held: Option<u128> = match self.user_tokens.get(&receiver_id) {
            Some(account) => match account.get(&token_id) {
                Some(el) => Some(*el),
                None => None,
            },
            None => return Err(ContractError::AccountNotRegistered(receiver_id.to_string())),
        };
        // Check whether there is enough balance
        if let Some(el) = held {
            if el < amount {
                return Err(ContractError::UserBalanceNotEnough);
            }
            self.set_balance(&receiver_id, token_id.clone(), el - amount);
        }
        let memo = "withdraw".to_owned();
        proof {
            reveal_strlit("withdraw");
        }
        match receiver_id {
            ContractAccountId::Near(_) => {
                let receiver: Result<AccountId, ContractError> = Result::from(receiver_id);
                match receiver {
                    Ok(receiver) => Ok(
                        Withdrawal::FtTransfer { token_id, receiver_id: receiver, amount, memo },
                    ),
                    Err(e) => Err(e),
                }
            },
            ContractAccountId::Aurora(aurora_id) => Ok(
                Withdrawal::FtTransferCall {
                    token_id,
                    receiver_id: self.aurora_engine.clone(),
                    amount,
                    msg: hex_encode(aurora_id.as_slice()),
                    memo,
                },
            ),
        }
    }

    /// Takes a transfer of `amount` of a token to the contract; the token is
    /// the calling account, `predecessor`. `msg` is the transfer's message as
    /// read, or `None` where it could not be read.
    ///
    /// The account credited is the Aurora address that the message names, or
    /// else the sender. It is registered, with no balances, if it was not,
    /// and the amount is added to its balance of the token where it already
    /// holds one. The answer is the amount to refund, always zero. A message
    /// that cannot be read, or that names an Aurora address of the wrong
    /// length, is refused and changes nothing.
    pub fn internal_ft_on_transfer(
        &mut self,
        sender_id: AccountId,
        amount: u128,
        msg: Option<FtDepositMessage>,
        predecessor: AccountId,
    ) -> (res: Result<u128, ContractError>)
        requires
            msg matches Some(m) ==> (m.xcc_account_id matches Some(XccAccountId::Aurora(text))
                ==> aurora_text_decodes(encode_utf8(text@))),
            deposit_account(msg, sender_id@) matches Ok(account) ==> balance_of(
                old(self).balances(),
                account,
                predecessor@,
            ) + amount <= u128::MAX,
        ensures
            final(self).aurora_engine == old(self).aurora_engine,
            match deposit_account(msg, sender_id@) {
                Err(e) => res matches Err(r) && r@ == e && final(self).balances() == old(
                    self,
                ).balances(),
                Ok(account) => res == Ok::<u128, ContractError>(0) && final(self).balances()
                    == credit(old(self).balances(), account, predecessor@, amount),
            },
    {
        let account_id = match deposit_account_id(&msg, &sender_id) {
            Ok(account_id) => account_id,
            Err(e) => return Err(e),
        };
        let token = predecessor;
        let ghost before = self.balances();
        if !self.user_tokens.contains_key(&account_id) {
            self.user_tokens.insert(account_id.clone(), KeyedMap::new());
            assert(self.balances() =~= before.insert(
                account_id@,
                Map::<Seq<char>, u128>::empty(),
            ));
        }
        let held: Option<u128> = match self.user_tokens.get(&account_id) {
            Some(balances) => match balances.get(&token) {
                Some(el) => Some(*el),
                None => None,
            },
            None => None,
        };
        if let Some(el) = held {
            self.set_balance(&account_id, token, el + amount);
        }
        proof {
            assert(self.balances() =~= credit(before, account_id@, token@, amount));
        }
        Ok(0)
    }

    /// Sets the registered account's balance of the token.
    fn set_balance(&mut self, account: &ContractAccountId, token: AccountId, amount: u128)
        requires
            old(self).balances().dom().contains(account@),
        ensures
            final(self).aurora_engine == old(self).aurora_engine,
            final(self).balances() == old(self).balances().insert(
                account@,
                old(self).balances()[account@].insert(token@, amount),
            ),
    {
        let ghost before = self.user_tokens@;
        let taken = self.user_tokens.insert(account.clone(), KeyedMap::new());
        match taken {
            Some(mut balances) => {
                balances.insert(token, amount);
                self.user_tokens.insert(account.clone(), balances);
                assert(self.user_tokens@ =~= before.insert(account@, balances));
                assert(self.balances() =~= old(self).balances().insert(
                    account@,
                    old(self).balances()[account@].insert(token@, amount),
                ));
            },
            None => {
                assert(false);
            },
        }
    }
}

} // verus!
