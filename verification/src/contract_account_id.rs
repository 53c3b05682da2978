//! The accounts that hold balances: NEAR accounts and Aurora addresses.
use vstd::prelude::*;
use vstd::slice::slice_subrange;
use vstd::utf8::encode_utf8;
use crate::account_id::AccountId;
use crate::error::ContractError;
use crate::hex_codec::{hex_decode, hex_encode, hex_text_value, is_hex_text, lower_hex_text};
use crate::keyed_map::AccountKey;
use crate::types::XccAccountId;

verus! {

/// An Aurora (EVM) address.
pub type AuroraId = [u8; 20];

/// An account that holds balances in the contract.
#[derive(Debug, PartialEq, Eq, PartialOrd, Ord)]
pub enum ContractAccountId {
    Near(AccountId),
    Aurora(AuroraId),
}

/// A [`ContractAccountId`] as a mathematical value.
pub enum ContractAccountIdView {
    Near(Seq<char>),
    Aurora(Seq<u8>),
}

impl View for ContractAccountId {
    type V = ContractAccountIdView;

    open spec fn view(&self) -> ContractAccountIdView {
        match self {
            ContractAccountId::Near(a) => ContractAccountIdView::Near(a@),
            ContractAccountId::Aurora(id) => ContractAccountIdView::Aurora(id@),
        }
    }
}

impl ContractAccountIdView {
    /// The text that names the account: a NEAR account's name, or the
    /// lower-case hex text of an Aurora address.
    pub open spec fn text(self) -> Seq<char> {
        match self {
            ContractAccountIdView::Near(name) => name,
            ContractAccountIdView::Aurora(id) => lower_hex_text(id),
        }
    }
}

/// The hex digits of an Aurora address text: the forty bytes after a leading
/// `0x` in a text of forty-two bytes, or a whole text of forty bytes; `None`
/// for any other length.
pub open spec fn aurora_hex_digits(s: Seq<u8>) -> Option<Seq<u8>> {
    if s.len() == 42 && s[0] == 48 && s[1] == 120 {
        Some(s.subrange(2, 42))
    } else if s.len() == 40 {
        Some(s)
    } else {
        None
    }
}

/// An Aurora address text whose digits, where it has the length of one, are
/// all hex digits.
pub open spec fn aurora_text_decodes(s: Seq<u8>) -> bool {
    aurora_hex_digits(s) matches Some(d) ==> is_hex_text(d)
}

/// What reading an Aurora address text gives: the address, or the error
/// that carries the text.
pub open spec fn parse_aurora_id(s: Seq<char>) -> Result<Seq<u8>, ContractErrorView> {
    match aurora_hex_digits(encode_utf8(s)) {
        Some(d) => Ok(hex_text_value(d)),
        None => Err(ContractErrorView::ParseAuroraAccountId(s)),
    }
}

/// `suffix` ends `s`.
pub open spec fn ends_with(s: Seq<char>, suffix: Seq<char>) -> bool {
    suffix.len() <= s.len() && s.subrange(s.len() - suffix.len(), s.len() as int) == suffix
}

/// The account that an optional cross-chain name stands for. An Aurora
/// address counts only when the caller's name ends with the Aurora engine's
/// name; with no name, the signer's account is meant.
pub open spec fn xcc_account(
    xcc_account_id: Option<XccAccountId>,
    aurora_engine: Seq<char>,
    predecessor: Seq<char>,
    signer: Seq<char>,
) -> Result<ContractAccountIdView, ContractErrorView> {
    match xcc_account_id {
        Some(XccAccountId::Aurora(text)) => {
            if ends_with(predecessor, aurora_engine) {
                match parse_aurora_id(text@) {
                    Ok(id) => Ok(ContractAccountIdView::Aurora(id)),
                    Err(e) => Err(e),
                }
            } else {
                Err(ContractErrorView::AccountConversion)
            }
        },
        None => Ok(ContractAccountIdView::Near(signer)),
    }
}

/// The view of a result of a [`ContractAccountId`].
pub open spec fn account_result_view(r: Result<ContractAccountId, ContractError>) -> Result<
    ContractAccountIdView,
    ContractErrorView,
> {
    match r {
        Ok(a) => Ok(a@),
        Err(e) => Err(e@),
    }
}

use crate::error::ContractErrorView;

/// Calls `str::ends_with` with a text pattern, which tells whether the
/// pattern's bytes end the text's bytes. A text's first byte starts a
/// character, so that is the same as its characters ending the text's.
#[verifier::external_body]
fn str_ends_with(s: &str, suffix: &str) -> (res: bool)
    ensures
        res == ends_with(s@, suffix@),
{
    s.ends_with(suffix)
}

/// Reads an Aurora address from its hex text, with or without a leading
/// `0x`. A text of the wrong length is refused; one of the right length must
/// hold only hex digits.
pub fn hex_str_to_aurora_id(s: &str) -> (res: Result<AuroraId, ContractError>)
    requires
        aurora_text_decodes(encode_utf8(s@)),
    ensures
        match res {
            Ok(id) => parse_aurora_id(s@) == Ok::<Seq<u8>, ContractErrorView>(id@),
            Err(e) => parse_aurora_id(s@) == Err::<Seq<u8>, ContractErrorView>(e@),
        },
{
    let bytes: &[u8] = s.as_bytes();
    let len: usize = bytes.len();
    let start_index: usize = if len == 42 && bytes[0] == 48u8 && bytes[1] == 120u8 {
        2
    } else if len == 40 {
        0
    } else {
        return Err(ContractError::ParseAuroraAccountId(s.to_owned()));
    };
    let digits: &[u8] = slice_subrange(bytes, start_index, len);
    assert(aurora_hex_digits(bytes@) == Some(digits@));
    match hex_decode(digits) {
        Ok(decoded) => {
            assert(decoded@.len() == 20);
            let mut id: AuroraId = [0u8; 20];
            let mut i: usize = 0;
            while i < 20
                invariant
                    decoded@.len() == 20,
                    i <= 20,
                    forall|j: int| 0 <= j < i ==> id@[j] == decoded@[j],
                decreases 20 - i,
            {
                id[i] = decoded[i];
                i = i + 1;
            }
            assert(id@ =~= decoded@);
            Ok(id)
        },
        Err(_) => {
            assert(false);
            Err(ContractError::ParseAuroraAccountId(s.to_owned()))
        },
    }
}

/// Tells whether reading the Aurora address text cannot fail on a digit:
/// where it has the length of an address, its digits are all hex digits.
pub fn is_decodable_aurora_text(s: &str) -> (decodable: bool)
    ensures
        decodable == aurora_text_decodes(encode_utf8(s@)),
{
    let bytes: &[u8] = s.as_bytes();
    let len: usize = bytes.len();
    let start_index: usize = if len == 42 && bytes[0] == 48u8 && bytes[1] == 120u8 {
        2
    } else if len == 40 {
        0
    } else {
        return true;
    };
    let digits: &[u8] = slice_subrange(bytes, start_index, len);
    assert(aurora_hex_digits(bytes@) == Some(digits@));
    hex_decode(digits).is_ok()
}

impl ContractAccountId {
    /// The account that a withdrawal pays to. An Aurora address is taken
    /// only when the caller (`predecessor`) is the Aurora engine or one of
    /// its sub-accounts; without an address, the signer is paid.
    pub fn try_from_aurora_id(
        xcc_account_id: Option<XccAccountId>,
        aurora_engine: &str,
        predecessor: &AccountId,
        signer: &AccountId,
    ) -> (res: Result<Self, ContractError>)
        requires
            xcc_account_id matches Some(XccAccountId::Aurora(text)) ==> (ends_with(
                predecessor@,
                aurora_engine@,
            ) ==> aurora_text_decodes(encode_utf8(text@))),
        ensures
            account_result_view(res) == xcc_account(
                xcc_account_id,
                aurora_engine@,
                predecessor@,
                signer@,
            ),
            xcc_account_id is None ==> (res matches Ok(ContractAccountId::Near(a)) && a@
                == signer@),
    {
        match xcc_account_id {
            Some(account_id) => match account_id {
                XccAccountId::Aurora(aurora_id) => {
                    if str_ends_with(predecessor.as_str(), aurora_engine) {
                        match hex_str_to_aurora_id(aurora_id.as_str()) {
                            Ok(id) => Ok(ContractAccountId::Aurora(id)),
                            Err(e) => Err(e),
                        }
                    } else {
                        Err(ContractError::AccountConversion)
                    }
                },
            },
            None => Ok(ContractAccountId::Near(signer.clone())),
        }
    }

    /// The text that names the account: a NEAR account's name, or the
    /// lower-case hex text of an Aurora address, without `0x`.
    pub fn to_string(&self) -> (text: String)
        ensures
            text@ == self@.text(),
    {
        match self {
            ContractAccountId::Near(acc) => acc.as_str().to_owned(),
            ContractAccountId::Aurora(acc) => hex_encode(acc.as_slice()),
        }
    }
}

impl AccountKey for ContractAccountId {
    fn same_key(&self, other: &ContractAccountId) -> (same: bool) {
        match (self, other) {
            (ContractAccountId::Near(a), ContractAccountId::Near(b)) => a.same_key(b),
            (ContractAccountId::Aurora(a), ContractAccountId::Aurora(b)) => {
                let mut i: usize = 0;
                while i < 20
                    invariant
                        i <= 20,
                        self@ == ContractAccountIdView::Aurora(a@),
                        other@ == ContractAccountIdView::Aurora(b@),
                        forall|j: int| 0 <= j < i ==> a@[j] == b@[j],
                    decreases 20 - i,
                {
                    if a[i] != b[i] {
                        assert(a@[i as int] != b@[i as int]);
                        return false;
                    }
                    i = i + 1;
                }
                assert(a@ =~= b@);
                true
            },
            _ => false,
        }
    }
}

impl Clone for ContractAccountId {
    fn clone(&self) -> (res: Self)
        ensures
            res == *self,
    {
        match self {
            ContractAccountId::Near(a) => ContractAccountId::Near(a.clone()),
            ContractAccountId::Aurora(id) => ContractAccountId::Aurora(*id),
        }
    }
}

impl From<AccountId> for ContractAccountId {
    fn from(value: AccountId) -> (res: ContractAccountId) {
        ContractAccountId::Near(value)
    }
}

impl vstd::std_specs::convert::FromSpecImpl<AccountId> for ContractAccountId {
    open spec fn obeys_from_spec() -> bool {
        true
    }

    open spec fn from_spec(v: AccountId) -> ContractAccountId {
        ContractAccountId::Near(v)
    }
}

impl From<ContractAccountId> for Result<AccountId, ContractError> {
    fn from(value: ContractAccountId) -> (res: Result<AccountId, ContractError>) {
        if let ContractAccountId::Near(account_id) = value {
            Ok(account_id)
        } else {
            Err(ContractError::AccountConversion)
        }
    }
}

impl vstd::std_specs::convert::FromSpecImpl<ContractAccountId> for Result<AccountId, ContractError> {
    open spec fn obeys_from_spec() -> bool {
        true
    }

    open spec fn from_spec(v: ContractAccountId) -> Result<AccountId, ContractError> {
        match v {
            ContractAccountId::Near(account_id) => Ok(account_id),
            ContractAccountId::Aurora(_) => Err(ContractError::AccountConversion),
        }
    }
}

} // verus!
