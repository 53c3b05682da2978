//! NEAR account names.
use vstd::prelude::*;
use vstd::utf8::encode_utf8;
use crate::keyed_map::AccountKey;

verus! {

/// A byte allowed in a NEAR account name that is not a separator: a
/// lower-case ASCII letter or an ASCII digit.
pub open spec fn is_account_alnum(c: u8) -> bool {
    (97 <= c <= 122) || (48 <= c <= 57)
}

/// The separators of a NEAR account name: `-`, `_` and `.`.
pub open spec fn is_account_separator(c: u8) -> bool {
    c == 45 || c == 95 || c == 46
}

/// A valid NEAR account name, given as bytes: two to sixty-four bytes, each a
/// lower-case letter, a digit or a separator, where every separator stands
/// between two bytes that are not separators.
pub open spec fn valid_account_id(s: Seq<u8>) -> bool {
    &&& 2 <= s.len() <= 64
    &&& forall|i: int|
        0 <= i < s.len() ==> is_account_alnum(#[trigger] s[i]) || is_account_separator(s[i])
    &&& forall|i: int|
        0 <= i < s.len() && is_account_separator(#[trigger] s[i]) ==> 0 < i < s.len() - 1
            && !is_account_separator(s[i - 1])
}

/// Tells whether the bytes form a valid NEAR account name.
pub fn is_valid_account_id(account_id: &[u8]) -> (valid: bool)
    ensures
        valid == valid_account_id(account_id@),
{
    let len: usize = account_id.len();
    if len < 2 || len > 64 {
        return false;
    }
    let s = Ghost(account_id@);
    // The byte before the one under the cursor was a separator, or there
    // was none.
    let mut last_char_is_separator: bool = true;
    let mut i: usize = 0;
    while i < len
        invariant
            len == s@.len(),
            s@ == account_id@,
            2 <= len <= 64,
            i <= len,
            last_char_is_separator == (i == 0 || is_account_separator(s@[i - 1])),
            forall|j: int| 0 <= j < i ==> is_account_alnum(#[trigger] s@[j]) || is_account_separator(s@[j]),
            forall|j: int|
                0 <= j < i && is_account_separator(#[trigger] s@[j]) ==> 0 < j
                    && !is_account_separator(s@[j - 1]),
        decreases len - i,
    {
        let c: u8 = account_id[i];
        let current_char_is_separator: bool;
        if (97 <= c && c <= 122) || (48 <= c && c <= 57) {
            current_char_is_separator = false;
        } else if c == 45 || c == 95 || c == 46 {
            current_char_is_separator = true;
        } else {
            assert(!(is_account_alnum(s@[i as int]) || is_account_separator(s@[i as int])));
            return false;
        }
        if current_char_is_separator && last_char_is_separator {
            assert(is_account_separator(s@[i as int]));
            return false;
        }
        last_char_is_separator = current_char_is_separator;
        i = i + 1;
    }
    if last_char_is_separator {
        assert(is_account_separator(s@[len - 1]));
    }
    !last_char_is_separator
}

/// The name of a NEAR account; it is always a valid account name.
#[derive(Debug, PartialEq, Eq, PartialOrd, Ord, Hash)]
pub struct AccountId {
    id: String,
}

impl View for AccountId {
    type V = Seq<char>;

    closed spec fn view(&self) -> Seq<char> {
        self.id@
    }
}

impl AccountId {
    #[verifier::type_invariant]
    spec fn is_valid(self) -> bool {
        valid_account_id(encode_utf8(self.id@))
    }

    /// Takes the name if it is a valid account name.
    pub fn try_new(id: String) -> (res: Option<AccountId>)
        ensures
            res is Some <==> valid_account_id(encode_utf8(id@)),
            res matches Some(a) ==> a@ == id@,
    {
        if is_valid_account_id(id.as_str().as_bytes()) {
            Some(AccountId { id })
        } else {
            None
        }
    }

    /// The name as text; its bytes form a valid account name.
    pub fn as_str(&self) -> (s: &str)
        ensures
            s@ == self@,
            valid_account_id(encode_utf8(s@)),
    {
        proof {
            use_type_invariant(self);
        }
        self.id.as_str()
    }
}

impl AccountKey for AccountId {
    fn same_key(&self, other: &AccountId) -> (same: bool) {
        self.id == other.id
    }
}

impl Clone for AccountId {
    fn clone(&self) -> (res: Self)
        ensures
            res == *self,
    {
        proof {
            use_type_invariant(self);
        }
        AccountId { id: self.id.clone() }
    }
}

} // verus!
