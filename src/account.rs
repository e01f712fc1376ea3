use vstd::prelude::*;
use vstd::string::StringSliceAdditionalSpecFns;

verus! {

/// `-`, `_` or `.`: the characters that separate the parts of an account identifier.
pub open spec fn is_account_separator(b: u8) -> bool {
    b == 0x2d || b == 0x5f || b == 0x2e
}

/// A lowercase ASCII letter or an ASCII digit.
pub open spec fn is_account_alnum(b: u8) -> bool {
    (0x61 <= b <= 0x7a) || (0x30 <= b <= 0x39)
}

/// The account-identifier rule: 2 to 64 bytes, each a lowercase letter, a digit or a
/// separator, where no separator comes first, last, or right after another one.
pub open spec fn is_valid_account_bytes(b: Seq<u8>) -> bool {
    &&& 2 <= b.len() <= 64
    &&& forall|i: int| 0 <= i < b.len() ==> is_account_alnum(#[trigger] b[i]) || is_account_separator(b[i])
    &&& !is_account_separator(b[0])
    &&& !is_account_separator(b[b.len() - 1])
    &&& forall|i: int|
        0 <= i < b.len() - 1 ==> !(is_account_separator(#[trigger] b[i]) && is_account_separator(b[i + 1]))
}

/// Relies on near_sdk::env::is_valid_account_id: true exactly when the bytes of `s`
/// follow the account-identifier rule.
#[verifier::external_body]
fn bytes_are_valid_account_id(s: &str) -> (r: bool)
    ensures
        r == is_valid_account_bytes(s.spec_bytes()),
{
    near_sdk::env::is_valid_account_id(s.as_bytes())
}

/// The identifier of an account (a user, a token ledger or the pool itself).
#[derive(Debug)]
pub struct AccountId {
    id: String,
}

impl View for AccountId {
    type V = Seq<char>;

    closed spec fn view(&self) -> Seq<char> {
        self.id@
    }
}

impl AccountId {
    /// Checks `s` against the account-identifier rule; `None` when it breaks it.
    pub fn new(s: &str) -> (r: Option<AccountId>)
        ensures
            r is Some <==> is_valid_account_bytes(s.spec_bytes()),
            r matches Some(a) ==> a@ == s@,
    {
        if bytes_are_valid_account_id(s) {
            Some(AccountId { id: s.to_owned() })
        } else {
            None
        }
    }

    pub fn as_str(&self) -> (r: &str)
        ensures
            r@ == self@,
    {
        self.id.as_str()
    }
}

impl Clone for AccountId {
    fn clone(&self) -> (r: Self)
        ensures
            r == *self,
    {
        AccountId { id: self.id.clone() }
    }
}

impl PartialEq for AccountId {
    fn eq(&self, other: &AccountId) -> (r: bool)
        ensures
            r == (self@ == other@),
    {
        self.id == other.id
    }
}

impl vstd::std_specs::cmp::PartialEqSpecImpl for AccountId {
    open spec fn obeys_eq_spec() -> bool {
        true
    }

    open spec fn eq_spec(&self, other: &AccountId) -> bool {
        self@ == other@
    }
}

} // verus!
