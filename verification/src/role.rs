//! Roles (short symbols such as `ADMIN`) and the accounts that hold them.

use vstd::prelude::*;

verus! {

/// Longest name a role symbol may have.
pub const MAX_ROLE_NAME_LEN: usize = 32;

/// A character allowed in a symbol: `a-z`, `A-Z`, `0-9` or `_`.
pub open spec fn is_symbol_char(c: char) -> bool {
    ||| c == '_'
    ||| ('0' <= c && c <= '9')
    ||| ('A' <= c && c <= 'Z')
    ||| ('a' <= c && c <= 'z')
}

/// A valid symbol: at most 32 characters, each of them a symbol character.
pub open spec fn is_symbol_name(s: Seq<char>) -> bool {
    &&& s.len() <= MAX_ROLE_NAME_LEN
    &&& forall|i: int| 0 <= i < s.len() ==> is_symbol_char(#[trigger] s[i])
}

/// Name of the administrator role.
pub open spec fn admin_name() -> Seq<char> {
    seq!['A', 'D', 'M', 'I', 'N']
}

/// Name of the oracle role.
pub open spec fn oracle_name() -> Seq<char> {
    seq!['O', 'R', 'A', 'C', 'L', 'E']
}

/// Name of the merchant role.
pub open spec fn merchant_name() -> Seq<char> {
    seq!['M', 'E', 'R', 'C', 'H', 'A', 'N', 'T']
}

/// Name of the settlement-operator role.
pub open spec fn settlement_operator_name() -> Seq<char> {
    seq![
        'S', 'E', 'T', 'T', 'L', 'E', 'M', 'E', 'N', 'T', '_', 'O', 'P', 'E', 'R', 'A', 'T', 'O', 'R',
    ]
}

fn symbol_char(c: char) -> (r: bool)
    ensures
        r == is_symbol_char(c),
{
    c == '_' || ('0' <= c && c <= '9') || ('A' <= c && c <= 'Z') || ('a' <= c && c <= 'z')
}

/// A role: a symbol naming a set of permissions.
#[derive(Debug)]
pub struct Role {
    name: String,
}

impl View for Role {
    type V = Seq<char>;

    closed spec fn view(&self) -> Seq<char> {
        self.name@
    }
}

impl Role {
    #[verifier::type_invariant]
    spec fn wf(self) -> bool {
        is_symbol_name(self.name@)
    }

    /// The role called `name`, or `None` where `name` is not a valid symbol
    /// (longer than 32 characters, or holding a character outside
    /// `a-zA-Z0-9_`).
    pub fn new(name: &str) -> (r: Option<Role>)
        ensures
            r is Some <==> is_symbol_name(name@),
            r matches Some(role) ==> role@ == name@,
    {
        let len = name.unicode_len();
        if len > MAX_ROLE_NAME_LEN {
            return None;
        }
        let mut i: usize = 0;
        while i < len
            invariant
                len == name@.len(),
                i <= len,
                forall|j: int| 0 <= j < i ==> is_symbol_char(#[trigger] name@[j]),
            decreases len - i,
        {
            let c = name.get_char(i);
            if !symbol_char(c) {
                return None;
            }
            i = i + 1;
        }
        Some(Role { name: name.to_string() })
    }

    /// The role's name, which is always a valid symbol.
    pub fn as_str(&self) -> (r: &str)
        ensures
            r@ == self@,
            is_symbol_name(r@),
    {
        proof {
            use_type_invariant(self);
        }
        self.name.as_str()
    }

}

impl PartialEq for Role {
    fn eq(&self, other: &Self) -> (r: bool) {
        self.name == other.name
    }
}

impl vstd::std_specs::cmp::PartialEqSpecImpl for Role {
    open spec fn obeys_eq_spec() -> bool {
        true
    }

    open spec fn eq_spec(&self, other: &Role) -> bool {
        self@ == other@
    }
}

impl Eq for Role {}

impl Clone for Role {
    fn clone(&self) -> (r: Self)
        ensures
            r@ == self@,
    {
        proof {
            use_type_invariant(self);
        }
        Role { name: self.name.clone() }
    }
}

/// The administrator role, `ADMIN`.
pub fn role_admin() -> (r: Role)
    ensures
        r@ == admin_name(),
{
    let name = "ADMIN";
    proof {
        reveal_strlit("ADMIN");
        assert(name@ =~= admin_name());
    }
    Role { name: name.to_string() }
}

/// The oracle role, `ORACLE`.
pub fn role_oracle() -> (r: Role)
    ensures
        r@ == oracle_name(),
{
    let name = "ORACLE";
    proof {
        reveal_strlit("ORACLE");
        assert(name@ =~= oracle_name());
    }
    Role { name: name.to_string() }
}

/// The merchant role, `MERCHANT`.
pub fn role_merchant() -> (r: Role)
    ensures
        r@ == merchant_name(),
{
    let name = "MERCHANT";
    proof {
        reveal_strlit("MERCHANT");
        assert(name@ =~= merchant_name());
    }
    Role { name: name.to_string() }
}

/// The settlement-operator role, `SETTLEMENT_OPERATOR`.
pub fn role_settlement_operator() -> (r: Role)
    ensures
        r@ == settlement_operator_name(),
{
    let name = "SETTLEMENT_OPERATOR";
    proof {
        reveal_strlit("SETTLEMENT_OPERATOR");
        assert(name@ =~= settlement_operator_name());
    }
    Role { name: name.to_string() }
}

/// An account (a contract or wallet address), identified by its address
/// string.
#[derive(Debug)]
pub struct Account {
    id: String,
}

impl View for Account {
    type V = Seq<char>;

    closed spec fn view(&self) -> Seq<char> {
        self.id@
    }
}

impl Account {
    /// The account with address `id`.
    pub fn new(id: &str) -> (r: Account)
        ensures
            r@ == id@,
    {
        Account { id: id.to_string() }
    }

    /// The account's address.
    pub fn as_str(&self) -> (r: &str)
        ensures
            r@ == self@,
    {
        self.id.as_str()
    }

}

impl PartialEq for Account {
    fn eq(&self, other: &Self) -> (r: bool) {
        self.id == other.id
    }
}

impl vstd::std_specs::cmp::PartialEqSpecImpl for Account {
    open spec fn obeys_eq_spec() -> bool {
        true
    }

    open spec fn eq_spec(&self, other: &Account) -> bool {
        self@ == other@
    }
}

impl Eq for Account {}

impl Clone for Account {
    fn clone(&self) -> (r: Self)
        ensures
            r@ == self@,
    {
        Account { id: self.id.clone() }
    }
}

} // verus!
