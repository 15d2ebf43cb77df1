//! The access-control registry: which account holds which role, and who the
//! administrator is.
//!
//! Every operation is stated over [`AccessState`], the abstract registry, by
//! a transition function of its own; the decision that each operation makes
//! (grant, refuse, ...) is a separate function over plain booleans, shared by
//! the registry and by any storage that holds the same entries elsewhere.

use vstd::prelude::*;
use crate::role::{admin_name, Account, Role};
pub use crate::role::{role_admin, role_merchant, role_oracle, role_settlement_operator};

verus! {

/// The ways in which an access-control operation is refused.
#[derive(Debug, Clone, Copy, PartialEq, Eq, Structural)]
pub enum AccessControlError {
    /// The caller does not hold the role that the operation asks for.
    Unauthorized,
    /// The account already holds the role.
    RoleAlreadyGranted,
    /// The account does not hold the role.
    RoleNotGranted,
    /// The administrator role cannot be renounced.
    CannotRenounceAdmin,
    /// The administrator given is not valid.
    InvalidAdmin,
}

impl AccessControlError {
    /// The contract error number of each variant.
    pub open spec fn error_number(self) -> u32 {
        match self {
            AccessControlError::Unauthorized => 1,
            AccessControlError::RoleAlreadyGranted => 2,
            AccessControlError::RoleNotGranted => 3,
            AccessControlError::CannotRenounceAdmin => 4,
            AccessControlError::InvalidAdmin => 5,
        }
    }

    /// The contract error number of this error (1 to 5, in declaration order).
    pub fn code(&self) -> (c: u32)
        ensures
            c == self.error_number(),
    {
        match self {
            AccessControlError::Unauthorized => 1,
            AccessControlError::RoleAlreadyGranted => 2,
            AccessControlError::RoleNotGranted => 3,
            AccessControlError::CannotRenounceAdmin => 4,
            AccessControlError::InvalidAdmin => 5,
        }
    }

    /// The error with contract error number `code`, if there is one.
    pub fn from_code(code: u32) -> (r: Option<AccessControlError>)
        ensures
            r is Some <==> 1 <= code <= 5,
            r matches Some(e) ==> e.error_number() == code,
    {
        match code {
            1 => Some(AccessControlError::Unauthorized),
            2 => Some(AccessControlError::RoleAlreadyGranted),
            3 => Some(AccessControlError::RoleNotGranted),
            4 => Some(AccessControlError::CannotRenounceAdmin),
            5 => Some(AccessControlError::InvalidAdmin),
            _ => None,
        }
    }
}

/// The decision on a grant: only an administrator may grant, and only a role
/// that the account does not hold yet.
pub open spec fn grant_decision(caller_is_admin: bool, already_granted: bool) -> Result<
    (),
    AccessControlError,
> {
    if !caller_is_admin {
        Err(AccessControlError::Unauthorized)
    } else if already_granted {
        Err(AccessControlError::RoleAlreadyGranted)
    } else {
        Ok(())
    }
}

/// The decision on a revocation: only an administrator may revoke, and only a
/// role that the account holds.
pub open spec fn revoke_decision(caller_is_admin: bool, granted: bool) -> Result<
    (),
    AccessControlError,
> {
    if !caller_is_admin {
        Err(AccessControlError::Unauthorized)
    } else if !granted {
        Err(AccessControlError::RoleNotGranted)
    } else {
        Ok(())
    }
}

/// The decision on renouncing a role: the administrator role is never
/// renounced, and another role only when it is held.
pub open spec fn renounce_decision(role_is_admin: bool, granted: bool) -> Result<
    (),
    AccessControlError,
> {
    if role_is_admin {
        Err(AccessControlError::CannotRenounceAdmin)
    } else if !granted {
        Err(AccessControlError::RoleNotGranted)
    } else {
        Ok(())
    }
}

/// The decision on a transfer of administration: only an administrator may
/// hand it on.
pub open spec fn transfer_decision(caller_is_admin: bool) -> Result<(), AccessControlError> {
    if !caller_is_admin {
        Err(AccessControlError::Unauthorized)
    } else {
        Ok(())
    }
}

/// The decision on a role requirement: met exactly when the role is held.
pub open spec fn require_decision(granted: bool) -> Result<(), AccessControlError> {
    if !granted {
        Err(AccessControlError::Unauthorized)
    } else {
        Ok(())
    }
}

/// Decides a grant; see [`grant_decision`].
pub fn check_grant(caller_is_admin: bool, already_granted: bool) -> (r: Result<
    (),
    AccessControlError,
>)
    ensures
        r == grant_decision(caller_is_admin, already_granted),
{
    if !caller_is_admin {
        Err(AccessControlError::Unauthorized)
    } else if already_granted {
        Err(AccessControlError::RoleAlreadyGranted)
    } else {
        Ok(())
    }
}

/// Decides a revocation; see [`revoke_decision`].
pub fn check_revoke(caller_is_admin: bool, granted: bool) -> (r: Result<(), AccessControlError>)
    ensures
        r == revoke_decision(caller_is_admin, granted),
{
    if !caller_is_admin {
        Err(AccessControlError::Unauthorized)
    } else if !granted {
        Err(AccessControlError::RoleNotGranted)
    } else {
        Ok(())
    }
}

/// Decides a renunciation; see [`renounce_decision`].
pub fn check_renounce(role_is_admin: bool, granted: bool) -> (r: Result<(), AccessControlError>)
    ensures
        r == renounce_decision(role_is_admin, granted),
{
    if role_is_admin {
        Err(AccessControlError::CannotRenounceAdmin)
    } else if !granted {
        Err(AccessControlError::RoleNotGranted)
    } else {
        Ok(())
    }
}

/// Decides a transfer of administration; see [`transfer_decision`].
pub fn check_transfer(caller_is_admin: bool) -> (r: Result<(), AccessControlError>)
    ensures
        r == transfer_decision(caller_is_admin),
{
    if !caller_is_admin {
        Err(AccessControlError::Unauthorized)
    } else {
        Ok(())
    }
}

/// Decides a role requirement; see [`require_decision`].
pub fn check_require(granted: bool) -> (r: Result<(), AccessControlError>)
    ensures
        r == require_decision(granted),
{
    if !granted {
        Err(AccessControlError::Unauthorized)
    } else {
        Ok(())
    }
}

/// The abstract registry: the (role, account) pairs granted, by name and
/// address, and the recorded administrator.
#[verifier::ext_equal]
pub struct AccessState {
    pub grants: Set<(Seq<char>, Seq<char>)>,
    pub admin: Option<Seq<char>>,
}

impl AccessState {
    /// The registry of fresh storage: nothing granted, no administrator.
    pub open spec fn empty() -> AccessState {
        AccessState { grants: Set::empty(), admin: None }
    }

    /// Whether `account` holds `role`.
    pub open spec fn has(self, role: Seq<char>, account: Seq<char>) -> bool {
        self.grants.contains((role, account))
    }

    /// Whether `account` holds the administrator role.
    pub open spec fn is_admin(self, account: Seq<char>) -> bool {
        self.has(admin_name(), account)
    }

    /// The registry with `role` granted to `account`.
    pub open spec fn with_grant(self, role: Seq<char>, account: Seq<char>) -> AccessState {
        AccessState { grants: self.grants.insert((role, account)), admin: self.admin }
    }

    /// The registry with `role` taken from `account`.
    pub open spec fn without_grant(self, role: Seq<char>, account: Seq<char>) -> AccessState {
        AccessState { grants: self.grants.remove((role, account)), admin: self.admin }
    }

    /// Initialization: `admin` is recorded as administrator and holds the
    /// administrator role.
    pub open spec fn initialized(self, admin: Seq<char>) -> AccessState {
        AccessState { grants: self.grants.insert((admin_name(), admin)), admin: Some(admin) }
    }

    /// A grant of `role` to `account` asked by `caller`: the new registry and
    /// the answer.
    pub open spec fn granted(self, caller: Seq<char>, role: Seq<char>, account: Seq<char>) -> (
        AccessState,
        Result<(), AccessControlError>,
    ) {
        let d = grant_decision(self.is_admin(caller), self.has(role, account));
        if d is Ok {
            (self.with_grant(role, account), d)
        } else {
            (self, d)
        }
    }

    /// A revocation of `role` from `account` asked by `caller`.
    pub open spec fn revoked(self, caller: Seq<char>, role: Seq<char>, account: Seq<char>) -> (
        AccessState,
        Result<(), AccessControlError>,
    ) {
        let d = revoke_decision(self.is_admin(caller), self.has(role, account));
        if d is Ok {
            (self.without_grant(role, account), d)
        } else {
            (self, d)
        }
    }

    /// `account` giving up `role`.
    pub open spec fn renounced(self, account: Seq<char>, role: Seq<char>) -> (
        AccessState,
        Result<(), AccessControlError>,
    ) {
        let d = renounce_decision(role == admin_name(), self.has(role, account));
        if d is Ok {
            (self.without_grant(role, account), d)
        } else {
            (self, d)
        }
    }

    /// `current` handing administration on to `new_admin`: the administrator
    /// role moves from the one to the other, and `new_admin` is recorded.
    pub open spec fn transferred(self, current: Seq<char>, new_admin: Seq<char>) -> (
        AccessState,
        Result<(), AccessControlError>,
    ) {
        let d = transfer_decision(self.is_admin(current));
        if d is Ok {
            (
                AccessState {
                    grants: self.grants.remove((admin_name(), current)).insert(
                        (admin_name(), new_admin),
                    ),
                    admin: Some(new_admin),
                },
                d,
            )
        } else {
            (self, d)
        }
    }

    /// The answer to a requirement that `account` hold `role`.
    pub open spec fn required(self, role: Seq<char>, account: Seq<char>) -> Result<
        (),
        AccessControlError,
    > {
        require_decision(self.has(role, account))
    }
}

/// The (role, account) pair of a stored grant, by name and address.
pub open spec fn pair_of(e: (Role, Account)) -> (Seq<char>, Seq<char>) {
    (e.0@, e.1@)
}

/// The pairs held in a sequence of stored grants.
pub open spec fn pairs_of(s: Seq<(Role, Account)>) -> Set<(Seq<char>, Seq<char>)> {
    Set::new(|p: (Seq<char>, Seq<char>)| exists|i: int| 0 <= i < s.len() && #[trigger] pair_of(s[i]) == p)
}

/// An optional account by its address.
pub open spec fn address_of(a: Option<Account>) -> Option<Seq<char>> {
    match a {
        Some(a) => Some(a@),
        None => None,
    }
}

/// The access-control registry of a contract.
pub struct AccessControl {
    grants: Vec<(Role, Account)>,
    admin: Option<Account>,
}

impl View for AccessControl {
    type V = AccessState;

    closed spec fn view(&self) -> AccessState {
        AccessState {
            grants: pairs_of(self.grants@),
            admin: address_of(self.admin),
        }
    }
}

impl AccessControl {
    /// An empty registry, as fresh contract storage holds it.
    pub fn new() -> (r: AccessControl)
        ensures
            r@ == AccessState::empty(),
    {
        let r = AccessControl { grants: Vec::new(), admin: None };
        assert(r@.grants =~= Set::empty());
        r
    }

    /// Whether `account` holds `role`.
    pub fn has_role(&self, role: &Role, account: &Account) -> (r: bool)
        ensures
            r == self@.has(role@, account@),
    {
        let n = self.grants.len();
        let mut i: usize = 0;
        while i < n
            invariant
                n == self.grants@.len(),
                i <= n,
                forall|j: int| 0 <= j < i ==> pair_of(#[trigger] self.grants@[j]) != (role@, account@),
            decreases n - i,
        {
            let e = &self.grants[i];
            if e.0 == *role && e.1 == *account {
                assert(pair_of(self.grants@[i as int]) == (role@, account@));
                return true;
            }
            i = i + 1;
        }
        false
    }

    fn grant_role_internal(&mut self, role: Role, account: Account)
        ensures
            final(self)@ == old(self)@.with_grant(role@, account@),
    {
        if !self.has_role(&role, &account) {
            let ghost old_grants = self.grants@;
            let ghost p = (role@, account@);
            self.grants.push((role, account));
            assert(pair_of(self.grants@[old_grants.len() as int]) == p);
            assert forall|q| pairs_of(self.grants@).contains(q) implies pairs_of(old_grants).insert(
                p,
            ).contains(q) by {
                let i = choose|i: int| 0 <= i < self.grants@.len() && pair_of(self.grants@[i]) == q;
                if i < old_grants.len() {
                    assert(old_grants[i] == self.grants@[i]);
                }
            }
            assert forall|q| pairs_of(old_grants).contains(q) implies pairs_of(
                self.grants@,
            ).contains(q) by {
                let i = choose|i: int| 0 <= i < old_grants.len() && pair_of(old_grants[i]) == q;
                assert(old_grants[i] == self.grants@[i]);
            }
            assert(pairs_of(self.grants@) =~= pairs_of(old_grants).insert(p));
        } else {
            assert(self@.grants.insert((role@, account@)) =~= self@.grants);
        }
    }

    fn revoke_role_internal(&mut self, role: &Role, account: &Account)
        ensures
            final(self)@ == old(self)@.without_grant(role@, account@),
    {
        let ghost p = (role@, account@);
        let ghost old_grants = self.grants@;
        let n = self.grants.len();
        let mut kept: Vec<(Role, Account)> = Vec::new();
        let mut i: usize = 0;
        while i < n
            invariant
                n == self.grants@.len(),
                self.grants@ == old_grants,
                p == (role@, account@),
                i <= n,
                forall|q| #[trigger]
                    pairs_of(kept@).contains(q) <==> (q != p && exists|j: int|
                        0 <= j < i && #[trigger] pair_of(old_grants[j]) == q),
            decreases n - i,
        {
            let e = &self.grants[i];
            if !(e.0 == *role && e.1 == *account) {
                let ghost before = kept@;
                let copy = (e.0.clone(), e.1.clone());
                kept.push(copy);
                assert(pair_of(kept@[before.len() as int]) == pair_of(old_grants[i as int]));
                assert forall|q| #[trigger]
                    pairs_of(kept@).contains(q) <==> (q != p && exists|j: int|
                        0 <= j < i + 1 && #[trigger] pair_of(old_grants[j]) == q) by {
                    if pairs_of(kept@).contains(q) {
                        let k = choose|k: int| 0 <= k < kept@.len() && pair_of(kept@[k]) == q;
                        if k < before.len() {
                            assert(kept@[k] == before[k]);
                            assert(pairs_of(before).contains(q));
                        }
                    }
                    if q != p && exists|j: int| 0 <= j < i + 1 && #[trigger] pair_of(old_grants[j]) == q {
                        let j = choose|j: int| 0 <= j < i + 1 && #[trigger] pair_of(old_grants[j]) == q;
                        if j < i {
                            assert(pairs_of(before).contains(q));
                            let k = choose|k: int| 0 <= k < before.len() && pair_of(before[k]) == q;
                            assert(kept@[k] == before[k]);
                        }
                    }
                }
            } else {
                assert(pair_of(old_grants[i as int]) == p);
                assert forall|q| #[trigger]
                    pairs_of(kept@).contains(q) <==> (q != p && exists|j: int|
                        0 <= j < i + 1 && #[trigger] pair_of(old_grants[j]) == q) by {
                    if q != p && exists|j: int| 0 <= j < i + 1 && #[trigger] pair_of(old_grants[j]) == q {
                        let j = choose|j: int| 0 <= j < i + 1 && #[trigger] pair_of(old_grants[j]) == q;
                        assert(j < i);
                    }
                }
            }
            i = i + 1;
        }
        self.grants = kept;
        assert(pairs_of(self.grants@) =~= pairs_of(old_grants).remove(p));
    }

    /// Records `admin` as administrator and grants it the administrator role.
    /// Whatever the registry held before stays, apart from the recorded
    /// administrator.
    pub fn initialize(&mut self, admin: Account)
        ensures
            final(self)@ == old(self)@.initialized(admin@),
    {
        self.admin = Some(admin.clone());
        self.grant_role_internal(role_admin(), admin);
    }

    /// `admin` grants `role` to `account`. Refused with `Unauthorized` unless
    /// `admin` holds the administrator role, and then with
    /// `RoleAlreadyGranted` where `account` holds `role` already; a refusal
    /// changes nothing. Authenticating `admin` is left to the caller, which
    /// holds the host's authorization.
    pub fn grant_role(&mut self, admin: Account, role: Role, account: Account) -> (r: Result<
        (),
        AccessControlError,
    >)
        ensures
            (final(self)@, r) == old(self)@.granted(admin@, role@, account@),
    {
        let caller_is_admin = self.has_role(&role_admin(), &admin);
        let already_granted = self.has_role(&role, &account);
        let decision = check_grant(caller_is_admin, already_granted);
        if decision.is_ok() {
            self.grant_role_internal(role, account);
        }
        decision
    }

    /// `admin` revokes `role` from `account`. Refused with `Unauthorized`
    /// unless `admin` holds the administrator role, and then with
    /// `RoleNotGranted` where `account` does not hold `role`; a refusal
    /// changes nothing. Authenticating `admin` is left to the caller.
    pub fn revoke_role(&mut self, admin: Account, role: Role, account: Account) -> (r: Result<
        (),
        AccessControlError,
    >)
        ensures
            (final(self)@, r) == old(self)@.revoked(admin@, role@, account@),
    {
        let caller_is_admin = self.has_role(&role_admin(), &admin);
        let granted = self.has_role(&role, &account);
        let decision = check_revoke(caller_is_admin, granted);
        if decision.is_ok() {
            self.revoke_role_internal(&role, &account);
        }
        decision
    }

    /// `account` gives up `role`. The administrator role is refused with
    /// `CannotRenounceAdmin`, a role not held with `RoleNotGranted`; a
    /// refusal changes nothing.
    pub fn renounce_role(&mut self, account: Account, role: Role) -> (r: Result<
        (),
        AccessControlError,
    >)
        ensures
            (final(self)@, r) == old(self)@.renounced(account@, role@),
    {
        let role_is_admin = role == role_admin();
        let granted = self.has_role(&role, &account);
        let decision = check_renounce(role_is_admin, granted);
        if decision.is_ok() {
            self.revoke_role_internal(&role, &account);
        }
        decision
    }

    /// `current_admin` hands administration on to `new_admin`: the
    /// administrator role is taken from `current_admin`, granted to
    /// `new_admin`, and `new_admin` is recorded as administrator. Refused with
    /// `Unauthorized` unless `current_admin` holds the administrator role; a
    /// refusal changes nothing. Authenticating `current_admin` is left to the
    /// caller.
    pub fn transfer_admin(&mut self, current_admin: Account, new_admin: Account) -> (r: Result<
        (),
        AccessControlError,
    >)
        ensures
            (final(self)@, r) == old(self)@.transferred(current_admin@, new_admin@),
    {
        let caller_is_admin = self.has_role(&role_admin(), &current_admin);
        let decision = check_transfer(caller_is_admin);
        if decision.is_ok() {
            self.revoke_role_internal(&role_admin(), &current_admin);
            self.grant_role_internal(role_admin(), new_admin.clone());
            self.admin = Some(new_admin);
        }
        decision
    }

    /// The recorded administrator, if any.
    pub fn get_admin(&self) -> (r: Option<Account>)
        ensures
            address_of(r) == self@.admin,
    {
        match &self.admin {
            Some(a) => Some(a.clone()),
            None => None,
        }
    }

    /// `Ok` where `account` holds `role`, `Unauthorized` otherwise.
    pub fn require_role(&self, role: &Role, account: &Account) -> (r: Result<
        (),
        AccessControlError,
    >)
        ensures
            r == self@.required(role@, account@),
    {
        check_require(self.has_role(role, account))
    }
}

} // verus!
