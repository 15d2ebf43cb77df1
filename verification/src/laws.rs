//! What holds of the registry across operations.

use vstd::prelude::*;
use crate::access_control::{
    grant_decision, renounce_decision, require_decision, revoke_decision, transfer_decision,
    AccessControlError, AccessState,
};
use crate::role::admin_name;

verus! {

/// After initialization the given account holds the administrator role and is
/// the recorded administrator.
pub proof fn lemma_initialize_installs_admin(s: AccessState, admin: Seq<char>)
    ensures
        s.initialized(admin).is_admin(admin),
        s.initialized(admin).admin == Some(admin),
{
}

/// A grant succeeds exactly when the caller is an administrator and the
/// account does not hold the role yet; afterwards the account holds it.
pub proof fn lemma_grant_gives_role(
    s: AccessState,
    caller: Seq<char>,
    role: Seq<char>,
    account: Seq<char>,
)
    ensures
        s.granted(caller, role, account).1 is Ok <==> (s.is_admin(caller) && !s.has(role, account)),
        s.granted(caller, role, account).1 is Ok ==> s.granted(caller, role, account).0.has(
            role,
            account,
        ),
{
}

/// A grant touches nothing but the pair it grants: every other pair, and the
/// recorded administrator, stay as they were.
pub proof fn lemma_grant_frame(
    s: AccessState,
    caller: Seq<char>,
    role: Seq<char>,
    account: Seq<char>,
    other_role: Seq<char>,
    other_account: Seq<char>,
)
    requires
        (other_role, other_account) != (role, account),
    ensures
        s.granted(caller, role, account).0.has(other_role, other_account) == s.has(
            other_role,
            other_account,
        ),
        s.granted(caller, role, account).0.admin == s.admin,
{
}

/// A revocation touches nothing but the pair it revokes.
pub proof fn lemma_revoke_frame(
    s: AccessState,
    caller: Seq<char>,
    role: Seq<char>,
    account: Seq<char>,
    other_role: Seq<char>,
    other_account: Seq<char>,
)
    requires
        (other_role, other_account) != (role, account),
    ensures
        s.revoked(caller, role, account).0.has(other_role, other_account) == s.has(
            other_role,
            other_account,
        ),
        s.revoked(caller, role, account).0.admin == s.admin,
        s.revoked(caller, role, account).1 is Ok ==> !s.revoked(caller, role, account).0.has(
            role,
            account,
        ),
{
}

/// Granting the same role to the same account a second time is refused with
/// `RoleAlreadyGranted`, and changes nothing.
pub proof fn lemma_second_grant_refused(
    s: AccessState,
    caller: Seq<char>,
    role: Seq<char>,
    account: Seq<char>,
)
    requires
        s.granted(caller, role, account).1 is Ok,
    ensures
        ({
            let s1 = s.granted(caller, role, account).0;
            s1.granted(caller, role, account) == (s1, Err::<(), AccessControlError>(
                AccessControlError::RoleAlreadyGranted,
            ))
        }),
{
}

/// A revocation by the same administrator undoes a grant: the registry is
/// back where it was.
pub proof fn lemma_revoke_undoes_grant(
    s: AccessState,
    caller: Seq<char>,
    role: Seq<char>,
    account: Seq<char>,
)
    requires
        s.granted(caller, role, account).1 is Ok,
    ensures
        s.granted(caller, role, account).0.revoked(caller, role, account) == (s, Ok::<
            (),
            AccessControlError,
        >(())),
{
    let s1 = s.granted(caller, role, account).0;
    assert(s1.grants.remove((role, account)) =~= s.grants);
    assert(s1.without_grant(role, account) =~= s);
}

/// A grant by the same administrator undoes a revocation, unless the
/// administrator revoked its own administrator role (after which it can no
/// longer grant).
pub proof fn lemma_grant_undoes_revoke(
    s: AccessState,
    caller: Seq<char>,
    role: Seq<char>,
    account: Seq<char>,
)
    requires
        s.revoked(caller, role, account).1 is Ok,
        (role, account) != (admin_name(), caller),
    ensures
        s.revoked(caller, role, account).0.granted(caller, role, account) == (s, Ok::<
            (),
            AccessControlError,
        >(())),
{
    let s1 = s.revoked(caller, role, account).0;
    assert(s1.is_admin(caller));
    assert(s1.grants.insert((role, account)) =~= s.grants);
    assert(s1.with_grant(role, account) =~= s);
}

/// A refused operation leaves the registry unchanged.
pub proof fn lemma_refusal_changes_nothing(
    s: AccessState,
    caller: Seq<char>,
    role: Seq<char>,
    account: Seq<char>,
)
    ensures
        s.granted(caller, role, account).1 is Err ==> s.granted(caller, role, account).0 == s,
        s.revoked(caller, role, account).1 is Err ==> s.revoked(caller, role, account).0 == s,
        s.renounced(account, role).1 is Err ==> s.renounced(account, role).0 == s,
        s.transferred(caller, account).1 is Err ==> s.transferred(caller, account).0 == s,
{
}

/// Only an administrator may grant, revoke or hand on administration: any
/// other caller is refused with `Unauthorized`.
pub proof fn lemma_only_admins_manage(
    s: AccessState,
    caller: Seq<char>,
    role: Seq<char>,
    account: Seq<char>,
)
    requires
        !s.is_admin(caller),
    ensures
        s.granted(caller, role, account).1 == Err::<(), AccessControlError>(
            AccessControlError::Unauthorized,
        ),
        s.revoked(caller, role, account).1 == Err::<(), AccessControlError>(
            AccessControlError::Unauthorized,
        ),
        s.transferred(caller, account).1 == Err::<(), AccessControlError>(
            AccessControlError::Unauthorized,
        ),
{
}

/// Renouncing never takes the administrator role from anyone, nor changes
/// the recorded administrator; a successful renunciation leaves the account
/// without the role.
pub proof fn lemma_renounce_keeps_admins(
    s: AccessState,
    account: Seq<char>,
    role: Seq<char>,
    other: Seq<char>,
)
    ensures
        s.renounced(account, role).0.is_admin(other) == s.is_admin(other),
        s.renounced(account, role).0.admin == s.admin,
        role == admin_name() ==> s.renounced(account, role) == (s, Err::<(), AccessControlError>(
            AccessControlError::CannotRenounceAdmin,
        )),
        s.renounced(account, role).1 is Ok ==> !s.renounced(account, role).0.has(role, account),
{
}

/// A successful transfer makes the new administrator hold the administrator
/// role and be the recorded administrator; the previous one loses the role
/// unless it is the same account; every other pair stays as it was.
pub proof fn lemma_transfer_moves_admin(
    s: AccessState,
    current: Seq<char>,
    new_admin: Seq<char>,
    other_role: Seq<char>,
    other_account: Seq<char>,
)
    requires
        s.transferred(current, new_admin).1 is Ok,
    ensures
        s.transferred(current, new_admin).0.is_admin(new_admin),
        s.transferred(current, new_admin).0.admin == Some(new_admin),
        current != new_admin ==> !s.transferred(current, new_admin).0.is_admin(current),
        (other_role, other_account) != (admin_name(), current) && (other_role, other_account) != (
        admin_name(),
        new_admin,
        ) ==> s.transferred(current, new_admin).0.has(other_role, other_account) == s.has(
            other_role,
            other_account,
        ),
{
}

/// A requirement is met exactly when the role is held.
pub proof fn lemma_require_matches_has(s: AccessState, role: Seq<char>, account: Seq<char>)
    ensures
        s.required(role, account) is Ok <==> s.has(role, account),
        s.required(role, account) is Err ==> s.required(role, account) == Err::<
            (),
            AccessControlError,
        >(AccessControlError::Unauthorized),
{
}

/// Fresh storage grants nothing and records no administrator.
pub proof fn lemma_empty_holds_nothing(role: Seq<char>, account: Seq<char>)
    ensures
        !AccessState::empty().has(role, account),
        AccessState::empty().admin is None,
{
}

/// The decision on a grant: a caller that is not an administrator is refused
/// with `Unauthorized` whatever the account holds; an administrator is refused
/// with `RoleAlreadyGranted` exactly when the role is held, and otherwise the
/// grant goes on.
pub proof fn lemma_grant_decision_table(granted: bool)
    ensures
        grant_decision(false, granted) == Err::<(), AccessControlError>(
            AccessControlError::Unauthorized,
        ),
        grant_decision(true, true) == Err::<(), AccessControlError>(
            AccessControlError::RoleAlreadyGranted,
        ),
        grant_decision(true, false) == Ok::<(), AccessControlError>(()),
{
}

/// The decision on a revocation: a caller that is not an administrator is
/// refused with `Unauthorized` whatever the account holds; an administrator is
/// refused with `RoleNotGranted` exactly when the role is not held, and
/// otherwise the revocation goes on.
pub proof fn lemma_revoke_decision_table(granted: bool)
    ensures
        revoke_decision(false, granted) == Err::<(), AccessControlError>(
            AccessControlError::Unauthorized,
        ),
        revoke_decision(true, false) == Err::<(), AccessControlError>(
            AccessControlError::RoleNotGranted,
        ),
        revoke_decision(true, true) == Ok::<(), AccessControlError>(()),
{
}

/// The decision on renouncing: the administrator role is refused with
/// `CannotRenounceAdmin` whether or not it is held; another role is refused
/// with `RoleNotGranted` exactly when it is not held, and otherwise renounced.
pub proof fn lemma_renounce_decision_table(granted: bool)
    ensures
        renounce_decision(true, granted) == Err::<(), AccessControlError>(
            AccessControlError::CannotRenounceAdmin,
        ),
        renounce_decision(false, false) == Err::<(), AccessControlError>(
            AccessControlError::RoleNotGranted,
        ),
        renounce_decision(false, true) == Ok::<(), AccessControlError>(()),
{
}

/// The decision on a transfer goes on exactly for an administrator, and is
/// `Unauthorized` otherwise; a requirement is met exactly when the role is
/// held, and is `Unauthorized` otherwise.
pub proof fn lemma_transfer_and_require_decision_tables()
    ensures
        transfer_decision(true) == Ok::<(), AccessControlError>(()),
        transfer_decision(false) == Err::<(), AccessControlError>(
            AccessControlError::Unauthorized,
        ),
        require_decision(true) == Ok::<(), AccessControlError>(()),
        require_decision(false) == Err::<(), AccessControlError>(
            AccessControlError::Unauthorized,
        ),
{
}

/// Initialization grants the administrator role to `admin`, records `admin`,
/// and leaves every other pair as it was: nothing else is granted or taken.
pub proof fn lemma_initialize_exact(
    s: AccessState,
    admin: Seq<char>,
    role: Seq<char>,
    account: Seq<char>,
)
    ensures
        s.initialized(admin).has(admin_name(), admin),
        s.initialized(admin).admin == Some(admin),
        (role, account) != (admin_name(), admin) ==> (s.initialized(admin).has(role, account)
            <==> s.has(role, account)),
{
}

/// What a grant answers and does, for every registry and request: a
/// non-administrator caller gets `Unauthorized`, an administrator gets
/// `RoleAlreadyGranted` for a pair already held, and both leave the registry
/// unchanged; otherwise the answer is `Ok`, the pair is held afterwards, and
/// every other pair and the recorded administrator are as before.
pub proof fn lemma_grant_exact(
    s: AccessState,
    caller: Seq<char>,
    role: Seq<char>,
    account: Seq<char>,
    other_role: Seq<char>,
    other_account: Seq<char>,
)
    ensures
        !s.is_admin(caller) ==> s.granted(caller, role, account) == (s, Err::<
            (),
            AccessControlError,
        >(AccessControlError::Unauthorized)),
        s.is_admin(caller) && s.has(role, account) ==> s.granted(caller, role, account) == (
            s,
            Err::<(), AccessControlError>(AccessControlError::RoleAlreadyGranted),
        ),
        s.is_admin(caller) && !s.has(role, account) ==> {
            let t = s.granted(caller, role, account);
            &&& t.1 == Ok::<(), AccessControlError>(())
            &&& t.0.has(role, account)
            &&& t.0.admin == s.admin
            &&& (other_role, other_account) != (role, account) ==> (t.0.has(
                other_role,
                other_account,
            ) <==> s.has(other_role, other_account))
        },
{
}

/// What a revocation answers and does: a non-administrator caller gets
/// `Unauthorized` whatever the account holds, an administrator gets
/// `RoleNotGranted` for a pair not held, and both leave the registry
/// unchanged; otherwise the answer is `Ok`, the pair is no longer held, and
/// every other pair and the recorded administrator are as before.
pub proof fn lemma_revoke_exact(
    s: AccessState,
    caller: Seq<char>,
    role: Seq<char>,
    account: Seq<char>,
    other_role: Seq<char>,
    other_account: Seq<char>,
)
    ensures
        !s.is_admin(caller) ==> s.revoked(caller, role, account) == (s, Err::<
            (),
            AccessControlError,
        >(AccessControlError::Unauthorized)),
        s.is_admin(caller) && !s.has(role, account) ==> s.revoked(caller, role, account) == (
            s,
            Err::<(), AccessControlError>(AccessControlError::RoleNotGranted),
        ),
        s.is_admin(caller) && s.has(role, account) ==> {
            let t = s.revoked(caller, role, account);
            &&& t.1 == Ok::<(), AccessControlError>(())
            &&& !t.0.has(role, account)
            &&& t.0.admin == s.admin
            &&& (other_role, other_account) != (role, account) ==> (t.0.has(
                other_role,
                other_account,
            ) <==> s.has(other_role, other_account))
        },
{
}

/// What a renunciation answers and does: the administrator role is refused
/// with `CannotRenounceAdmin` whether or not it is held, a role not held with
/// `RoleNotGranted`, both leaving the registry unchanged; any other held role
/// is renounced with `Ok`, the account no longer holds it, and every other
/// pair and the recorded administrator are as before.
pub proof fn lemma_renounce_exact(
    s: AccessState,
    account: Seq<char>,
    role: Seq<char>,
    other_role: Seq<char>,
    other_account: Seq<char>,
)
    ensures
        role == admin_name() ==> s.renounced(account, role) == (s, Err::<(), AccessControlError>(
            AccessControlError::CannotRenounceAdmin,
        )),
        role != admin_name() && !s.has(role, account) ==> s.renounced(account, role) == (
            s,
            Err::<(), AccessControlError>(AccessControlError::RoleNotGranted),
        ),
        role != admin_name() && s.has(role, account) ==> {
            let t = s.renounced(account, role);
            &&& t.1 == Ok::<(), AccessControlError>(())
            &&& !t.0.has(role, account)
            &&& t.0.admin == s.admin
            &&& (other_role, other_account) != (role, account) ==> (t.0.has(
                other_role,
                other_account,
            ) <==> s.has(other_role, other_account))
        },
{
}

/// What a transfer answers and does: a caller that is not an administrator
/// gets `Unauthorized` and the registry is unchanged; an administrator's
/// transfer always succeeds, whoever the new administrator is and whatever it
/// holds: `new_admin` then holds the administrator role and is recorded,
/// `current` no longer holds it unless it is `new_admin`, and every pair not
/// about the administrator role of these two accounts is as before.
pub proof fn lemma_transfer_exact(
    s: AccessState,
    current: Seq<char>,
    new_admin: Seq<char>,
    other_role: Seq<char>,
    other_account: Seq<char>,
)
    ensures
        !s.is_admin(current) ==> s.transferred(current, new_admin) == (s, Err::<
            (),
            AccessControlError,
        >(AccessControlError::Unauthorized)),
        s.is_admin(current) ==> {
            let t = s.transferred(current, new_admin);
            &&& t.1 == Ok::<(), AccessControlError>(())
            &&& t.0.is_admin(new_admin)
            &&& t.0.admin == Some(new_admin)
            &&& current != new_admin ==> !t.0.is_admin(current)
            &&& (other_role, other_account) != (admin_name(), current) && (
            other_role,
            other_account,
            ) != (admin_name(), new_admin) ==> (t.0.has(other_role, other_account) <==> s.has(
                other_role,
                other_account,
            ))
        },
{
}

} // verus!
