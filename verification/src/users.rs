//! The user-account store's decision logic: the default account list,
//! credential matching, and the add/delete rules. Reading and writing
//! the account file, and the HTTP shell, live outside the library.

use vstd::prelude::*;
use vstd::string::StringSliceAdditionalSpecFns;
use crate::parse::shift_opt;
use crate::text::str_eq;

verus! {

pub struct User {
    pub id: String,
    pub pw: Option<String>,
    pub role: String,
    pub created: String,
}

pub ghost struct UserView {
    pub id: Seq<char>,
    pub pw: Option<Seq<char>>,
    pub role: Seq<char>,
    pub created: Seq<char>,
}

impl View for User {
    type V = UserView;

    open spec fn view(&self) -> UserView {
        UserView {
            id: self.id@,
            pw: match self.pw {
                Some(ref p) => Some(p@),
                None => None,
            },
            role: self.role@,
            created: self.created@,
        }
    }
}

pub open spec fn users_view(us: Seq<User>) -> Seq<UserView> {
    us.map_values(|u: User| u@)
}

/// ASCII-case-insensitive character equality.
pub open spec fn eq_char_ci(a: char, b: char) -> bool {
    a == b || (65 <= a as u32 <= 90 && b as u32 == a as u32 + 32) || (65 <= b as u32 <= 90
        && a as u32 == b as u32 + 32)
}

/// ASCII-case-insensitive string equality.
pub open spec fn eq_str_ci(a: Seq<char>, b: Seq<char>) -> bool {
    a.len() == b.len() && forall|i: int| 0 <= i < a.len() ==> eq_char_ci(#[trigger] a[i], b[i])
}

fn char_ci_eq(a: char, b: char) -> (r: bool)
    ensures
        r == eq_char_ci(a, b),
{
    let x = a as u32;
    let y = b as u32;
    a == b || (65 <= x && x <= 90 && y == x + 32) || (65 <= y && y <= 90 && x == y + 32)
}

/// ASCII-case-insensitive string comparison.
pub fn str_eq_ci(a: &str, b: &str) -> (r: bool)
    ensures
        r == eq_str_ci(a@, b@),
{
    let an = a.unicode_len();
    let bn = b.unicode_len();
    if an != bn {
        return false;
    }
    let mut i: usize = 0;
    while i < an
        invariant
            an == a@.len(),
            bn == b@.len(),
            an == bn,
            i <= an,
            forall|j: int| 0 <= j < i ==> eq_char_ci(#[trigger] a@[j], b@[j]),
        decreases an - i,
    {
        if !char_ci_eq(a.get_char(i), b.get_char(i)) {
            return false;
        }
        i += 1;
    }
    true
}

/// Whether the account matches the offered credentials: identifier
/// compared without regard to ASCII case, password exactly, a missing
/// stored password standing for the empty one.
pub open spec fn user_matches(u: UserView, id: Seq<char>, pw: Seq<char>) -> bool {
    eq_str_ci(u.id, id) && match u.pw {
        Some(p) => p == pw,
        None => pw.len() == 0,
    }
}

/// The position of the first account matching the credentials.
pub open spec fn spec_find_user(us: Seq<UserView>, id: Seq<char>, pw: Seq<char>) -> Option<int>
    decreases us.len(),
{
    if us.len() == 0 {
        None
    } else if user_matches(us[0], id, pw) {
        Some(0)
    } else {
        shift_opt(spec_find_user(us.drop_first(), id, pw), 1)
    }
}

fn user_match(u: &User, id: &str, pw: &str) -> (r: bool)
    ensures
        r == user_matches(u@, id@, pw@),
{
    let idm = str_eq_ci(u.id.as_str(), id);
    let pwm = match &u.pw {
        Some(p) => str_eq(p.as_str(), pw),
        None => pw.is_empty(),
    };
    idm && pwm
}

/// The first account matching the offered credentials.
pub fn find_user(users: &Vec<User>, id: &str, pw: &str) -> (r: Option<usize>)
    ensures
        match r {
            Some(k) => k < users@.len() && Some(k as int) == spec_find_user(
                users_view(users@),
                id@,
                pw@,
            ),
            None => spec_find_user(users_view(users@), id@, pw@) is None,
        },
{
    let ghost us = users_view(users@);
    let n = users.len();
    let mut i: usize = 0;
    proof {
        assert(us.skip(0) =~= us);
    }
    while i < n
        invariant
            n == us.len(),
            n == users@.len(),
            i <= n,
            us == users_view(users@),
            spec_find_user(us, id@, pw@) == shift_opt(
                spec_find_user(us.skip(i as int), id@, pw@),
                i as int,
            ),
        decreases n - i,
    {
        let ghost suffix = us.skip(i as int);
        proof {
            assert(suffix[0] == us[i as int]);
            assert(suffix.drop_first() =~= us.skip(i + 1));
            assert(us[i as int] == users@[i as int]@);
        }
        if user_match(&users[i], id, pw) {
            return Some(i);
        }
        i += 1;
    }
    proof {
        assert(us.skip(n as int).len() == 0);
    }
    None
}

/// Whether the credentials name an account with the administrator role.
pub open spec fn spec_is_admin(us: Seq<UserView>, id: Seq<char>, pw: Seq<char>) -> bool {
    match spec_find_user(us, id, pw) {
        Some(i) => us[i].role == "admin"@,
        None => false,
    }
}

/// Whether the credentials name an account with the administrator role.
pub fn check_admin(users: &Vec<User>, id: &str, pw: &str) -> (r: bool)
    ensures
        r == spec_is_admin(users_view(users@), id@, pw@),
{
    match find_user(users, id, pw) {
        Some(i) => str_eq(users[i].role.as_str(), "admin"),
        None => false,
    }
}

pub open spec fn spec_default_users() -> Seq<UserView> {
    seq![
        UserView { id: "flyboysam"@, pw: Some("Airplane11!"@), role: "admin"@, created: "SYSTEM"@ },
        UserView {
            id: "guest"@,
            pw: Some("guest123"@),
            role: "guest"@,
            created: "2026-02-22"@,
        },
        UserView { id: "SRG"@, pw: Some("SRG_2026"@), role: "guest"@, created: "2026-02-22"@ },
    ]
}

/// The accounts a fresh store starts from.
pub fn default_users() -> (users: Vec<User>)
    ensures
        users_view(users@) == spec_default_users(),
{
    let mut v: Vec<User> = Vec::new();
    v.push(
        User {
            id: String::from_str("flyboysam"),
            pw: Some(String::from_str("Airplane11!")),
            role: String::from_str("admin"),
            created: String::from_str("SYSTEM"),
        },
    );
    v.push(
        User {
            id: String::from_str("guest"),
            pw: Some(String::from_str("guest123")),
            role: String::from_str("guest"),
            created: String::from_str("2026-02-22"),
        },
    );
    v.push(
        User {
            id: String::from_str("SRG"),
            pw: Some(String::from_str("SRG_2026")),
            role: String::from_str("guest"),
            created: String::from_str("2026-02-22"),
        },
    );
    proof {
        assert(users_view(v@) =~= spec_default_users());
    }
    v
}

/// The stored accounts when a load yields some, or the defaults.
pub open spec fn spec_users_or_default(loaded: Option<Seq<UserView>>) -> Seq<UserView> {
    match loaded {
        Some(us) => if us.len() > 0 {
            us
        } else {
            spec_default_users()
        },
        None => spec_default_users(),
    }
}

pub open spec fn opt_users_view(loaded: Option<Vec<User>>) -> Option<Seq<UserView>> {
    match loaded {
        Some(v) => Some(users_view(v@)),
        None => None,
    }
}

/// Keep a loaded, non-empty account list; fall back to the defaults.
pub fn users_or_default(loaded: Option<Vec<User>>) -> (r: Vec<User>)
    ensures
        users_view(r@) == spec_users_or_default(opt_users_view(loaded)),
{
    match loaded {
        Some(v) => if v.len() > 0 {
            v
        } else {
            default_users()
        },
        None => default_users(),
    }
}

/// Whether some account already holds the identifier, without regard
/// to ASCII case.
pub open spec fn spec_id_taken(us: Seq<UserView>, id: Seq<char>) -> bool {
    exists|j: int| 0 <= j < us.len() && eq_str_ci(#[trigger] us[j].id, id)
}

fn id_taken(users: &Vec<User>, id: &str) -> (r: bool)
    ensures
        r == spec_id_taken(users_view(users@), id@),
{
    let ghost us = users_view(users@);
    let n = users.len();
    let mut i: usize = 0;
    while i < n
        invariant
            n == us.len(),
            n == users@.len(),
            i <= n,
            us == users_view(users@),
            forall|j: int| 0 <= j < i ==> !eq_str_ci(#[trigger] us[j].id, id@),
        decreases n - i,
    {
        proof {
            assert(us[i as int] == users@[i as int]@);
        }
        if str_eq_ci(users[i].id.as_str(), id) {
            proof {
                assert(eq_str_ci(us[i as int].id, id@));
            }
            return true;
        }
        i += 1;
    }
    false
}

/// The requested role, or the guest role when none was given.
pub open spec fn spec_role_or_guest(role: Seq<char>) -> Seq<char> {
    if role.len() == 0 {
        "guest"@
    } else {
        role
    }
}

#[derive(Clone, Copy, Debug, PartialEq, Eq, Structural)]
pub enum AddUserOutcome {
    Added,
    AdminRequired,
    UsernameTooShort,
    PasswordTooShort,
    UsernameTaken,
}

/// Add an account: requires administrator credentials, an identifier
/// of at least three bytes, a password of at least six bytes, and an
/// identifier not already taken; on success the account is appended,
/// otherwise the list is unchanged.
pub fn add_user(
    users: &mut Vec<User>,
    admin_id: &str,
    admin_pw: &str,
    id: &str,
    pw: &str,
    role: &str,
    created: String,
) -> (r: AddUserOutcome)
    ensures
        ({
            let us = users_view(old(users)@);
            let admin_ok = spec_is_admin(us, admin_id@, admin_pw@);
            let id_ok = id.spec_bytes().len() as usize >= 3;
            let pw_ok = pw.spec_bytes().len() as usize >= 6;
            let taken = spec_id_taken(us, id@);
            &&& (r == AddUserOutcome::AdminRequired <==> !admin_ok)
            &&& (r == AddUserOutcome::UsernameTooShort <==> admin_ok && !id_ok)
            &&& (r == AddUserOutcome::PasswordTooShort <==> admin_ok && id_ok && !pw_ok)
            &&& (r == AddUserOutcome::UsernameTaken <==> admin_ok && id_ok && pw_ok && taken)
            &&& (r == AddUserOutcome::Added <==> admin_ok && id_ok && pw_ok && !taken)
            &&& (r == AddUserOutcome::Added ==> users_view(final(users)@) == us.push(
                UserView {
                    id: id@,
                    pw: Some(pw@),
                    role: spec_role_or_guest(role@),
                    created: created@,
                },
            ))
            &&& (r != AddUserOutcome::Added ==> final(users)@ == old(users)@)
        }),
{
    if !check_admin(users, admin_id, admin_pw) {
        return AddUserOutcome::AdminRequired;
    }
    if id.len() < 3 {
        return AddUserOutcome::UsernameTooShort;
    }
    if pw.len() < 6 {
        return AddUserOutcome::PasswordTooShort;
    }
    if id_taken(users, id) {
        return AddUserOutcome::UsernameTaken;
    }
    let role_used = if role.is_empty() {
        String::from_str("guest")
    } else {
        role.to_owned()
    };
    let ghost us = users_view(users@);
    users.push(
        User { id: id.to_owned(), pw: Some(pw.to_owned()), role: role_used, created },
    );
    proof {
        assert(users_view(users@) =~= us.push(
            UserView {
                id: id@,
                pw: Some(pw@),
                role: spec_role_or_guest(role@),
                created: created@,
            },
        ));
    }
    AddUserOutcome::Added
}

/// The accounts whose identifier is not `target`, in order, compared
/// without regard to ASCII case.
pub open spec fn spec_retain_users(us: Seq<UserView>, target: Seq<char>) -> Seq<UserView>
    decreases us.len(),
{
    if us.len() == 0 {
        Seq::empty()
    } else {
        let rest = spec_retain_users(us.drop_first(), target);
        if eq_str_ci(us[0].id, target) {
            rest
        } else {
            seq![us[0]] + rest
        }
    }
}

#[derive(Clone, Copy, Debug, PartialEq, Eq, Structural)]
pub enum DeleteOutcome {
    Deleted,
    AdminRequired,
    ProtectedUser,
    SelfDelete,
}

/// Delete the accounts holding an identifier: requires administrator
/// credentials, and refuses the protected account and the
/// administrator's own; on success every match is removed, otherwise
/// the list is unchanged.
pub fn delete_user(users: &mut Vec<User>, admin_id: &str, admin_pw: &str, target: &str) -> (r:
    DeleteOutcome)
    ensures
        ({
            let us = users_view(old(users)@);
            let admin_ok = spec_is_admin(us, admin_id@, admin_pw@);
            let protected_ = eq_str_ci(target@, "flyboysam"@);
            let own = eq_str_ci(target@, admin_id@);
            &&& (r == DeleteOutcome::AdminRequired <==> !admin_ok)
            &&& (r == DeleteOutcome::ProtectedUser <==> admin_ok && protected_)
            &&& (r == DeleteOutcome::SelfDelete <==> admin_ok && !protected_ && own)
            &&& (r == DeleteOutcome::Deleted <==> admin_ok && !protected_ && !own)
            &&& (r == DeleteOutcome::Deleted ==> users_view(final(users)@) == spec_retain_users(
                us,
                target@,
            ))
            &&& (r != DeleteOutcome::Deleted ==> final(users)@ == old(users)@)
        }),
{
    if !check_admin(users, admin_id, admin_pw) {
        return DeleteOutcome::AdminRequired;
    }
    if str_eq_ci(target, "flyboysam") {
        return DeleteOutcome::ProtectedUser;
    }
    if str_eq_ci(target, admin_id) {
        return DeleteOutcome::SelfDelete;
    }
    let ghost orig = users_view(users@);
    let mut kept: Vec<User> = Vec::new();
    proof {
        assert(users_view(kept@) =~= Seq::<UserView>::empty());
        assert(users_view(kept@) + spec_retain_users(users_view(users@), target@)
            =~= spec_retain_users(orig, target@));
    }
    while users.len() > 0
        invariant
            users_view(kept@) + spec_retain_users(users_view(users@), target@)
                == spec_retain_users(orig, target@),
        decreases users@.len(),
    {
        let ghost before = users_view(users@);
        let u = users.remove(0);
        proof {
            assert(before[0] == u@);
            assert(before.drop_first() =~= users_view(users@));
        }
        if str_eq_ci(u.id.as_str(), target) {
            proof {
                assert(spec_retain_users(before, target@) == spec_retain_users(
                    users_view(users@),
                    target@,
                ));
            }
        } else {
            let ghost kept_before = users_view(kept@);
            kept.push(u);
            proof {
                assert(users_view(kept@) =~= kept_before.push(u@));
                assert(kept_before.push(u@) + spec_retain_users(users_view(users@), target@)
                    =~= kept_before + (seq![u@] + spec_retain_users(users_view(users@), target@)));
            }
        }
    }
    proof {
        assert(spec_retain_users(users_view(users@), target@) =~= Seq::<UserView>::empty());
        assert(users_view(kept@) + Seq::<UserView>::empty() =~= users_view(kept@));
    }
    *users = kept;
    DeleteOutcome::Deleted
}

/// The accounts with their passwords dropped, for publication.
pub open spec fn spec_public_users(us: Seq<UserView>) -> Seq<UserView> {
    us.map_values(|u: UserView| UserView { pw: None, ..u })
}

/// The account list with passwords dropped.
pub fn public_users(users: &Vec<User>) -> (r: Vec<User>)
    ensures
        users_view(r@) == spec_public_users(users_view(users@)),
{
    let ghost us = users_view(users@);
    let n = users.len();
    let mut r: Vec<User> = Vec::new();
    let mut i: usize = 0;
    while i < n
        invariant
            n == users@.len(),
            us == users_view(users@),
            i <= n,
            users_view(r@) =~= spec_public_users(us).subrange(0, i as int),
        decreases n - i,
    {
        let ghost prev = users_view(r@);
        r.push(
            User {
                id: users[i].id.clone(),
                pw: None,
                role: users[i].role.clone(),
                created: users[i].created.clone(),
            },
        );
        proof {
            assert(us[i as int] == users@[i as int]@);
            assert(users_view(r@) =~= prev.push(
                UserView { pw: None, ..users@[i as int]@ },
            ));
            assert(spec_public_users(us).subrange(0, i + 1) =~= spec_public_users(us).subrange(
                0,
                i as int,
            ).push(spec_public_users(us)[i as int]));
        }
        i += 1;
    }
    proof {
        assert(spec_public_users(us).subrange(0, n as int) =~= spec_public_users(us));
    }
    r
}

} // verus!
