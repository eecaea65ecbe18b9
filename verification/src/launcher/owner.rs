//! The first account of a shared workspace.
use vstd::prelude::*;
use vstd::string::*;

use crate::paths::FilePath;
use crate::text::{same, trim, trimmed};

verus! {

/// An account: its name, its role and when it was made.
pub type AccountSummary = (String, String, String);

/// Why a name or a password cannot be taken, if so.
pub open spec fn owner_problem(username: Seq<char>, password: &str, confirmation: Seq<char>) ->
    Option<Seq<char>> {
    if trimmed(username).len() == 0 {
        Some("Username cannot be empty."@)
    } else if trimmed(username).len() > 128 {
        Some("Username cannot exceed 128 characters."@)
    } else if password.spec_bytes().len() < 8 {
        Some("Password must be at least 8 characters."@)
    } else if password@ != confirmation {
        Some("Password and confirmation must match."@)
    } else {
        None
    }
}

/// Refuses a name or a password that cannot be taken, and gives back the name
/// without blanks around it.
pub fn check_owner(username: &str, password: &str, confirmation: &str) -> (r: Result<
    String,
    String,
>)
    ensures
        match r {
            Ok(name) => owner_problem(username@, password, confirmation@) is None && name@
                == trimmed(username@),
            Err(e) => owner_problem(username@, password, confirmation@) == Some(e@),
        },
{
    let name = trim(username);
    if name.as_str().unicode_len() == 0 {
        return Err(String::from_str("Username cannot be empty."));
    }
    if name.as_str().unicode_len() > 128 {
        return Err(String::from_str("Username cannot exceed 128 characters."));
    }
    if password.as_bytes().len() < 8 {
        return Err(String::from_str("Password must be at least 8 characters."));
    }
    if !same(password, confirmation) {
        return Err(String::from_str("Password and confirmation must match."));
    }
    Ok(name)
}

/// Makes the first account, the owner's: only with a name and a password that can
/// be taken, and only where there is no account yet. How accounts are listed and
/// added is the caller's. Nothing more is asked of the two than this needs, so
/// accounts are not even listed for a refused request, and none is added but the
/// owner's, once the list was empty. Each is called once at most.
pub fn bootstrap_first_owner_with<
    L: FnOnce(&FilePath) -> Result<Vec<AccountSummary>, String>,
    A: FnOnce(&FilePath, &str, &str, &str) -> Result<(), String>,
>(
    db_path: &FilePath,
    username: &str,
    password: &str,
    confirmation: &str,
    list_accounts: L,
    add_account: A,
) -> (r: Result<(), String>)
    requires
        owner_problem(username@, password, confirmation@) is None ==> call_requires(
            list_accounts,
            (db_path,),
        ),
        forall|listed: Result<Vec<AccountSummary>, String>, name: &str, role: &str|
            owner_problem(username@, password, confirmation@) is None && #[trigger] call_ensures(
                list_accounts,
                (db_path,),
                listed,
            ) && listed is Ok && listed->Ok_0@.len() == 0 && name@ == trimmed(username@) && role@
                == "owner"@ ==> #[trigger] call_requires(
                add_account,
                (db_path, name, password, role),
            ),
    ensures
        match owner_problem(username@, password, confirmation@) {
            Some(e) => r is Err && r->Err_0@ == e,
            None => exists|listed: Result<Vec<AccountSummary>, String>|
                #[trigger] call_ensures(list_accounts, (db_path,), listed) && match listed {
                    Err(e) => r == Err::<(), String>(e),
                    Ok(accounts) => if accounts@.len() > 0 {
                        r is Err && r->Err_0@ == "Workspace accounts already exist."@
                    } else {
                        exists|name: &str, role: &str|
                            name@ == trimmed(username@) && role@ == "owner"@
                                && #[trigger] call_ensures(
                                add_account,
                                (db_path, name, password, role),
                                r,
                            )
                    },
                },
        },
{
    let name = match check_owner(username, password, confirmation) {
        Ok(name) => name,
        Err(e) => {
            return Err(e);
        },
    };
    let listed = list_accounts(db_path);
    let ghost seen = listed;
    assert(call_ensures(list_accounts, (db_path,), seen));
    match listed {
        Err(e) => {
            return Err(e);
        },
        Ok(accounts) => {
            if accounts.len() > 0 {
                return Err(String::from_str("Workspace accounts already exist."));
            }
        },
    }
    let r = add_account(db_path, name.as_str(), password, "owner");
    r
}

/// The first owner needs a name of one to 128 characters but for the blanks around
/// it, and a password of at least eight bytes that was repeated as it is.
pub proof fn an_owner_needs_a_name_and_a_password(
    username: Seq<char>,
    password: &str,
    confirmation: Seq<char>,
)
    ensures
        owner_problem(username, password, confirmation) is None <==> 1 <= trimmed(username).len()
            <= 128 && password.spec_bytes().len() >= 8 && password@ == confirmation,
        trimmed(username).len() == 0 ==> owner_problem(username, password, confirmation) == Some(
            "Username cannot be empty."@,
        ),
        trimmed(username).len() > 128 ==> owner_problem(username, password, confirmation) == Some(
            "Username cannot exceed 128 characters."@,
        ),
        1 <= trimmed(username).len() <= 128 && password.spec_bytes().len() < 8 ==> owner_problem(
            username,
            password,
            confirmation,
        ) == Some("Password must be at least 8 characters."@),
{
}

} // verus!
