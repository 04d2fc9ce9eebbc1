//! The second migration: the two users every fresh database starts with.

use crate::credentials::password_len;
use crate::handlers::auth::stores_user;
use crate::trusted::password::MAX_HASHED_LEN;
use vstd::prelude::*;

verus! {

/// Whether the two statements store a user `name`, `email` under some
/// well-formed id, with a credential for `password`.
pub open spec fn seeds_user(
    user_insert: Seq<char>,
    password_insert: Seq<char>,
    name: Seq<char>,
    email: Seq<char>,
    password: Seq<char>,
) -> bool {
    exists|id: Seq<char>| #[trigger]
        stores_user(user_insert, password_insert, id, name, email, password)
}

/// The text of a migration of four statements.
pub open spec fn migration_text(
    first: Seq<char>,
    second: Seq<char>,
    third: Seq<char>,
    fourth: Seq<char>,
) -> Seq<char> {
    first + " \n "@ + second + " \n "@ + third + " \n  "@ + fourth
}

/// Whether `text` is a migration that stores the users `admin` and `user`,
/// each with the password `password`.
pub open spec fn is_seed_migration(text: Seq<char>) -> bool {
    exists|first: Seq<char>, second: Seq<char>, third: Seq<char>, fourth: Seq<char>|
        {
            &&& seeds_user(first, second, "admin"@, "admin@z.com"@, "password"@)
            &&& seeds_user(third, fourth, "user"@, "user@z.com"@, "password"@)
            &&& text == #[trigger] migration_text(first, second, third, fourth)
        }
}

/// Makes the statements that store one user: the insert of the user's row and
/// the insert of the credential row. The password may have at most
/// `MAX_HASHED_LEN` bytes.
pub fn add_user(name: String, password: String, email: String) -> (rows: (String, String))
    requires
        password_len(password@) <= MAX_HASHED_LEN,
    ensures
        seeds_user(rows.0@, rows.1@, name@, email@, password@),
{
    let (user_insert, password_insert, id) = crate::handlers::auth::add_user(
        &name,
        &password,
        &email,
    );
    (user_insert, password_insert)
}

/// Joins four statements into the text of a migration.
pub fn migration_script(first: &str, second: &str, third: &str, fourth: &str) -> (text: String)
    ensures
        text@ == migration_text(first@, second@, third@, fourth@),
{
    let mut text = first.to_owned();
    text.append(" \n ");
    text.append(second);
    text.append(" \n ");
    text.append(third);
    text.append(" \n  ");
    text.append(fourth);
    text
}

/// The migration that stores the users `admin` and `user`.
pub fn migration() -> (script: String)
    ensures
        is_seed_migration(script@),
{
    proof {
        reveal_strlit("password");
        vstd::utf8::is_ascii_chars_encode_utf8("password"@);
    }
    let (user_insert, password_insert) = add_user(
        "admin".to_owned(),
        "password".to_owned(),
        "admin@z.com".to_owned(),
    );
    let (user_insert_2, password_insert_2) = add_user(
        "user".to_owned(),
        "password".to_owned(),
        "user@z.com".to_owned(),
    );
    let script = migration_script(
        user_insert.as_str(),
        password_insert.as_str(),
        user_insert_2.as_str(),
        password_insert_2.as_str(),
    );
    script
}

} // verus!
