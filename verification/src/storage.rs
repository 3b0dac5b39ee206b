//! Where the login is kept between sessions.

use vstd::prelude::*;

verus! {

/// The name of the store that holds the login.
pub open spec fn store_file_text() -> Seq<char> {
    "login.json"@
}

/// The key under which the store holds the login.
pub open spec fn login_key_text() -> Seq<char> {
    "login_data"@
}

/// The name of the store that holds the login.
pub fn store_file() -> (name: &'static str)
    ensures
        name@ == store_file_text(),
{
    "login.json"
}

/// The key under which the store holds the login.
pub fn login_key() -> (key: &'static str)
    ensures
        key@ == login_key_text(),
{
    "login_data"
}

} // verus!
