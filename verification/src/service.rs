//! The user-listing service stub: until the store is wired in, it serves
//! a fixed pair of accounts.
use vstd::prelude::*;
use vstd::string::*;

verus! {

/// One account as the listing service reports it.
#[derive(Debug)]
pub struct User {
    pub id: String,
    pub name: String,
    pub email: String,
}

/// The user-listing service.
#[derive(Debug, Default)]
pub struct MyUserSevice {}

impl MyUserSevice {
    /// List every known account; for now the fixed stub pair.
    pub fn get_all_users(&self) -> (r: Vec<User>)
        ensures
            r@.len() == 2,
            r@[0].id@ == "1"@ && r@[0].name@ == "Alice"@ && r@[0].email@ == "alice@example.com"@,
            r@[1].id@ == "2"@ && r@[1].name@ == "Bob"@ && r@[1].email@ == "bob@example.com"@,
    {
        let mut users: Vec<User> = Vec::new();
        users.push(
            User {
                id: String::from_str("1"),
                name: String::from_str("Alice"),
                email: String::from_str("alice@example.com"),
            },
        );
        users.push(
            User {
                id: String::from_str("2"),
                name: String::from_str("Bob"),
                email: String::from_str("bob@example.com"),
            },
        );
        users
    }
}

/// Checked addition on `u64`; the caller rules out overflow.
pub fn add(left: u64, right: u64) -> (r: u64)
    requires
        left + right <= u64::MAX,
    ensures
        r == left + right,
{
    left + right
}

} // verus!
