use vstd::prelude::*;

verus! {

/// The name and password that a login submits. They are borrowed, not kept.
pub struct Credentials<'a> {
    /// The name of the account.
    pub username: &'a str,
    /// The password of the account.
    pub password: &'a str,
}

} // verus!
