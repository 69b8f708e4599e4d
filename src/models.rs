//! The repository records that the listing endpoint returns.

use vstd::prelude::*;

verus! {

/// The account that owns a repository.
#[derive(Clone, Debug)]
pub struct Owner {
    pub login: String,
}

/// One repository of the listing: its name (unique within the owner's
/// account), its owner, and its web address.
#[derive(Clone, Debug)]
pub struct Repository {
    pub name: String,
    pub owner: Owner,
    pub html_url: String,
}

impl Repository {
    /// A record with the given fields.
    pub fn new(name: &str, login: &str, html_url: &str) -> (r: Repository)
        ensures
            r.name@ == name@,
            r.owner.login@ == login@,
            r.html_url@ == html_url@,
    {
        Repository {
            name: String::from_str(name),
            owner: Owner { login: String::from_str(login) },
            html_url: String::from_str(html_url),
        }
    }
}

} // verus!
