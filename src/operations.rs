//! The two REST calls: where they go, and how their responses are judged.

use vstd::prelude::*;

verus! {

/// The listing endpoint for an account, asking for the largest page.
pub open spec fn repositories_url_of(username: Seq<char>) -> Seq<char> {
    "https://api.github.com/users/"@ + username + "/repos?per_page=100"@
}

/// The endpoint of one repository.
pub open spec fn repository_url_of(owner: Seq<char>, name: Seq<char>) -> Seq<char> {
    "https://api.github.com/repos/"@ + owner + "/"@ + name
}

/// A status of the success class.
pub open spec fn is_success_status(status: u16) -> bool {
    200 <= status && status < 300
}

/// The address to GET for the repositories of `username`.
pub fn repositories_url(username: &str) -> (r: String)
    ensures
        r@ == repositories_url_of(username@),
{
    let url = String::from_str("https://api.github.com/users/");
    let url = url.concat(username);
    url.concat("/repos?per_page=100")
}

/// The address to DELETE for the repository `owner/name`.
pub fn repository_url(owner: &str, name: &str) -> (r: String)
    ensures
        r@ == repository_url_of(owner@, name@),
{
    let url = String::from_str("https://api.github.com/repos/");
    let url = url.concat(owner);
    let url = url.concat("/");
    url.concat(name)
}

/// Whether `status` is of the success class (2xx).
pub fn is_success(status: u16) -> (r: bool)
    ensures
        r == is_success_status(status),
{
    200 <= status && status < 300
}

/// Why the listing could not be had.
#[derive(Clone, Debug)]
pub enum FetchError {
    /// The server answered with a status outside the success class.
    Status(u16),
    /// The request did not complete.
    Transport(String),
    /// The body is not a list of repository records.
    Decode(String),
}

/// Judges the status of the listing response: an error carrying it unless it
/// is of the success class.
pub fn check_listing_status(status: u16) -> (r: Result<(), FetchError>)
    ensures
        match r {
            Ok(()) => is_success_status(status),
            Err(FetchError::Status(s)) => !is_success_status(status) && s == status,
            Err(_) => false,
        },
{
    if is_success(status) {
        Ok(())
    } else {
        Err(FetchError::Status(status))
    }
}

/// Why one repository was not deleted.
#[derive(Clone, Debug)]
pub enum DeleteError {
    /// The server answered with a status outside the success class.
    Status { name: String, status: u16 },
    /// The request did not complete.
    Transport { name: String, reason: String },
}

impl DeleteError {
    /// The repository that was not deleted.
    pub fn name(&self) -> (r: &str)
        ensures
            r@ == match self {
                DeleteError::Status { name, .. } => name@,
                DeleteError::Transport { name, .. } => name@,
            },
    {
        match self {
            DeleteError::Status { name, .. } => name.as_str(),
            DeleteError::Transport { name, .. } => name.as_str(),
        }
    }
}

/// What the delete call for `name` came to: the response's status, or the
/// reason the request did not complete.
pub fn delete_outcome(name: &str, response: Result<u16, String>) -> (r: Result<(), DeleteError>)
    ensures
        match response {
            Ok(status) => if is_success_status(status) {
                r is Ok
            } else {
                match r {
                    Err(DeleteError::Status { name: n, status: s }) => n@ == name@ && s == status,
                    _ => false,
                }
            },
            Err(reason) => match r {
                Err(DeleteError::Transport { name: n, reason: e }) => n@ == name@ && e@ == reason@,
                _ => false,
            },
        },
{
    match response {
        Ok(status) => {
            if is_success(status) {
                Ok(())
            } else {
                Err(DeleteError::Status { name: String::from_str(name), status })
            }
        },
        Err(reason) => Err(DeleteError::Transport { name: String::from_str(name), reason }),
    }
}

} // verus!
