//! The form-driven front end as a state machine: each message moves the
//! form's state and names the background work to start, which the caller
//! performs and answers with another message.

use vstd::prelude::*;
use crate::client::{bearer, is_header_text, Credential};
use crate::models::Repository;
use crate::workflow::{target_of, DeletionTarget};

verus! {

/// What the form reacts to: edits, clicks, and the answers of background work.
#[derive(Debug)]
pub enum Message {
    TokenInput(String),
    UsernameInput(String),
    Connect,
    RepositoriesLoaded(Result<Vec<Repository>, String>),
    DeleteSelected,
    ToggleRepository(usize),
    ConfirmDeletion,
    CancelDeletion,
    RepositoryDeleted(Result<(), String>),
}

/// Background work for the caller to start.
#[derive(Clone, Debug)]
pub enum Command {
    /// Nothing.
    Nothing,
    /// Fetch the listing for this credential; answer with `RepositoriesLoaded`.
    LoadRepositories { token: String, username: String },
    /// Delete these, in order, pausing between them and going on past
    /// failures; answer with `RepositoryDeleted`, an error if any failed.
    DeleteRepositories { targets: Vec<DeletionTarget> },
}

/// The form's state.
pub struct GithubManagerGui {
    pub token: String,
    pub username: String,
    /// The session's credential, once a listing has been loaded with it.
    pub credential: Option<Credential>,
    pub repositories: Vec<Repository>,
    /// One check mark per listed repository.
    pub selected_repos: Vec<bool>,
    pub error_message: Option<String>,
    pub loading: bool,
    pub show_confirmation: bool,
    /// A deletion batch is running; no other may start until it answers.
    pub deleting: bool,
}

/// The owner and name of each checked repository, in listing order, over the
/// first `n` rows.
pub open spec fn checked_targets(repos: Seq<Repository>, checked: Seq<bool>, n: nat) -> Seq<
    (Seq<char>, Seq<char>),
>
    decreases n,
{
    if n == 0 {
        Seq::empty()
    } else {
        let before = checked_targets(repos, checked, (n - 1) as nat);
        if checked[n - 1] {
            before.push(target_of(repos[n - 1]))
        } else {
            before
        }
    }
}

/// The rows that carry both a repository and a check mark.
pub open spec fn row_count(repos: Seq<Repository>, checked: Seq<bool>) -> nat {
    if repos.len() <= checked.len() {
        repos.len()
    } else {
        checked.len()
    }
}

/// The notice shown when connecting without a token or a name.
pub open spec fn missing_credential_notice() -> Seq<char> {
    "Token and username are required"@
}

/// `a` and `b` hold the same credential fields.
pub open spec fn same_login(a: GithubManagerGui, b: GithubManagerGui) -> bool {
    a.token == b.token && a.username == b.username && a.credential == b.credential
}

/// `a` and `b` hold the same listing and check marks.
pub open spec fn same_listing(a: GithubManagerGui, b: GithubManagerGui) -> bool {
    a.repositories == b.repositories && a.selected_repos == b.selected_repos
}

/// `a` and `b` show the same notice and flags.
pub open spec fn same_flags(a: GithubManagerGui, b: GithubManagerGui) -> bool {
    a.error_message == b.error_message && a.loading == b.loading && a.show_confirmation
        == b.show_confirmation && a.deleting == b.deleting
}

/// `n` check marks, none of them set.
fn unchecked(n: usize) -> (r: Vec<bool>)
    ensures
        r@ == Seq::new(n as nat, |i: int| false),
{
    let mut r: Vec<bool> = Vec::new();
    for i in 0..n
        invariant
            r@ == Seq::new(i as nat, |j: int| false),
    {
        r.push(false);
        assert(r@ =~= Seq::new((i + 1) as nat, |j: int| false));
    }
    r
}

impl GithubManagerGui {
    /// Each listed repository has exactly one check mark.
    pub open spec fn wf(&self) -> bool {
        self.selected_repos@.len() == self.repositories@.len()
    }

    /// An empty form, with no work to start.
    pub fn new(_flags: ()) -> (r: (GithubManagerGui, Command))
        ensures
            r.0.wf(),
            r.0.token@.len() == 0,
            r.0.username@.len() == 0,
            r.0.credential is None,
            r.0.repositories@.len() == 0,
            r.0.error_message is None,
            !r.0.loading,
            !r.0.show_confirmation,
            !r.0.deleting,
            r.1 is Nothing,
    {
        (
            GithubManagerGui {
                token: String::new(),
                username: String::new(),
                credential: None,
                repositories: Vec::new(),
                selected_repos: Vec::new(),
                error_message: None,
                loading: false,
                show_confirmation: false,
                deleting: false,
            },
            Command::Nothing,
        )
    }

    /// The window title.
    pub fn title(&self) -> (r: String)
        ensures
            r@ == "GitHub Repository Manager"@,
    {
        String::from_str("GitHub Repository Manager")
    }

    /// The owner and name of each checked repository, in listing order.
    fn checked(&self) -> (r: Vec<DeletionTarget>)
        ensures
            r@.map_values(|t: DeletionTarget| (t.owner@, t.name@)) == checked_targets(
                self.repositories@,
                self.selected_repos@,
                row_count(self.repositories@, self.selected_repos@),
            ),
    {
        let n = if self.repositories.len() <= self.selected_repos.len() {
            self.repositories.len()
        } else {
            self.selected_repos.len()
        };
        let mut r: Vec<DeletionTarget> = Vec::new();
        for i in 0..n
            invariant
                n == row_count(self.repositories@, self.selected_repos@),
                n <= self.repositories@.len(),
                n <= self.selected_repos@.len(),
                r@.map_values(|t: DeletionTarget| (t.owner@, t.name@)) == checked_targets(
                    self.repositories@,
                    self.selected_repos@,
                    i as nat,
                ),
        {
            if self.selected_repos[i] {
                let repo = &self.repositories[i];
                r.push(
                    DeletionTarget { owner: repo.owner.login.clone(), name: repo.name.clone() },
                );
                assert(r@.map_values(|t: DeletionTarget| (t.owner@, t.name@)) =~= r@.drop_last().map_values(
                    |t: DeletionTarget| (t.owner@, t.name@),
                ).push((r@.last().owner@, r@.last().name@)));
            }
        }
        r
    }

    /// Reacts to one message: updates the form and names the work to start.
    pub fn update(&mut self, message: Message) -> (cmd: Command)
        ensures
            old(self).wf() ==> final(self).wf(),
            match message {
                Message::TokenInput(v) => {
                    &&& final(self).token == v
                    &&& final(self).username == old(self).username
                    &&& final(self).credential == old(self).credential
                    &&& same_listing(*final(self), *old(self))
                    &&& same_flags(*final(self), *old(self))
                    &&& cmd is Nothing
                },
                Message::UsernameInput(v) => {
                    &&& final(self).username == v
                    &&& final(self).token == old(self).token
                    &&& final(self).credential == old(self).credential
                    &&& same_listing(*final(self), *old(self))
                    &&& same_flags(*final(self), *old(self))
                    &&& cmd is Nothing
                },
                Message::Connect => {
                    &&& same_login(*final(self), *old(self))
                    &&& same_listing(*final(self), *old(self))
                    &&& final(self).loading == old(self).loading
                    &&& final(self).show_confirmation == old(self).show_confirmation
                    &&& final(self).deleting == old(self).deleting
                    &&& if old(self).token@.len() == 0 || old(self).username@.len() == 0 {
                        &&& final(self).error_message matches Some(e)
                        &&& e@ == missing_credential_notice()
                        &&& cmd is Nothing
                    } else {
                        &&& final(self).error_message == old(self).error_message
                        &&& cmd matches Command::LoadRepositories { token, username }
                        &&& token@ == old(self).token@
                        &&& username@ == old(self).username@
                    }
                },
                Message::RepositoriesLoaded(Ok(repos)) => {
                    &&& final(self).token == old(self).token
                    &&& final(self).username == old(self).username
                    &&& final(self).repositories == repos
                    &&& final(self).selected_repos@ == Seq::new(repos@.len(), |i: int| false)
                    &&& final(self).error_message is None
                    &&& !final(self).loading
                    &&& final(self).show_confirmation == old(self).show_confirmation
                    &&& final(self).deleting == old(self).deleting
                    &&& (final(self).credential is Some <==> is_header_text(
                        bearer(old(self).token@),
                    ))
                    &&& (final(self).credential matches Some(c) ==> c.token_view()
                        == old(self).token@ && c.username_view() == old(self).username@)
                    &&& cmd is Nothing
                },
                Message::RepositoriesLoaded(Err(e)) => {
                    &&& same_login(*final(self), *old(self))
                    &&& same_listing(*final(self), *old(self))
                    &&& final(self).error_message == Some(e)
                    &&& !final(self).loading
                    &&& final(self).show_confirmation == old(self).show_confirmation
                    &&& final(self).deleting == old(self).deleting
                    &&& cmd is Nothing
                },
                Message::ToggleRepository(i) => {
                    &&& same_login(*final(self), *old(self))
                    &&& same_flags(*final(self), *old(self))
                    &&& final(self).repositories == old(self).repositories
                    &&& final(self).selected_repos@ == if i < old(self).selected_repos@.len() {
                        old(self).selected_repos@.update(
                            i as int,
                            !old(self).selected_repos@[i as int],
                        )
                    } else {
                        old(self).selected_repos@
                    }
                    &&& cmd is Nothing
                },
                Message::DeleteSelected => {
                    &&& same_login(*final(self), *old(self))
                    &&& same_listing(*final(self), *old(self))
                    &&& final(self).show_confirmation
                    &&& final(self).error_message == old(self).error_message
                    &&& final(self).loading == old(self).loading
                    &&& final(self).deleting == old(self).deleting
                    &&& cmd is Nothing
                },
                Message::ConfirmDeletion => {
                    let targets = checked_targets(
                        old(self).repositories@,
                        old(self).selected_repos@,
                        row_count(old(self).repositories@, old(self).selected_repos@),
                    );
                    &&& same_login(*final(self), *old(self))
                    &&& same_listing(*final(self), *old(self))
                    &&& !final(self).show_confirmation
                    &&& final(self).error_message == old(self).error_message
                    &&& final(self).loading == old(self).loading
                    &&& if old(self).deleting || targets.len() == 0
                        || old(self).credential is None {
                        &&& final(self).deleting == old(self).deleting
                        &&& cmd is Nothing
                    } else {
                        &&& final(self).deleting
                        &&& cmd matches Command::DeleteRepositories { targets: t }
                        &&& t@.map_values(|d: DeletionTarget| (d.owner@, d.name@)) == targets
                    }
                },
                Message::CancelDeletion => {
                    &&& same_login(*final(self), *old(self))
                    &&& same_listing(*final(self), *old(self))
                    &&& !final(self).show_confirmation
                    &&& final(self).error_message == old(self).error_message
                    &&& final(self).loading == old(self).loading
                    &&& final(self).deleting == old(self).deleting
                    &&& cmd is Nothing
                },
                Message::RepositoryDeleted(result) => {
                    &&& same_login(*final(self), *old(self))
                    &&& same_listing(*final(self), *old(self))
                    &&& final(self).loading == old(self).loading
                    &&& final(self).show_confirmation == old(self).show_confirmation
                    &&& !final(self).deleting
                    &&& match result {
                        Ok(()) => {
                            &&& final(self).error_message == old(self).error_message
                            &&& cmd matches Command::LoadRepositories { token, username }
                            &&& token@ == old(self).token@
                            &&& username@ == old(self).username@
                        },
                        Err(e) => {
                            &&& final(self).error_message == Some(e)
                            &&& cmd is Nothing
                        },
                    }
                },
            },
    {
        match message {
            Message::TokenInput(value) => {
                self.token = value;
                Command::Nothing
            },
            Message::UsernameInput(value) => {
                self.username = value;
                Command::Nothing
            },
            Message::Connect => {
                if self.token.as_str().is_empty() || self.username.as_str().is_empty() {
                    self.error_message = Some(String::from_str("Token and username are required"));
                    return Command::Nothing;
                }
                Command::LoadRepositories { token: self.token.clone(), username: self.username.clone() }
            },
            Message::RepositoriesLoaded(result) => {
                self.loading = false;
                match result {
                    Ok(repos) => {
                        let n = repos.len();
                        self.repositories = repos;
                        self.selected_repos = unchecked(n);
                        self.error_message = None;
                        self.credential = match Credential::new(
                            self.token.as_str(),
                            self.username.as_str(),
                        ) {
                            Ok(c) => Some(c),
                            Err(_) => None,
                        };
                    },
                    Err(e) => {
                        self.error_message = Some(e);
                    },
                }
                Command::Nothing
            },
            Message::ToggleRepository(index) => {
                if index < self.selected_repos.len() {
                    let flipped = !self.selected_repos[index];
                    self.selected_repos.set(index, flipped);
                }
                Command::Nothing
            },
            Message::DeleteSelected => {
                self.show_confirmation = true;
                Command::Nothing
            },
            Message::ConfirmDeletion => {
                self.show_confirmation = false;
                let targets = self.checked();
                if self.deleting || targets.len() == 0 || self.credential.is_none() {
                    return Command::Nothing;
                }
                self.deleting = true;
                Command::DeleteRepositories { targets }
            },
            Message::CancelDeletion => {
                self.show_confirmation = false;
                Command::Nothing
            },
            Message::RepositoryDeleted(result) => {
                self.deleting = false;
                match result {
                    Ok(()) => Command::LoadRepositories {
                        token: self.token.clone(),
                        username: self.username.clone(),
                    },
                    Err(e) => {
                        self.error_message = Some(e);
                        Command::Nothing
                    },
                }
            },
        }
    }
}

} // verus!
