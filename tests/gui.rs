use github_manager::gui::{Command, GithubManagerGui, Message};
use github_manager::models::Repository;

fn loaded(n: usize) -> GithubManagerGui {
    let (mut gui, _) = GithubManagerGui::new(());
    gui.update(Message::TokenInput("tok".to_string()));
    gui.update(Message::UsernameInput("octo".to_string()));
    let repos = (1..=n)
        .map(|i| Repository::new(&format!("repo{}", i), "octo", &format!("https://x/{}", i)))
        .collect();
    gui.update(Message::RepositoriesLoaded(Ok(repos)));
    gui
}

#[test]
fn new_form_is_empty() {
    let (gui, cmd) = GithubManagerGui::new(());
    assert!(gui.token.is_empty());
    assert!(gui.repositories.is_empty());
    assert!(gui.credential.is_none());
    assert!(matches!(cmd, Command::Nothing));
    assert_eq!(gui.title(), "GitHub Repository Manager");
}

#[test]
fn connect_needs_token_and_name() {
    let (mut gui, _) = GithubManagerGui::new(());
    gui.update(Message::TokenInput("tok".to_string()));
    let cmd = gui.update(Message::Connect);
    assert!(matches!(cmd, Command::Nothing));
    assert_eq!(gui.error_message.as_deref(), Some("Token and username are required"));
    gui.update(Message::UsernameInput("octo".to_string()));
    match gui.update(Message::Connect) {
        Command::LoadRepositories { token, username } => {
            assert_eq!(token, "tok");
            assert_eq!(username, "octo");
        }
        other => panic!("unexpected {:?}", other),
    }
}

#[test]
fn loading_sets_listing_and_credential() {
    let gui = loaded(3);
    assert_eq!(gui.repositories.len(), 3);
    assert_eq!(gui.selected_repos, vec![false, false, false]);
    assert!(gui.credential.is_some());
    assert!(gui.error_message.is_none());
}

#[test]
fn load_failure_shows_error() {
    let (mut gui, _) = GithubManagerGui::new(());
    gui.update(Message::RepositoriesLoaded(Err("Failed to fetch repositories: 401".to_string())));
    assert_eq!(gui.error_message.as_deref(), Some("Failed to fetch repositories: 401"));
}

#[test]
fn toggling_and_confirming_deletes_checked_in_order() {
    let mut gui = loaded(4);
    gui.update(Message::ToggleRepository(3));
    gui.update(Message::ToggleRepository(1));
    gui.update(Message::ToggleRepository(9));
    assert_eq!(gui.selected_repos, vec![false, true, false, true]);
    gui.update(Message::DeleteSelected);
    assert!(gui.show_confirmation);
    match gui.update(Message::ConfirmDeletion) {
        Command::DeleteRepositories { targets } => {
            let names: Vec<&str> = targets.iter().map(|t| t.name.as_str()).collect();
            assert_eq!(names, vec!["repo2", "repo4"]);
        }
        other => panic!("unexpected {:?}", other),
    }
    assert!(!gui.show_confirmation);
    assert!(gui.deleting);
    assert!(matches!(gui.update(Message::ConfirmDeletion), Command::Nothing));
    match gui.update(Message::RepositoryDeleted(Ok(()))) {
        Command::LoadRepositories { username, .. } => assert_eq!(username, "octo"),
        other => panic!("unexpected {:?}", other),
    }
    assert!(!gui.deleting);
}

#[test]
fn confirming_nothing_checked_starts_nothing() {
    let mut gui = loaded(2);
    gui.update(Message::DeleteSelected);
    assert!(matches!(gui.update(Message::ConfirmDeletion), Command::Nothing));
    gui.update(Message::DeleteSelected);
    gui.update(Message::CancelDeletion);
    assert!(!gui.show_confirmation);
}

#[test]
fn deletion_failure_shows_error() {
    let mut gui = loaded(1);
    gui.update(Message::ToggleRepository(0));
    assert!(matches!(gui.update(Message::ConfirmDeletion), Command::DeleteRepositories { .. }));
    let cmd = gui.update(Message::RepositoryDeleted(Err("repo1: 403".to_string())));
    assert!(matches!(cmd, Command::Nothing));
    assert_eq!(gui.error_message.as_deref(), Some("repo1: 403"));
    assert!(!gui.deleting);
}

#[test]
fn bad_token_leaves_no_credential() {
    let (mut gui, _) = GithubManagerGui::new(());
    gui.update(Message::TokenInput("bad\ntoken".to_string()));
    gui.update(Message::UsernameInput("octo".to_string()));
    gui.update(Message::RepositoriesLoaded(Ok(Vec::new())));
    assert!(gui.credential.is_none());
}
