use git2::{Repository, RepositoryInitOptions, Signature};
use powerline_prompt::git::{Branch, GitState, TrackingState};
use powerline_prompt::prompt::{assemble, prompt};
use powerline_prompt::render::status_line;
use tempfile::tempdir;

const COMMIT: &str = "fedcba9876543210fedcba9876543210fedcba98";

#[test]
fn assembled_prompt_with_every_segment() {
    let branch = Branch {
        name: "main".to_string(),
        tracking: TrackingState::Divergence { ahead: 2, behind: 1 },
    };
    let state = GitState::new(COMMIT.to_string(), Some(branch), 3).unwrap();
    let shown = assemble(
        Some("1"),
        Some(1234),
        "/home/u/proj/",
        Some("/home/u"),
        Some(&state),
        "09:05",
    );
    let expected = [
        "\n",
        "\u{1b}[107;30m\u{e0b0}\u{1b}[0m",
        "\u{1b}[107;31m \u{2716} 1 \u{1b}[0m",
        "\u{1b}[46;97m\u{e0b0}\u{1b}[0m",
        "\u{1b}[46;30m 1.23s \u{1b}[0m",
        "\u{1b}[44;36m\u{e0b0}\u{1b}[0m",
        "\u{1b}[44;30m ~/proj \u{1b}[0m",
        "\u{1b}[43;34m\u{e0b0}\u{1b}[0m",
        "\u{1b}[43;30m \u{e0a0} main 2\u{2191} 1\u{2193} \u{b1}3 \u{1b}[0m",
        "\u{1b}[40;33m\u{e0b0}\u{1b}[0m",
        "\n\u{1b}[90m09:05\u{1b}[0m \u{1b}[90m\u{25b6}\u{1b}[0m ",
    ];
    assert_eq!(shown, expected.concat());
}

#[test]
fn assembled_prompt_with_the_directory_alone() {
    let shown = assemble(None, None, "/var/data", None, None, "12:00");
    let expected = [
        "\n",
        "\u{1b}[44;30m\u{e0b0}\u{1b}[0m",
        "\u{1b}[44;30m /var/data \u{1b}[0m",
        "\u{1b}[40;34m\u{e0b0}\u{1b}[0m",
        "\n\u{1b}[90m12:00\u{1b}[0m \u{1b}[90m\u{25b6}\u{1b}[0m ",
    ];
    assert_eq!(shown, expected.concat());
}

#[test]
fn assembled_prompt_after_an_unreadable_exit_code() {
    let shown = assemble(Some("oops"), None, "/", None, None, "12:00");
    assert!(shown.starts_with("\n\u{1b}[107;30m\u{e0b0}\u{1b}[0m\u{1b}[107;31m \u{2716} \u{1b}[0m"));
    assert!(shown.ends_with(&status_line("12:00")));
}

#[test]
fn prompt_outside_a_repository() {
    let directory = tempdir().unwrap();
    let path = directory.path().display().to_string();
    let shown = prompt(Some("0"), Some(250), &path);
    assert!(shown.starts_with("\n\u{1b}[46;30m\u{e0b0}\u{1b}[0m\u{1b}[46;30m 0.25s \u{1b}[0m"));
    assert!(shown.contains("\u{1b}[40;34m\u{e0b0}\u{1b}[0m\n\u{1b}[90m"));
    assert!(!shown.contains('\u{e0a0}'));
    assert!(shown.ends_with(" \u{1b}[90m\u{25b6}\u{1b}[0m "));
}

#[test]
fn prompt_inside_a_repository() {
    let directory = tempdir().unwrap();
    let mut options = RepositoryInitOptions::new();
    options.initial_head("trunk");
    let repository = Repository::init_opts(directory.path(), &options).unwrap();
    let author = Signature::now("Tester", "tester@example.com").unwrap();
    let tree_id = repository.treebuilder(None).unwrap().write().unwrap();
    let tree = repository.find_tree(tree_id).unwrap();
    repository.commit(Some("HEAD"), &author, &author, "first", &tree, &[]).unwrap();

    let path = directory.path().display().to_string();
    let shown = prompt(Some("3"), None, &path);
    assert!(shown.starts_with("\n\u{1b}[107;30m\u{e0b0}\u{1b}[0m\u{1b}[107;31m \u{2716} 3 \u{1b}[0m"));
    assert!(shown.contains("\u{1b}[42;30m \u{e0a0} trunk \u{2262} \u{1b}[0m\u{1b}[40;32m\u{e0b0}\u{1b}[0m\n"));
}

#[test]
fn prompt_shortens_the_home_directory() {
    let home = match dirs::home_dir() {
        Some(home) => home.display().to_string(),
        None => return,
    };
    let shown = prompt(None, None, &home);
    assert!(shown.contains("\u{1b}[44;30m ~ \u{1b}[0m"));
}
