use plz_cli::config::{history_file, Config, HistoryEntry, ShellIdentity};
use plz_cli::failure::Fatal;

fn settings(shell: &str) -> Config {
    Config {
        api_key: String::from("SECRET-REDACTED"),
        api_base: String::from("https://api.openai.com/v1"),
        shell: String::from(shell),
    }
}

#[test]
fn new_fails_without_a_credential() {
    let outcome = Config::new(None, Some(String::from("http://localhost")), None);
    assert!(matches!(outcome, Err(Fatal::MissingCredential)));
}

#[test]
fn new_fills_in_the_defaults() {
    let config = match Config::new(Some(String::from("k")), None, None) {
        Ok(config) => config,
        Err(failure) => panic!("{:?}", failure),
    };
    assert_eq!(config.api_key, "k");
    assert_eq!(config.api_base, "https://api.openai.com/v1");
    assert_eq!(config.shell, "");
}

#[test]
fn new_takes_what_is_set() {
    let config = match Config::new(
        Some(String::from("k")),
        Some(String::from("http://localhost:8080/v1")),
        Some(String::from("/bin/zsh")),
    ) {
        Ok(config) => config,
        Err(failure) => panic!("{:?}", failure),
    };
    assert_eq!(config.api_key, "k");
    assert_eq!(config.api_base, "http://localhost:8080/v1");
    assert_eq!(config.shell, "/bin/zsh");
}

#[test]
fn new_accepts_an_empty_credential() {
    let config = match Config::new(Some(String::new()), None, None) {
        Ok(config) => config,
        Err(failure) => panic!("{:?}", failure),
    };
    assert_eq!(config.api_key, "");
}

#[test]
fn shell_identity_tells_three_kinds_apart() {
    assert_eq!(settings("/bin/bash").shell_identity(), ShellIdentity::Bash);
    assert_eq!(settings("/bin/zsh").shell_identity(), ShellIdentity::Zsh);
    assert_eq!(
        settings("/usr/bin/fish").shell_identity(),
        ShellIdentity::Other(String::from("/usr/bin/fish"))
    );
    assert_eq!(settings("").shell_identity(), ShellIdentity::Other(String::new()));
    assert_eq!(
        settings("/usr/bin/bash").shell_identity(),
        ShellIdentity::Other(String::from("/usr/bin/bash"))
    );
}

#[test]
fn history_file_by_shell() {
    assert_eq!(
        history_file(&ShellIdentity::Bash, "/home/ann"),
        Some(String::from("/home/ann/.bash_history"))
    );
    assert_eq!(
        history_file(&ShellIdentity::Zsh, "/home/ann"),
        Some(String::from("/home/ann/.zsh_history"))
    );
    assert_eq!(history_file(&ShellIdentity::Other(String::from("fish")), "/home/ann"), None);
}

#[test]
fn write_to_history_for_bash() {
    let entry = settings("/bin/bash").write_to_history(Some("/home/ann"), "ls -la");
    assert_eq!(
        entry,
        Some(HistoryEntry {
            path: String::from("/home/ann/.bash_history"),
            line: String::from("ls -la\n"),
        })
    );
}

#[test]
fn write_to_history_for_zsh() {
    let entry = settings("/bin/zsh").write_to_history(Some("/Users/ann"), "echo hi");
    assert_eq!(
        entry,
        Some(HistoryEntry {
            path: String::from("/Users/ann/.zsh_history"),
            line: String::from("echo hi\n"),
        })
    );
}

#[test]
fn write_to_history_does_nothing_for_another_shell() {
    let config = settings("fish");
    for code in vec!["", "ls -la", "rm -rf /tmp/x\necho done"] {
        assert_eq!(config.write_to_history(Some("/home/ann"), code), None);
    }
    assert_eq!(settings("").write_to_history(Some("/home/ann"), "ls"), None);
}

#[test]
fn write_to_history_does_nothing_without_a_home() {
    assert_eq!(settings("/bin/bash").write_to_history(None, "ls -la"), None);
}

#[test]
fn write_to_history_applies_no_escaping() {
    let entry = settings("/bin/bash").write_to_history(Some(""), "echo \"a\\b\"\n# two lines");
    assert_eq!(
        entry,
        Some(HistoryEntry {
            path: String::from("/.bash_history"),
            line: String::from("echo \"a\\b\"\n# two lines\n"),
        })
    );
}

#[test]
fn appending_adds_one_line_and_keeps_the_rest() {
    let entry = match settings("/bin/bash").write_to_history(Some("/home/ann"), "ls -la") {
        Some(entry) => entry,
        None => panic!("bash has a history file"),
    };
    let mut contents = String::from("cd /tmp\nmake\n");
    entry.append_to(&mut contents);
    assert_eq!(contents, "cd /tmp\nmake\nls -la\n");
    let mut empty = String::new();
    entry.append_to(&mut empty);
    assert_eq!(empty, "ls -la\n");
}
