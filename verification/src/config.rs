//! What a run takes from its environment: the credential, the endpoint, the
//! user's shell, and with the shell the file its history is kept in.

use crate::failure::{Fatal, FatalView};
use crate::text::same_text;
use vstd::prelude::*;
use vstd::string::*;

verus! {

/// The settings of a run.
pub struct Config {
    /// The credential sent with the request.
    pub api_key: String,
    /// The address of the API, without the path of the completion endpoint.
    pub api_base: String,
    /// The path of the user's shell; empty where it is not known.
    pub shell: String,
}

/// A `Config` with its texts as sequences of characters.
pub struct ConfigView {
    pub api_key: Seq<char>,
    pub api_base: Seq<char>,
    pub shell: Seq<char>,
}

impl View for Config {
    type V = ConfigView;

    open spec fn view(&self) -> ConfigView {
        ConfigView { api_key: self.api_key@, api_base: self.api_base@, shell: self.shell@ }
    }
}

/// The shell a user works in, as far as history recording tells shells apart.
#[derive(Debug, PartialEq, Eq)]
pub enum ShellIdentity {
    Bash,
    Zsh,
    /// Any other shell, with its path; an empty path stands for "not known".
    Other(String),
}

/// A `ShellIdentity` with its path as a sequence of characters.
pub enum ShellIdentityView {
    Bash,
    Zsh,
    Other(Seq<char>),
}

impl View for ShellIdentity {
    type V = ShellIdentityView;

    open spec fn view(&self) -> ShellIdentityView {
        match self {
            ShellIdentity::Bash => ShellIdentityView::Bash,
            ShellIdentity::Zsh => ShellIdentityView::Zsh,
            ShellIdentity::Other(path) => ShellIdentityView::Other(path@),
        }
    }
}

/// One line to add at the end of a history file.
#[derive(Debug, PartialEq, Eq)]
pub struct HistoryEntry {
    /// The file to append to.
    pub path: String,
    /// What to append: the command and a line feed.
    pub line: String,
}

/// A `HistoryEntry` with its texts as sequences of characters.
pub struct HistoryEntryView {
    pub path: Seq<char>,
    pub line: Seq<char>,
}

impl View for HistoryEntry {
    type V = HistoryEntryView;

    open spec fn view(&self) -> HistoryEntryView {
        HistoryEntryView { path: self.path@, line: self.line@ }
    }
}

/// The address used where the environment names none.
pub open spec fn default_api_base() -> Seq<char> {
    "https://api.openai.com/v1"@
}

/// The settings that follow from three variables of the environment, each
/// `None` where it is not set: the credential is required, the other two have
/// defaults.
pub open spec fn resolved(
    api_key: Option<Seq<char>>,
    api_base: Option<Seq<char>>,
    shell: Option<Seq<char>>,
) -> Result<ConfigView, FatalView> {
    match api_key {
        None => Err(FatalView::MissingCredential),
        Some(key) => Ok(
            ConfigView {
                api_key: key,
                api_base: match api_base {
                    Some(base) => base,
                    None => default_api_base(),
                },
                shell: match shell {
                    Some(path) => path,
                    None => Seq::empty(),
                },
            },
        ),
    }
}

/// The shell that the path `shell` names.
pub open spec fn shell_of(shell: Seq<char>) -> ShellIdentityView {
    if shell == "/bin/bash"@ {
        ShellIdentityView::Bash
    } else if shell == "/bin/zsh"@ {
        ShellIdentityView::Zsh
    } else {
        ShellIdentityView::Other(shell)
    }
}

/// The history file of `shell` for a user whose home directory is `home`;
/// `None` for a shell whose history is not recorded.
pub open spec fn history_path(shell: ShellIdentityView, home: Seq<char>) -> Option<Seq<char>> {
    match shell {
        ShellIdentityView::Bash => Some(home + "/.bash_history"@),
        ShellIdentityView::Zsh => Some(home + "/.zsh_history"@),
        ShellIdentityView::Other(_) => None,
    }
}

/// The line that records `code`: the command as it is, and a line feed.
pub open spec fn history_line(code: Seq<char>) -> Seq<char> {
    code + seq!['\n']
}

/// What recording `code` asks for, `None` where nothing is to be written: for
/// a shell without a known history file, or where the home directory is not
/// known.
pub open spec fn history_entry(
    config: ConfigView,
    home: Option<Seq<char>>,
    code: Seq<char>,
) -> Option<HistoryEntryView> {
    match home {
        None => None,
        Some(directory) => match history_path(shell_of(config.shell), directory) {
            None => None,
            Some(path) => Some(HistoryEntryView { path, line: history_line(code) }),
        },
    }
}

/// Only bash and zsh have their history recorded: for every other shell
/// nothing is to be written, whatever the command and the home directory.
pub proof fn lemma_other_shell_records_nothing(
    config: ConfigView,
    home: Option<Seq<char>>,
    code: Seq<char>,
)
    requires
        shell_of(config.shell) is Other,
    ensures
        history_entry(config, home, code) is None,
{
}

/// Recording keeps the command as it is: the line is the command followed by
/// one line feed, and the file is named after the shell, below the home
/// directory.
pub proof fn lemma_recorded_line(config: ConfigView, home: Seq<char>, code: Seq<char>)
    requires
        !(shell_of(config.shell) is Other),
    ensures
        history_entry(config, Some(home), code) matches Some(entry) && entry.line == code.push(
            '\n',
        ) && entry.path.subrange(0, home.len() as int) == home,
{
    let entry = history_entry(config, Some(home), code)->Some_0;
    assert(code + seq!['\n'] =~= code.push('\n'));
    assert(entry.path.subrange(0, home.len() as int) =~= home);
}

/// The history file of `shell` below the home directory `home`.
pub fn history_file(shell: &ShellIdentity, home: &str) -> (r: Option<String>)
    ensures
        r.deep_view() == history_path(shell@, home@),
{
    match shell {
        ShellIdentity::Bash => {
            let mut path = String::from_str(home);
            path.append("/.bash_history");
            Some(path)
        },
        ShellIdentity::Zsh => {
            let mut path = String::from_str(home);
            path.append("/.zsh_history");
            Some(path)
        },
        ShellIdentity::Other(_) => None,
    }
}

impl Config {
    /// Resolves the settings from the values of the credential variable, the
    /// address variable and the shell variable, each `None` where it is not
    /// set. Fails where the credential is missing.
    pub fn new(api_key: Option<String>, api_base: Option<String>, shell: Option<String>) -> (r:
        Result<Config, Fatal>)
        ensures
            match r {
                Ok(config) => resolved(
                    api_key.deep_view(),
                    api_base.deep_view(),
                    shell.deep_view(),
                ) == Ok::<ConfigView, FatalView>(config@),
                Err(failure) => resolved(
                    api_key.deep_view(),
                    api_base.deep_view(),
                    shell.deep_view(),
                ) == Err::<ConfigView, FatalView>(failure@),
            },
            r is Ok <==> api_key is Some,
    {
        match api_key {
            None => Err(Fatal::MissingCredential),
            Some(key) => {
                let base = match api_base {
                    Some(base) => base,
                    None => String::from_str("https://api.openai.com/v1"),
                };
                let path = match shell {
                    Some(path) => path,
                    None => String::new(),
                };
                Ok(Config { api_key: key, api_base: base, shell: path })
            },
        }
    }

    /// The shell these settings name.
    pub fn shell_identity(&self) -> (r: ShellIdentity)
        ensures
            r@ == shell_of(self.shell@),
    {
        if same_text(self.shell.as_str(), "/bin/bash") {
            ShellIdentity::Bash
        } else if same_text(self.shell.as_str(), "/bin/zsh") {
            ShellIdentity::Zsh
        } else {
            ShellIdentity::Other(self.shell.clone())
        }
    }

    /// What recording `code` in the history of the user's shell asks for: the
    /// file and the line to append to it. `None` where nothing is to be
    /// written, which is so for every shell but bash and zsh, whatever `code`
    /// is, and where `home` is `None`.
    pub fn write_to_history(&self, home: Option<&str>, code: &str) -> (r: Option<HistoryEntry>)
        ensures
            r.deep_view() == history_entry(self@, home.deep_view(), code@),
            shell_of(self.shell@) is Other ==> r is None,
    {
        match home {
            None => None,
            Some(directory) => {
                let shell = self.shell_identity();
                match history_file(&shell, directory) {
                    None => None,
                    Some(path) => {
                        let mut line = String::from_str(code);
                        proof {
                            reveal_strlit("\n");
                            assert("\n"@ =~= seq!['\n']);
                        }
                        line.append("\n");
                        Some(HistoryEntry { path, line })
                    },
                }
            },
        }
    }
}

impl DeepView for HistoryEntry {
    type V = HistoryEntryView;

    open spec fn deep_view(&self) -> HistoryEntryView {
        self@
    }
}

impl HistoryEntry {
    /// Adds the line to `contents`, the text of the history file so far. What
    /// was there stays, and the line follows it.
    pub fn append_to(&self, contents: &mut String)
        ensures
            final(contents)@ == old(contents)@ + self.line@,
    {
        contents.append(self.line.as_str());
    }
}

} // verus!
