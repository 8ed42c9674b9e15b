//! What the command line asks for.

use vstd::prelude::*;
use vstd::string::{StringExecFns, StringSliceAdditionalSpecFns};
use vstd::utf8::{decode_utf8, encode_utf8_decode_utf8, is_char_boundary};

verus! {

/// The ways to launch the program.
#[derive(Debug)]
pub enum CliCommand {
    /// The interactive shell.
    Interactive,
    /// Run the script at `path`.
    Run { path: String },
    /// Print the version.
    Version,
}

/// A command by what it holds.
pub ghost enum CliCommandView {
    Interactive,
    Run { path: Seq<char> },
    Version,
}

impl View for CliCommand {
    type V = CliCommandView;

    open spec fn view(&self) -> CliCommandView {
        match self {
            CliCommand::Interactive => CliCommandView::Interactive,
            CliCommand::Run { path } => CliCommandView::Run { path: path@ },
            CliCommand::Version => CliCommandView::Version,
        }
    }
}

impl Clone for CliCommand {
    fn clone(&self) -> (copy: Self)
        ensures
            copy@ == self@,
    {
        match self {
            CliCommand::Interactive => CliCommand::Interactive,
            CliCommand::Run { path } => CliCommand::Run { path: path.clone() },
            CliCommand::Version => CliCommand::Version,
        }
    }
}

/// The parsed command line.
pub struct Cli {
    command: Option<CliCommand>,
}

impl Cli {
    /// The command that was given, if one was.
    pub closed spec fn command(&self) -> Option<CliCommandView> {
        match self.command {
            Some(command) => Some(command@),
            None => None,
        }
    }

    /// The program's mode for a command line: the command given, and the
    /// interactive shell where none is.
    pub open spec fn mode_of(command: Option<CliCommandView>) -> CliCommandView {
        match command {
            Some(command) => command,
            None => CliCommandView::Interactive,
        }
    }

    /// A command line that gives `command`.
    pub fn new(command: Option<CliCommand>) -> (cli: Self)
        ensures
            cli.command() == match command {
                Some(command) => Some(command@),
                None => None,
            },
    {
        Cli { command }
    }

    /// The command that was given, if one was.
    pub fn get_command(&self) -> (command: Option<CliCommand>)
        ensures
            match command {
                Some(command) => self.command() == Some(command@),
                None => self.command() is None,
            },
    {
        match &self.command {
            Some(command) => Some(command.clone()),
            None => None,
        }
    }

    /// The mode the program is launched in.
    pub fn mode(&self) -> (mode: CliCommand)
        ensures
            mode@ == Self::mode_of(self.command()),
    {
        match self.get_command() {
            Some(command) => command,
            None => CliCommand::Interactive,
        }
    }
}

/// The short form of a commit hash: the characters that its first seven
/// bytes spell. Where no hash is known, seven question marks stand for it.
pub open spec fn short_hash(git_hash: Option<&str>) -> Seq<char> {
    match git_hash {
        Some(hash) => decode_utf8(hash.spec_bytes().subrange(0, 7)),
        None => "???????"@,
    }
}

/// The line that tells the version: a fixed label and the short hash of the
/// commit the program was built from. A hash that is given has at least seven
/// bytes, and its seventh byte ends a character.
pub fn version_line(git_hash: Option<&str>) -> (line: String)
    requires
        git_hash matches Some(hash) ==> is_char_boundary(hash.spec_bytes(), 7),
    ensures
        line@ == "version->#"@ + short_hash(git_hash),
{
    let short: &str = match git_hash {
        Some(hash) => {
            let (head, _) = hash.split_at(7);
            proof {
                encode_utf8_decode_utf8(head@);
            }
            head
        },
        None => "???????",
    };
    String::from_str("version->#").concat(short)
}

} // verus!
