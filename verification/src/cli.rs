//! The command line as a plain value: which editor, if any, the finder is
//! to steer.

use vstd::prelude::*;

verus! {

/// What the command line asks for.
#[derive(Debug, PartialEq, Eq)]
pub struct Cli {
    pub command: Option<Command>,
}

/// The editor to steer.
#[derive(Debug, PartialEq, Eq)]
pub enum Command {
    Nvim(NvimArgs),
}

/// How to reach a running Neovim.
#[derive(Debug, PartialEq, Eq)]
pub struct NvimArgs {
    /// The path of the socket on which the editor listens.
    pub socket: String,
}

impl Cli {
    /// The endpoint of the editor to steer. Without one the finder steers
    /// no editor.
    pub open spec fn endpoint(self) -> Option<Seq<char>> {
        match self.command {
            Some(Command::Nvim(args)) => Some(args.socket@),
            None => None,
        }
    }

    /// Reads the editor's endpoint off the command line.
    pub fn socket(&self) -> (res: Option<&str>)
        ensures
            match res {
                Some(path) => self.endpoint() == Some(path@),
                None => self.endpoint() is None,
            },
    {
        match &self.command {
            Some(Command::Nvim(args)) => Some(args.socket.as_str()),
            None => None,
        }
    }
}

} // verus!
