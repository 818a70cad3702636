//! The programs that open a file and copy to the clipboard on each system.

use vstd::prelude::*;
use crate::text::strs;

verus! {

/// The system the program runs on, as far as it matters here.
#[derive(Debug, Clone, Copy, PartialEq, Eq, Structural)]
pub enum Os {
    MacOs,
    Windows,
    Other,
}

/// A program to run: its name, its arguments, and what to write to its
/// standard input.
pub struct ProgramCmd {
    pub program: String,
    pub args: Vec<String>,
    pub stdin: Option<String>,
}

impl ProgramCmd {
    /// Name, arguments and input as character sequences.
    pub open spec fn model(&self) -> (Seq<char>, Seq<Seq<char>>, Option<Seq<char>>) {
        (
            self.program@,
            strs(self.args@),
            match self.stdin {
                Some(s) => Some(s@),
                None => None,
            },
        )
    }
}

/// Opening and copying through the system's own tools.
pub struct Platform;

/// How `path` is opened: `open <path>` on macOS, `cmd /c start "" <path>`
/// on Windows, `xdg-open <path>` elsewhere.
pub open spec fn open_file_spec(os: Os, path: Seq<char>) -> (Seq<char>, Seq<Seq<char>>, Option<
    Seq<char>,
>) {
    match os {
        Os::MacOs => ("open"@, seq![path], None),
        Os::Windows => ("cmd"@, seq!["/c"@, "start"@, ""@, path], None),
        Os::Other => ("xdg-open"@, seq![path], None),
    }
}

/// How `text` is copied: fed to `pbcopy` on macOS, `clip` on Windows,
/// `xclip -selection clipboard` elsewhere.
pub open spec fn copy_spec(os: Os, text: Seq<char>) -> (Seq<char>, Seq<Seq<char>>, Option<
    Seq<char>,
>) {
    match os {
        Os::MacOs => ("pbcopy"@, Seq::empty(), Some(text)),
        Os::Windows => ("clip"@, Seq::empty(), Some(text)),
        Os::Other => ("xclip"@, seq!["-selection"@, "clipboard"@], Some(text)),
    }
}

impl Platform {
    /// The command that opens `path` with the system's default program.
    pub fn open_file(os: Os, path: &str) -> (r: ProgramCmd)
        ensures
            r.model() == open_file_spec(os, path@),
    {
        let mut args: Vec<String> = Vec::new();
        let program = match os {
            Os::MacOs => "open",
            Os::Windows => {
                args.push(String::from_str("/c"));
                args.push(String::from_str("start"));
                args.push(String::from_str(""));
                "cmd"
            },
            Os::Other => "xdg-open",
        };
        args.push(String::from_str(path));
        let r = ProgramCmd { program: String::from_str(program), args, stdin: None };
        assert(r.model().1 =~= open_file_spec(os, path@).1);
        r
    }

    /// The command that puts `text` on the clipboard.
    pub fn copy_to_clipboard(os: Os, text: &str) -> (r: ProgramCmd)
        ensures
            r.model() == copy_spec(os, text@),
    {
        let mut args: Vec<String> = Vec::new();
        let program = match os {
            Os::MacOs => "pbcopy",
            Os::Windows => "clip",
            Os::Other => {
                args.push(String::from_str("-selection"));
                args.push(String::from_str("clipboard"));
                "xclip"
            },
        };
        let r = ProgramCmd {
            program: String::from_str(program),
            args,
            stdin: Some(String::from_str(text)),
        };
        assert(r.model().1 =~= copy_spec(os, text@).1);
        r
    }
}

} // verus!
