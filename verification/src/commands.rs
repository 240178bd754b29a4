//! The elevated process runner's decision core.
//!
//! A [`ShellCommand`] is built incrementally (program, arguments,
//! optional elevation) and consumed exactly once. The actual spawn is
//! outside work: the embedding binary asks [`ShellCommand::spawn_invocation`]
//! what to launch, runs it, and feeds the outcome back through
//! [`check_wait_status`] and [`decode_output`].

use vstd::prelude::*;

use crate::error::{AppError, AppResult};
use vstd::utf8::{decode_utf8, valid_utf8};

verus! {

/// The exit state of a finished process, as the library models it.
#[derive(Clone, Copy, Debug, PartialEq, Eq, Structural)]
pub struct CommandStatus {
    pub success: bool,
}

/// Captured output of a finished process, decoded as text.
#[derive(Debug)]
pub struct StringOutput {
    pub stdout: String,
    pub stderr: String,
    pub status: CommandStatus,
}

/// A command under construction: a program, its arguments in order, and
/// whether it must run under the privilege-elevation wrapper.
#[derive(Debug)]
pub struct ShellCommand {
    command: String,
    args: Vec<String>,
    elevated: bool,
}

impl ShellCommand {
    /// The program this command launches (before elevation retargeting).
    pub closed spec fn program(&self) -> Seq<char> {
        self.command@
    }

    /// The accumulated argument list, in order.
    pub closed spec fn arg_list(&self) -> Seq<Seq<char>> {
        self.args.deep_view()
    }

    /// Whether the command is marked for privilege elevation.
    pub closed spec fn is_elevated(&self) -> bool {
        self.elevated
    }

    pub fn new(command: &str) -> (c: Self)
        ensures
            c.program() == command@,
            c.arg_list() == Seq::<Seq<char>>::empty(),
            !c.is_elevated(),
    {
        let c = ShellCommand { command: String::from_str(command), args: Vec::new(), elevated: false };
        proof {
            assert(c.arg_list() =~= Seq::<Seq<char>>::empty());
        }
        c
    }

    /// The local package manager, or its drop-in accelerator when both
    /// enabled and present; colored output is requested on a terminal.
    pub fn pacman(powerpill_enabled: bool, powerpill_present: bool, tty: bool) -> (c: Self)
        ensures
            c.program() == if powerpill_enabled && powerpill_present {
                "powerpill"@
            } else {
                "pacman"@
            },
            c.arg_list() == if tty {
                seq!["--color=always"@]
            } else {
                Seq::<Seq<char>>::empty()
            },
            !c.is_elevated(),
    {
        let base = if powerpill_enabled && powerpill_present {
            Self::new("powerpill")
        } else {
            Self::new("pacman")
        };
        if tty {
            let c = base.arg("--color=always");
            proof {
                assert(c.arg_list() =~= seq!["--color=always"@]);
            }
            c
        } else {
            base
        }
    }

    pub fn pacdiff() -> (c: Self)
        ensures
            c.program() == "pacdiff"@,
            c.arg_list() == Seq::<Seq<char>>::empty(),
            !c.is_elevated(),
    {
        Self::new("pacdiff")
    }

    pub fn makepkg() -> (c: Self)
        ensures
            c.program() == "makepkg"@,
            c.arg_list() == Seq::<Seq<char>>::empty(),
            !c.is_elevated(),
    {
        Self::new("makepkg")
    }

    pub fn git() -> (c: Self)
        ensures
            c.program() == "git"@,
            c.arg_list() == Seq::<Seq<char>>::empty(),
            !c.is_elevated(),
    {
        Self::new("git")
    }

    pub fn bash() -> (c: Self)
        ensures
            c.program() == "bash"@,
            c.arg_list() == Seq::<Seq<char>>::empty(),
            !c.is_elevated(),
    {
        Self::new("bash")
    }

    /// The configured elevation helper itself, run as an ordinary command.
    pub fn sudo(sudo_program: &str) -> (c: Self)
        ensures
            c.program() == sudo_program@,
            c.arg_list() == Seq::<Seq<char>>::empty(),
            !c.is_elevated(),
    {
        Self::new(sudo_program)
    }

    /// Adds one argument.
    pub fn arg(self, arg: &str) -> (c: Self)
        ensures
            c.program() == self.program(),
            c.arg_list() == self.arg_list().push(arg@),
            c.is_elevated() == self.is_elevated(),
    {
        let mut c = self;
        c.args.push(String::from_str(arg));
        proof {
            assert(c.arg_list() =~= self.arg_list().push(arg@));
        }
        c
    }

    /// Adds a list of arguments, in order.
    pub fn args(self, args: Vec<String>) -> (c: Self)
        ensures
            c.program() == self.program(),
            c.arg_list() == self.arg_list() + args.deep_view(),
            c.is_elevated() == self.is_elevated(),
    {
        let ghost supplied = args.deep_view();
        let mut c = self;
        let mut rest = args;
        c.args.append(&mut rest);
        proof {
            assert(c.arg_list() =~= self.arg_list() + supplied);
        }
        c
    }

    /// Marks the command to run under the privilege-elevation wrapper.
    pub fn elevated(self) -> (c: Self)
        ensures
            c.program() == self.program(),
            c.arg_list() == self.arg_list(),
            c.is_elevated(),
    {
        let mut c = self;
        c.elevated = true;
        c
    }

    /// Consumes the command and yields the program and argument list the
    /// operating system must actually be asked to run. An elevated
    /// command is retargeted: the elevation program is launched, with
    /// the original program prepended to the original arguments.
    pub fn spawn_invocation(self, elevation_program: &str) -> (r: (String, Vec<String>))
        ensures
            !self.is_elevated() ==> r.0@ == self.program() && r.1.deep_view() == self.arg_list(),
            self.is_elevated() ==> r.0@ == elevation_program@ && r.1.deep_view() == seq![
                self.program(),
            ] + self.arg_list(),
    {
        if self.elevated {
            let mut full: Vec<String> = Vec::new();
            full.push(self.command);
            let mut rest = self.args;
            full.append(&mut rest);
            proof {
                assert(full.deep_view() =~= seq![self.program()] + self.arg_list());
            }
            (String::from_str(elevation_program), full)
        } else {
            (self.command, self.args)
        }
    }
}

/// The success check behind `run_checked`: a finished process either
/// succeeded, or the whole operation fails with `NonZeroExit`.
pub fn check_wait_status(status: CommandStatus) -> (r: AppResult<()>)
    ensures
        status.success ==> r == AppResult::<()>::Ok(()),
        !status.success ==> r == AppResult::<()>::Err(AppError::NonZeroExit),
{
    if status.success {
        Ok(())
    } else {
        Err(AppError::NonZeroExit)
    }
}

/// Relies on `String::from_utf8`: it succeeds exactly on valid UTF-8 and
/// returns the decoded text, as `vstd`'s UTF-8 model states it.
#[verifier::external_body]
fn string_from_utf8(bytes: Vec<u8>) -> (r: Result<String, ()>)
    ensures
        r is Ok <==> valid_utf8(bytes@),
        r matches Ok(s) ==> s@ == decode_utf8(bytes@),
{
    match String::from_utf8(bytes) {
        Ok(s) => Ok(s),
        Err(_) => Err(()),
    }
}

/// The text-decoding step behind `run_captured`: both captured streams
/// must be valid UTF-8, independent of the exit status; otherwise the
/// operation fails with a `Decode` error.
pub fn decode_output(stdout: Vec<u8>, stderr: Vec<u8>, status: CommandStatus) -> (r: AppResult<
    StringOutput,
>)
    ensures
        valid_utf8(stdout@) && valid_utf8(stderr@) ==> (r matches Ok(o) && o.stdout@ == decode_utf8(
            stdout@,
        ) && o.stderr@ == decode_utf8(stderr@) && o.status == status),
        !(valid_utf8(stdout@) && valid_utf8(stderr@)) ==> (r matches Err(e) && e is Decode),
{
    let out = match string_from_utf8(stdout) {
        Ok(s) => s,
        Err(_) => {
            return Err(AppError::Decode("invalid utf-8 in captured stdout".to_owned()));
        },
    };
    let err = match string_from_utf8(stderr) {
        Ok(s) => s,
        Err(_) => {
            return Err(AppError::Decode("invalid utf-8 in captured stderr".to_owned()));
        },
    };
    Ok(StringOutput { stdout: out, stderr: err, status })
}

} // verus!
