use vstd::prelude::*;

use crate::text::{contains, has_infix};

verus! {

/// The operating system whose conventions the path tables and commands follow.
#[derive(Clone, Copy, Debug, PartialEq, Eq, Structural)]
pub enum Platform {
    MacOs,
    Linux,
    Windows,
    Other,
}

/// A process to start: the program and its arguments.
#[derive(Debug)]
pub struct Invocation {
    pub program: String,
    pub args: Vec<String>,
}

/// What became of a process that was asked to run.
#[derive(Debug)]
pub enum RunOutcome {
    /// It could not be started; the text is the system's reason.
    SpawnFailed(String),
    /// It ran and ended, with its exit code if it had one.
    Exited(Option<i32>),
}

/// What a process-table query reported.
#[derive(Debug)]
pub enum ProbeOutcome {
    /// The query could not be run.
    Failed,
    /// The query ran: whether it succeeded, and what it wrote.
    Finished { success: bool, stdout: String },
}

/// The kinds of structure a settings document may lack.
#[derive(Debug)]
pub enum ShapeFailure {
    /// The document's root value is not an object.
    Root,
    /// The value under this key is not an object.
    Key(String),
}

/// Why an installation did not happen.
#[derive(Debug)]
pub enum InstallError {
    /// The editor's command-line interface could not be resolved.
    NotFound { editor: String },
    /// The installer could not be started.
    SpawnFailed { program: String, detail: String },
    /// The installer ran and reported failure.
    Failed { editor: String, code: Option<i32> },
    /// The settings document is not valid JSON with comments.
    ConfigParse { path: String, detail: String },
    /// The settings document does not have the structure the patch needs.
    ConfigShape { path: String, failure: ShapeFailure },
    /// A directory or file could not be created, read or written.
    Io { path: String, detail: String },
    /// No configuration directory could be determined.
    NoConfigDir { editor: String },
}

pub open spec fn invokes(inv: Invocation, program: Seq<char>, args: Seq<Seq<char>>) -> bool {
    inv.program@ == program && inv.args.deep_view() == args
}

pub open spec fn image_name(name: Seq<char>) -> Seq<char> {
    name + ".exe"@
}

pub open spec fn image_filter(name: Seq<char>) -> Seq<char> {
    "IMAGENAME eq "@ + name + ".exe"@
}

/// The process-table query that looks for `name`.
pub open spec fn spec_process_query(platform: Platform, name: Seq<char>) -> (Seq<char>, Seq<
    Seq<char>,
>) {
    if platform == Platform::Windows {
        ("tasklist"@, seq!["/FI"@, image_filter(name)])
    } else {
        ("pgrep"@, seq!["-i"@, name])
    }
}

/// Whether the query's report says that a process named `name` runs.
pub open spec fn spec_reports_running(platform: Platform, name: Seq<char>, outcome: ProbeOutcome) -> bool {
    match outcome {
        ProbeOutcome::Failed => false,
        ProbeOutcome::Finished { success, stdout } => if platform == Platform::Windows {
            has_infix(stdout@, image_name(name))
        } else {
            success
        },
    }
}

/// The process-table query that looks for a process named `name`:
/// `tasklist` filtered by image name on Windows, a case-insensitive `pgrep`
/// elsewhere.
pub fn process_query(platform: Platform, name: &str) -> (r: Invocation)
    ensures
        invokes(r, spec_process_query(platform, name@).0, spec_process_query(platform, name@).1),
{
    if platform == Platform::Windows {
        let mut filter = String::from_str("IMAGENAME eq ");
        filter.append(name);
        filter.append(".exe");
        let r = Invocation {
            program: String::from_str("tasklist"),
            args: vec![String::from_str("/FI"), filter],
        };
        assert(r.args.deep_view() =~= seq!["/FI"@, image_filter(name@)]);
        r
    } else {
        let r = Invocation {
            program: String::from_str("pgrep"),
            args: vec![String::from_str("-i"), String::from_str(name)],
        };
        assert(r.args.deep_view() =~= seq!["-i"@, name@]);
        r
    }
}

/// Whether a process named `name` is running, as the report of
/// [`process_query`] tells: a query that could not run counts as "not
/// running".
pub fn is_process_running(platform: Platform, name: &str, outcome: &ProbeOutcome) -> (r: bool)
    ensures
        r == spec_reports_running(platform, name@, *outcome),
{
    match outcome {
        ProbeOutcome::Failed => false,
        ProbeOutcome::Finished { success, stdout } => {
            if platform == Platform::Windows {
                let mut image = String::from_str(name);
                image.append(".exe");
                contains(stdout.as_str(), image.as_str())
            } else {
                *success
            }
        },
    }
}

/// How the run of an installer for `editor`, started as `program`, is judged:
/// success exactly when it ran and exited with code 0.
pub open spec fn judges_run(editor: Seq<char>, program: Seq<char>, outcome: RunOutcome, r: Result<(), InstallError>) -> bool {
    match outcome {
        RunOutcome::SpawnFailed(d) => match r {
            Err(InstallError::SpawnFailed { program: p, detail }) => p@ == program && detail
                == d,
            _ => false,
        },
        RunOutcome::Exited(c) => if c == Some(0i32) {
            r is Ok
        } else {
            match r {
                Err(InstallError::Failed { editor: e, code }) => e@ == editor && code == c,
                _ => false,
            }
        },
    }
}

/// The result of an installer run on behalf of `editor`: success exactly
/// when it ran and exited with code 0.
pub fn run_result(editor: &str, program: &str, outcome: RunOutcome) -> (r: Result<(), InstallError>)
    ensures
        judges_run(editor@, program@, outcome, r),
{
    match outcome {
        RunOutcome::SpawnFailed(detail) => Err(InstallError::SpawnFailed { program: String::from_str(program), detail }),
        RunOutcome::Exited(Some(0i32)) => Ok(()),
        RunOutcome::Exited(code) => Err(InstallError::Failed { editor: String::from_str(editor), code }),
    }
}

} // verus!
