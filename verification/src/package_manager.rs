//! The package-manager tag and the shape of the `run` invocation.

use vstd::prelude::*;

verus! {

/// The package managers the launcher knows how to drive.
#[derive(Clone, Copy, Debug, PartialEq, Eq, Structural)]
pub enum PackageManager {
    Npm,
    Pnpm,
}

impl PackageManager {
    /// The name of this package manager's executable.
    pub open spec fn spec_command(self) -> Seq<char> {
        match self {
            PackageManager::Npm => "npm"@,
            PackageManager::Pnpm => "pnpm"@,
        }
    }

    /// Returns the command string for this package manager.
    pub fn command(&self) -> (r: &'static str)
        ensures
            r@ == self.spec_command(),
    {
        match self {
            PackageManager::Npm => "npm",
            PackageManager::Pnpm => "pnpm",
        }
    }
}

/// Chooses the package manager from lockfile presence: `pnpm-lock.yaml`
/// selects pnpm, its absence selects npm. No other lockfile is consulted.
pub fn determine_package_manager(pnpm_lock_present: bool) -> (r: PackageManager)
    ensures
        r == (if pnpm_lock_present {
            PackageManager::Pnpm
        } else {
            PackageManager::Npm
        }),
{
    if pnpm_lock_present {
        PackageManager::Pnpm
    } else {
        PackageManager::Npm
    }
}

/// Everything needed to run one chosen script: the executable, its argument
/// vector, and the header line announced on standard output before the spawn.
pub struct RunInvocation {
    pub program: String,
    pub args: Vec<String>,
    pub header: String,
}

/// The header line announced before the child runs: `"Running: {pm} run {name}"`.
pub open spec fn header_text(pm: PackageManager, name: Seq<char>) -> Seq<char> {
    "Running: "@ + pm.spec_command() + " run "@ + name
}

/// The invocation prepared for a package manager and script name: the
/// package manager's executable, the argument vector exactly
/// `["run", name]` with the name passed verbatim, and the header line.
pub open spec fn invocation_matches(
    inv: RunInvocation,
    pm: PackageManager,
    name: Seq<char>,
) -> bool {
    &&& inv.program@ == pm.spec_command()
    &&& inv.args@.len() == 2
    &&& inv.args@[0]@ == "run"@
    &&& inv.args@[1]@ == name
    &&& inv.header@ == header_text(pm, name)
}

/// Prepares the child-process invocation for one chosen script. No shell is
/// involved: the script name stays one argument, byte for byte.
pub fn run_invocation(pm: PackageManager, script_name: &str) -> (r: RunInvocation)
    ensures
        invocation_matches(r, pm, script_name@),
{
    let program = pm.command().to_owned();
    let mut args: Vec<String> = Vec::new();
    args.push("run".to_owned());
    args.push(script_name.to_owned());
    let mut header = "Running: ".to_owned();
    header.append(pm.command());
    header.append(" run ");
    header.append(script_name);
    RunInvocation { program, args, header }
}

/// Two invocations prepared for the same package manager and the same script
/// are indistinguishable: same program, same argument vector, same header.
pub proof fn lemma_invocation_idempotent(
    a: RunInvocation,
    b: RunInvocation,
    pm: PackageManager,
    name: Seq<char>,
)
    requires
        invocation_matches(a, pm, name),
        invocation_matches(b, pm, name),
    ensures
        a.program@ == b.program@,
        a.header@ == b.header@,
        a.args@.len() == b.args@.len(),
        forall|i: int| 0 <= i < a.args@.len() ==> a.args@[i]@ == b.args@[i]@,
{
    assert forall|i: int| 0 <= i < a.args@.len() implies a.args@[i]@ == b.args@[i]@ by {
        if i != 0 {
            assert(i == 1);
        }
    }
}

/// The child's exit code rendered as the diagnostic shows it: `Some(7)`, or
/// `None` where the child was ended by a signal.
pub open spec fn exit_code_text(code: Option<i32>) -> Seq<char> {
    match code {
        Some(c) => "Some("@ + crate::text::dec_int_text(c as int) + ")"@,
        None => "None"@,
    }
}

/// The diagnostic printed when the child failed.
pub open spec fn failure_report_text(code: Option<i32>) -> Seq<char> {
    "Command failed with exit code: "@ + exit_code_text(code)
}

/// Renders the child's exit code for the failure diagnostic.
pub fn format_exit_code(code: Option<i32>) -> (r: String)
    ensures
        r@ == exit_code_text(code),
{
    match code {
        Some(c) => {
            let mut s = "Some(".to_owned();
            let digits = crate::text::i32_to_dec(c);
            s.append(digits.as_str());
            s.append(")");
            s
        },
        None => "None".to_owned(),
    }
}

/// Decides what the launcher reports after waiting on the child: a
/// diagnostic exactly when the child failed, and silence on success. The
/// launcher's own outcome stays success either way; the child's status is
/// reported, not adopted.
pub fn exit_report(child_succeeded: bool, code: Option<i32>) -> (r: Option<String>)
    ensures
        r is Some <==> !child_succeeded,
        !child_succeeded ==> r->Some_0@ == failure_report_text(code),
{
    if child_succeeded {
        None
    } else {
        let mut s = "Command failed with exit code: ".to_owned();
        let rendered = format_exit_code(code);
        s.append(rendered.as_str());
        Some(s)
    }
}

} // verus!
