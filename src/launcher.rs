use vstd::prelude::*;
use vstd::string::StrSliceExecFns;
use vstd::string::StringExecFns;

verus! {

/// The two commands of the bundle; each runs one script of the scripts directory.
#[derive(Clone, Copy, Debug, PartialEq, Eq, Structural)]
pub enum Target {
    /// Runs a target under the QEMU emulator.
    Qemu,
    /// Runs a target on a board through U-Boot.
    Uboot,
}

/// Directory, under the manifest directory, that holds the scripts.
pub const SCRIPTS_DIR: &'static str = "scripts";

/// Manifest directory used when the environment names none.
pub const DEFAULT_MANIFEST_DIR: &'static str = ".";

/// The shell that runs a script.
pub const SHELL: &'static str = "bash";

/// Exit code of a command whose script ended without one (killed by a signal).
pub const FALLBACK_EXIT_CODE: i32 = 1;

/// File name of the script that `target` runs.
pub open spec fn script_file(target: Target) -> Seq<char> {
    match target {
        Target::Qemu => "run_qemu.sh"@,
        Target::Uboot => "run_uboot.sh"@,
    }
}

/// `base` extended by the path `part`, as a path joins on Unix: an absolute `part`
/// replaces `base`; otherwise a separator is put between them, unless `base` is empty
/// or already ends with one.
pub open spec fn joined(base: Seq<char>, part: Seq<char>) -> Seq<char> {
    if part.len() > 0 && part[0] == '/' {
        part
    } else if base.len() == 0 || base.last() == '/' {
        base + part
    } else {
        base + seq!['/'] + part
    }
}

/// The manifest directory, given the value of the environment variable that names it
/// (`None` where it is unset or not valid Unicode).
pub open spec fn resolved_manifest_dir(env_value: Option<String>) -> Seq<char> {
    match env_value {
        Some(v) => v@,
        None => DEFAULT_MANIFEST_DIR@,
    }
}

/// Where the script of `target` lies, below the manifest directory `dir`.
pub open spec fn script_location(dir: Seq<char>, target: Target) -> Seq<char> {
    joined(joined(dir, SCRIPTS_DIR@), script_file(target))
}

/// The arguments handed on to a script: the command's own, without the program name.
pub open spec fn forwarded(argv: Seq<String>) -> Seq<String> {
    if argv.len() == 0 {
        Seq::empty()
    } else {
        argv.subrange(1, argv.len() as int)
    }
}

/// The exit code of a command whose script ended with `code`.
pub open spec fn relayed_exit_code(code: Option<i32>) -> i32 {
    match code {
        Some(n) => n,
        None => FALLBACK_EXIT_CODE,
    }
}

impl Target {
    /// Returns the file name of the script that this command runs.
    pub fn script_name(&self) -> (r: &'static str)
        ensures
            r@ == script_file(*self),
    {
        match self {
            Target::Qemu => "run_qemu.sh",
            Target::Uboot => "run_uboot.sh",
        }
    }
}

/// Returns `base` extended by the path `part` (see `joined`).
pub fn join_path(base: &str, part: &str) -> (r: String)
    ensures
        r@ == joined(base@, part@),
{
    let part_len = part.unicode_len();
    if part_len > 0 && part.get_char(0) == '/' {
        return String::from_str(part);
    }
    let base_len = base.unicode_len();
    let mut r = String::from_str(base);
    if base_len > 0 && base.get_char(base_len - 1) != '/' {
        r.append("/");
        proof {
            reveal_strlit("/");
        }
    }
    r.append(part);
    r
}

/// Returns the manifest directory, given the value of the environment variable that
/// names it: that value where there is one, else the current directory.
pub fn manifest_dir(env_value: Option<String>) -> (r: String)
    ensures
        r@ == resolved_manifest_dir(env_value),
{
    match env_value {
        Some(v) => v,
        None => String::from_str(DEFAULT_MANIFEST_DIR),
    }
}

/// Returns the path of the script of `target` below the manifest directory `dir`.
pub fn script_path(dir: &str, target: Target) -> (r: String)
    ensures
        r@ == script_location(dir@, target),
{
    let scripts = join_path(dir, SCRIPTS_DIR);
    join_path(scripts.as_str(), target.script_name())
}

/// Returns the arguments to hand on to a script: all of `argv` but its first element,
/// the program name, in their order.
pub fn forwarded_args(argv: &Vec<String>) -> (r: Vec<String>)
    ensures
        r@ == forwarded(argv@),
{
    let mut r: Vec<String> = Vec::new();
    if argv.len() == 0 {
        return r;
    }
    let mut i: usize = 1;
    while i < argv.len()
        invariant
            1 <= i <= argv@.len(),
            r@ == argv@.subrange(1, i as int),
        decreases argv@.len() - i,
    {
        r.push(argv[i].clone());
        i = i + 1;
    }
    r
}

/// A script run: the program to start and its arguments.
pub struct Launch {
    /// The program to start.
    pub program: String,
    /// Its arguments, in order.
    pub args: Vec<String>,
}

/// Returns how the command of `target` runs its script, given the value of the
/// manifest directory's environment variable and the command's own arguments: the shell,
/// with the script's path and then the forwarded arguments.
pub fn plan_launch(target: Target, env_value: Option<String>, argv: &Vec<String>) -> (r: Launch)
    ensures
        r.program@ == SHELL@,
        r.args@.len() == forwarded(argv@).len() + 1,
        r.args@[0]@ == script_location(resolved_manifest_dir(env_value), target),
        r.args@.subrange(1, r.args@.len() as int) == forwarded(argv@),
{
    let dir = manifest_dir(env_value);
    let path = script_path(dir.as_str(), target);
    let rest = forwarded_args(argv);
    let mut args: Vec<String> = Vec::new();
    args.push(path);
    let mut i: usize = 0;
    while i < rest.len()
        invariant
            i <= rest@.len(),
            args@.len() == i + 1,
            args@[0]@ == script_location(resolved_manifest_dir(env_value), target),
            args@.subrange(1, i + 1) == rest@.subrange(0, i as int),
        decreases rest@.len() - i,
    {
        args.push(rest[i].clone());
        i = i + 1;
        assert(args@.subrange(1, i + 1) =~= rest@.subrange(0, i as int));
    }
    assert(rest@.subrange(0, rest@.len() as int) =~= rest@);
    Launch { program: String::from_str(SHELL), args }
}

/// Returns the command's own exit code, given the exit code of its script (`None` where
/// the script ended without one): the script's code, else the fallback code.
pub fn exit_status(code: Option<i32>) -> (r: i32)
    ensures
        r == relayed_exit_code(code),
        code is Some ==> r == code->Some_0,
        code is None ==> r == 1,
{
    match code {
        Some(n) => n,
        None => FALLBACK_EXIT_CODE,
    }
}

/// Returns the message with which the command of `target` stops when its script cannot
/// be started.
pub fn launch_failure_message(target: Target) -> (r: String)
    ensures
        r@ == "Failed to execute "@ + script_file(target),
{
    let r = String::from_str("Failed to execute ");
    r.concat(target.script_name())
}

/// The script of a command lies in the scripts directory of the manifest directory: for a
/// relative or absolute directory `dir` written without a trailing separator, at
/// `dir/scripts/<script>`, and with one, at `dir` followed by `scripts/<script>`.
pub proof fn lemma_script_location_shape(dir: Seq<char>, target: Target)
    requires
        dir.len() > 0,
    ensures
        dir.last() != '/' ==> script_location(dir, target) == dir + "/scripts/"@ + script_file(target),
        dir.last() == '/' ==> script_location(dir, target) == dir + "scripts/"@ + script_file(target),
{
    reveal_strlit("scripts");
    reveal_strlit("/scripts/");
    reveal_strlit("scripts/");
    reveal_strlit("run_qemu.sh");
    reveal_strlit("run_uboot.sh");
    let inner = joined(dir, SCRIPTS_DIR@);
    assert(inner.last() == 's');
    if dir.last() != '/' {
        assert(inner == dir + seq!['/'] + "scripts"@);
        assert(script_location(dir, target) =~= dir + "/scripts/"@ + script_file(target));
    } else {
        assert(script_location(dir, target) =~= dir + "scripts/"@ + script_file(target));
    }
}

/// Where the environment names no manifest directory, a command runs the script of the
/// scripts directory below the current directory.
pub proof fn lemma_default_script_location(target: Target)
    ensures
        script_location(resolved_manifest_dir(None), target) == "./scripts/"@ + script_file(target),
{
    reveal_strlit(".");
    reveal_strlit("./scripts/");
    reveal_strlit("/scripts/");
    lemma_script_location_shape("."@, target);
    assert("."@ + "/scripts/"@ =~= "./scripts/"@);
}

/// The arguments handed on to a script are the command's own without the first, each at
/// the place before its own.
pub proof fn lemma_forwarded_drops_program_name(argv: Seq<String>)
    ensures
        forwarded(argv).len() == if argv.len() == 0 { 0 } else { argv.len() - 1 },
        forall|i: int| 0 <= i < forwarded(argv).len() ==> #[trigger] forwarded(argv)[i] == argv[i + 1],
{
}

} // verus!
