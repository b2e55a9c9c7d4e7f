use vstd::prelude::*;

use crate::error::{CliError, LalResult};
use crate::paths::{decimal, decimal_string, join, join_path, opt_view};

verus! {

/// A bind mount from a host path into the container.
#[derive(Debug)]
pub struct Mount {
    pub src: String,
    pub dest: String,
    pub readonly: bool,
}

/// What the launcher needs of the configuration: the image to run and the
/// mounts to add.
#[derive(Debug)]
pub struct Config {
    pub container: String,
    pub mounts: Vec<Mount>,
}

/// What a launch comes to: a line to print (a dry run), or the arguments to
/// hand to the container runtime.
#[derive(Debug)]
pub enum Launch {
    Print(String),
    Run(Vec<String>),
}

/// The name of the container runtime's executable.
pub const RUNTIME: &'static str = "docker";

/// The id of the sandbox account, as user and as group.
pub const SANDBOX_ID: u32 = 1000;

/// The exit code reported when the runtime's own code cannot be observed.
pub const UNKNOWN_EXIT_CODE: i32 = 1001;

/// The views of a sequence of strings.
pub open spec fn views(v: Seq<String>) -> Seq<Seq<char>> {
    v.map_values(|s: String| s@)
}

/// `src:dest`, with `:ro` after it for a read-only mount.
pub open spec fn mount_flag_of(m: Mount) -> Seq<char> {
    m.src@ + ":"@ + m.dest@ + if m.readonly {
        ":ro"@
    } else {
        Seq::empty()
    }
}

/// `-v <flag>` for each mount, in order.
pub open spec fn mount_args_of(mounts: Seq<Mount>) -> Seq<Seq<char>>
    decreases mounts.len(),
{
    if mounts.len() == 0 {
        Seq::empty()
    } else {
        mount_args_of(mounts.drop_last()) + seq!["-v"@, mount_flag_of(mounts.last())]
    }
}

/// The arguments of a container run of `command` in `cfg`, for a host user
/// whose home is `home` and whose current directory is `pwd`.
pub open spec fn docker_args_of(
    cfg: Config,
    home: Seq<char>,
    pwd: Seq<char>,
    command: Seq<Seq<char>>,
    interactive: bool,
) -> Seq<Seq<char>> {
    seq!["run"@, "--rm"@] + mount_args_of(cfg.mounts@) + seq![
        "-v"@,
        join(home, ".gitconfig"@) + ":/home/lal/.gitconfig:ro"@,
        "-v"@,
        pwd + ":/home/lal/volume"@,
        "-w"@,
        "/home/lal/volume"@,
        "--user"@,
        "lal"@,
        if interactive {
            "-it"@
        } else {
            "-t"@
        },
        cfg.container@,
    ] + command
}

/// The words of `words` with a single space between each two.
pub open spec fn spaced(words: Seq<Seq<char>>) -> Seq<char>
    decreases words.len(),
{
    if words.len() == 0 {
        Seq::empty()
    } else if words.len() == 1 {
        words[0]
    } else {
        spaced(words.drop_last()) + " "@ + words.last()
    }
}

/// The line a dry run prints: the runtime's name, then its arguments.
pub open spec fn rendered_of(args: Seq<Seq<char>>) -> Seq<char> {
    spaced(seq![RUNTIME@] + args)
}

/// The command of an interactive shell, running `cmd` where one is given.
pub open spec fn shell_command_of(cmd: Option<Seq<char>>) -> Seq<Seq<char>> {
    match cmd {
        None => seq!["/bin/bash"@],
        Some(c) => seq!["/bin/bash"@, "-c"@, c],
    }
}

/// What comes of a launch, for every configuration, command and host state.
pub open spec fn launch_of(
    cfg: Config,
    home: Option<Seq<char>>,
    pwd: Seq<char>,
    command: Seq<Seq<char>>,
    interactive: bool,
    printonly: bool,
    r: LalResult<Launch>,
) -> bool {
    match home {
        None => r == Err::<Launch, CliError>(CliError::EnvironmentResolution),
        Some(h) => match r {
            Ok(Launch::Print(line)) => printonly && line@ == rendered_of(
                docker_args_of(cfg, h, pwd, command, interactive),
            ),
            Ok(Launch::Run(args)) => !printonly && views(args@) == docker_args_of(
                cfg,
                h,
                pwd,
                command,
                interactive,
            ),
            Err(_) => false,
        },
    }
}

/// The message of a failed identity check: `<what> is <id>, not 1000`.
pub open spec fn id_message(what: Seq<char>, id: u32) -> Seq<char> {
    what + " is "@ + decimal(id as nat) + ", not 1000"@
}

/// `r` is the outcome of the identity check for host user id `uid` and
/// group id `gid`: the user id is checked first, then the group id.
pub open spec fn id_check_of(uid: u32, gid: u32, r: LalResult<()>) -> bool {
    if uid != SANDBOX_ID {
        r matches Err(CliError::DockerPermissionSafety(m)) && m@ == id_message("UID"@, uid)
    } else if gid != SANDBOX_ID {
        r matches Err(CliError::DockerPermissionSafety(m)) && m@ == id_message("GID"@, gid)
    } else {
        r is Ok
    }
}

/// `r` is the outcome of a container run that ended with exit code `code`
/// (`None` where no code was reported, as when a signal ended it).
pub open spec fn exit_outcome_of(code: Option<i32>, r: LalResult<()>) -> bool {
    match code {
        Some(0) => r is Ok,
        Some(c) => r == Err::<(), CliError>(CliError::SubprocessFailure(c)),
        None => r == Err::<(), CliError>(CliError::SubprocessFailure(UNKNOWN_EXIT_CODE)),
    }
}

fn id_failure(what: &str, id: u32) -> (r: CliError)
    ensures
        r matches CliError::DockerPermissionSafety(m) && m@ == id_message(what@, id),
{
    let mut m = String::from_str(what);
    m.append(" is ");
    let digits = decimal_string(id);
    m.append(digits.as_str());
    m.append(", not 1000");
    CliError::DockerPermissionSafety(m)
}

/// Checks that the host's user and group ids are those of the sandbox
/// account, which the sandbox's file permissions assume.
pub fn check_ids(uid: u32, gid: u32) -> (r: LalResult<()>)
    ensures
        id_check_of(uid, gid, r),
{
    if uid != SANDBOX_ID {
        return Err(id_failure("UID", uid));
    }
    if gid != SANDBOX_ID {
        return Err(id_failure("GID", gid));
    }
    Ok(())
}

/// The outcome of a container run that ended with exit code `code`.
pub fn exit_outcome(code: Option<i32>) -> (r: LalResult<()>)
    ensures
        exit_outcome_of(code, r),
{
    match code {
        Some(0) => Ok(()),
        Some(c) => Err(CliError::SubprocessFailure(c)),
        None => Err(CliError::SubprocessFailure(UNKNOWN_EXIT_CODE)),
    }
}

fn push_arg(args: &mut Vec<String>, a: String)
    ensures
        views(final(args)@) == views(old(args)@).push(a@),
{
    args.push(a);
    assert(views(args@) =~= views(old(args)@).push(a@));
}

fn push_lit(args: &mut Vec<String>, a: &str)
    ensures
        views(final(args)@) == views(old(args)@).push(a@),
{
    push_arg(args, String::from_str(a));
}

/// The mount flag of `m`: `src:dest`, or `src:dest:ro` for a read-only mount.
pub fn mount_flag(m: &Mount) -> (r: String)
    ensures
        r@ == mount_flag_of(*m),
{
    let mut s = m.src.clone();
    s.append(":");
    s.append(m.dest.as_str());
    if m.readonly {
        s.append(":ro");
    } else {
        assert(s@ =~= s@ + Seq::<char>::empty());
    }
    s
}

/// The arguments of a container run of `command` in `cfg`: removal on exit,
/// each configured mount, the git configuration (read-only) and the current
/// directory as mounts, the working directory, the sandbox user, the tty
/// mode, the image, then the command as given.
pub fn docker_args(cfg: &Config, home: &str, pwd: &str, command: Vec<String>, interactive: bool) -> (r: Vec<String>)
    ensures
        views(r@) == docker_args_of(*cfg, home@, pwd@, views(command@), interactive),
{
    let mut args: Vec<String> = Vec::new();
    push_lit(&mut args, "run");
    push_lit(&mut args, "--rm");
    assert(views(args@) =~= seq!["run"@, "--rm"@] + mount_args_of(cfg.mounts@.subrange(0, 0)));
    let mut i: usize = 0;
    while i < cfg.mounts.len()
        invariant
            0 <= i <= cfg.mounts@.len(),
            views(args@) == seq!["run"@, "--rm"@] + mount_args_of(cfg.mounts@.subrange(0, i as int)),
        decreases cfg.mounts@.len() - i,
    {
        push_lit(&mut args, "-v");
        push_arg(&mut args, mount_flag(&cfg.mounts[i]));
        proof {
            let taken = cfg.mounts@.subrange(0, i + 1);
            assert(taken.drop_last() =~= cfg.mounts@.subrange(0, i as int));
            assert(taken.last() == cfg.mounts@[i as int]);
        }
        i += 1;
    }
    assert(cfg.mounts@.subrange(0, i as int) =~= cfg.mounts@);
    let ghost before = views(args@);
    push_lit(&mut args, "-v");
    let git_cfg = join_path(home, ".gitconfig");
    push_arg(&mut args, git_cfg.concat(":/home/lal/.gitconfig:ro"));
    push_lit(&mut args, "-v");
    push_arg(&mut args, String::from_str(pwd).concat(":/home/lal/volume"));
    push_lit(&mut args, "-w");
    push_lit(&mut args, "/home/lal/volume");
    push_lit(&mut args, "--user");
    push_lit(&mut args, "lal");
    push_lit(&mut args, if interactive { "-it" } else { "-t" });
    push_arg(&mut args, cfg.container.clone());
    let ghost fixed = views(args@);
    let mut j: usize = 0;
    while j < command.len()
        invariant
            0 <= j <= command@.len(),
            views(args@) == fixed + views(command@).subrange(0, j as int),
        decreases command@.len() - j,
    {
        push_arg(&mut args, command[j].clone());
        assert(views(args@) =~= fixed + views(command@).subrange(0, j + 1));
        j += 1;
    }
    assert(views(command@).subrange(0, j as int) =~= views(command@));
    assert(views(args@) =~= docker_args_of(*cfg, home@, pwd@, views(command@), interactive));
    args
}

/// The line that a dry run prints for the runtime arguments `args`.
pub fn render(args: &Vec<String>) -> (r: String)
    ensures
        r@ == rendered_of(views(args@)),
{
    let mut line = String::from_str(RUNTIME);
    let ghost head = seq![RUNTIME@];
    assert(head + views(args@).subrange(0, 0) =~= head);
    let mut i: usize = 0;
    while i < args.len()
        invariant
            0 <= i <= args@.len(),
            head == seq![RUNTIME@],
            line@ == spaced(head + views(args@).subrange(0, i as int)),
        decreases args@.len() - i,
    {
        line.append(" ");
        line.append(args[i].as_str());
        proof {
            let words = head + views(args@).subrange(0, i + 1);
            assert(words.drop_last() =~= head + views(args@).subrange(0, i as int));
            assert(words.last() == args@[i as int]@);
        }
        i += 1;
    }
    assert(head + views(args@).subrange(0, i as int) =~= seq![RUNTIME@] + views(args@));
    line
}

/// Launches `command` in the sandbox: with `printonly`, the line to print;
/// otherwise the arguments to run the container runtime with. `home` is the
/// host user's home directory, where it could be found, and `pwd` the current
/// directory; without a home directory nothing can be launched.
pub fn docker_run(
    cfg: &Config,
    home: Option<&str>,
    pwd: &str,
    command: Vec<String>,
    interactive: bool,
    printonly: bool,
) -> (r: LalResult<Launch>)
    ensures
        launch_of(*cfg, opt_view(home), pwd@, views(command@), interactive, printonly, r),
{
    let home = match home {
        Some(h) => h,
        None => return Err(CliError::EnvironmentResolution),
    };
    let args = docker_args(cfg, home, pwd, command, interactive);
    if printonly {
        Ok(Launch::Print(render(&args)))
    } else {
        Ok(Launch::Run(args))
    }
}

/// The command of an interactive login shell, which runs `cmd` where one is
/// given. The runtime hands each argument over as it is, so `cmd` needs no
/// quoting of its own.
pub fn shell_command(cmd: Option<&str>) -> (r: Vec<String>)
    ensures
        views(r@) == shell_command_of(opt_view(cmd)),
{
    let mut bash: Vec<String> = Vec::new();
    push_lit(&mut bash, "/bin/bash");
    match cmd {
        Some(c) => {
            push_lit(&mut bash, "-c");
            push_lit(&mut bash, c);
        },
        None => {},
    }
    assert(views(bash@) =~= shell_command_of(opt_view(cmd)));
    bash
}

/// Enters the sandbox in an interactive shell, running `cmd` there where one
/// is given.
pub fn shell(cfg: &Config, home: Option<&str>, pwd: &str, printonly: bool, cmd: Option<&str>) -> (r: LalResult<Launch>)
    ensures
        launch_of(*cfg, opt_view(home), pwd@, shell_command_of(opt_view(cmd)), true, printonly, r),
{
    let bash = shell_command(cmd);
    docker_run(cfg, home, pwd, bash, true, printonly)
}

/// Blank characters around a number: space, tab, line feed and carriage return.
pub open spec fn is_blank(c: char) -> bool {
    c == ' ' || c == '\t' || c == '\n' || c == '\r'
}

/// A decimal digit.
pub open spec fn is_digit(c: char) -> bool {
    '0' <= c <= '9'
}

/// `s` without its leading blanks.
pub open spec fn trim_front(s: Seq<char>) -> Seq<char>
    decreases s.len(),
{
    if s.len() > 0 && is_blank(s[0]) {
        trim_front(s.drop_first())
    } else {
        s
    }
}

/// `s` without its trailing blanks.
pub open spec fn trim_back(s: Seq<char>) -> Seq<char>
    decreases s.len(),
{
    if s.len() > 0 && is_blank(s.last()) {
        trim_back(s.drop_last())
    } else {
        s
    }
}

/// The number that the decimal digits `s` write.
pub open spec fn digits_value(s: Seq<char>) -> nat
    decreases s.len(),
{
    if s.len() == 0 {
        0
    } else {
        digits_value(s.drop_last()) * 10 + (s.last() as nat - '0' as nat) as nat
    }
}

/// The id that the output `s` of an identity lookup reports: the decimal
/// number it holds between blanks, where that number fits in a `u32`.
pub open spec fn id_of(s: Seq<char>) -> Option<u32> {
    let t = trim_back(trim_front(s));
    if t.len() > 0 && (forall|i: int| 0 <= i < t.len() ==> is_digit(#[trigger] t[i]))
        && digits_value(t) <= u32::MAX {
        Some(digits_value(t) as u32)
    } else {
        None
    }
}

proof fn lemma_digits_value_grows(t: Seq<char>, k: int)
    requires
        0 <= k <= t.len(),
    ensures
        digits_value(t.subrange(0, k)) <= digits_value(t),
    decreases t.len() - k,
{
    if k < t.len() {
        let longer = t.subrange(0, k + 1);
        assert(longer.drop_last() =~= t.subrange(0, k));
        lemma_digits_value_grows(t, k + 1);
    } else {
        assert(t.subrange(0, k) =~= t);
    }
}

fn is_blank_char(c: char) -> (r: bool)
    ensures
        r == is_blank(c),
{
    c == ' ' || c == '\t' || c == '\n' || c == '\r'
}

/// Reads the id that an identity lookup printed: a decimal number, with
/// blanks around it allowed.
pub fn parse_id(s: &str) -> (r: Option<u32>)
    ensures
        r == id_of(s@),
{
    let n = s.unicode_len();
    let mut lo: usize = 0;
    assert(s@.subrange(0, n as int) =~= s@);
    while lo < n && is_blank_char(s.get_char(lo))
        invariant
            0 <= lo <= n,
            n == s@.len(),
            trim_front(s@) == trim_front(s@.subrange(lo as int, n as int)),
        decreases n - lo,
    {
        assert(s@.subrange(lo as int, n as int).drop_first() =~= s@.subrange(lo + 1, n as int));
        lo += 1;
    }
    let ghost front = s@.subrange(lo as int, n as int);
    assert(trim_front(s@) == front);
    let mut hi: usize = n;
    while hi > lo && is_blank_char(s.get_char(hi - 1))
        invariant
            lo <= hi <= n,
            n == s@.len(),
            front == s@.subrange(lo as int, n as int),
            trim_back(front) == trim_back(s@.subrange(lo as int, hi as int)),
        decreases hi - lo,
    {
        assert(s@.subrange(lo as int, hi as int).drop_last() =~= s@.subrange(lo as int, hi - 1));
        hi -= 1;
    }
    let ghost t = s@.subrange(lo as int, hi as int);
    assert(trim_back(trim_front(s@)) == t);
    if hi == lo {
        return None;
    }
    let mut value: u64 = 0;
    let mut i: usize = lo;
    while i < hi
        invariant
            lo <= i <= hi <= n,
            n == s@.len(),
            t == s@.subrange(lo as int, hi as int),
            t == trim_back(trim_front(s@)),
            forall|j: int| 0 <= j < i - lo ==> is_digit(#[trigger] t[j]),
            value == digits_value(t.subrange(0, i - lo)),
            value <= u32::MAX,
        decreases hi - i,
    {
        let c = s.get_char(i);
        assert(c == t[i - lo]);
        if !('0' <= c && c <= '9') {
            assert(!is_digit(t[i - lo]));
            assert(!(forall|j: int| 0 <= j < t.len() ==> is_digit(#[trigger] t[j])));
            assert(id_of(s@) is None);
            return None;
        }
        let d = (c as u32 - '0' as u32) as u64;
        let ghost prefix = t.subrange(0, i - lo + 1);
        assert(prefix.drop_last() =~= t.subrange(0, i - lo));
        assert(prefix.last() == c);
        assert(digits_value(prefix) == digits_value(t.subrange(0, i - lo)) * 10 + d);
        if value > (u32::MAX as u64 - d) / 10 {
            proof {
                let v = value as int;
                let dd = d as int;
                assert(v * 10 + dd > u32::MAX) by (nonlinear_arith)
                    requires
                        v > (u32::MAX - dd) / 10,
                        0 <= dd <= 9,
                ;
                lemma_digits_value_grows(t, i - lo + 1);
                assert(digits_value(t) > u32::MAX);
                assert(id_of(s@) is None);
            }
            return None;
        }
        assert(value * 10 + d <= u32::MAX) by (nonlinear_arith)
            requires
                value <= (u32::MAX - d) / 10,
                d <= 9,
        ;
        value = value * 10 + d;
        i += 1;
    }
    assert(t.subrange(0, i - lo) =~= t);
    Some(value as u32)
}

} // verus!
