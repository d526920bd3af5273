use vstd::prelude::*;

verus! {

/// The text that stands for `c` inside a single-quoted PowerShell literal:
/// a single quote is doubled, every other character stands for itself.
pub open spec fn escaped_char(c: char) -> Seq<char> {
    if c == '\'' {
        seq!['\'', '\'']
    } else {
        seq![c]
    }
}

/// `s` with every single quote doubled.
pub open spec fn escape_quotes(s: Seq<char>) -> Seq<char>
    decreases s.len(),
{
    if s.len() == 0 {
        Seq::empty()
    } else {
        escaped_char(s[0]) + escape_quotes(s.drop_first())
    }
}

proof fn lemma_escape_append(a: Seq<char>, b: Seq<char>)
    ensures
        escape_quotes(a + b) == escape_quotes(a) + escape_quotes(b),
    decreases a.len(),
{
    if a.len() == 0 {
        assert(a + b =~= b);
    } else {
        assert((a + b).drop_first() =~= a.drop_first() + b);
        lemma_escape_append(a.drop_first(), b);
    }
}

proof fn lemma_escape_push(s: Seq<char>, c: char)
    ensures
        escape_quotes(s.push(c)) == escape_quotes(s) + escaped_char(c),
{
    lemma_escape_append(s, seq![c]);
    assert(s.push(c) =~= s + seq![c]);
    assert(seq![c].drop_first() =~= Seq::<char>::empty());
    assert(escape_quotes(seq![c].drop_first()) =~= Seq::<char>::empty());
    assert(escape_quotes(seq![c]) =~= escaped_char(c));
}

/// Doubles every single quote of `path`, so that the result can stand
/// between single quotes in a PowerShell command line.
pub fn escape_single_quotes(path: &str) -> (r: String)
    ensures
        r@ == escape_quotes(path@),
{
    let ghost s = path@;
    let len = path.unicode_len();
    let mut out = String::new();
    let mut start: usize = 0;
    let mut idx: usize = 0;
    for c in it: path.chars()
        invariant
            s == path@,
            it.seq() == s,
            len == s.len(),
            idx == it.index(),
            start <= idx <= s.len(),
            out@ + s.subrange(start as int, idx as int) == escape_quotes(s.take(idx as int)),
    {
        assert(idx < s.len());
        assert(s[idx as int] == c);
        let ghost before = out@;
        proof {
            lemma_escape_push(s.take(idx as int), c);
            assert(s.take(idx + 1) =~= s.take(idx as int).push(c));
            assert(s.subrange(start as int, idx + 1) =~= s.subrange(start as int, idx as int).push(c));
        }
        if c == '\'' {
            let run = path.substring_char(start, idx + 1);
            out.append(run);
            out.append("'");
            proof {
                reveal_strlit("'");
                assert(out@ =~= before + s.subrange(start as int, idx as int) + escaped_char(c));
            }
            start = idx + 1;
        } else {
            proof {
                assert(before + s.subrange(start as int, idx + 1) =~= before + s.subrange(
                    start as int,
                    idx as int,
                ) + escaped_char(c));
            }
        }
        idx = idx + 1;
        assert(out@ + s.subrange(start as int, idx as int) =~= escape_quotes(s.take(idx as int)));
    }
    let rest = path.substring_char(start, idx);
    out.append(rest);
    assert(s.take(idx as int) =~= s);
    out
}

/// Reads a single-quoted PowerShell literal whose opening quote has already
/// been consumed: returns the text it stands for and what follows its
/// closing quote, or `None` when no closing quote comes.
pub open spec fn read_quoted(b: Seq<char>) -> Option<(Seq<char>, Seq<char>)>
    decreases b.len(),
{
    if b.len() == 0 {
        None
    } else if b[0] == '\'' {
        if b.len() >= 2 && b[1] == '\'' {
            match read_quoted(b.subrange(2, b.len() as int)) {
                Some((v, rest)) => Some((seq!['\''] + v, rest)),
                None => None,
            }
        } else {
            Some((Seq::empty(), b.drop_first()))
        }
    } else {
        match read_quoted(b.drop_first()) {
            Some((v, rest)) => Some((seq![b[0]] + v, rest)),
            None => None,
        }
    }
}

/// A quoted path cannot be closed early: the literal opened before the
/// escaped text of `path` reads back as `path` itself, and ends exactly at
/// the next lone single quote.
pub proof fn lemma_escaped_literal_reads_back(path: Seq<char>, tail: Seq<char>)
    requires
        tail.len() >= 1,
        tail[0] == '\'',
        tail.len() == 1 || tail[1] != '\'',
    ensures
        read_quoted(escape_quotes(path) + tail) == Some((path, tail.drop_first())),
    decreases path.len(),
{
    if path.len() == 0 {
        assert(escape_quotes(path) + tail =~= tail);
    } else {
        let c = path[0];
        let rest = path.drop_first();
        lemma_escaped_literal_reads_back(rest, tail);
        let b = escape_quotes(path) + tail;
        assert(b =~= escaped_char(c) + (escape_quotes(rest) + tail));
        if c == '\'' {
            assert(b.subrange(2, b.len() as int) =~= escape_quotes(rest) + tail);
        } else {
            assert(b.drop_first() =~= escape_quotes(rest) + tail);
        }
        assert(seq![c] + rest =~= path);
    }
}

/// The PowerShell statements run in the new terminal: change to `path`,
/// taken literally, then run `tool` as it was given.
pub open spec fn launch_script(tool: Seq<char>, path: Seq<char>) -> Seq<char> {
    "Set-Location -LiteralPath '"@ + escape_quotes(path) + "'; "@ + tool
}

/// Of every script: the quoted path reads back as the path, and the literal
/// closes right before the separator that starts the tool's statement.
pub proof fn lemma_script_quotes_path(tool: Seq<char>, path: Seq<char>)
    ensures
        read_quoted(escape_quotes(path) + "'; "@ + tool) == Some((path, "; "@ + tool)),
{
    reveal_strlit("'; ");
    reveal_strlit("; ");
    let tail = "'; "@ + tool;
    assert(escape_quotes(path) + "'; "@ + tool =~= escape_quotes(path) + tail);
    lemma_escaped_literal_reads_back(path, tail);
    assert(tail.drop_first() =~= "; "@ + tool);
}

/// Builds the statements that the new shell runs: a literal change of
/// directory to `path`, then `tool`.
pub fn build_script(tool: &str, path: &str) -> (r: String)
    ensures
        r@ == launch_script(tool@, path@),
{
    let mut script = String::from_str("Set-Location -LiteralPath '");
    let safe_path = escape_single_quotes(path);
    script.append(safe_path.as_str());
    script.append("'; ");
    script.append(tool);
    script
}

/// The Windows process-creation flag that gives the child a console of its
/// own instead of the caller's.
pub const CREATE_NEW_CONSOLE: u32 = 0x10;

/// Why a launch failed, as the host reports it.
pub enum LaunchError {
    /// The directory to start in does not exist.
    PathNotFound { path: String },
    /// The operating system did not create the shell process.
    SpawnFailed { reason: String },
}

/// A launch failure in the model of the contracts.
pub ghost enum LaunchFailure {
    PathNotFound(Seq<char>),
    SpawnFailed(Seq<char>),
}

impl View for LaunchError {
    type V = LaunchFailure;

    open spec fn view(&self) -> LaunchFailure {
        match self {
            LaunchError::PathNotFound { path } => LaunchFailure::PathNotFound(path@),
            LaunchError::SpawnFailed { reason } => LaunchFailure::SpawnFailed(reason@),
        }
    }
}

/// The message shown to the user for a failure.
pub open spec fn failure_message(f: LaunchFailure) -> Seq<char> {
    match f {
        LaunchFailure::PathNotFound(path) => "路徑不存在: "@ + path,
        LaunchFailure::SpawnFailed(reason) => "Failed to launch pwsh: "@ + reason,
    }
}

impl LaunchError {
    /// The human-readable text of the failure, for display as it is.
    pub fn message(&self) -> (r: String)
        ensures
            r@ == failure_message(self@),
    {
        match self {
            LaunchError::PathNotFound { path } => {
                let mut m = String::from_str("路徑不存在: ");
                m.append(path.as_str());
                m
            },
            LaunchError::SpawnFailed { reason } => {
                let mut m = String::from_str("Failed to launch pwsh: ");
                m.append(reason.as_str());
                m
            },
        }
    }
}

/// What the host spawns: a program, its arguments, and the creation flags.
pub struct LaunchPlan {
    pub program: String,
    pub args: Vec<String>,
    pub creation_flags: u32,
}

/// A plan in the model of the contracts.
pub ghost struct PlanView {
    pub program: Seq<char>,
    pub args: Seq<Seq<char>>,
    pub creation_flags: u32,
}

impl View for LaunchPlan {
    type V = PlanView;

    open spec fn view(&self) -> PlanView {
        PlanView {
            program: self.program@,
            args: self.args@.map_values(|a: String| a@),
            creation_flags: self.creation_flags,
        }
    }
}

/// The shell, kept open after the script, in a console of its own.
pub open spec fn shell_plan(tool: Seq<char>, path: Seq<char>) -> PlanView {
    PlanView {
        program: "pwsh"@,
        args: seq!["-NoExit"@, "-Command"@, launch_script(tool, path)],
        creation_flags: CREATE_NEW_CONSOLE,
    }
}

/// What planning a launch gives, given whether `path` exists.
pub open spec fn plan_outcome(tool: Seq<char>, path: Seq<char>, path_exists: bool) -> Result<
    PlanView,
    LaunchFailure,
> {
    if path_exists {
        Ok(shell_plan(tool, path))
    } else {
        Err(LaunchFailure::PathNotFound(path))
    }
}

/// What a launch reports once the spawn was tried.
pub open spec fn spawn_outcome(spawned: Result<(), String>) -> Result<(), LaunchFailure> {
    match spawned {
        Ok(()) => Ok(()),
        Err(reason) => Err(LaunchFailure::SpawnFailed(reason@)),
    }
}

/// Decides what to spawn for running `tool` in a new terminal at `path`.
/// `path_exists` is whether `path` exists on the filesystem now; where it
/// does not, there is nothing to spawn.
pub fn plan_launch(tool: &str, path: &str, path_exists: bool) -> (r: Result<LaunchPlan, LaunchError>)
    ensures
        r is Ok <==> path_exists,
        match r {
            Ok(plan) => plan_outcome(tool@, path@, path_exists) == Ok::<PlanView, LaunchFailure>(
                plan@,
            ),
            Err(e) => plan_outcome(tool@, path@, path_exists) == Err::<PlanView, LaunchFailure>(
                e@,
            ),
        },
{
    if !path_exists {
        return Err(LaunchError::PathNotFound { path: String::from_str(path) });
    }
    let script = build_script(tool, path);
    let mut args: Vec<String> = Vec::new();
    args.push(String::from_str("-NoExit"));
    args.push(String::from_str("-Command"));
    args.push(script);
    let plan = LaunchPlan { program: String::from_str("pwsh"), args, creation_flags: CREATE_NEW_CONSOLE };
    assert(plan@.args =~= shell_plan(tool@, path@).args);
    Ok(plan)
}

/// The result of a launch, from the result of the spawn: success as soon as
/// the process was created, and its reason otherwise.
pub fn finish_launch(spawned: Result<(), String>) -> (r: Result<(), LaunchError>)
    ensures
        r is Ok <==> spawned is Ok,
        match r {
            Ok(()) => spawn_outcome(spawned) == Ok::<(), LaunchFailure>(()),
            Err(e) => spawn_outcome(spawned) == Err::<(), LaunchFailure>(e@),
        },
{
    match spawned {
        Ok(()) => Ok(()),
        Err(reason) => Err(LaunchError::SpawnFailed { reason }),
    }
}

/// A path that does not exist gets the path-not-found failure, naming it,
/// and no plan: nothing is spawned.
pub proof fn lemma_missing_path_spawns_nothing(tool: Seq<char>, path: Seq<char>)
    ensures
        plan_outcome(tool, path, false) == Err::<PlanView, LaunchFailure>(
            LaunchFailure::PathNotFound(path),
        ),
{
}

/// With an existing directory the launch is planned whatever the tool is,
/// and it succeeds exactly when the shell process was created: what the tool
/// then does inside the shell plays no part.
pub proof fn lemma_launch_succeeds_when_spawned(tool: Seq<char>, path: Seq<char>)
    ensures
        plan_outcome(tool, path, true) == Ok::<PlanView, LaunchFailure>(shell_plan(tool, path)),
        spawn_outcome(Ok::<(), String>(())) == Ok::<(), LaunchFailure>(()),
{
}

} // verus!
