//! How a git invocation is put together and how its result is judged.

use vstd::prelude::*;

verus! {

/// Hard ceiling, in seconds, for any single git invocation. Local read
/// operations finish in milliseconds and even a network fetch or push
/// completes well within it; a git process that runs longer is hung.
pub const GIT_COMMAND_TIMEOUT_SECS: u64 = 60;

/// The character views of a sequence of string slices.
pub open spec fn strs_view(v: Seq<&str>) -> Seq<Seq<char>> {
    Seq::new(v.len(), |i: int| v[i]@)
}

/// The character views of a sequence of strings.
pub open spec fn string_views(v: Seq<String>) -> Seq<Seq<char>> {
    Seq::new(v.len(), |i: int| v[i]@)
}

/// The options that every git invocation starts with: index refresh during
/// diffs is switched off.
pub open spec fn git_fixed_args() -> Seq<Seq<char>> {
    seq!["-c"@, "diff.autoRefreshIndex=false"@]
}

/// The words joined by single spaces.
pub open spec fn join_words(words: Seq<Seq<char>>) -> Seq<char>
    decreases words.len(),
{
    if words.len() == 0 {
        Seq::empty()
    } else if words.len() == 1 {
        words[0]
    } else {
        join_words(words.drop_last()) + seq![' '] + words.last()
    }
}

/// The arguments handed to `git` for the command `args`.
pub fn git_command_args(args: &[&str]) -> (full: Vec<String>)
    ensures
        string_views(full@) == git_fixed_args() + strs_view(args@),
{
    let mut full: Vec<String> = Vec::new();
    full.push(String::from_str("-c"));
    full.push(String::from_str("diff.autoRefreshIndex=false"));
    let n = args.len();
    let mut i: usize = 0;
    assert(string_views(full@) =~= git_fixed_args() + strs_view(args@).take(0));
    while i < n
        invariant
            i <= n,
            n == args@.len(),
            full@.len() == 2 + i,
            string_views(full@) =~= git_fixed_args() + strs_view(args@).take(i as int),
        decreases n - i,
    {
        let ghost before = full@;
        full.push(String::from_str(args[i]));
        assert forall|j: int| 0 <= j < 2 + i implies #[trigger] string_views(full@)[j] == string_views(before)[j] by {
            assert(full@[j] == before[j]);
        }
        i = i + 1;
        assert(string_views(full@) =~= git_fixed_args() + strs_view(args@).take(i as int));
    }
    assert(strs_view(args@).take(n as int) =~= strs_view(args@));
    full
}

/// The command's arguments joined by spaces, as they appear in messages.
pub fn git_command_line(args: &[&str]) -> (line: String)
    ensures
        line@ == join_words(strs_view(args@)),
{
    let n = args.len();
    let mut line = String::new();
    let mut i: usize = 0;
    proof {
        reveal_strlit(" ");
    }
    assert(strs_view(args@).take(0) =~= Seq::<Seq<char>>::empty());
    while i < n
        invariant
            i <= n,
            n == args@.len(),
            line@ == join_words(strs_view(args@).take(i as int)),
            " "@ == seq![' '],
        decreases n - i,
    {
        let ghost w = strs_view(args@).take(i + 1);
        assert(w.drop_last() =~= strs_view(args@).take(i as int));
        assert(w.last() == args@[i as int]@);
        if i > 0 {
            line.append(" ");
        } else {
            assert(line@ == Seq::<char>::empty());
            assert(w.len() == 1);
            assert(Seq::<char>::empty() + args@[0]@ =~= args@[0]@);
        }
        line.append(args[i]);
        i = i + 1;
    }
    assert(strs_view(args@).take(n as int) =~= strs_view(args@));
    line
}

/// The decimal digits of `n`.
pub open spec fn decimal_spec(n: nat) -> Seq<char>
    decreases n,
{
    if n < 10 {
        seq![digit_char(n)]
    } else {
        decimal_spec(n / 10).push(digit_char(n % 10))
    }
}

/// The digit character for `d` below ten.
pub open spec fn digit_char(d: nat) -> char {
    ((d + 48) as u32) as char
}

/// The decimal digit of `d`, as text.
fn digit_text(d: u64) -> (s: &'static str)
    requires
        d < 10,
    ensures
        s@ == seq![digit_char(d as nat)],
{
    proof {
        reveal_strlit("0");
        reveal_strlit("1");
        reveal_strlit("2");
        reveal_strlit("3");
        reveal_strlit("4");
        reveal_strlit("5");
        reveal_strlit("6");
        reveal_strlit("7");
        reveal_strlit("8");
        reveal_strlit("9");
    }
    let s = if d == 0 {
        "0"
    } else if d == 1 {
        "1"
    } else if d == 2 {
        "2"
    } else if d == 3 {
        "3"
    } else if d == 4 {
        "4"
    } else if d == 5 {
        "5"
    } else if d == 6 {
        "6"
    } else if d == 7 {
        "7"
    } else if d == 8 {
        "8"
    } else {
        "9"
    };
    assert(s@ =~= seq![digit_char(d as nat)]);
    s
}

/// `n` written in decimal.
pub fn decimal(n: u64) -> (s: String)
    ensures
        s@ == decimal_spec(n as nat),
    decreases n,
{
    if n < 10 {
        String::from_str(digit_text(n))
    } else {
        let mut s = decimal(n / 10);
        s.append(digit_text(n % 10));
        s
    }
}

/// Why a git invocation did not give an answer.
#[derive(Debug, Clone, PartialEq, Eq)]
pub enum GitCommandError {
    /// The process could not be run; the text says why.
    Spawn(String),
    /// The process ran past the time limit and was stopped.
    TimedOut { seconds: u64, command: String },
    /// The process ended in failure.
    Failed { stderr: String, stdout: String },
}

impl GitCommandError {
    /// The error for an invocation of `args` that ran past the limit.
    pub fn timed_out(args: &[&str]) -> (e: Self)
        ensures
            e matches GitCommandError::TimedOut { seconds, command } && seconds
                == GIT_COMMAND_TIMEOUT_SECS && command@ == join_words(strs_view(args@)),
    {
        GitCommandError::TimedOut { seconds: GIT_COMMAND_TIMEOUT_SECS, command: git_command_line(args) }
    }

    /// The error as a message.
    pub fn message(&self) -> (m: String)
        ensures
            m@ == (match self {
                GitCommandError::Spawn(why) => "Failed to execute git command: "@ + why@,
                GitCommandError::TimedOut { seconds, command } => "git command timed out after "@
                    + decimal_spec(*seconds as nat) + "s: git "@ + command@,
                GitCommandError::Failed { stderr, stdout } => "Git command failed: "@ + stderr@ + ", "@
                    + stdout@,
            }),
    {
        match self {
            GitCommandError::Spawn(why) => {
                let mut m = String::from_str("Failed to execute git command: ");
                m.append(why.as_str());
                m
            },
            GitCommandError::TimedOut { seconds, command } => {
                let mut m = String::from_str("git command timed out after ");
                let digits = decimal(*seconds);
                m.append(digits.as_str());
                m.append("s: git ");
                m.append(command.as_str());
                m
            },
            GitCommandError::Failed { stderr, stdout } => {
                let mut m = String::from_str("Git command failed: ");
                m.append(stderr.as_str());
                m.append(", ");
                m.append(stdout.as_str());
                m
            },
        }
    }
}

/// Judges a finished git process. Success answers with the standard output;
/// so does exit code 1 with some output, which is how `git diff` reports
/// that differences were found. Anything else is a failure carrying both
/// outputs.
pub fn git_command_outcome(success: bool, exit_code: Option<i32>, stdout: String, stderr: String) -> (r: Result<String, GitCommandError>)
    ensures
        r is Ok <==> (success || (exit_code == Some(1i32) && stdout@.len() > 0)),
        r matches Ok(out) ==> out@ == stdout@,
        r matches Err(e) ==> e matches GitCommandError::Failed { stderr: err, stdout: out } && err@
            == stderr@ && out@ == stdout@,
{
    let found_differences = match exit_code {
        Some(code) => code == 1 && !stdout.as_str().is_empty(),
        None => false,
    };
    if success || found_differences {
        Ok(stdout)
    } else {
        Err(GitCommandError::Failed { stderr, stdout })
    }
}

} // verus!
