//! Decisions of the external-command runner.
//!
//! The runner hands an external process its command line, drains both output
//! streams into per-operation log files, prunes log files that stayed empty,
//! and classifies the exit. Everything the runner decides is here and
//! verified; the process spawn and the file writes themselves are performed
//! by the caller, which feeds what happened back in as plain values.

use vstd::prelude::*;
use vstd::string::StrSliceExecFns;
use vstd::string::StringExecFns;
use crate::errors::ReignError;

verus! {

/// The whitespace that separates words of a command line.
pub open spec fn is_command_space(c: char) -> bool {
    c == ' ' || c == '\t' || c == '\n' || c == '\r'
}

/// Whitespace splitting with an explicit current word: `cur` holds the word
/// being read, and every maximal run of non-space characters becomes one word.
pub open spec fn spec_split_words_from(s: Seq<char>, cur: Seq<char>) -> Seq<Seq<char>>
    decreases s.len(),
{
    if s.len() == 0 {
        if cur.len() == 0 {
            Seq::empty()
        } else {
            seq![cur]
        }
    } else if is_command_space(s[0]) {
        if cur.len() == 0 {
            spec_split_words_from(s.drop_first(), cur)
        } else {
            seq![cur] + spec_split_words_from(s.drop_first(), Seq::empty())
        }
    } else {
        spec_split_words_from(s.drop_first(), cur.push(s[0]))
    }
}

/// The words of a command line: maximal runs of non-whitespace characters.
pub open spec fn spec_command_words(s: Seq<char>) -> Seq<Seq<char>> {
    spec_split_words_from(s, Seq::empty())
}

/// Split a command line into its words. The first word is the program to
/// spawn, the rest are its arguments.
pub fn split_command(cmnd: &str) -> (r: Vec<String>)
    ensures
        r@.map_values(|t: String| t@) == spec_command_words(cmnd@),
{
    let n = cmnd.unicode_len();
    let mut tokens: Vec<String> = Vec::new();
    let mut start: usize = 0;
    let mut in_word: bool = false;
    let mut i: usize = 0;
    proof {
        assert(cmnd@.skip(0) =~= cmnd@);
    }
    while i < n
        invariant
            n == cmnd@.len(),
            i <= n,
            in_word ==> start < i,
            !in_word ==> spec_command_words(cmnd@) =~~= tokens@.map_values(|t: String| t@)
                + spec_split_words_from(cmnd@.skip(i as int), Seq::empty()),
            in_word ==> spec_command_words(cmnd@) =~~= tokens@.map_values(|t: String| t@)
                + spec_split_words_from(
                cmnd@.skip(i as int),
                cmnd@.subrange(start as int, i as int),
            ),
        decreases n - i,
    {
        let c = cmnd.get_char(i);
        proof {
            assert(cmnd@.skip(i as int)[0] == cmnd@[i as int]);
            assert(cmnd@.skip(i as int).drop_first() =~= cmnd@.skip(i as int + 1));
        }
        if c == ' ' || c == '\t' || c == '\n' || c == '\r' {
            if in_word {
                let word = cmnd.substring_char(start, i);
                let ghost old_tokens = tokens@;
                tokens.push(String::from_str(word));
                proof {
                    assert(tokens@.map_values(|t: String| t@) =~~= old_tokens.map_values(
                        |t: String| t@,
                    ).push(cmnd@.subrange(start as int, i as int)));
                }
                in_word = false;
            }
        } else {
            if !in_word {
                start = i;
                in_word = true;
                proof {
                    assert(Seq::<char>::empty().push(cmnd@[i as int]) =~= cmnd@.subrange(
                        i as int,
                        i as int + 1,
                    ));
                }
            } else {
                proof {
                    assert(cmnd@.subrange(start as int, i as int).push(cmnd@[i as int])
                        =~= cmnd@.subrange(start as int, i as int + 1));
                }
            }
        }
        i += 1;
    }
    proof {
        assert(cmnd@.skip(n as int) =~= Seq::<char>::empty());
    }
    if in_word {
        let word = cmnd.substring_char(start, n);
        let ghost old_tokens = tokens@;
        tokens.push(String::from_str(word));
        proof {
            assert(tokens@.map_values(|t: String| t@) =~~= old_tokens.map_values(
                |t: String| t@,
            ).push(cmnd@.subrange(start as int, n as int)));
        }
    }
    tokens
}

/// Which output stream of the external process a log file belongs to.
#[derive(Clone, Copy, Debug, PartialEq, Eq)]
pub enum StreamKind {
    /// Standard output, logged at informational severity.
    Stdout,
    /// Standard error, logged at warning severity.
    Stderr,
}

/// File-name suffix of one stream's log.
pub open spec fn spec_stream_suffix(kind: StreamKind) -> Seq<char> {
    match kind {
        StreamKind::Stdout => "-stdout.log"@,
        StreamKind::Stderr => "-stderr.log"@,
    }
}

/// Log files are namespaced by the operation id and the program, one file
/// per stream: `<dir>/reign-<id>-<program><suffix>`.
pub open spec fn spec_log_file_name(
    log_dir: Seq<char>,
    identifier: Seq<char>,
    program: Seq<char>,
    kind: StreamKind,
) -> Seq<char> {
    log_dir + "/reign-"@ + identifier + "-"@ + program + spec_stream_suffix(kind)
}

/// Build one stream's log file name.
pub fn log_file_name(log_dir: &str, identifier: &str, program: &str, kind: StreamKind) -> (r:
    String)
    ensures
        r@ == spec_log_file_name(log_dir@, identifier@, program@, kind),
{
    let mut s = String::from_str(log_dir);
    s.append("/reign-");
    s.append(identifier);
    s.append("-");
    s.append(program);
    match kind {
        StreamKind::Stdout => s.append("-stdout.log"),
        StreamKind::Stderr => s.append("-stderr.log"),
    }
    s
}

/// The exit code a finished process reports: its own code, or -1 when a
/// signal terminated it and it has none.
pub open spec fn spec_exit_code(code: Option<i32>) -> i32 {
    match code {
        Some(c) => c,
        None => -1i32,
    }
}

/// Classify a finished process: success exactly when it exited normally
/// with code zero; anything else is a failure naming the command and code.
pub fn classify_exit(command: &str, exited_normally: bool, code: Option<i32>) -> (r: Result<
    i32,
    ReignError,
>)
    ensures
        r is Ok <==> exited_normally && spec_exit_code(code) == 0,
        r matches Ok(c) ==> c == 0,
        r matches Err(e) ==> (e matches ReignError::ProcessExitedNonZero { command: ec, code: cc }
            && ec@ == command@ && cc == spec_exit_code(code)),
{
    let c: i32 = match code {
        Some(c) => c,
        None => -1,
    };
    if exited_normally && c == 0 {
        Ok(c)
    } else {
        Err(ReignError::ProcessExitedNonZero { command: String::from_str(command), code: c })
    }
}

/// Everything one external run wrote: the command, the operation id that
/// namespaces its logs, and the lines each stream produced.
pub struct RunRecord {
    /// The full command line that was run.
    pub command: String,
    /// The operation id namespacing this run's log files.
    pub identifier: String,
    /// Lines the process wrote to standard output, in order.
    pub stdout_lines: Vec<String>,
    /// Lines the process wrote to standard error, in order.
    pub stderr_lines: Vec<String>,
}

/// What remains when a run completes: which log files stay on disk and the
/// classified outcome.
pub struct RunReport {
    /// The stdout log file kept on disk; `None` when the stream stayed empty
    /// and the file was pruned.
    pub stdout_log: Option<String>,
    /// The stderr log file kept on disk; `None` when the stream stayed empty.
    pub stderr_log: Option<String>,
    /// The classified exit of the process.
    pub outcome: Result<i32, ReignError>,
}

impl RunRecord {
    /// Start recording one external run.
    pub fn new(command: String, identifier: String) -> (r: Self)
        ensures
            r.command == command,
            r.identifier == identifier,
            r.stdout_lines@.len() == 0,
            r.stderr_lines@.len() == 0,
    {
        RunRecord { command, identifier, stdout_lines: Vec::new(), stderr_lines: Vec::new() }
    }

    /// One line arrived on standard output.
    pub fn record_stdout(&mut self, line: String)
        ensures
            final(self).stdout_lines@ == old(self).stdout_lines@.push(line),
            final(self).stderr_lines@ == old(self).stderr_lines@,
            final(self).command == old(self).command,
            final(self).identifier == old(self).identifier,
    {
        self.stdout_lines.push(line);
    }

    /// One line arrived on standard error.
    pub fn record_stderr(&mut self, line: String)
        ensures
            final(self).stderr_lines@ == old(self).stderr_lines@.push(line),
            final(self).stdout_lines@ == old(self).stdout_lines@,
            final(self).command == old(self).command,
            final(self).identifier == old(self).identifier,
    {
        self.stderr_lines.push(line);
    }

    /// Close the run: classify the exit and prune empty logs. A stream's log
    /// file survives exactly when the stream produced at least one line; in
    /// particular, a run with no stdout output leaves no stdout log on disk.
    pub fn finish(&self, log_dir: &str, program: &str, exited_normally: bool, code: Option<
        i32,
    >) -> (r: RunReport)
        ensures
            r.stdout_log is Some <==> self.stdout_lines@.len() > 0,
            r.stderr_log is Some <==> self.stderr_lines@.len() > 0,
            self.stdout_lines@.len() == 0 ==> r.stdout_log is None,
            r.stdout_log matches Some(n) ==> n@ == spec_log_file_name(
                log_dir@,
                self.identifier@,
                program@,
                StreamKind::Stdout,
            ),
            r.stderr_log matches Some(n) ==> n@ == spec_log_file_name(
                log_dir@,
                self.identifier@,
                program@,
                StreamKind::Stderr,
            ),
            r.outcome is Ok <==> exited_normally && spec_exit_code(code) == 0,
            r.outcome matches Err(e) ==> (e matches ReignError::ProcessExitedNonZero {
                command: ec,
                code: cc,
            } && ec@ == self.command@ && cc == spec_exit_code(code)),
    {
        let stdout_log = if self.stdout_lines.len() > 0 {
            Some(log_file_name(log_dir, self.identifier.as_str(), program, StreamKind::Stdout))
        } else {
            None
        };
        let stderr_log = if self.stderr_lines.len() > 0 {
            Some(log_file_name(log_dir, self.identifier.as_str(), program, StreamKind::Stderr))
        } else {
            None
        };
        let outcome = classify_exit(self.command.as_str(), exited_normally, code);
        RunReport { stdout_log, stderr_log, outcome }
    }
}

/// The two streams of one run can never share a log file: the stdout and
/// stderr names differ whatever the directory, id and program are.
pub proof fn lemma_log_names_distinct(log_dir: Seq<char>, identifier: Seq<char>, program: Seq<
    char,
>)
    ensures
        spec_log_file_name(log_dir, identifier, program, StreamKind::Stdout)
            != spec_log_file_name(log_dir, identifier, program, StreamKind::Stderr),
{
    reveal_strlit("-stdout.log");
    reveal_strlit("-stderr.log");
    let a = spec_log_file_name(log_dir, identifier, program, StreamKind::Stdout);
    let b = spec_log_file_name(log_dir, identifier, program, StreamKind::Stderr);
    let head = log_dir + "/reign-"@ + identifier + "-"@ + program;
    let pos = head.len() + 4;
    assert(a[pos as int] == 'o');
    assert(b[pos as int] == 'e');
}

} // verus!
