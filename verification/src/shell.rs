//! Shell command policy: which command lines the agent may run, and the
//! records it keeps of running them.

use vstd::prelude::*;
use crate::text::{chars_of, starts_with_chars, tail_equals};

verus! {

/// One line of output from a running command.
#[derive(Debug)]
pub struct OutputLine {
    /// `"stdout"` or `"stderr"`.
    pub stream: &'static str,
    pub line: String,
}

/// What a completed command leaves behind.
#[derive(Debug)]
pub struct CommandResult {
    pub exit_code: i32,
    pub duration_ms: u64,
}

impl CommandResult {
    /// The record of a finished command; a process that ended without an
    /// exit code (killed by a signal) is recorded with exit code -1.
    pub fn from_exit(code: Option<i32>, duration_ms: u64) -> (r: CommandResult)
        ensures
            r.exit_code == (match code {
                Some(c) => c,
                None => -1i32,
            }),
            r.duration_ms == duration_ms,
    {
        let exit_code: i32 = match code {
            Some(c) => c,
            None => -1,
        };
        CommandResult { exit_code, duration_ms }
    }
}

/// How waiting for a command ended.
#[derive(Debug)]
pub enum WaitOutcome {
    /// The process exited, with its exit code where it has one.
    Exited(Option<i32>),
    /// Waiting for the process failed; the message says why.
    WaitFailed(String),
    /// The time limit passed first (the process is killed).
    TimedOut,
}

/// Why running a command gave no result.
#[derive(Debug)]
pub enum CommandError {
    /// Waiting for the process failed.
    Wait(String),
    /// The command ran longer than its time limit, in seconds.
    TimedOut(u64),
}

/// The result of a command once its output has been drained: an exited
/// process gives its record; a failed wait or a timeout gives an error.
pub fn finish_command(outcome: WaitOutcome, duration_ms: u64, timeout_seconds: u64) -> (r: Result<
    CommandResult,
    CommandError,
>)
    ensures
        outcome matches WaitOutcome::Exited(code) ==> (r matches Ok(c) && c.exit_code == (match code {
            Some(x) => x,
            None => -1i32,
        }) && c.duration_ms == duration_ms),
        outcome matches WaitOutcome::WaitFailed(e) ==> (r matches Err(CommandError::Wait(m)) && m
            == e),
        outcome is TimedOut ==> (r matches Err(CommandError::TimedOut(t)) && t == timeout_seconds),
{
    match outcome {
        WaitOutcome::Exited(code) => Ok(CommandResult::from_exit(code, duration_ms)),
        WaitOutcome::WaitFailed(e) => Err(CommandError::Wait(e)),
        WaitOutcome::TimedOut => Err(CommandError::TimedOut(timeout_seconds)),
    }
}

/// Unicode `White_Space`: the characters that separate words of a command line.
pub open spec fn is_white_space(c: char) -> bool {
    let u: u32 = c as u32;
    ||| 0x09 <= u <= 0x0d
    ||| u == 0x20
    ||| u == 0x85
    ||| u == 0xa0
    ||| u == 0x1680
    ||| 0x2000 <= u <= 0x200a
    ||| u == 0x2028
    ||| u == 0x2029
    ||| u == 0x202f
    ||| u == 0x205f
    ||| u == 0x3000
}

/// The first index at or after `i` that does not hold white space.
pub open spec fn skip_space(s: Seq<char>, i: int) -> int
    decreases s.len() - i,
{
    if 0 <= i < s.len() && is_white_space(s[i]) {
        skip_space(s, i + 1)
    } else {
        i
    }
}

/// The first index at or after `i` that holds white space (or the end).
pub open spec fn word_end(s: Seq<char>, i: int) -> int
    decreases s.len() - i,
{
    if 0 <= i < s.len() && !is_white_space(s[i]) {
        word_end(s, i + 1)
    } else {
        i
    }
}

/// The first white-space separated word of a command line (empty when there is none).
pub open spec fn first_word(s: Seq<char>) -> Seq<char> {
    let a: int = skip_space(s, 0);
    s.subrange(a, word_end(s, a))
}

/// Where the last path component of `w[..j]` starts: just after the last `/`.
pub open spec fn name_start(w: Seq<char>, j: int) -> int
    decreases j,
{
    if j <= 0 {
        0
    } else if w[j - 1] == '/' {
        j
    } else {
        name_start(w, j - 1)
    }
}

/// The part of a word after its last `/` (the whole word when it has none).
pub open spec fn basename(w: Seq<char>) -> Seq<char> {
    w.subrange(name_start(w, w.len() as int), w.len() as int)
}

/// Whether one allow-list entry admits the program word `w`: the word's
/// basename is the entry, or the word starts with the entry.
pub open spec fn prefix_admits(prefix: Seq<char>, w: Seq<char>) -> bool {
    basename(w) == prefix || prefix.is_prefix_of(w)
}

/// Whether a command line may run under an allow-list.
pub open spec fn command_allowed(command: Seq<char>, prefixes: Seq<String>, unrestricted: bool) -> bool {
    unrestricted || exists|k: int|
        0 <= k < prefixes.len() && #[trigger] prefix_admits(prefixes[k]@, first_word(command))
}

/// Whether `c` is Unicode white space.
pub fn is_white_space_char(c: char) -> (r: bool)
    ensures
        r == is_white_space(c),
{
    let u: u32 = c as u32;
    (0x09 <= u && u <= 0x0d) || u == 0x20 || u == 0x85 || u == 0xa0 || u == 0x1680 || (0x2000
        <= u && u <= 0x200a) || u == 0x2028 || u == 0x2029 || u == 0x202f || u == 0x205f || u
        == 0x3000
}

/// The first white-space separated word of a command line.
pub fn first_word_of(command: &str) -> (w: Vec<char>)
    ensures
        w@ == first_word(command@),
{
    let cs = chars_of(command);
    let n: usize = cs.len();
    let mut a: usize = 0;
    while a < n && is_white_space_char(cs[a])
        invariant
            cs@ == command@,
            n == cs@.len(),
            a <= n,
            skip_space(cs@, a as int) == skip_space(cs@, 0),
        decreases n - a,
    {
        a = a + 1;
    }
    assert(skip_space(cs@, a as int) == a);
    let mut w: Vec<char> = Vec::new();
    let mut b: usize = a;
    while b < n && !is_white_space_char(cs[b])
        invariant
            cs@ == command@,
            n == cs@.len(),
            a <= b <= n,
            a == skip_space(cs@, 0),
            word_end(cs@, b as int) == word_end(cs@, a as int),
            w@ == cs@.subrange(a as int, b as int),
        decreases n - b,
    {
        w.push(cs[b]);
        b = b + 1;
        assert(w@ =~= cs@.subrange(a as int, b as int));
    }
    assert(word_end(cs@, b as int) == b);
    w
}

/// Where the last path component of `w` starts.
pub fn basename_start(w: &Vec<char>) -> (j: usize)
    ensures
        j == name_start(w@, w@.len() as int),
        j <= w.len(),
{
    let mut j: usize = w.len();
    while j > 0 && w[j - 1] != '/'
        invariant
            j <= w.len(),
            name_start(w@, j as int) == name_start(w@, w@.len() as int),
        decreases j,
    {
        j = j - 1;
    }
    j
}

/// Check if a command is allowed based on the allowlist.
///
/// With `unrestricted` every command is allowed. Otherwise the first word
/// of the command line must either have an allow-list entry as its
/// basename (`/usr/bin/git` matches `git`) or start with an entry.
pub fn is_command_allowed(command: &str, allowed_prefixes: &[String], unrestricted: bool) -> (r:
    bool)
    ensures
        r == command_allowed(command@, allowed_prefixes@, unrestricted),
{
    if unrestricted {
        return true;
    }
    let word = first_word_of(command);
    let start: usize = basename_start(&word);
    assert(word@.subrange(start as int, word@.len() as int) == basename(word@));
    let mut i: usize = 0;
    while i < allowed_prefixes.len()
        invariant
            word@ == first_word(command@),
            start == name_start(word@, word@.len() as int),
            start <= word.len(),
            i <= allowed_prefixes@.len(),
            forall|k: int| 0 <= k < i ==> !#[trigger] prefix_admits(allowed_prefixes@[k]@, word@),
        decreases allowed_prefixes.len() - i,
    {
        let p = chars_of(allowed_prefixes[i].as_str());
        if tail_equals(&word, start, &p) || starts_with_chars(&word, &p) {
            assert(prefix_admits(allowed_prefixes@[i as int]@, first_word(command@)));
            return true;
        }
        i = i + 1;
    }
    false
}

} // verus!

verus! {

/// With unrestricted mode on, every command line is allowed.
pub proof fn law_unrestricted_allows_all(command: Seq<char>, prefixes: Seq<String>)
    ensures
        command_allowed(command, prefixes, true),
{
}

/// An empty allow-list in restricted mode allows no command line at all.
pub proof fn law_empty_allowlist_allows_nothing(command: Seq<char>)
    ensures
        !command_allowed(command, Seq::<String>::empty(), false),
{
}

/// Adding entries to an allow-list never takes a permission away.
pub proof fn law_allowlist_monotone(
    command: Seq<char>,
    prefixes: Seq<String>,
    more: Seq<String>,
    unrestricted: bool,
)
    requires
        command_allowed(command, prefixes, unrestricted),
    ensures
        command_allowed(command, prefixes + more, unrestricted),
{
    if !unrestricted {
        let k: int = choose|k: int|
            0 <= k < prefixes.len() && #[trigger] prefix_admits(prefixes[k]@, first_word(command));
        assert((prefixes + more)[k] == prefixes[k]);
        assert(prefix_admits((prefixes + more)[k]@, first_word(command)));
    }
}

/// Whether a command is allowed depends only on its first word.
pub proof fn law_only_first_word_matters(
    c1: Seq<char>,
    c2: Seq<char>,
    prefixes: Seq<String>,
    unrestricted: bool,
)
    requires
        first_word(c1) == first_word(c2),
    ensures
        command_allowed(c1, prefixes, unrestricted) == command_allowed(c2, prefixes, unrestricted),
{
}

} // verus!

verus! {

/// Every entry of the allow-list is consulted: an entry that is a prefix of
/// the command's first word, or equals that word's basename, allows it.
pub proof fn law_every_entry_is_consulted(
    command: Seq<char>,
    prefixes: Seq<String>,
    unrestricted: bool,
    k: int,
)
    requires
        0 <= k < prefixes.len(),
        prefixes[k]@.is_prefix_of(first_word(command)) || basename(first_word(command))
            == prefixes[k]@,
    ensures
        command_allowed(command, prefixes, unrestricted),
{
    assert(prefix_admits(prefixes[k]@, first_word(command)));
}

/// In restricted mode a command is allowed only through an entry that is a
/// prefix of its first word or equals that word's basename.
pub proof fn law_allowed_only_through_an_entry(command: Seq<char>, prefixes: Seq<String>)
    requires
        command_allowed(command, prefixes, false),
    ensures
        exists|k: int|
            0 <= k < prefixes.len() && (#[trigger] prefixes[k]@.is_prefix_of(first_word(command))
                || basename(first_word(command)) == prefixes[k]@),
{
    let k: int = choose|k: int|
        0 <= k < prefixes.len() && #[trigger] prefix_admits(prefixes[k]@, first_word(command));
    assert(prefixes[k]@.is_prefix_of(first_word(command)) || basename(first_word(command))
        == prefixes[k]@);
}

/// The characters that separate words are exactly Unicode's `White_Space`.
pub proof fn law_white_space_set(c: char)
    ensures
        is_white_space(c) <==> (c == '\t' || c == '\n' || c == '\u{0b}' || c == '\u{0c}' || c
            == '\r' || c == ' ' || c == '\u{85}' || c == '\u{a0}' || c == '\u{1680}' || c
            == '\u{2000}' || c == '\u{2001}' || c == '\u{2002}' || c == '\u{2003}' || c
            == '\u{2004}' || c == '\u{2005}' || c == '\u{2006}' || c == '\u{2007}' || c
            == '\u{2008}' || c == '\u{2009}' || c == '\u{200a}' || c == '\u{2028}' || c
            == '\u{2029}' || c == '\u{202f}' || c == '\u{205f}' || c == '\u{3000}'),
{
}

proof fn lemma_skip_space(s: Seq<char>, i: int)
    requires
        0 <= i <= s.len(),
    ensures
        i <= skip_space(s, i) <= s.len(),
        forall|j: int| i <= j < skip_space(s, i) ==> is_white_space(#[trigger] s[j]),
        skip_space(s, i) < s.len() ==> !is_white_space(s[skip_space(s, i)]),
    decreases s.len() - i,
{
    if i < s.len() && is_white_space(s[i]) {
        lemma_skip_space(s, i + 1);
    }
}

proof fn lemma_word_end(s: Seq<char>, i: int)
    requires
        0 <= i <= s.len(),
    ensures
        i <= word_end(s, i) <= s.len(),
        forall|j: int| i <= j < word_end(s, i) ==> !is_white_space(#[trigger] s[j]),
        word_end(s, i) < s.len() ==> is_white_space(s[word_end(s, i)]),
    decreases s.len() - i,
{
    if i < s.len() && !is_white_space(s[i]) {
        lemma_word_end(s, i + 1);
    }
}

/// The first word of a command line is the first run of non-white-space
/// characters: only white space comes before it, it holds no white space,
/// and it ends at white space or at the end of the line.
pub proof fn law_first_word_shape(s: Seq<char>)
    ensures
        exists|a: int, b: int|
            0 <= a <= b <= s.len() && first_word(s) == s.subrange(a, b) && (forall|i: int|
                0 <= i < a ==> is_white_space(#[trigger] s[i])) && (a < s.len() ==> !is_white_space(
                s[a],
            )) && (forall|i: int| a <= i < b ==> !is_white_space(#[trigger] s[i])) && (b < s.len()
                ==> is_white_space(s[b])),
{
    lemma_skip_space(s, 0);
    let a: int = skip_space(s, 0);
    lemma_word_end(s, a);
    let b: int = word_end(s, a);
    assert(first_word(s) == s.subrange(a, b));
}

proof fn lemma_name_start(w: Seq<char>, j: int)
    requires
        0 <= j <= w.len(),
    ensures
        0 <= name_start(w, j) <= j,
        forall|i: int| name_start(w, j) <= i < j ==> #[trigger] w[i] != '/',
        name_start(w, j) > 0 ==> w[name_start(w, j) - 1] == '/',
    decreases j,
{
    if j > 0 && w[j - 1] != '/' {
        lemma_name_start(w, j - 1);
    }
}

/// The basename of a word is its part after the last `/`: a suffix of the
/// word that holds no `/` and is either the whole word or follows a `/`.
pub proof fn law_basename_shape(w: Seq<char>)
    ensures
        basename(w).is_suffix_of(w),
        forall|i: int| 0 <= i < basename(w).len() ==> #[trigger] basename(w)[i] != '/',
        basename(w).len() == w.len() || w[w.len() - basename(w).len() - 1] == '/',
{
    lemma_name_start(w, w.len() as int);
    let n: int = name_start(w, w.len() as int);
    assert(basename(w) =~= w.subrange(n, w.len() as int));
    assert forall|i: int| 0 <= i < basename(w).len() implies #[trigger] basename(w)[i] != '/' by {
        assert(basename(w)[i] == w[n + i]);
    }
}

} // verus!
