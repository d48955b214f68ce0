//! The command lines that a deployment sends to the remote shell, and what
//! their replies mean. Paths and names go into the lines as they are.

use vstd::prelude::*;
use vstd::string::*;
use crate::text::{
    comma_joined, is_blank, join_lines_with_commas, same_text, to_chars, trim, trimmed,
};

verus! {

/// Lists the ids of the processes whose command line holds `path`, one a line.
pub open spec fn process_query_text(path: Seq<char>) -> Seq<char> {
    "ps -ef | grep "@ + path + " | grep -v grep | awk '{print $2}'"@
}

/// The signal that cannot be caught, to the processes `pids`.
pub open spec fn forced_kill_text(pids: Seq<char>) -> Seq<char> {
    "kill -9 "@ + pids
}

/// The signal that a process may catch to shut down in order.
pub open spec fn graceful_kill_text(pids: Seq<char>) -> Seq<char> {
    "kill "@ + pids
}

/// Whether processes of the environment `env` are asked to stop before they
/// are made to: so in `prod`, and nowhere else.
pub open spec fn stops_gracefully(env: Seq<char>) -> bool {
    env == "prod"@
}

/// The first signal to the processes `pids` of the environment `env`.
pub open spec fn kill_text(env: Seq<char>, pids: Seq<char>) -> Seq<char> {
    if stops_gracefully(env) {
        graceful_kill_text(pids)
    } else {
        forced_kill_text(pids)
    }
}

/// Prints `1` when none of the processes `pids` is left.
pub open spec fn liveness_check_text(pids: Seq<char>) -> Seq<char> {
    "ps -p "@ + comma_joined(pids) + " > /dev/null 2>&1; echo $?"@
}

/// Starts the archive `jar` in the background with the profile `env`, cut
/// loose from the shell that starts it.
pub open spec fn launch_text(java: Seq<char>, jar: Seq<char>, env: Seq<char>) -> Seq<char> {
    "nohup "@ + java + " -jar "@ + jar + " --spring.profiles.active="@ + env
        + " > /dev/null 2>&1 &"@
}

/// Prints `exists` or `not exists` for `path`.
pub open spec fn existence_probe_text(path: Seq<char>) -> Seq<char> {
    "test -e "@ + path + " && echo 'exists' || echo 'not exists'"@
}

/// Where the previous file at `path` is kept.
pub open spec fn backup_path(path: Seq<char>) -> Seq<char> {
    path + ".bak"@
}

/// Moves the file at `path` to its backup.
pub open spec fn backup_text(path: Seq<char>) -> Seq<char> {
    "mv "@ + path + " "@ + backup_path(path)
}

/// Where the bundle of the directory `dir` is uploaded to.
pub open spec fn archive_path(dir: Seq<char>) -> Seq<char> {
    dir + ".zip"@
}

/// Removes the directory `dir`, makes it anew and unpacks its bundle into it.
pub open spec fn unpack_text(dir: Seq<char>) -> Seq<char> {
    "rm -rf "@ + dir + " && mkdir -p "@ + dir + " && cd "@ + dir + " && /usr/bin/unzip -o "@
        + archive_path(dir)
}

/// Whether a character is a letter or digit of ASCII, or one of `/`, `.`,
/// `_` and `-`.
pub open spec fn is_plain_char(c: char) -> bool {
    ('a' <= c <= 'z') || ('A' <= c <= 'Z') || ('0' <= c <= '9') || c == '/' || c == '.' || c
        == '_' || c == '-'
}

/// Whether a text goes into a command line as one word that the shell takes
/// as it is: not empty, and made of plain characters only.
pub open spec fn is_plain_word(s: Seq<char>) -> bool {
    s.len() > 0 && forall|i: int| 0 <= i < s.len() ==> is_plain_char(#[trigger] s[i])
}

/// What the existence probe found.
#[derive(Clone, Copy, Debug, PartialEq, Eq, Structural)]
pub enum Probe {
    /// Something is at the path.
    Exists,
    /// Nothing is at the path, or its directory is not there.
    Missing,
    /// The reply is neither of the two words.
    Unclear,
}

/// What a reply to the existence probe means.
pub open spec fn probe_of(output: Seq<char>) -> Probe {
    if trimmed(output) == "exists"@ {
        Probe::Exists
    } else if trimmed(output) == "not exists"@ {
        Probe::Missing
    } else {
        Probe::Unclear
    }
}

/// Whether a reply to the liveness check says that no process is left.
pub open spec fn says_gone(output: Seq<char>) -> bool {
    trimmed(output) == "1"@
}

/// Whether a reply to the process query lists no process.
pub open spec fn lists_nothing(output: Seq<char>) -> bool {
    trimmed(output).len() == 0
}

/// Whether a text goes into a command line as one word that the shell takes
/// as it is. The command lines are built from paths and names as they are
/// given; a caller that takes them from outside can ask this first.
pub fn is_shell_safe(s: &str) -> (r: bool)
    ensures
        r == is_plain_word(s@),
{
    let v = to_chars(s);
    if v.len() == 0 {
        return false;
    }
    let mut i: usize = 0;
    while i < v.len()
        invariant
            i <= v@.len(),
            v@ == s@,
            forall|k: int| 0 <= k < i ==> is_plain_char(#[trigger] s@[k]),
        decreases v@.len() - i,
    {
        let c = v[i];
        let plain = ('a' <= c && c <= 'z') || ('A' <= c && c <= 'Z') || ('0' <= c && c <= '9')
            || c == '/' || c == '.' || c == '_' || c == '-';
        if !plain {
            return false;
        }
        i += 1;
    }
    true
}

/// Lists the ids of the processes whose command line holds `path`.
pub fn process_query(path: &str) -> (r: String)
    ensures
        r@ == process_query_text(path@),
{
    let mut r = String::from_str("ps -ef | grep ");
    r.append(path);
    r.append(" | grep -v grep | awk '{print $2}'");
    r
}

/// The signal that cannot be caught, to the processes `pids`.
pub fn forced_kill(pids: &str) -> (r: String)
    ensures
        r@ == forced_kill_text(pids@),
{
    let mut r = String::from_str("kill -9 ");
    r.append(pids);
    r
}

/// The signal that a process may catch, to the processes `pids`.
pub fn graceful_kill(pids: &str) -> (r: String)
    ensures
        r@ == graceful_kill_text(pids@),
{
    let mut r = String::from_str("kill ");
    r.append(pids);
    r
}

/// The first signal to the processes `pids`: the catchable one in the
/// environment `prod`, the forced one in every other.
pub fn kill_command(env: &str, pids: &str) -> (r: String)
    ensures
        r@ == kill_text(env@, pids@),
        env@ == "prod"@ ==> r@ == "kill "@ + pids@,
        env@ != "prod"@ ==> r@ == "kill -9 "@ + pids@,
{
    if same_text(env, "prod") {
        graceful_kill(pids)
    } else {
        forced_kill(pids)
    }
}

/// Prints `1` when none of the processes `pids` is left; the ids may stand
/// one a line.
pub fn liveness_check(pids: &str) -> (r: String)
    ensures
        r@ == liveness_check_text(pids@),
{
    let mut r = String::from_str("ps -p ");
    let list = join_lines_with_commas(pids);
    r.append(list.as_str());
    r.append(" > /dev/null 2>&1; echo $?");
    r
}

/// Starts the archive `jar` in the background with the profile `env`.
pub fn launch(java: &str, jar: &str, env: &str) -> (r: String)
    ensures
        r@ == launch_text(java@, jar@, env@),
{
    let mut r = String::from_str("nohup ");
    r.append(java);
    r.append(" -jar ");
    r.append(jar);
    r.append(" --spring.profiles.active=");
    r.append(env);
    r.append(" > /dev/null 2>&1 &");
    r
}

/// Prints `exists` or `not exists` for `path`.
pub fn existence_probe(path: &str) -> (r: String)
    ensures
        r@ == existence_probe_text(path@),
{
    let mut r = String::from_str("test -e ");
    r.append(path);
    r.append(" && echo 'exists' || echo 'not exists'");
    r
}

/// Moves the file at `path` to its backup.
pub fn backup(path: &str) -> (r: String)
    ensures
        r@ == backup_text(path@),
{
    let mut r = String::from_str("mv ");
    r.append(path);
    r.append(" ");
    r.append(path);
    r.append(".bak");
    r
}

/// Where the bundle of the directory `dir` is uploaded to.
pub fn archive_of(dir: &str) -> (r: String)
    ensures
        r@ == archive_path(dir@),
{
    let mut r = String::from_str("");
    proof {
        reveal_strlit("");
    }
    r.append(dir);
    r.append(".zip");
    r
}

/// Removes the directory `dir`, makes it anew and unpacks its bundle into it.
pub fn unpack(dir: &str) -> (r: String)
    ensures
        r@ == unpack_text(dir@),
{
    let mut r = String::from_str("rm -rf ");
    r.append(dir);
    r.append(" && mkdir -p ");
    r.append(dir);
    r.append(" && cd ");
    r.append(dir);
    r.append(" && /usr/bin/unzip -o ");
    r.append(dir);
    r.append(".zip");
    r
}

/// What a reply to the existence probe means.
pub fn read_probe(output: &str) -> (r: Probe)
    ensures
        r == probe_of(output@),
{
    let word = trim(output);
    if same_text(word, "exists") {
        Probe::Exists
    } else if same_text(word, "not exists") {
        Probe::Missing
    } else {
        Probe::Unclear
    }
}

/// Whether a reply to the liveness check says that no process is left.
pub fn reads_gone(output: &str) -> (r: bool)
    ensures
        r == says_gone(output@),
{
    same_text(trim(output), "1")
}

/// Whether a reply to the process query lists no process.
pub fn reads_nothing(output: &str) -> (r: bool)
    ensures
        r == lists_nothing(output@),
{
    is_blank(output)
}

} // verus!
