use vstd::prelude::*;

verus! {

/// A repository identifier with each `/` turned into `_`, fit for a file name.
pub open spec fn underscored(s: Seq<char>) -> Seq<char> {
    s.map_values(|c: char| if c == '/' { '_' } else { c })
}

/// The suffix of the file that keeps a command's standard output.
pub open spec fn stdout_suffix() -> Seq<char> {
    seq!['s', 't', 'd', 'o', 'u', 't']
}

/// The suffix of the file that keeps a command's standard error.
pub open spec fn stderr_suffix() -> Seq<char> {
    seq!['s', 't', 'd', 'e', 'r', 'r']
}

/// The directory, under the configuration directory, that holds the logs.
pub open spec fn logs_subdir() -> Seq<char> {
    seq!['/', 'l', 'o', 'g', 's', '/']
}

/// `<repo with / as _>-<stamp>-<stream>`.
pub open spec fn log_file_name_of(repo: Seq<char>, stamp: Seq<char>, stream: Seq<char>) -> Seq<char> {
    underscored(repo) + seq!['-'] + stamp + seq!['-'] + stream
}

/// `<config dir>/logs/<log file name>`.
pub open spec fn log_path_of(dir: Seq<char>, repo: Seq<char>, stamp: Seq<char>, stream: Seq<char>) -> Seq<char> {
    dir + logs_subdir() + log_file_name_of(repo, stamp, stream)
}

/// A log file name holds no `/` where its stamp and stream hold none: each
/// log file stands directly in the logs directory, and nowhere else.
pub proof fn lemma_log_file_stays_in_logs(repo: Seq<char>, stamp: Seq<char>, stream: Seq<char>)
    requires
        has_no_slash(stamp),
        has_no_slash(stream),
    ensures
        has_no_slash(log_file_name_of(repo, stamp, stream)),
{
    let u = underscored(repo);
    let name = log_file_name_of(repo, stamp, stream);
    assert(name =~= u + seq!['-'] + stamp + seq!['-'] + stream);
    assert forall|i: int| 0 <= i < name.len() implies name[i] != '/' by {
        if i < u.len() {
            assert(name[i] == u[i]);
        } else if i == u.len() {
        } else if i < u.len() + 1 + stamp.len() {
            assert(name[i] == stamp[i - u.len() - 1]);
        } else if i == u.len() + 1 + stamp.len() {
        } else {
            assert(name[i] == stream[i - u.len() - 2 - stamp.len()]);
        }
    }
}

/// Each run keeps its output in two files: the standard output and the
/// standard error of one run never share a path.
pub proof fn lemma_two_files_per_run(dir: Seq<char>, repo: Seq<char>, stamp: Seq<char>)
    ensures
        log_path_of(dir, repo, stamp, stdout_suffix()) != log_path_of(dir, repo, stamp, stderr_suffix()),
{
    let a = log_path_of(dir, repo, stamp, stdout_suffix());
    let b = log_path_of(dir, repo, stamp, stderr_suffix());
    assert(a.len() == b.len());
    assert(a[a.len() - 3] == 'o');
    assert(b[b.len() - 3] == 'e');
}

/// Runs stamped at different times keep their output in different files:
/// repeating a delivery adds a new pair of files and replaces none.
pub proof fn lemma_distinct_stamps_distinct_files(
    dir: Seq<char>,
    repo: Seq<char>,
    stamp1: Seq<char>,
    stamp2: Seq<char>,
    stream: Seq<char>,
)
    requires
        stamp1 != stamp2,
    ensures
        log_path_of(dir, repo, stamp1, stream) != log_path_of(dir, repo, stamp2, stream),
{
    let head = dir + logs_subdir() + underscored(repo) + seq!['-'];
    let tail = seq!['-'] + stream;
    let a = log_path_of(dir, repo, stamp1, stream);
    let b = log_path_of(dir, repo, stamp2, stream);
    assert(a =~= head + stamp1 + tail);
    assert(b =~= head + stamp2 + tail);
    if a == b {
        assert(stamp1.len() == stamp2.len());
        assert(a.subrange(head.len() as int, (head.len() + stamp1.len()) as int) =~= stamp1);
        assert(b.subrange(head.len() as int, (head.len() + stamp2.len()) as int) =~= stamp2);
    }
}

/// Whether a text holds no `/`, so that it names no directory.
pub open spec fn has_no_slash(s: Seq<char>) -> bool {
    forall|i: int| 0 <= i < s.len() ==> s[i] != '/'
}

/// Relies on chrono::Local::now and DateTime::to_rfc3339: the local time now,
/// as RFC 3339 text (`1996-12-19T16:39:57-08:00`), which is written with
/// digits, `-`, `+`, `:`, `.` and `T` alone, so it holds no `/`.
#[verifier::external_body]
fn local_timestamp() -> (r: String)
    ensures
        has_no_slash(r@),
{
    chrono::offset::Local::now().to_rfc3339()
}

/// Replaces every `/` of `s` with `_`.
pub fn replace_slashes(s: &str) -> (r: String)
    ensures
        r@ == underscored(s@),
{
    let n: usize = s.unicode_len();
    let mut out = String::new();
    let mut i: usize = 0;
    while i < n
        invariant
            n == s@.len(),
            i <= n,
            out@ == underscored(s@.take(i as int)),
        decreases n - i,
    {
        let ghost before = out@;
        if s.get_char(i) == '/' {
            let bar = "_";
            proof {
                reveal_strlit("_");
            }
            assert(bar@ =~= seq!['_']);
            out.append(bar);
            assert(out@ =~= before.push('_'));
        } else {
            out.append(s.substring_char(i, i + 1));
            assert(out@ =~= before.push(s@[i as int]));
        }
        assert(out@ == before.push(if s@[i as int] == '/' { '_' } else { s@[i as int] }));
        assert(underscored(s@.take(i + 1)) == underscored(s@.take(i as int)).push(
            if s@[i as int] == '/' { '_' } else { s@[i as int] },
        ));
        i = i + 1;
    }
    assert(s@.take(n as int) == s@);
    out
}

/// The name of a log file: the repository with `/` as `_`, the time stamp
/// and the stream, joined by `-`.
pub fn log_file_name(repo: &str, stamp: &str, stream: &str) -> (r: String)
    ensures
        r@ == log_file_name_of(repo@, stamp@, stream@),
{
    proof {
        reveal_strlit("-");
    }
    let mut name = replace_slashes(repo);
    name.append("-");
    name.append(stamp);
    name.append("-");
    name.append(stream);
    name
}

/// Where a command's output goes: the stamp it was taken at and the two
/// files, under `<config dir>/logs/`.
pub struct LogPaths {
    pub stamp: String,
    pub stderr: String,
    pub stdout: String,
}

/// The two log files of a run of `repo`'s command taken at `stamp`.
pub fn log_paths(config_dir: &str, repo: &str, stamp: &str) -> (r: LogPaths)
    ensures
        r.stamp@ == stamp@,
        r.stderr@ == log_path_of(config_dir@, repo@, stamp@, stderr_suffix()),
        r.stdout@ == log_path_of(config_dir@, repo@, stamp@, stdout_suffix()),
{
    proof {
        reveal_strlit("/logs/");
        reveal_strlit("stderr");
        reveal_strlit("stdout");
    }
    let mut stderr = config_dir.to_owned();
    stderr.append("/logs/");
    let mut stdout = stderr.clone();
    let err_name = log_file_name(repo, stamp, "stderr");
    let out_name = log_file_name(repo, stamp, "stdout");
    stderr.append(err_name.as_str());
    stdout.append(out_name.as_str());
    LogPaths { stamp: stamp.to_owned(), stderr, stdout }
}

/// The two log files of a run of `repo`'s command that ends now, stamped
/// with the local time.
pub fn log_paths_now(config_dir: &str, repo: &str) -> (r: LogPaths)
    ensures
        has_no_slash(r.stamp@),
        r.stderr@ == log_path_of(config_dir@, repo@, r.stamp@, stderr_suffix()),
        r.stdout@ == log_path_of(config_dir@, repo@, r.stamp@, stdout_suffix()),
{
    let stamp = local_timestamp();
    log_paths(config_dir, repo, stamp.as_str())
}

} // verus!
