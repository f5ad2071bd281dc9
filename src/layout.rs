use vstd::prelude::*;
use vstd::string::*;

verus! {

/// `name` placed inside the directory `dir`, as a relative path is joined
/// onto a directory path: a separator is added unless `dir` is empty or
/// already ends with one.
pub open spec fn joined(dir: Seq<char>, name: Seq<char>) -> Seq<char> {
    if dir.len() == 0 || dir.last() == '/' {
        dir + name
    } else {
        dir + seq!['/'] + name
    }
}

/// Joins a relative name onto a directory path.
pub fn join_path(dir: &str, name: &str) -> (r: String)
    ensures
        r@ == joined(dir@, name@),
{
    let mut r = dir.to_owned();
    let n = dir.unicode_len();
    if n > 0 && dir.get_char(n - 1) != '/' {
        r.append("/");
        proof {
            reveal_strlit("/");
        }
    }
    r.append(name);
    r
}

/// The session record file inside a session directory.
pub fn session_json_path(session_dir: &str) -> (r: String)
    ensures
        r@ == joined(session_dir@, "session.json"@),
{
    join_path(session_dir, "session.json")
}

/// The analysis record file inside a session directory.
pub fn analysis_json_path(session_dir: &str) -> (r: String)
    ensures
        r@ == joined(session_dir@, "analysis.json"@),
{
    join_path(session_dir, "analysis.json")
}

/// The captured audio file inside a session directory.
pub fn audio_wav_path(session_dir: &str) -> (r: String)
    ensures
        r@ == joined(session_dir@, "audio.wav"@),
{
    join_path(session_dir, "audio.wav")
}

/// The exported speaker table inside a session directory.
pub fn analysis_csv_path(session_dir: &str) -> (r: String)
    ensures
        r@ == joined(session_dir@, "analysis.csv"@),
{
    join_path(session_dir, "analysis.csv")
}

/// The directory of the session `session_id` under the sessions root.
pub fn session_dir_path(sessions_root: &str, session_id: &str) -> (r: String)
    ensures
        r@ == joined(sessions_root@, session_id@),
{
    join_path(sessions_root, session_id)
}

} // verus!
