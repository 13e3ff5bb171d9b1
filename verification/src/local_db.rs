//! The desktop app's local store: where it keeps its files, how a saved token
//! is read back, and the statement that drops samples once they are synced.

use vstd::prelude::*;
use crate::text::{cat, join_path, join_path_seq, opt_view, trim, trim_seq};

verus! {

pub const DELETE_HEAD: &'static str = "DELETE FROM local_metrics_buffer WHERE id IN (";

/// `n` comma-separated `?` placeholders.
pub open spec fn placeholders(n: nat) -> Seq<char>
    decreases n,
{
    if n == 0 {
        Seq::empty()
    } else if n == 1 {
        seq!['?']
    } else {
        placeholders((n - 1) as nat) + seq![',', '?']
    }
}

/// The statement that deletes `count` buffered samples by id, or `None` when
/// there is nothing to delete.
pub fn delete_synced_query(count: usize) -> (q: Option<String>)
    ensures
        match q {
            Some(s) => count > 0 && s@ == DELETE_HEAD@ + placeholders(count as nat) + ")"@,
            None => count == 0,
        },
{
    if count == 0 {
        return None;
    }
    proof {
        reveal_strlit("?");
        reveal_strlit(",?");
    }
    let mut marks = String::from_str("?");
    assert("?"@ =~= seq!['?']);
    let mut i: usize = 1;
    while i < count
        invariant
            1 <= i <= count,
            marks@ == placeholders(i as nat),
        decreases count - i,
    {
        proof {
            reveal_strlit(",?");
        }
        assert(",?"@ =~= seq![',', '?']);
        marks.append(",?");
        i = i + 1;
        assert(marks@ =~= placeholders(i as nat));
    }
    Some(cat(DELETE_HEAD, marks.as_str()).concat(")"))
}

/// The placeholder list alternates `?` and `,`, starting and ending with
/// `?`: `n` ids bind to a statement with exactly `n` placeholders.
pub proof fn lemma_placeholder_shape(n: nat)
    requires
        n > 0,
    ensures
        placeholders(n).len() == 2 * n - 1,
        forall|i: int|
            0 <= i < placeholders(n).len() ==> #[trigger] placeholders(n)[i] == (if i % 2 == 0 {
                '?'
            } else {
                ','
            }),
    decreases n,
{
    if n > 1 {
        lemma_placeholder_shape((n - 1) as nat);
    }
}

/// What loading the saved device token gives for the token file's contents:
/// the contents without surrounding whitespace, or nothing when that leaves
/// nothing.
pub open spec fn spec_parse_saved_token(contents: Seq<char>) -> Option<Seq<char>> {
    if trim_seq(contents).len() > 0 {
        Some(trim_seq(contents))
    } else {
        None
    }
}

/// What loading gives when the token file may be absent or unreadable (`None`).
pub open spec fn spec_load_saved_token(contents: Option<Seq<char>>) -> Option<Seq<char>> {
    match contents {
        Some(c) => spec_parse_saved_token(c),
        None => None,
    }
}

/// The saved device token read back from its file's contents.
pub fn parse_saved_token(contents: &str) -> (t: Option<String>)
    ensures
        opt_view(t) == spec_parse_saved_token(contents@),
{
    let s = trim(contents);
    if s.as_str().unicode_len() > 0 {
        Some(s)
    } else {
        None
    }
}

/// The saved device token, given what reading the token file gave: its
/// contents, or `None` when the file is missing or cannot be read.
pub fn load_saved_token(contents: &Option<String>) -> (t: Option<String>)
    ensures
        opt_view(t) == spec_load_saved_token(opt_view(*contents)),
{
    match contents {
        Some(c) => parse_saved_token(c.as_str()),
        None => None,
    }
}

/// Saving a token writes it verbatim as the whole token file, and deleting it
/// removes the file. Loading after a save of `token` gives `token` without its
/// surrounding whitespace, or nothing when it is blank; loading after a delete
/// gives nothing.
pub proof fn lemma_saved_token_round_trip(token: Seq<char>)
    ensures
        spec_load_saved_token(Some(token)) == (if trim_seq(token).len() == 0 {
            None::<Seq<char>>
        } else {
            Some(trim_seq(token))
        }),
        spec_load_saved_token(None) == None::<Seq<char>>,
{
}

/// The app's data directory under the user's data directory; `windows` says
/// whether the host joins paths as Windows does (as in the two below).
pub fn data_dir(base: &str, windows: bool) -> (dir: String)
    ensures
        dir@ == join_path_seq(base@, "sys_stats"@, windows),
{
    join_path(base, "sys_stats", windows)
}

/// The file that holds the saved device token.
pub fn token_path(dir: &str, windows: bool) -> (p: String)
    ensures
        p@ == join_path_seq(dir@, "device_token"@, windows),
{
    join_path(dir, "device_token", windows)
}

/// The SQLite database that buffers samples.
pub fn db_path(dir: &str, windows: bool) -> (p: String)
    ensures
        p@ == join_path_seq(dir@, "metrics.db"@, windows),
{
    join_path(dir, "metrics.db", windows)
}

} // verus!
