pub mod entities;

use vstd::prelude::*;

use crate::text::{chars_of, has_prefix, has_prefix_at, is_prefix_of, str_has_prefix, string_of};

verus! {

/// Connection pool bounds (minimum, maximum) for a database URL: a single
/// connection for SQLite (avoids write-lock contention), 2 to 20 otherwise.
pub fn pool_bounds(database_url: &str) -> (r: (u32, u32))
    ensures
        is_prefix_of("sqlite"@, database_url@) ==> r == (1u32, 1u32),
        !is_prefix_of("sqlite"@, database_url@) ==> r == (2u32, 20u32),
{
    if str_has_prefix(database_url, "sqlite") {
        (1, 1)
    } else {
        (2, 20)
    }
}

/// `s` with every leading repetition of the non-empty `p` removed.
pub open spec fn strip_all_prefixes(s: Seq<char>, p: Seq<char>) -> Seq<char>
    decreases s.len(),
{
    if p.len() > 0 && is_prefix_of(p, s) {
        strip_all_prefixes(s.skip(p.len() as int), p)
    } else {
        s
    }
}

/// The file path of a `sqlite://` database URL (every leading `sqlite://`
/// removed); `None` for other URLs.
pub fn sqlite_file_path(database_url: &str) -> (r: Option<String>)
    ensures
        !is_prefix_of("sqlite://"@, database_url@) ==> r is None,
        is_prefix_of("sqlite://"@, database_url@) ==> (r matches Some(p)
            && p@ == strip_all_prefixes(database_url@, "sqlite://"@)),
{
    let s = chars_of(database_url);
    let p = chars_of("sqlite://");
    proof {
        reveal_strlit("sqlite://");
    }
    if !has_prefix(s.as_slice(), p.as_slice()) {
        return None;
    }
    let mut start: usize = 0;
    assert(s@.skip(0) =~= s@);
    while has_prefix_at(s.as_slice(), start, p.as_slice())
        invariant
            start <= s@.len(),
            p@.len() == 9,
            p@ == "sqlite://"@,
            strip_all_prefixes(s@.skip(start as int), p@) == strip_all_prefixes(s@, p@),
        decreases s.len() - start,
    {
        assert(s@.skip(start as int).skip(p@.len() as int) =~= s@.skip(start + p.len()));
        start = start + p.len();
    }
    let mut out: Vec<char> = Vec::new();
    let mut i: usize = start;
    while i < s.len()
        invariant
            start <= i <= s@.len(),
            out@ == s@.subrange(start as int, i as int),
        decreases s.len() - i,
    {
        out.push(s[i]);
        i = i + 1;
    }
    assert(out@ =~= s@.skip(start as int));
    Some(string_of(out.as_slice()))
}

} // verus!
