//! Extraction of a video identifier from a playback path.
//!
//! A supported path holds, anywhere in it, a URL of the shape
//! `http[s]://[www.]<host>/[v/|watch?v=|embed/]<id>` where `<host>` is
//! `youtu.be`, `youtube.com` or `piped.kavin.rocks` and `<id>` is eleven
//! characters drawn from letters, digits, `-` and `_`.  The leftmost such
//! URL wins.  Any other path means "not a supported video".

use vstd::prelude::*;

verus! {

/// Identifier alphabet: ASCII letters, digits, `-` and `_`.
pub open spec fn is_id_char(c: char) -> bool {
    (65 <= c as u32 && c as u32 <= 90) || (97 <= c as u32 && c as u32 <= 122) || (48 <= c as u32
        && c as u32 <= 57) || c as u32 == 45 || c as u32 == 95
}

/// The literal `lit` occurs in `s` starting at position `i`.
pub open spec fn lit_at(s: Seq<char>, i: int, lit: Seq<char>) -> bool {
    0 <= i && i + lit.len() <= s.len() && s.subrange(i, i + lit.len()) == lit
}

/// Eleven identifier characters start at position `i`.
pub open spec fn id_at(s: Seq<char>, i: int) -> bool {
    0 <= i && i + 11 <= s.len() && forall|k: int| i <= k < i + 11 ==> is_id_char(#[trigger] s[k])
}

/// Position right after the URL scheme, if one starts at `i`.
pub open spec fn scheme_end(s: Seq<char>, i: int) -> Option<int> {
    if lit_at(s, i, "https://"@) {
        Some(i + 8)
    } else if lit_at(s, i, "http://"@) {
        Some(i + 7)
    } else {
        None
    }
}

/// Position right after `<host>/`, if a supported host starts at `j`.
pub open spec fn host_end(s: Seq<char>, j: int) -> Option<int> {
    if lit_at(s, j, "youtu.be/"@) {
        Some(j + 9)
    } else if lit_at(s, j, "youtube.com/"@) {
        Some(j + 12)
    } else if lit_at(s, j, "piped.kavin.rocks/"@) {
        Some(j + 18)
    } else {
        None
    }
}

/// Position right after `[www.]<host>/`, if one starts at `j`.
pub open spec fn host_part_end(s: Seq<char>, j: int) -> Option<int> {
    if lit_at(s, j, "www."@) && host_end(s, j + 4) is Some {
        host_end(s, j + 4)
    } else {
        host_end(s, j)
    }
}

/// Start of the identifier after an optional `v/`, `watch?v=` or `embed/`
/// prefix at `k`.  A prefix only counts when eleven identifier characters
/// follow it; otherwise the identifier must start at `k` itself.
pub open spec fn id_start(s: Seq<char>, k: int) -> Option<int> {
    if lit_at(s, k, "v/"@) && id_at(s, k + 2) {
        Some(k + 2)
    } else if lit_at(s, k, "watch?v="@) && id_at(s, k + 8) {
        Some(k + 8)
    } else if lit_at(s, k, "embed/"@) && id_at(s, k + 6) {
        Some(k + 6)
    } else if id_at(s, k) {
        Some(k)
    } else {
        None
    }
}

/// The identifier of a supported URL starting exactly at position `i`.
pub open spec fn match_at(s: Seq<char>, i: int) -> Option<Seq<char>> {
    match scheme_end(s, i) {
        None => None,
        Some(j) => match host_part_end(s, j) {
            None => None,
            Some(k) => match id_start(s, k) {
                None => None,
                Some(m) => Some(s.subrange(m, m + 11)),
            },
        },
    }
}

/// The identifier of the leftmost supported URL starting at or after `i`.
pub open spec fn youtube_id_from(s: Seq<char>, i: int) -> Option<Seq<char>>
    decreases s.len() - i,
{
    if i >= s.len() {
        None
    } else if match_at(s, i) is Some {
        match_at(s, i)
    } else {
        youtube_id_from(s, i + 1)
    }
}

/// The identifier of the leftmost supported URL in `s`, if any: spec of
/// `get_youtube_id`.
pub open spec fn youtube_id_of(s: Seq<char>) -> Option<Seq<char>> {
    youtube_id_from(s, 0)
}

/// Runtime check of `is_id_char`.
fn is_id_char_exec(c: char) -> (r: bool)
    ensures
        r == is_id_char(c),
{
    let u = c as u32;
    (65 <= u && u <= 90) || (97 <= u && u <= 122) || (48 <= u && u <= 57) || u == 45 || u == 95
}

/// Runtime check of `lit_at`.
fn check_lit(s: &str, i: usize, lit: &str) -> (r: bool)
    requires
        i <= s@.len(),
    ensures
        r == lit_at(s@, i as int, lit@),
{
    let n = s.unicode_len();
    let m = lit.unicode_len();
    if m > n - i {
        return false;
    }
    let mut k: usize = 0;
    while k < m
        invariant
            k <= m,
            m == lit@.len(),
            n == s@.len(),
            i + m <= n,
            forall|q: int| 0 <= q < k ==> s@[i as int + q] == lit@[q],
        decreases m - k,
    {
        let a = s.get_char(i + k);
        let b = lit.get_char(k);
        if a != b {
            proof {
                assert(s@.subrange(i as int, i as int + m as int)[k as int] != lit@[k as int]);
            }
            return false;
        }
        k = k + 1;
    }
    proof {
        assert(s@.subrange(i as int, i as int + m as int) =~= lit@);
    }
    true
}

/// Runtime check of `id_at`.
fn check_id(s: &str, m: usize) -> (r: bool)
    requires
        m <= s@.len(),
    ensures
        r == id_at(s@, m as int),
{
    let n = s.unicode_len();
    if n - m < 11 {
        return false;
    }
    let mut k: usize = 0;
    while k < 11
        invariant
            k <= 11,
            n == s@.len(),
            m + 11 <= n,
            forall|q: int| 0 <= q < k ==> is_id_char(#[trigger] s@[m as int + q]),
        decreases 11 - k,
    {
        let c = s.get_char(m + k);
        if !is_id_char_exec(c) {
            return false;
        }
        k = k + 1;
    }
    proof {
        assert forall|k2: int| m <= k2 < m as int + 11 implies is_id_char(s@[k2]) by {
            assert(is_id_char(s@[m as int + (k2 - m)]));
        }
    }
    true
}

/// Runtime check of `host_end`.
fn check_host(s: &str, j: usize) -> (r: Option<usize>)
    requires
        j <= s@.len(),
    ensures
        match r {
            Some(k) => host_end(s@, j as int) == Some(k as int) && k <= s@.len(),
            None => host_end(s@, j as int) is None,
        },
{
    // the measured length bounds every position that fits in the view
    let _n = s.unicode_len();
    if check_lit(s, j, "youtu.be/") {
        proof {
            reveal_strlit("youtu.be/");
        }
        Some(j + 9)
    } else if check_lit(s, j, "youtube.com/") {
        proof {
            reveal_strlit("youtube.com/");
        }
        Some(j + 12)
    } else if check_lit(s, j, "piped.kavin.rocks/") {
        proof {
            reveal_strlit("piped.kavin.rocks/");
        }
        Some(j + 18)
    } else {
        None
    }
}

/// Identifier start position for a supported URL starting exactly at `i`.
fn try_match_at(s: &str, i: usize) -> (r: Option<usize>)
    requires
        i <= s@.len(),
    ensures
        match r {
            Some(m) => m + 11 <= s@.len() && match_at(s@, i as int) == Some(
                s@.subrange(m as int, m + 11),
            ),
            None => match_at(s@, i as int) is None,
        },
{
    // the measured length bounds every position that fits in the view
    let _n = s.unicode_len();
    let j: usize;
    if check_lit(s, i, "https://") {
        proof {
            reveal_strlit("https://");
        }
        j = i + 8;
    } else if check_lit(s, i, "http://") {
        proof {
            reveal_strlit("http://");
        }
        j = i + 7;
    } else {
        return None;
    }
    let after_host: Option<usize> = if check_lit(s, j, "www.") {
        proof {
            reveal_strlit("www.");
        }
        match check_host(s, j + 4) {
            Some(k) => Some(k),
            None => check_host(s, j),
        }
    } else {
        check_host(s, j)
    };
    let k = match after_host {
        Some(k) => k,
        None => {
            return None;
        },
    };
    if check_lit(s, k, "v/") {
        proof {
            reveal_strlit("v/");
        }
        if check_id(s, k + 2) {
            return Some(k + 2);
        }
    }
    if check_lit(s, k, "watch?v=") {
        proof {
            reveal_strlit("watch?v=");
        }
        if check_id(s, k + 8) {
            return Some(k + 8);
        }
    }
    if check_lit(s, k, "embed/") {
        proof {
            reveal_strlit("embed/");
        }
        if check_id(s, k + 6) {
            return Some(k + 6);
        }
    }
    if check_id(s, k) {
        return Some(k);
    }
    None
}

/// Identifier of the leftmost supported URL in `path`, or none for any
/// other path (a local file, an unsupported site).
pub fn get_youtube_id(path: &str) -> (r: Option<String>)
    ensures
        match r {
            Some(id) => youtube_id_of(path@) == Some(id@),
            None => youtube_id_of(path@) is None,
        },
{
    let n = path.unicode_len();
    let mut i: usize = 0;
    while i < n
        invariant
            i <= n,
            n == path@.len(),
            youtube_id_of(path@) == youtube_id_from(path@, i as int),
        decreases n - i,
    {
        match try_match_at(path, i) {
            Some(m) => {
                let id = path.substring_char(m, m + 11);
                return Some(id.to_owned());
            },
            None => {},
        }
        i = i + 1;
    }
    None
}

} // verus!
