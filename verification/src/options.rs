//! Parsing of the configuration string handed to the process: a
//! comma-separated list of `key=value` pairs.

use vstd::prelude::*;
use vstd::string::{StrSliceExecFns, StringExecFns};

verus! {

/// The least index at or after `from` where `c` occurs in `s`.
pub open spec fn find_char(s: Seq<char>, c: char, from: int) -> Option<int>
    decreases s.len() + 1 - from when 0 <= from
{
    if from >= s.len() {
        None
    } else if s[from] == c {
        Some(from)
    } else {
        find_char(s, c, from + 1)
    }
}

proof fn lemma_find_char_bounds(s: Seq<char>, c: char, from: int)
    requires
        0 <= from,
        find_char(s, c, from) is Some,
    ensures
        from <= find_char(s, c, from)->0 < s.len(),
        s[find_char(s, c, from)->0] == c,
    decreases s.len() + 1 - from,
{
    if from >= s.len() {
    } else if s[from] == c {
    } else {
        lemma_find_char_bounds(s, c, from + 1);
    }
}

/// The `(key, value)` pairs of the comma-separated list `s`: each piece
/// split at its first `'='`, or `None` where some piece has no `'='`.
pub open spec fn options_of(s: Seq<char>) -> Option<Seq<(Seq<char>, Seq<char>)>>
    decreases s.len() via options_of_decreases
{
    match find_char(s, ',', 0) {
        Option::None => match find_char(s, '=', 0) {
            Option::None => Option::None,
            Option::Some(j) => Option::Some(
                seq![(s.subrange(0, j), s.subrange(j + 1, s.len() as int))],
            ),
        },
        Option::Some(i) => {
            let head = s.subrange(0, i);
            let rest = options_of(s.subrange(i + 1, s.len() as int));
            match (find_char(head, '=', 0), rest) {
                (Option::Some(j), Option::Some(pairs)) => Option::Some(
                    seq![(head.subrange(0, j), head.subrange(j + 1, i))] + pairs,
                ),
                _ => Option::None,
            }
        },
    }
}

#[via_fn]
proof fn options_of_decreases(s: Seq<char>) {
    match find_char(s, ',', 0) {
        Option::None => {},
        Option::Some(i) => {
            lemma_find_char_bounds(s, ',', 0);
        },
    }
}

/// The views of a vector of key-value pairs.
pub open spec fn pair_views(pairs: Seq<(String, String)>) -> Seq<(Seq<char>, Seq<char>)> {
    pairs.map_values(|p: (String, String)| (p.0@, p.1@))
}

fn find_char_from(s: &str, slen: usize, c: char, from: usize) -> (r: Option<usize>)
    requires
        slen == s@.len(),
    ensures
        match r {
            Some(i) => find_char(s@, c, from as int) == Some(i as int),
            None => find_char(s@, c, from as int) is None,
        },
{
    let mut i = from;
    while i < slen
        invariant
            from <= i,
            slen == s@.len(),
            find_char(s@, c, from as int) == find_char(s@, c, i as int),
        decreases slen - i,
    {
        if s.get_char(i) == c {
            return Some(i);
        }
        i = i + 1;
    }
    None
}

/// Parses a `<key1>=<val1>,<key2>=<val2>,...` configuration string into
/// its key-value pairs, in order; a piece without `'='` makes the whole
/// string invalid.
pub fn parse_options(raw: &str) -> (r: Result<Vec<(String, String)>, String>)
    ensures
        match r {
            Ok(pairs) => Some(pair_views(pairs@)) == options_of(raw@),
            Err(e) => options_of(raw@) is None && e@ == "Invalid key value format"@,
        },
    decreases raw@.len(),
{
    let slen = raw.unicode_len();
    match find_char_from(raw, slen, ',', 0) {
        None => {
            match find_char_from(raw, slen, '=', 0) {
                None => Err(String::from_str("Invalid key value format")),
                Some(j) => {
                    proof {
                        lemma_find_char_bounds(raw@, '=', 0);
                    }
                    let key = raw.substring_char(0, j);
                    let value = raw.substring_char(j + 1, slen);
                    let mut out: Vec<(String, String)> = Vec::new();
                    out.push((String::from_str(key), String::from_str(value)));
                    proof {
                        assert(pair_views(out@) =~= seq![
                            (raw@.subrange(0, j as int), raw@.subrange(j + 1, raw@.len() as int)),
                        ]);
                    }
                    Ok(out)
                },
            }
        },
        Some(i) => {
            proof {
                lemma_find_char_bounds(raw@, ',', 0);
            }
            let head = raw.substring_char(0, i);
            let tail = raw.substring_char(i + 1, slen);
            match find_char_from(head, i, '=', 0) {
                None => Err(String::from_str("Invalid key value format")),
                Some(j) => {
                    proof {
                        lemma_find_char_bounds(head@, '=', 0);
                    }
                    match parse_options(tail) {
                        Err(e) => Err(e),
                        Ok(rest) => {
                            let mut rest = rest;
                            let ghost rest0 = rest@;
                            let key = head.substring_char(0, j);
                            let value = head.substring_char(j + 1, i);
                            let mut out: Vec<(String, String)> = Vec::new();
                            out.push((String::from_str(key), String::from_str(value)));
                            out.append(&mut rest);
                            proof {
                                let h = raw@.subrange(0, i as int);
                                assert(pair_views(out@) =~= seq![
                                    (h.subrange(0, j as int), h.subrange(j + 1, i as int)),
                                ] + pair_views(rest0));
                            }
                            Ok(out)
                        },
                    }
                },
            }
        },
    }
}

} // verus!
