//! The two XML shapes the multipart protocol exchanges: the completion
//! manifest the client sends, and the upload id carried in the body of
//! the initiate response.

use vstd::prelude::*;
use vstd::string::{StrSliceExecFns, StringExecFns};

use crate::digits::{dec_digits, u64_to_string};
use crate::oio::MultipartUploadPart;

verus! {

/// The manifest entry for one part.
pub open spec fn part_xml(p: MultipartUploadPart) -> Seq<char> {
    "<Part><PartNumber>"@ + dec_digits(p.part_number as nat) + "</PartNumber><ETag>"@ + p.etag@
        + "</ETag></Part>"@
}

/// The manifest entries for `parts`, in order.
pub open spec fn parts_xml(parts: Seq<MultipartUploadPart>) -> Seq<char>
    decreases parts.len(),
{
    if parts.len() == 0 {
        Seq::empty()
    } else {
        parts_xml(parts.drop_last()) + part_xml(parts.last())
    }
}

/// The whole completion manifest for `parts`.
pub open spec fn complete_xml(parts: Seq<MultipartUploadPart>) -> Seq<char> {
    "<CompleteMultipartUpload>"@ + parts_xml(parts) + "</CompleteMultipartUpload>"@
}

/// Builds the completion manifest enumerating `parts` in order.
pub fn build_complete_xml(parts: &Vec<MultipartUploadPart>) -> (s: String)
    ensures
        s@ == complete_xml(parts@),
{
    let mut s = String::from_str("<CompleteMultipartUpload>");
    let mut i: usize = 0;
    while i < parts.len()
        invariant
            i <= parts.len(),
            s@ == "<CompleteMultipartUpload>"@ + parts_xml(parts@.subrange(0, i as int)),
        decreases parts.len() - i,
    {
        s.append("<Part><PartNumber>");
        let digits = u64_to_string(parts[i].part_number as u64);
        s.append(digits.as_str());
        s.append("</PartNumber><ETag>");
        s.append(parts[i].etag.as_str());
        s.append("</ETag></Part>");
        proof {
            let pre = parts@.subrange(0, i as int);
            let now = parts@.subrange(0, i + 1 as int);
            assert(now.drop_last() =~= pre);
            assert(now.last() == parts@[i as int]);
            assert(parts_xml(now) == parts_xml(pre) + part_xml(parts@[i as int]));
        }
        i = i + 1;
    }
    proof {
        assert(parts@.subrange(0, parts@.len() as int) =~= parts@);
    }
    s.append("</CompleteMultipartUpload>");
    s
}

/// Whether `pat` occurs in `s` starting at index `i`.
pub open spec fn found_at(s: Seq<char>, pat: Seq<char>, i: int) -> bool {
    0 <= i && i + pat.len() <= s.len() && s.subrange(i, i + pat.len() as int) == pat
}

/// The least index at or after `from` where `pat` occurs in `s`.
pub open spec fn find_from(s: Seq<char>, pat: Seq<char>, from: int) -> Option<int>
    decreases s.len() + 1 - from when 0 <= from
{
    if from + pat.len() > s.len() {
        None
    } else if found_at(s, pat, from) {
        Some(from)
    } else {
        find_from(s, pat, from + 1)
    }
}

proof fn lemma_find_from_bounds(s: Seq<char>, pat: Seq<char>, from: int)
    requires
        0 <= from,
        find_from(s, pat, from) is Some,
    ensures
        from <= find_from(s, pat, from)->0,
        found_at(s, pat, find_from(s, pat, from)->0),
    decreases s.len() + 1 - from,
{
    if from + pat.len() > s.len() {
    } else if found_at(s, pat, from) {
    } else {
        lemma_find_from_bounds(s, pat, from + 1);
    }
}

/// Whether `pat` occurs in `s` at index `i`; a character-by-character
/// comparison.
fn str_matches_at(s: &str, slen: usize, pat: &str, plen: usize, i: usize) -> (b: bool)
    requires
        slen == s@.len(),
        plen == pat@.len(),
        i + plen <= slen,
    ensures
        b == found_at(s@, pat@, i as int),
{
    let mut j: usize = 0;
    while j < plen
        invariant
            j <= plen,
            slen == s@.len(),
            plen == pat@.len(),
            i + plen <= slen,
            forall|k: int| 0 <= k < j ==> s@[i + k] == pat@[k],
        decreases plen - j,
    {
        if s.get_char(i + j) != pat.get_char(j) {
            proof {
                assert(s@.subrange(i as int, i + plen as int)[j as int] != pat@[j as int]);
            }
            return false;
        }
        j = j + 1;
    }
    proof {
        assert(s@.subrange(i as int, i + plen as int) =~= pat@);
    }
    true
}

/// The least index at or after `from` where `pat` occurs in `s`, or
/// `None` where it does not occur there.
pub fn find_str_from(s: &str, pat: &str, from: usize) -> (r: Option<usize>)
    requires
        pat@.len() >= 1,
    ensures
        match r {
            Some(i) => find_from(s@, pat@, from as int) == Some(i as int),
            None => find_from(s@, pat@, from as int) is None,
        },
{
    let slen = s.unicode_len();
    let plen = pat.unicode_len();
    if plen > slen || from > slen - plen {
        return None;
    }
    let mut i = from;
    while i <= slen - plen
        invariant
            1 <= plen <= slen,
            slen == s@.len(),
            plen == pat@.len(),
            from <= i <= slen - plen + 1,
            find_from(s@, pat@, from as int) == find_from(s@, pat@, i as int),
        decreases slen - i,
    {
        if str_matches_at(s, slen, pat, plen, i) {
            return Some(i);
        }
        i = i + 1;
    }
    None
}

/// The text of the first `UploadId` element of `body`: what stands
/// between the first `<UploadId>` and the next `</UploadId>` after it.
pub open spec fn upload_id_of(body: Seq<char>) -> Option<Seq<char>> {
    match find_from(body, "<UploadId>"@, 0) {
        Option::None => Option::None,
        Option::Some(i) => {
            let start = i + "<UploadId>"@.len();
            match find_from(body, "</UploadId>"@, start) {
                Option::None => Option::None,
                Option::Some(j) => Option::Some(body.subrange(start, j)),
            }
        },
    }
}

/// Extracts the upload id from the body of an initiate response.
pub fn parse_upload_id(body: &str) -> (r: Option<String>)
    ensures
        match r {
            Some(id) => upload_id_of(body@) == Some(id@),
            None => upload_id_of(body@) is None,
        },
{
    let open_tag = "<UploadId>";
    let close_tag = "</UploadId>";
    let blen = body.unicode_len();
    proof {
        assert(body@.len() == blen as nat);
        reveal_strlit("<UploadId>");
        reveal_strlit("</UploadId>");
    }
    match find_str_from(body, open_tag, 0) {
        None => None,
        Some(i) => {
            proof {
                reveal_strlit("<UploadId>");
                lemma_find_from_bounds(body@, open_tag@, 0);
            }
            let start = i + open_tag.unicode_len();
            match find_str_from(body, close_tag, start) {
                None => None,
                Some(j) => {
                    proof {
                        lemma_find_from_bounds(body@, close_tag@, start as int);
                    }
                    let id = body.substring_char(start, j);
                    Some(String::from_str(id))
                },
            }
        },
    }
}

} // verus!
