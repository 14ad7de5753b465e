//! Parsing of one HTTP request for the video route, over the raw header
//! bytes: the request line's target, the percent-encoded `path` query
//! parameter, and a strict `bytes=<start>-<end>` range header.

use vstd::prelude::*;
use vstd::slice::slice_subrange;

verus! {

/// The bytes of an ASCII pattern, one per character (low 8 bits of each).
pub open spec fn ascii_bytes(s: Seq<char>) -> Seq<u8> {
    Seq::new(s.len(), |i: int| s[i] as u8)
}

/// Runtime counterpart of `ascii_bytes`.
pub fn ascii_pattern(s: &str) -> (r: Vec<u8>)
    ensures
        r@ == ascii_bytes(s@),
{
    let n: usize = s.unicode_len();
    let mut r: Vec<u8> = Vec::new();
    let mut i: usize = 0;
    while i < n
        invariant
            n == s@.len(),
            0 <= i <= n,
            r@ == ascii_bytes(s@).subrange(0, i as int),
        decreases n - i,
    {
        let c = s.get_char(i);
        r.push(c as u8);
        proof {
            assert(r@ =~= ascii_bytes(s@).subrange(0, i as int + 1));
        }
        i = i + 1;
    }
    proof {
        assert(ascii_bytes(s@).subrange(0, n as int) =~= ascii_bytes(s@));
    }
    r
}

/// `pat` occurs in `s` at position `i`.
pub open spec fn matches_at_b(s: Seq<u8>, pat: Seq<u8>, i: int) -> bool {
    0 <= i && i + pat.len() <= s.len() && s.subrange(i, i + pat.len()) == pat
}

/// Whether `pat` occurs in `s` at position `at`.
pub fn matches_from_b(s: &[u8], pat: &[u8], at: usize) -> (r: bool)
    ensures
        r == matches_at_b(s@, pat@, at as int),
{
    let n: usize = s.len();
    let m: usize = pat.len();
    if at > n || m > n - at {
        return false;
    }
    let mut j: usize = 0;
    while j < m
        invariant
            n == s@.len(),
            m == pat@.len(),
            at + m <= n,
            0 <= j <= m,
            forall|k: int| 0 <= k < j ==> s@[at + k] == pat@[k],
        decreases m - j,
    {
        if s[at + j] != pat[j] {
            assert(s@.subrange(at as int, at as int + m) != pat@) by {
                assert(s@.subrange(at as int, at as int + m)[j as int] != pat@[j as int]);
            }
            return false;
        }
        j = j + 1;
    }
    assert(s@.subrange(at as int, at as int + m) =~= pat@);
    true
}

/// Position of the first occurrence of `pat` in `s` at or after `from`.
pub open spec fn first_match_b(s: Seq<u8>, pat: Seq<u8>, from: int) -> Option<int>
    decreases s.len() - from,
{
    if !(0 <= from && from + pat.len() <= s.len()) {
        None
    } else if pat.len() == 0 || s.subrange(from, from + pat.len()) == pat {
        Some(from)
    } else {
        first_match_b(s, pat, from + 1)
    }
}

/// A found occurrence lies in bounds and matches.
pub proof fn lemma_first_match_b_bounds(s: Seq<u8>, pat: Seq<u8>, from: int)
    ensures
        match first_match_b(s, pat, from) {
            Some(i) => from <= i && 0 <= i && i + pat.len() <= s.len()
                && matches_at_b(s, pat, i),
            None => true,
        },
    decreases s.len() - from,
{
    if 0 <= from && from + pat.len() <= s.len() {
        if pat.len() == 0 {
            assert(s.subrange(from, from) =~= pat);
        } else if s.subrange(from, from + pat.len()) != pat {
            lemma_first_match_b_bounds(s, pat, from + 1);
        }
    }
}

/// First occurrence of `pat` in `s` at or after `from`, if any.
pub fn find_from_b(s: &[u8], pat: &[u8], from: usize) -> (r: Option<usize>)
    ensures
        match r {
            Some(i) => first_match_b(s@, pat@, from as int) == Some(i as int),
            None => first_match_b(s@, pat@, from as int) is None,
        },
{
    let n: usize = s.len();
    let m: usize = pat.len();
    if from > n || m > n - from {
        return None;
    }
    if m == 0 {
        proof {
            assert(s@.subrange(from as int, from as int) =~= pat@);
        }
        return Some(from);
    }
    let mut i: usize = from;
    while i <= n - m
        invariant
            n == s@.len(),
            m == pat@.len(),
            1 <= m <= n,
            from <= i,
            i <= n - m + 1,
            first_match_b(s@, pat@, from as int) == first_match_b(s@, pat@, i as int),
        decreases n - i,
    {
        if matches_from_b(s, pat, i) {
            return Some(i);
        }
        i = i + 1;
    }
    None
}

/// A decimal digit byte.
pub open spec fn is_digit_b(b: u8) -> bool {
    48 <= b && b <= 57
}

/// Every byte of `s` is a decimal digit.
pub open spec fn all_digits_b(s: Seq<u8>) -> bool
    decreases s.len(),
{
    if s.len() == 0 {
        true
    } else {
        all_digits_b(s.drop_last()) && is_digit_b(s.last())
    }
}

/// The number denoted by a digit-byte string.
pub open spec fn digits_val_b(s: Seq<u8>) -> int
    decreases s.len(),
{
    if s.len() == 0 {
        0
    } else {
        digits_val_b(s.drop_last()) * 10 + s.last() - 48
    }
}

proof fn lemma_digits_val_b_nonneg(s: Seq<u8>)
    requires
        all_digits_b(s),
    ensures
        digits_val_b(s) >= 0,
    decreases s.len(),
{
    if s.len() > 0 {
        lemma_digits_val_b_nonneg(s.drop_last());
    }
}

proof fn lemma_digits_val_b_prefix_le(s: Seq<u8>, i: int, j: int)
    requires
        all_digits_b(s.subrange(0, j)),
        0 <= i <= j <= s.len(),
    ensures
        digits_val_b(s.subrange(0, i)) <= digits_val_b(s.subrange(0, j)),
    decreases j - i,
{
    if i < j {
        let t = s.subrange(0, j);
        assert(t.drop_last() =~= s.subrange(0, j - 1));
        lemma_digits_val_b_nonneg(t.drop_last());
        lemma_digits_val_b_prefix_le(s, i, j - 1);
    }
}

proof fn lemma_all_digits_b_index(s: Seq<u8>, i: int)
    requires
        0 <= i < s.len(),
        all_digits_b(s.subrange(0, i)),
        !is_digit_b(s[i]),
    ensures
        !all_digits_b(s),
    decreases s.len() - i,
{
    if i == s.len() - 1 {
        assert(s.last() == s[i]);
    } else {
        assert(s.drop_last() =~= s.subrange(0, s.len() - 1));
        assert(s.drop_last().subrange(0, i) =~= s.subrange(0, i));
        lemma_all_digits_b_index(s.drop_last(), i);
    }
}

/// Parses a digit-byte string as a `u64`: `Some` exactly on nonempty
/// all-digit input whose value fits.
pub fn parse_u64_b(s: &[u8]) -> (r: Option<u64>)
    ensures
        match r {
            Some(v) => s@.len() > 0 && all_digits_b(s@) && v as int == digits_val_b(s@),
            None => s@.len() == 0 || !all_digits_b(s@) || digits_val_b(s@) > u64::MAX,
        },
{
    let n: usize = s.len();
    if n == 0 {
        return None;
    }
    let mut i: usize = 0;
    let mut val: u64 = 0;
    while i < n
        invariant
            n == s@.len(),
            0 <= i <= n,
            all_digits_b(s@.subrange(0, i as int)),
            val as int == digits_val_b(s@.subrange(0, i as int)),
        decreases n - i,
    {
        let b: u8 = s[i];
        if !(48 <= b && b <= 57) {
            proof {
                assert(s@.subrange(0, n as int) =~= s@);
                lemma_all_digits_b_index(s@, i as int);
            }
            return None;
        }
        let d: u64 = (b - 48) as u64;
        proof {
            assert(s@.subrange(0, i as int + 1).drop_last() =~= s@.subrange(0, i as int));
        }
        if val > 1844674407370955161 || (val == 1844674407370955161 && d > 5) {
            proof {
                assert(s@.subrange(0, n as int) =~= s@);
                if all_digits_b(s@) {
                    lemma_digits_val_b_prefix_le(s@, i as int + 1, n as int);
                }
            }
            return None;
        }
        val = val * 10 + d;
        i = i + 1;
    }
    proof {
        assert(s@.subrange(0, n as int) =~= s@);
    }
    Some(val)
}

/// An ASCII blank: space or horizontal tab.
pub open spec fn is_ws_b(b: u8) -> bool {
    b == 32 || b == 9
}

/// `s` with leading and trailing blanks removed.
pub open spec fn spec_trim_b(s: Seq<u8>) -> Seq<u8>
    decreases s.len(),
{
    if s.len() > 0 && is_ws_b(s.first()) {
        spec_trim_b(s.drop_first())
    } else if s.len() > 0 && is_ws_b(s.last()) {
        spec_trim_b(s.drop_last())
    } else {
        s
    }
}

/// Removes leading and trailing blanks.
pub fn trim_b<'a>(s: &'a [u8]) -> (r: &'a [u8])
    ensures
        r@ == spec_trim_b(s@),
    decreases s@.len(),
{
    let n: usize = s.len();
    if n > 0 {
        let b0: u8 = s[0];
        if b0 == 32 || b0 == 9 {
            proof {
                assert(s@.subrange(1, n as int) =~= s@.drop_first());
            }
            return trim_b(slice_subrange(s, 1, n));
        }
        let bl: u8 = s[n - 1];
        if bl == 32 || bl == 9 {
            proof {
                assert(s@.subrange(0, n as int - 1) =~= s@.drop_last());
            }
            return trim_b(slice_subrange(s, 0, n - 1));
        }
    }
    s
}

/// Index of the first non-blank at or after `i`.
pub open spec fn spec_skip_ws(s: Seq<u8>, i: int) -> int
    decreases s.len() - i,
{
    if 0 <= i && i < s.len() && is_ws_b(s[i]) {
        spec_skip_ws(s, i + 1)
    } else {
        i
    }
}

/// Index of the first blank (or the end) at or after `i`.
pub open spec fn spec_skip_tok(s: Seq<u8>, i: int) -> int
    decreases s.len() - i,
{
    if 0 <= i && i < s.len() && !is_ws_b(s[i]) {
        spec_skip_tok(s, i + 1)
    } else {
        i
    }
}

fn skip_ws_exec(s: &[u8], i: usize) -> (r: usize)
    requires
        i <= s@.len(),
    ensures
        r == spec_skip_ws(s@, i as int),
        i <= r <= s@.len(),
    decreases s@.len() - i,
{
    if i < s.len() && (s[i] == 32 || s[i] == 9) {
        skip_ws_exec(s, i + 1)
    } else {
        i
    }
}

fn skip_tok_exec(s: &[u8], i: usize) -> (r: usize)
    requires
        i <= s@.len(),
    ensures
        r == spec_skip_tok(s@, i as int),
        i <= r <= s@.len(),
    decreases s@.len() - i,
{
    if i < s.len() && !(s[i] == 32 || s[i] == 9) {
        skip_tok_exec(s, i + 1)
    } else {
        i
    }
}

/// The second blank-separated token of a line; empty when there is none.
pub open spec fn spec_second_token(line: Seq<u8>) -> Seq<u8> {
    let a = spec_skip_ws(line, 0);
    let b = spec_skip_tok(line, a);
    let c = spec_skip_ws(line, b);
    let d = spec_skip_tok(line, c);
    line.subrange(c, d)
}

proof fn lemma_skip_bounds(s: Seq<u8>, i: int)
    requires
        0 <= i <= s.len(),
    ensures
        i <= spec_skip_ws(s, i) <= s.len(),
        i <= spec_skip_tok(s, i) <= s.len(),
    decreases s.len() - i,
{
    if i < s.len() {
        lemma_skip_bounds(s, i + 1);
    }
}

/// The second token of a line, as a subslice.
pub fn second_token<'a>(line: &'a [u8]) -> (r: &'a [u8])
    ensures
        r@ == spec_second_token(line@),
{
    let a = skip_ws_exec(line, 0);
    let b = skip_tok_exec(line, a);
    let c = skip_ws_exec(line, b);
    let d = skip_tok_exec(line, c);
    slice_subrange(line, c, d)
}

/// A hexadecimal digit byte.
pub open spec fn is_hex_b(b: u8) -> bool {
    (48 <= b && b <= 57) || (65 <= b && b <= 70) || (97 <= b && b <= 102)
}

/// Value of a hexadecimal digit byte.
pub open spec fn hex_val_b(b: u8) -> int {
    if 48 <= b && b <= 57 {
        b - 48
    } else if 65 <= b && b <= 70 {
        b - 55
    } else {
        b - 87
    }
}

/// Percent-decoding: each `%` followed by two hex digits becomes one byte;
/// everything else is passed through unchanged.
pub open spec fn spec_pct_decode(b: Seq<u8>) -> Seq<u8>
    decreases b.len(),
{
    if b.len() == 0 {
        Seq::empty()
    } else if b[0] == 37 && b.len() >= 3 && is_hex_b(b[1]) && is_hex_b(b[2]) {
        seq![(hex_val_b(b[1]) * 16 + hex_val_b(b[2])) as u8]
            + spec_pct_decode(b.subrange(3, b.len() as int))
    } else {
        seq![b[0]] + spec_pct_decode(b.subrange(1, b.len() as int))
    }
}

fn hex_digit_value(b: u8) -> (r: Option<u8>)
    ensures
        match r {
            Some(v) => is_hex_b(b) && v as int == hex_val_b(b),
            None => !is_hex_b(b),
        },
{
    if 48 <= b && b <= 57 {
        Some(b - 48)
    } else if 65 <= b && b <= 70 {
        Some(b - 55)
    } else if 97 <= b && b <= 102 {
        Some(b - 87)
    } else {
        None
    }
}

/// Percent-decodes a byte string.
pub fn pct_decode(b: &[u8]) -> (r: Vec<u8>)
    ensures
        r@ == spec_pct_decode(b@),
{
    let n: usize = b.len();
    let mut out: Vec<u8> = Vec::new();
    let mut i: usize = 0;
    proof {
        assert(b@.subrange(0, n as int) =~= b@);
        assert(out@ + spec_pct_decode(b@) =~= spec_pct_decode(b@));
    }
    while i < n
        invariant
            n == b@.len(),
            0 <= i <= n,
            out@ + spec_pct_decode(b@.subrange(i as int, n as int)) == spec_pct_decode(b@),
        decreases n - i,
    {
        let ghost tail = b@.subrange(i as int, n as int);
        if b[i] == 37 && n - i >= 3 {
            let h1 = hex_digit_value(b[i + 1]);
            let h2 = hex_digit_value(b[i + 2]);
            match (h1, h2) {
                (Some(v1), Some(v2)) => {
                    out.push(v1 * 16 + v2);
                    proof {
                        assert(tail[0] == 37 && tail.len() >= 3);
                        assert(tail[1] == b@[i + 1] && tail[2] == b@[i + 2]);
                        assert(tail.subrange(3, tail.len() as int)
                            =~= b@.subrange(i as int + 3, n as int));
                        assert(out@ + spec_pct_decode(b@.subrange(i as int + 3, n as int))
                            =~= spec_pct_decode(b@));
                    }
                    i = i + 3;
                }
                _ => {
                    out.push(b[i]);
                    proof {
                        assert(tail.subrange(1, tail.len() as int)
                            =~= b@.subrange(i as int + 1, n as int));
                        assert(out@ + spec_pct_decode(b@.subrange(i as int + 1, n as int))
                            =~= spec_pct_decode(b@));
                    }
                    i = i + 1;
                }
            }
        } else {
            out.push(b[i]);
            proof {
                assert(tail.subrange(1, tail.len() as int)
                    =~= b@.subrange(i as int + 1, n as int));
                assert(out@ + spec_pct_decode(b@.subrange(i as int + 1, n as int))
                    =~= spec_pct_decode(b@));
            }
            i = i + 1;
        }
    }
    proof {
        assert(b@.subrange(n as int, n as int) =~= Seq::<u8>::empty());
        assert(out@ =~= spec_pct_decode(b@));
    }
    out
}

/// A strict `<start>-<end>` pair: both sides nonempty decimal that fits in
/// a `u64`, nothing else.
pub open spec fn spec_dash_pair(t: Seq<u8>) -> Option<(u64, u64)> {
    match first_match_b(t, ascii_bytes("-"@), 0) {
        Some(d) => {
            let a = t.subrange(0, d);
            let b = t.subrange(d + 1, t.len() as int);
            if a.len() > 0 && all_digits_b(a) && digits_val_b(a) <= u64::MAX
                && b.len() > 0 && all_digits_b(b) && digits_val_b(b) <= u64::MAX {
                Some((digits_val_b(a) as u64, digits_val_b(b) as u64))
            } else {
                None
            }
        },
        None => None,
    }
}

/// What one header line contributes: a range exactly of the form
/// `Range:` + blanks + `bytes=<start>-<end>` + blanks, else nothing.
pub open spec fn spec_parse_range_line(line: Seq<u8>) -> Option<(u64, u64)> {
    if matches_at_b(line, ascii_bytes("Range:"@), 0) {
        let v = spec_trim_b(line.subrange(6, line.len() as int));
        if matches_at_b(v, ascii_bytes("bytes="@), 0) {
            spec_dash_pair(v.subrange(6, v.len() as int))
        } else {
            None
        }
    } else {
        None
    }
}

/// Parses one header line for a byte range.
pub fn parse_range_line(line: &[u8]) -> (r: Option<(u64, u64)>)
    ensures
        r == spec_parse_range_line(line@),
{
    let range_pat = ascii_pattern("Range:");
    proof {
        reveal_strlit("Range:");
    }
    if !matches_from_b(line, range_pat.as_slice(), 0) {
        return None;
    }
    let n: usize = line.len();
    let v = trim_b(slice_subrange(line, 6, n));
    let bytes_pat = ascii_pattern("bytes=");
    proof {
        reveal_strlit("bytes=");
    }
    if !matches_from_b(v, bytes_pat.as_slice(), 0) {
        return None;
    }
    let m: usize = v.len();
    let t = slice_subrange(v, 6, m);
    let dash_pat = ascii_pattern("-");
    proof {
        reveal_strlit("-");
        lemma_first_match_b_bounds(t@, ascii_bytes("-"@), 0);
    }
    match find_from_b(t, dash_pat.as_slice(), 0) {
        None => None,
        Some(d) => {
            let k: usize = t.len();
            let a = slice_subrange(t, 0, d);
            let b = slice_subrange(t, d + 1, k);
            let pa = parse_u64_b(a);
            let pb = parse_u64_b(b);
            match (pa, pb) {
                (Some(x), Some(y)) => Some((x, y)),
                _ => None,
            }
        },
    }
}

/// The range chosen by a sequence of header lines: the last line that
/// parses wins.
pub open spec fn spec_range_scan(s: Seq<u8>) -> Option<(u64, u64)>
    decreases s.len(),
    via spec_range_scan_decreases
{
    match first_match_b(s, ascii_bytes("\r\n"@), 0) {
        None => spec_parse_range_line(s),
        Some(i) => {
            let here = spec_parse_range_line(s.subrange(0, i));
            let rest = spec_range_scan(s.subrange(i + 2, s.len() as int));
            if rest is Some {
                rest
            } else {
                here
            }
        },
    }
}

#[via_fn]
proof fn spec_range_scan_decreases(s: Seq<u8>) {
    reveal_strlit("\r\n");
    lemma_first_match_b_bounds(s, ascii_bytes("\r\n"@), 0);
}

/// Scans header lines for the byte range in effect.
pub fn scan_range_lines(s: &[u8]) -> (r: Option<(u64, u64)>)
    ensures
        r == spec_range_scan(s@),
    decreases s@.len(),
{
    let crlf_pat = ascii_pattern("\r\n");
    proof {
        reveal_strlit("\r\n");
        lemma_first_match_b_bounds(s@, ascii_bytes("\r\n"@), 0);
    }
    let n: usize = s.len();
    match find_from_b(s, crlf_pat.as_slice(), 0) {
        None => parse_range_line(s),
        Some(i) => {
            let here = parse_range_line(slice_subrange(s, 0, i));
            let rest = scan_range_lines(slice_subrange(s, i + 2, n));
            if rest.is_some() {
                rest
            } else {
                here
            }
        },
    }
}

/// The request line: everything before the first line break.
pub open spec fn spec_request_line(s: Seq<u8>) -> Seq<u8> {
    match first_match_b(s, ascii_bytes("\r\n"@), 0) {
        Some(i) => s.subrange(0, i),
        None => s,
    }
}

/// The header lines after the request line; empty when there are none.
pub open spec fn spec_header_rest(s: Seq<u8>) -> Seq<u8> {
    match first_match_b(s, ascii_bytes("\r\n"@), 0) {
        Some(i) => s.subrange(i + 2, s.len() as int),
        None => Seq::empty(),
    }
}

/// The request target: the second token of the request line.
pub open spec fn spec_target(s: Seq<u8>) -> Seq<u8> {
    spec_second_token(spec_request_line(s))
}

/// Whether the target lies on the video route.
pub open spec fn spec_on_video_route(s: Seq<u8>) -> bool {
    matches_at_b(spec_target(s), ascii_bytes("/video"@), 0)
}

/// The percent-encoded `path` parameter of a target: what follows the
/// first `?path=`; empty when the parameter is absent.
pub open spec fn spec_raw_path_param(tok: Seq<u8>) -> Seq<u8> {
    match first_match_b(tok, ascii_bytes("?path="@), 0) {
        Some(i) => tok.subrange(i + 6, tok.len() as int),
        None => Seq::empty(),
    }
}

/// The decoded file path a request asks for.
pub open spec fn spec_request_path(s: Seq<u8>) -> Seq<u8> {
    spec_pct_decode(spec_raw_path_param(spec_target(s)))
}

/// What one parsed request asks the server to do.
pub enum RequestPlan {
    /// Not on the video route: close without responding.
    Discard,
    /// Serve the file named by the decoded path bytes, optionally a range.
    Serve { path_bytes: Vec<u8>, range: Option<(u64, u64)> },
}

/// Parses the raw header bytes of one request.
pub fn plan_request(header: &[u8]) -> (r: RequestPlan)
    ensures
        spec_on_video_route(header@) ==> (r matches RequestPlan::Serve { path_bytes, range }
            && path_bytes@ == spec_request_path(header@)
            && range == spec_range_scan(spec_header_rest(header@))),
        !spec_on_video_route(header@) ==> r is Discard,
{
    let crlf_pat = ascii_pattern("\r\n");
    proof {
        reveal_strlit("\r\n");
        lemma_first_match_b_bounds(header@, ascii_bytes("\r\n"@), 0);
    }
    let n: usize = header.len();
    let line: &[u8];
    let rest: &[u8];
    match find_from_b(header, crlf_pat.as_slice(), 0) {
        Some(i) => {
            line = slice_subrange(header, 0, i);
            rest = slice_subrange(header, i + 2, n);
        },
        None => {
            line = header;
            rest = slice_subrange(header, n, n);
            proof {
                assert(rest@ =~= Seq::<u8>::empty());
            }
        },
    }
    let tok = second_token(line);
    let video_pat = ascii_pattern("/video");
    proof {
        reveal_strlit("/video");
    }
    if !matches_from_b(tok, video_pat.as_slice(), 0) {
        return RequestPlan::Discard;
    }
    let qpath_pat = ascii_pattern("?path=");
    proof {
        reveal_strlit("?path=");
        lemma_first_match_b_bounds(tok@, ascii_bytes("?path="@), 0);
    }
    let m: usize = tok.len();
    let raw: &[u8];
    match find_from_b(tok, qpath_pat.as_slice(), 0) {
        Some(i) => {
            raw = slice_subrange(tok, i + 6, m);
        },
        None => {
            raw = slice_subrange(tok, m, m);
            proof {
                assert(raw@ =~= Seq::<u8>::empty());
            }
        },
    }
    let path_bytes = pct_decode(raw);
    let range = scan_range_lines(rest);
    RequestPlan::Serve { path_bytes, range }
}

} // verus!
