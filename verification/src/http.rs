//! Response planning for the video route: range resolution and the exact
//! text of each response head.  A request is served `206 Partial Content`
//! only for a strict in-file range `start < end < total`; everything else
//! falls back to the whole file with `200 OK`.

use vstd::prelude::*;
use vstd::string::*;

use crate::text::dec_rep;
use crate::text::u64_to_string;

verus! {

/// A parsed range asks for a partial response only when it is strictly
/// increasing and ends before the end of the file.
pub open spec fn spec_wants_partial(range: Option<(u64, u64)>, total: u64) -> bool {
    match range {
        Some(p) => p.1 > p.0 && p.1 < total,
        None => false,
    }
}

/// The span and status a request is answered with: the requested span and
/// `206` for an acceptable partial range, the whole file and `200`
/// otherwise; an empty file is the degenerate full response.
pub open spec fn spec_resolved_range(range: Option<(u64, u64)>, total: u64) -> (u64, u64, u16) {
    if spec_wants_partial(range, total) {
        (range->Some_0.0, range->Some_0.1, 206u16)
    } else if total == 0 {
        (0u64, 0u64, 200u16)
    } else {
        (0u64, (total - 1) as u64, 200u16)
    }
}

/// How many body bytes the response carries: the resolved inclusive span,
/// or nothing at all for an empty file.
pub open spec fn spec_send_len(range: Option<(u64, u64)>, total: u64) -> int {
    if total == 0 {
        0
    } else {
        spec_resolved_range(range, total).1 - spec_resolved_range(range, total).0 + 1
    }
}

/// What to send: inclusive span, status, and body length in bytes.
pub struct SendPlan {
    pub start: u64,
    pub end: u64,
    pub status: u16,
    pub len: u64,
}

/// Resolves a parsed range against the file's total length.
pub fn plan_send(range: Option<(u64, u64)>, total: u64) -> (r: SendPlan)
    ensures
        (r.start, r.end, r.status) == spec_resolved_range(range, total),
        r.len as int == spec_send_len(range, total),
        total >= 1 ==> r.start <= r.end < total,
        r.len <= total,
        (r.status == 206) == spec_wants_partial(range, total),
        r.status == 200 || r.status == 206,
{
    if total == 0 {
        return SendPlan { start: 0, end: 0, status: 200, len: 0 };
    }
    match range {
        Some((s, e)) => {
            if e > s && e < total {
                SendPlan { start: s, end: e, status: 206, len: e - s + 1 }
            } else {
                SendPlan { start: 0, end: total - 1, status: 200, len: total }
            }
        },
        None => SendPlan { start: 0, end: total - 1, status: 200, len: total },
    }
}

/// The status line of a success response.
pub open spec fn spec_status_line(status: u16) -> Seq<char> {
    if status == 206 {
        "HTTP/1.1 206 Partial Content\r\n"@
    } else {
        "HTTP/1.1 200 OK\r\n"@
    }
}

/// The exact head of a success response: status line, content type,
/// `Accept-Ranges`, body length, a `Content-Range` for `206` only, and a
/// closing `Connection: close` with the blank line.
pub open spec fn spec_success_head(
    status: u16,
    mime: Seq<char>,
    body_len: u64,
    start: u64,
    end: u64,
    total: u64,
) -> Seq<char> {
    spec_status_line(status) + "Content-Type: "@ + mime
        + "\r\nAccept-Ranges: bytes\r\nContent-Length: "@ + dec_rep(body_len as int)
        + "\r\n"@
        + (if status == 206 {
            "Content-Range: bytes "@ + dec_rep(start as int) + "-"@
                + dec_rep(end as int) + "/"@ + dec_rep(total as int) + "\r\n"@
        } else {
            Seq::<char>::empty()
        })
        + "Connection: close\r\n\r\n"@
}

/// Builds the head for a resolved plan.
pub fn success_head(plan: &SendPlan, mime: &str, total: u64) -> (r: String)
    requires
        plan.status == 200 || plan.status == 206,
    ensures
        r@ == spec_success_head(plan.status, mime@, plan.len, plan.start, plan.end, total),
{
    let mut r: String;
    if plan.status == 206 {
        r = String::from_str("HTTP/1.1 206 Partial Content\r\n");
    } else {
        r = String::from_str("HTTP/1.1 200 OK\r\n");
    }
    r.append("Content-Type: ");
    r.append(mime);
    r.append("\r\nAccept-Ranges: bytes\r\nContent-Length: ");
    let len_s = u64_to_string(plan.len);
    r.append(len_s.as_str());
    r.append("\r\n");
    if plan.status == 206 {
        r.append("Content-Range: bytes ");
        let start_s = u64_to_string(plan.start);
        r.append(start_s.as_str());
        r.append("-");
        let end_s = u64_to_string(plan.end);
        r.append(end_s.as_str());
        r.append("/");
        let total_s = u64_to_string(total);
        r.append(total_s.as_str());
        r.append("\r\n");
    }
    r.append("Connection: close\r\n\r\n");
    proof {
        assert(r@ =~= spec_success_head(plan.status, mime@, plan.len, plan.start,
            plan.end, total));
    }
    r
}

/// The response to a file that cannot be opened: `404`, empty body.
pub fn not_found_head() -> (r: &'static str)
    ensures
        r@ == "HTTP/1.1 404 Not Found\r\nContent-Length:0\r\n\r\n"@,
{
    "HTTP/1.1 404 Not Found\r\nContent-Length:0\r\n\r\n"
}

/// The response to a failed seek: `416`, empty body.
pub fn range_unsatisfiable_head() -> (r: &'static str)
    ensures
        r@ == "HTTP/1.1 416 Range Not Satisfiable\r\nContent-Length:0\r\n\r\n"@,
{
    "HTTP/1.1 416 Range Not Satisfiable\r\nContent-Length:0\r\n\r\n"
}

/// The response to a failed read: `500`, empty body.
pub fn server_error_head() -> (r: &'static str)
    ensures
        r@ == "HTTP/1.1 500 Internal Server Error\r\nContent-Length:0\r\n\r\n"@,
{
    "HTTP/1.1 500 Internal Server Error\r\nContent-Length:0\r\n\r\n"
}

/// What `mime_guess` answers for a path; a fixed table lookup by extension,
/// a function of the path alone.
pub uninterp spec fn mime_of(path: Seq<char>) -> Seq<char>;

/// Relies on `mime_guess::from_path` with `MimeGuess::first_or_octet_stream`:
/// the guess is a table lookup by the path's extension, with
/// `application/octet-stream` as the fallback, a function of the path alone.
#[verifier::external_body]
fn guess_mime_type(path: &str) -> (r: String)
    ensures
        r@ == mime_of(path@),
{
    mime_guess::from_path(path).first_or_octet_stream().as_ref().to_owned()
}

/// The head for serving `path` with the given parsed range: the media type
/// is looked up from the path, everything else follows the resolved plan.
pub fn video_head_for(path: &str, range: Option<(u64, u64)>, total: u64) -> (r: String)
    ensures
        ({
            let p = spec_resolved_range(range, total);
            r@ == spec_success_head(p.2, mime_of(path@), spec_send_len(range, total) as u64,
                p.0, p.1, total)
        }),
{
    let plan = plan_send(range, total);
    let mime = guess_mime_type(path);
    success_head(&plan, mime.as_str(), total)
}

} // verus!
