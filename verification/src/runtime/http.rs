//! A minimal HTTP/1.x client exchange for health probes: the request that is sent, and a
//! reader that consumes the response as it arrives and decides when it is complete.

use vstd::prelude::*;
use vstd::utf8::{decode_utf8, valid_utf8};

use crate::text::{
    chars_of, decimal, decimal_string, eq_ignore_case, eq_ignore_case_chars, find_crlf_from,
    has_prefix, lemma_find_crlf_from, parse_u16, parse_unsigned, parse_usize, split_crlf,
    split_crlf_chars, split_once, split_once_char, starts_with, trim, trim_chars, words, words_chars,
};
use super::spec::AttachEndpoint;

verus! {

/// The most bytes a probe response may hold, headers included.
pub const MAX_HTTP_RESPONSE_BYTES: usize = 65536;

/// Why a probe exchange failed.
#[derive(Debug, Clone, Copy, PartialEq, Eq)]
pub enum HttpProbeError {
    RequestWriteFailed,
    ResponseHeadersUnavailable,
    InvalidResponseHeaders,
    ResponseTooLarge,
    ResponseBodyIncomplete,
    ResponseReadFailed,
}

/// A complete response: its status code and body.
#[derive(Debug, Clone, PartialEq, Eq)]
pub struct HttpResponse {
    pub status_code: u16,
    pub body: Vec<u8>,
}

/// The outcome of one read from the connection.
#[derive(Debug, Clone, PartialEq, Eq)]
pub enum HttpRead {
    /// Some bytes arrived.
    Data(Vec<u8>),
    /// The peer closed the connection.
    End,
    /// Nothing arrived before the read timeout.
    Timeout,
    /// The read failed.
    Failed,
}

/// The mathematical form of a read outcome.
pub enum ReadEvent {
    Data(Seq<u8>),
    End,
    Timeout,
    Failed,
}

impl View for HttpRead {
    type V = ReadEvent;

    open spec fn view(&self) -> ReadEvent {
        match self {
            HttpRead::Data(d) => ReadEvent::Data(d@),
            HttpRead::End => ReadEvent::End,
            HttpRead::Timeout => ReadEvent::Timeout,
            HttpRead::Failed => ReadEvent::Failed,
        }
    }
}

// ---------------------------------------------------------------------------
// Request
// ---------------------------------------------------------------------------

/// The text of a `GET` request for `path` to the endpoint's host.
pub open spec fn get_request_text(host_ip: Seq<char>, host_port: u16, path: Seq<char>) -> Seq<char> {
    "GET "@ + path + " HTTP/1.1\r\nHost: "@ + host_ip + ":"@ + decimal(host_port as nat)
        + "\r\nConnection: close\r\n\r\n"@
}

/// The `GET` request that a probe of `path` sends to `endpoint`.
pub fn http_get_request(endpoint: &AttachEndpoint, path: &str) -> (r: String)
    ensures
        r@ == get_request_text(endpoint.host_ip@, endpoint.host_port, path@),
{
    let mut r = String::from_str("GET ");
    r.append(path);
    r.append(" HTTP/1.1\r\nHost: ");
    r.append(endpoint.host_ip.as_str());
    r.append(":");
    let port = decimal_string(endpoint.host_port as u64);
    r.append(port.as_str());
    r.append("\r\nConnection: close\r\n\r\n");
    r
}

// ---------------------------------------------------------------------------
// Header block
// ---------------------------------------------------------------------------

/// An empty line ("\r\n\r\n") starts at `i`.
pub open spec fn terminator_at(s: Seq<u8>, i: int) -> bool {
    0 <= i && i + 4 <= s.len() && s[i] == 13u8 && s[i + 1] == 10u8 && s[i + 2] == 13u8 && s[i
        + 3] == 10u8
}

/// First index `j >= i` where an empty line starts, or -1.
pub open spec fn find_terminator_from(s: Seq<u8>, i: int) -> int
    decreases s.len() - i,
{
    if i < 0 || i + 4 > s.len() {
        -1
    } else if terminator_at(s, i) {
        i
    } else {
        find_terminator_from(s, i + 1)
    }
}

/// Where the body starts: just after the first empty line, if there is one.
pub open spec fn body_start(s: Seq<u8>) -> Option<int> {
    let i = find_terminator_from(s, 0);
    if i < 0 {
        None
    } else {
        Some(i + 4)
    }
}

proof fn lemma_find_terminator(s: Seq<u8>, i: int)
    requires
        0 <= i,
    ensures
        find_terminator_from(s, i) == -1 || (i <= find_terminator_from(s, i) && terminator_at(
            s,
            find_terminator_from(s, i),
        )),
        forall|j: int| i <= j && (find_terminator_from(s, i) == -1 || j < find_terminator_from(s, i)) ==> !terminator_at(s, j),
    decreases s.len() - i,
{
    if i + 4 <= s.len() && !terminator_at(s, i) {
        lemma_find_terminator(s, i + 1);
    }
}

/// Where the body of `response` starts, if its header block is complete.
pub fn http_body_start(response: &[u8]) -> (r: Option<usize>)
    ensures
        r is None <==> body_start(response@) is None,
        r matches Some(b) ==> body_start(response@) == Some(b as int) && 4 <= b <= response@.len(),
{
    proof {
        lemma_find_terminator(response@, 0);
    }
    if response.len() < 4 {
        return None;
    }
    let mut i: usize = 0;
    while i <= response.len() - 4
        invariant
            response.len() >= 4,
            i <= response.len() - 3,
            find_terminator_from(response@, 0) == find_terminator_from(response@, i as int),
        decreases response.len() - i,
    {
        proof {
            lemma_find_terminator(response@, i as int);
        }
        if response[i] == 13u8 && response[i + 1] == 10u8 && response[i + 2] == 13u8 && response[i
            + 3] == 10u8 {
            return Some(i + 4);
        }
        i = i + 1;
    }
    None
}

/// The value of the last `Content-Length` header among `lines[i..]` (`acc` when there is
/// none), or `None` when one of them is not a number.
pub open spec fn content_length_from(lines: Seq<Seq<char>>, i: int, acc: Option<usize>) -> Option<
    Option<usize>,
>
    decreases lines.len() - i,
{
    if i < 0 || i >= lines.len() {
        Some(acc)
    } else {
        match split_once(lines[i], ':') {
            Some((name, value)) => {
                if eq_ignore_case(name, "content-length"@) {
                    match parse_unsigned(trim(value), usize::MAX as nat) {
                        Some(v) => content_length_from(lines, i + 1, Some(v as usize)),
                        None => None,
                    }
                } else {
                    content_length_from(lines, i + 1, acc)
                }
            },
            None => content_length_from(lines, i + 1, acc),
        }
    }
}

/// What a header block says: the status code of its `HTTP/1.x` status line and its
/// declared body length, if any.
pub open spec fn parse_header_text(text: Seq<char>) -> Result<(u16, Option<usize>), HttpProbeError> {
    let lines = split_crlf(text);
    let status = words(lines[0]);
    if status.len() < 2 || !has_prefix(status[0], "HTTP/1."@) {
        Err(HttpProbeError::InvalidResponseHeaders)
    } else {
        match parse_unsigned(status[1], 0xffff) {
            None => Err(HttpProbeError::InvalidResponseHeaders),
            Some(code) => match content_length_from(lines, 1, None) {
                None => Err(HttpProbeError::InvalidResponseHeaders),
                Some(length) => Ok((code as u16, length)),
            },
        }
    }
}

/// What the header bytes say; bytes that are not UTF-8 are invalid headers.
pub open spec fn parse_header_bytes(headers: Seq<u8>) -> Result<(u16, Option<usize>), HttpProbeError> {
    if valid_utf8(headers) {
        parse_header_text(decode_utf8(headers))
    } else {
        Err(HttpProbeError::InvalidResponseHeaders)
    }
}

/// std's `std::str::from_utf8`: the text that UTF-8 bytes encode, and nothing for bytes
/// that are not UTF-8.
#[verifier::external_body]
fn utf8_str(bytes: &[u8]) -> (r: Option<&str>)
    ensures
        r is Some <==> valid_utf8(bytes@),
        r matches Some(s) ==> s@ == decode_utf8(bytes@),
{
    std::str::from_utf8(bytes).ok()
}

/// Parses a response's header block: its status code and declared body length.
pub fn parse_http_response_headers(headers: &[u8]) -> (r: Result<(u16, Option<usize>), HttpProbeError>)
    ensures
        match parse_header_bytes(headers@) {
            Ok(v) => r == Ok::<(u16, Option<usize>), HttpProbeError>(v),
            Err(e) => r == Err::<(u16, Option<usize>), HttpProbeError>(e),
        },
{
    let text = match utf8_str(headers) {
        Some(t) => t,
        None => return Err(HttpProbeError::InvalidResponseHeaders),
    };
    let chars = chars_of(text);
    let lines = split_crlf_chars(&chars);
    proof {
        lemma_split_crlf_nonempty(chars@);
    }
    let status = words_chars(&lines[0]);
    let http1 = chars_of("HTTP/1.");
    if status.len() < 2 || !starts_with(&status[0], &http1) {
        return Err(HttpProbeError::InvalidResponseHeaders);
    }
    let code = match parse_u16(&status[1]) {
        Some(c) => c,
        None => return Err(HttpProbeError::InvalidResponseHeaders),
    };
    let name_content_length = chars_of("content-length");
    let mut content_length: Option<usize> = None;
    let ghost spec_lines = split_crlf(chars@);
    assert(parse_header_bytes(headers@) == match content_length_from(spec_lines, 1, None) {
        None => Err(HttpProbeError::InvalidResponseHeaders),
        Some(length) => Ok((code, length)),
    });
    let mut i: usize = 1;
    while i < lines.len()
        invariant
            1 <= i <= lines.len(),
            lines@.len() == spec_lines.len(),
            forall|k: int| 0 <= k < lines@.len() ==> #[trigger] lines@[k]@ == spec_lines[k],
            name_content_length@ == "content-length"@,
            parse_header_bytes(headers@) == match content_length_from(spec_lines, 1, None) {
                None => Err(HttpProbeError::InvalidResponseHeaders),
                Some(length) => Ok((code, length)),
            },
            content_length_from(spec_lines, 1, None) == content_length_from(
                spec_lines,
                i as int,
                content_length,
            ),
        decreases lines.len() - i,
    {
        let line = &lines[i];
        assert(line@ == spec_lines[i as int]);
        match split_once_char(line, ':') {
            Some((name, value)) => {
                if eq_ignore_case_chars(&name, &name_content_length) {
                    let trimmed = trim_chars(&value);
                    match parse_usize(&trimmed) {
                        Some(v) => {
                            content_length = Some(v);
                        },
                        None => {
                            return Err(HttpProbeError::InvalidResponseHeaders);
                        },
                    }
                }
            },
            None => {},
        }
        i = i + 1;
    }
    Ok((code, content_length))
}

proof fn lemma_split_crlf_nonempty(s: Seq<char>)
    ensures
        split_crlf(s).len() >= 1,
    decreases s.len(),
{
    let i = find_crlf_from(s, 0);
    if i >= 0 {
        lemma_find_crlf_from(s, 0);
        lemma_split_crlf_nonempty(s.skip(i + 2));
    }
}


// ---------------------------------------------------------------------------
// Response reader
// ---------------------------------------------------------------------------

/// Where the reader stands.
#[derive(Debug, Clone, Copy, PartialEq, Eq)]
pub enum ReaderPhase {
    /// The header block is not complete yet.
    Headers,
    /// The headers declared a body length: the response is complete at `response_len` bytes.
    DeclaredBody { status_code: u16, body_start: usize, response_len: usize },
    /// The headers declared no body length: the body runs until the peer stops sending.
    UndeclaredBody { status_code: u16, body_start: usize },
}

/// A response being read: the bytes received so far and the phase.
#[derive(Debug, Clone, PartialEq, Eq)]
pub struct HttpResponseReader {
    response: Vec<u8>,
    phase: ReaderPhase,
}

/// What the reader asks for next: another read, or nothing because the exchange is over.
#[derive(Debug, PartialEq, Eq)]
pub enum ReadProgress {
    Pending(HttpResponseReader),
    Finished(Result<HttpResponse, HttpProbeError>),
}

/// The mathematical form of the reader's progress.
pub enum Progress {
    Pending(Seq<u8>, ReaderPhase),
    Finished(Result<(u16, Seq<u8>), HttpProbeError>),
}

impl HttpResponseReader {
    /// The bytes received so far.
    pub closed spec fn received(&self) -> Seq<u8> {
        self.response@
    }

    /// The reader's phase.
    pub closed spec fn phase_of(&self) -> ReaderPhase {
        self.phase
    }

    /// The reader's state is one that reading can reach.
    pub open spec fn wf(&self) -> bool {
        reachable(self.received(), self.phase_of())
    }
}

impl View for ReadProgress {
    type V = Progress;

    open spec fn view(&self) -> Progress {
        match self {
            ReadProgress::Pending(r) => Progress::Pending(r.received(), r.phase_of()),
            ReadProgress::Finished(Ok(resp)) => Progress::Finished(Ok((resp.status_code, resp.body@))),
            ReadProgress::Finished(Err(e)) => Progress::Finished(Err(*e)),
        }
    }
}

/// The states that reading can reach: never more than the limit; while the header block is
/// incomplete there is no empty line yet; once it is complete, the phase records what the
/// headers say.
pub open spec fn reachable(resp: Seq<u8>, phase: ReaderPhase) -> bool {
    &&& resp.len() <= MAX_HTTP_RESPONSE_BYTES
    &&& match phase {
        ReaderPhase::Headers => body_start(resp) is None,
        ReaderPhase::DeclaredBody { status_code, body_start: bs, response_len } => {
            &&& body_start(resp) == Some(bs as int)
            &&& parse_header_bytes(resp.take(bs as int)) == Ok::<(u16, Option<usize>), HttpProbeError>((status_code, Some((response_len - bs) as usize)))
            &&& bs <= response_len <= MAX_HTTP_RESPONSE_BYTES
            &&& resp.len() < response_len
        },
        ReaderPhase::UndeclaredBody { status_code, body_start: bs } => {
            &&& body_start(resp) == Some(bs as int)
            &&& parse_header_bytes(resp.take(bs as int)) == Ok::<(u16, Option<usize>), HttpProbeError>((status_code, None))
        },
    }
}

/// A declared body is complete once `response_len` bytes have arrived; anything past it
/// is dropped.
pub open spec fn check_declared(resp: Seq<u8>, status_code: u16, bs: usize, response_len: usize) -> Progress {
    if resp.len() >= response_len {
        Progress::Finished(Ok((status_code, resp.take(response_len as int).skip(bs as int))))
    } else {
        Progress::Pending(resp, ReaderPhase::DeclaredBody { status_code, body_start: bs, response_len })
    }
}

/// Where reading goes once new bytes arrived while the header block was incomplete.
pub open spec fn settle_headers(resp: Seq<u8>) -> Progress {
    match body_start(resp) {
        None => Progress::Pending(resp, ReaderPhase::Headers),
        Some(bs) => match parse_header_bytes(resp.take(bs)) {
            Err(e) => Progress::Finished(Err(e)),
            Ok((code, None)) => Progress::Pending(resp, ReaderPhase::UndeclaredBody { status_code: code, body_start: bs as usize }),
            Ok((code, Some(length))) => if bs + length > MAX_HTTP_RESPONSE_BYTES {
                Progress::Finished(Err(HttpProbeError::ResponseTooLarge))
            } else {
                check_declared(resp, code, bs as usize, (bs + length) as usize)
            },
        },
    }
}

/// One step of reading: what the reader does with the outcome of a read.
pub open spec fn feed_spec(resp: Seq<u8>, phase: ReaderPhase, read: ReadEvent) -> Progress {
    match read {
        ReadEvent::Data(d) => if resp.len() + d.len() > MAX_HTTP_RESPONSE_BYTES {
            Progress::Finished(Err(HttpProbeError::ResponseTooLarge))
        } else {
            let grown = resp + d;
            match phase {
                ReaderPhase::Headers => settle_headers(grown),
                ReaderPhase::DeclaredBody { status_code, body_start: bs, response_len } =>
                    check_declared(grown, status_code, bs, response_len),
                ReaderPhase::UndeclaredBody { .. } => Progress::Pending(grown, phase),
            }
        },
        ReadEvent::End | ReadEvent::Timeout => match phase {
            ReaderPhase::Headers => Progress::Finished(Err(HttpProbeError::ResponseHeadersUnavailable)),
            ReaderPhase::DeclaredBody { .. } => Progress::Finished(Err(HttpProbeError::ResponseBodyIncomplete)),
            ReaderPhase::UndeclaredBody { status_code, body_start: bs } =>
                Progress::Finished(Ok((status_code, resp.skip(bs as int)))),
        },
        ReadEvent::Failed => Progress::Finished(Err(HttpProbeError::ResponseReadFailed)),
    }
}

/// The outcome of reading a response from a connection whose reads give `reads` in turn
/// and then report the end of the stream.
pub open spec fn run_reads(resp: Seq<u8>, phase: ReaderPhase, reads: Seq<ReadEvent>) -> Result<(u16, Seq<u8>), HttpProbeError>
    decreases reads.len(),
{
    let next = if reads.len() == 0 { ReadEvent::End } else { reads[0] };
    match feed_spec(resp, phase, next) {
        Progress::Finished(r) => r,
        Progress::Pending(r2, p2) => if reads.len() == 0 {
            // unreachable: the end of the stream always finishes reading
            Err(HttpProbeError::ResponseReadFailed)
        } else {
            run_reads(r2, p2, reads.drop_first())
        },
    }
}

/// Whatever reading finishes with, a body never exceeds the limit; a body whose length the
/// headers declared has exactly that length.
pub proof fn lemma_finished_body(resp: Seq<u8>, phase: ReaderPhase, read: ReadEvent)
    requires
        reachable(resp, phase),
    ensures
        match feed_spec(resp, phase, read) {
            Progress::Finished(Ok((_, body))) => body.len() <= MAX_HTTP_RESPONSE_BYTES,
            Progress::Pending(r2, p2) => reachable(r2, p2),
            _ => true,
        },
        feed_spec(resp, phase, read) matches Progress::Finished(Ok((_, body))) ==> match phase {
            ReaderPhase::DeclaredBody { body_start: bs, response_len, .. } => body.len() == response_len - bs,
            _ => true,
        },
{
    lemma_reachable_steps(resp, phase, read);
}

proof fn lemma_settle_reachable(resp: Seq<u8>)
    requires
        resp.len() <= MAX_HTTP_RESPONSE_BYTES,
    ensures
        match settle_headers(resp) {
            Progress::Pending(r2, p2) => reachable(r2, p2),
            Progress::Finished(Ok((_, body))) => body.len() <= MAX_HTTP_RESPONSE_BYTES,
            _ => true,
        },
{
    lemma_find_terminator(resp, 0);
}

proof fn lemma_reachable_steps(resp: Seq<u8>, phase: ReaderPhase, read: ReadEvent)
    requires
        reachable(resp, phase),
    ensures
        match feed_spec(resp, phase, read) {
            Progress::Pending(r2, p2) => reachable(r2, p2),
            Progress::Finished(Ok((_, body))) => body.len() <= MAX_HTTP_RESPONSE_BYTES && match phase {
                ReaderPhase::DeclaredBody { body_start: bs, response_len, .. } => body.len() == response_len - bs,
                _ => true,
            },
            _ => true,
        },
{
    lemma_find_terminator(resp, 0);
    match read {
        ReadEvent::Data(d) => {
            if resp.len() + d.len() <= MAX_HTTP_RESPONSE_BYTES {
                let grown = resp + d;
                match phase {
                    ReaderPhase::Headers => {
                        lemma_settle_reachable(grown);
                    },
                    ReaderPhase::DeclaredBody { status_code, body_start: bs, response_len } => {
                        assert(grown.take(resp.len() as int) =~= resp);
                        lemma_body_start_extends(resp, grown);
                        assert(grown.take(bs as int) =~= resp.take(bs as int));
                    },
                    ReaderPhase::UndeclaredBody { status_code, body_start: bs } => {
                        assert(grown.take(resp.len() as int) =~= resp);
                        lemma_body_start_extends(resp, grown);
                        assert(grown.take(bs as int) =~= resp.take(bs as int));
                    },
                }
            }
        },
        _ => {},
    }
}

/// Appending bytes keeps an already complete header block where it was.
proof fn lemma_body_start_extends(s: Seq<u8>, t: Seq<u8>)
    requires
        body_start(s) is Some,
        s.len() <= t.len(),
        t.take(s.len() as int) == s,
    ensures
        body_start(t) == body_start(s),
{
    lemma_find_terminator(s, 0);
    lemma_find_terminator(t, 0);
    let i = find_terminator_from(s, 0);
    assert(terminator_at(t, i)) by {
        assert(t[i] == s[i] && t[i + 1] == s[i + 1] && t[i + 2] == s[i + 2] && t[i + 3] == s[i + 3]);
    }
    let k = find_terminator_from(t, 0);
    if k < i {
        assert(k + 4 <= s.len());
        assert(terminator_at(s, k)) by {
            assert(t[k] == s[k] && t[k + 1] == s[k + 1] && t[k + 2] == s[k + 2] && t[k + 3] == s[k + 3]);
        }
    }
}

impl HttpResponseReader {
    /// A reader that has received nothing yet.
    pub fn new() -> (r: HttpResponseReader)
        ensures
            r.received() == Seq::<u8>::empty(),
            r.phase_of() == ReaderPhase::Headers,
            r.wf(),
    {
        let r = HttpResponseReader { response: Vec::new(), phase: ReaderPhase::Headers };
        proof {
            lemma_find_terminator(r.response@, 0);
        }
        r
    }

    /// Takes in the outcome of one read and says whether the response is complete.
    pub fn feed(self, read: HttpRead) -> (p: ReadProgress)
        requires
            self.wf(),
        ensures
            p@ == feed_spec(self.received(), self.phase_of(), read@),
            p matches ReadProgress::Pending(r) ==> r.wf(),
    {
        proof {
            lemma_reachable_steps(self.response@, self.phase, read@);
            lemma_find_terminator(self.response@, 0);
        }
        let HttpResponseReader { response: mut response, phase } = self;
        match read {
            HttpRead::Data(d) => {
                if d.len() > MAX_HTTP_RESPONSE_BYTES - response.len() {
                    return ReadProgress::Finished(Err(HttpProbeError::ResponseTooLarge));
                }
                let ghost old_resp = response@;
                let mut i: usize = 0;
                while i < d.len()
                    invariant
                        i <= d.len(),
                        response@ == old_resp + d@.take(i as int),
                    decreases d.len() - i,
                {
                    response.push(d[i]);
                    assert(old_resp + d@.take(i + 1) =~= (old_resp + d@.take(i as int)).push(d@[i as int]));
                    i = i + 1;
                }
                assert(d@.take(d.len() as int) =~= d@);
                match phase {
                    ReaderPhase::Headers => settle(response),
                    ReaderPhase::DeclaredBody { status_code, body_start, response_len } => {
                        finish_declared(response, status_code, body_start, response_len)
                    },
                    ReaderPhase::UndeclaredBody { .. } => {
                        ReadProgress::Pending(HttpResponseReader { response, phase })
                    },
                }
            },
            HttpRead::End | HttpRead::Timeout => match phase {
                ReaderPhase::Headers => ReadProgress::Finished(Err(HttpProbeError::ResponseHeadersUnavailable)),
                ReaderPhase::DeclaredBody { .. } => ReadProgress::Finished(Err(HttpProbeError::ResponseBodyIncomplete)),
                ReaderPhase::UndeclaredBody { status_code, body_start } => {
                    let body = bytes_between(&response, body_start, response.len());
                    assert(body@ =~= response@.skip(body_start as int));
                    ReadProgress::Finished(Ok(HttpResponse { status_code, body }))
                },
            },
            HttpRead::Failed => ReadProgress::Finished(Err(HttpProbeError::ResponseReadFailed)),
        }
    }
}

/// The bytes `s[from..to]`.
fn bytes_between(s: &[u8], from: usize, to: usize) -> (r: Vec<u8>)
    requires
        from <= to <= s.len(),
    ensures
        r@ == s@.subrange(from as int, to as int),
{
    let mut r: Vec<u8> = Vec::new();
    let mut i: usize = from;
    while i < to
        invariant
            from <= i <= to <= s.len(),
            r@ == s@.subrange(from as int, i as int),
        decreases to - i,
    {
        r.push(s[i]);
        assert(s@.subrange(from as int, i as int).push(s@[i as int]) =~= s@.subrange(from as int, i + 1));
        i = i + 1;
    }
    r
}

fn finish_declared(response: Vec<u8>, status_code: u16, body_start: usize, response_len: usize) -> (p: ReadProgress)
    requires
        body_start <= response_len,
        response_len <= response@.len() ==> body_start <= response@.len(),
    ensures
        p@ == check_declared(response@, status_code, body_start, response_len),
{
    if response.len() >= response_len {
        let body = bytes_between(&response, body_start, response_len);
        assert(body@ =~= response@.take(response_len as int).skip(body_start as int));
        ReadProgress::Finished(Ok(HttpResponse { status_code, body }))
    } else {
        ReadProgress::Pending(HttpResponseReader {
            response,
            phase: ReaderPhase::DeclaredBody { status_code, body_start, response_len },
        })
    }
}

fn settle(response: Vec<u8>) -> (p: ReadProgress)
    requires
        response@.len() <= MAX_HTTP_RESPONSE_BYTES,
    ensures
        p@ == settle_headers(response@),
{
    let body_start = match http_body_start(&response) {
        Some(b) => b,
        None => return ReadProgress::Pending(HttpResponseReader { response, phase: ReaderPhase::Headers }),
    };
    let header_bytes = bytes_between(&response, 0, body_start);
    assert(header_bytes@ =~= response@.take(body_start as int));
    match parse_http_response_headers(&header_bytes) {
        Err(e) => ReadProgress::Finished(Err(e)),
        Ok((status_code, None)) => ReadProgress::Pending(HttpResponseReader {
            response,
            phase: ReaderPhase::UndeclaredBody { status_code, body_start },
        }),
        Ok((status_code, Some(length))) => {
            if length > MAX_HTTP_RESPONSE_BYTES - body_start {
                ReadProgress::Finished(Err(HttpProbeError::ResponseTooLarge))
            } else {
                finish_declared(response, status_code, body_start, body_start + length)
            }
        },
    }
}

/// A copy of a read outcome.
fn copy_read(x: &HttpRead) -> (r: HttpRead)
    ensures
        r@ == x@,
{
    match x {
        HttpRead::Data(d) => {
            let c = bytes_between(d, 0, d.len());
            assert(c@ =~= d@);
            HttpRead::Data(c)
        },
        HttpRead::End => HttpRead::End,
        HttpRead::Timeout => HttpRead::Timeout,
        HttpRead::Failed => HttpRead::Failed,
    }
}

/// Reads a response from a connection whose reads give `reads` in turn and then report
/// the end of the stream.
pub fn read_response_from(reads: &Vec<HttpRead>) -> (r: Result<HttpResponse, HttpProbeError>)
    ensures
        match run_reads(Seq::<u8>::empty(), ReaderPhase::Headers, reads@.map_values(|x: HttpRead| x@)) {
            Ok((code, body)) => r matches Ok(resp) && resp.status_code == code && resp.body@ == body,
            Err(e) => r == Err::<HttpResponse, HttpProbeError>(e),
        },
        r matches Ok(resp) ==> resp.body@.len() <= MAX_HTTP_RESPONSE_BYTES,
{
    let ghost events = reads@.map_values(|x: HttpRead| x@);
    let mut reader = HttpResponseReader::new();
    let mut i: usize = 0;
    assert(events.skip(0) =~= events);
    loop
        invariant
            reader.wf(),
            i <= reads@.len(),
            events == reads@.map_values(|x: HttpRead| x@),
            run_reads(Seq::<u8>::empty(), ReaderPhase::Headers, events) == run_reads(
                reader.received(),
                reader.phase_of(),
                events.skip(i as int),
            ),
        decreases reads@.len() - i,
    {
        let ghost rest = events.skip(i as int);
        let next = if i < reads.len() {
            copy_read(&reads[i])
        } else {
            HttpRead::End
        };
        proof {
            if i < reads.len() {
                assert(rest[0] == next@);
                assert(rest.drop_first() =~= events.skip(i + 1));
            }
        }
        let ghost recv = reader.received();
        let ghost ph = reader.phase_of();
        let ghost outcome = feed_spec(recv, ph, next@);
        proof {
            lemma_reachable_steps(recv, ph, next@);
        }
        match reader.feed(next) {
            ReadProgress::Finished(result) => {
                return result;
            },
            ReadProgress::Pending(r2) => {
                // the end of the stream always finishes reading
                assert(i < reads.len());
                reader = r2;
                i = i + 1;
            },
        }
    }
}

/// The outcome of a probe exchange: the request was written or not, and the connection's
/// reads then gave `reads` before the end of the stream. A failed write fails the exchange.
pub fn get_response_from(request_written: bool, reads: &Vec<HttpRead>) -> (r: Result<HttpResponse, HttpProbeError>)
    ensures
        !request_written ==> r == Err::<HttpResponse, HttpProbeError>(HttpProbeError::RequestWriteFailed),
        request_written ==> match run_reads(Seq::<u8>::empty(), ReaderPhase::Headers, reads@.map_values(|x: HttpRead| x@)) {
            Ok((code, body)) => r matches Ok(resp) && resp.status_code == code && resp.body@ == body,
            Err(e) => r == Err::<HttpResponse, HttpProbeError>(e),
        },
{
    if !request_written {
        return Err(HttpProbeError::RequestWriteFailed);
    }
    read_response_from(reads)
}

} // verus!
