//! A look at the head of an HTTP request that asks for the WebSocket upgrade:
//! which headers it has, and what is wrong with them if the upgrade fails.
use crate::handshake::{
    fold, fold_case, headers_view, same_header_name, same_name, trim_range, trimmed,
};
use crate::selection::{lines_of, lines_view, split_lines};
use crate::text::{chars_of, find_char, range_eq, string_of, until};
use vstd::prelude::*;
use vstd::string::*;

verus! {

/// The version of the WebSocket protocol that servers expect.
pub const WEBSOCKET_VERSION: &'static str = "13";

/// The header that a line of the request head holds: the name before the
/// first colon and the value behind it, blanks around each set aside. A line
/// without a colon holds no header.
pub open spec fn header_of(line: Seq<char>) -> Option<(Seq<char>, Seq<char>)> {
    let c = until(line, ':');
    if 0 <= c < line.len() {
        Some((trimmed(line.take(c)), trimmed(line.skip(c + 1))))
    } else {
        None
    }
}

/// The index of the first empty line at or behind `from`, or the number of
/// lines if there is none: where the head of the request ends.
pub open spec fn head_end(lines: Seq<Seq<char>>, from: int) -> int
    decreases lines.len() - from,
{
    if from >= lines.len() {
        lines.len() as int
    } else if lines[from].len() == 0 {
        from
    } else {
        head_end(lines, from + 1)
    }
}

/// The headers of the lines behind the request line and before the line `n`.
pub open spec fn headers_upto(lines: Seq<Seq<char>>, n: int) -> Seq<(Seq<char>, Seq<char>)>
    decreases n,
{
    if n <= 1 || n > lines.len() {
        Seq::empty()
    } else {
        match header_of(lines[n - 1]) {
            Some(h) => headers_upto(lines, n - 1).push(h),
            None => headers_upto(lines, n - 1),
        }
    }
}

/// The headers of a request with the given lines.
pub open spec fn request_headers(lines: Seq<Seq<char>>) -> Seq<(Seq<char>, Seq<char>)> {
    headers_upto(lines, head_end(lines, 1))
}

/// The header `i` is the last with the given name.
pub open spec fn last_named(headers: Seq<(Seq<char>, Seq<char>)>, name: Seq<char>, i: int) -> bool {
    &&& 0 <= i < headers.len()
    &&& same_name(headers[i].0, name)
    &&& forall|k: int| i < k < headers.len() ==> !same_name(#[trigger] headers[k].0, name)
}

/// The value of the last header with the given name: of two headers with one
/// name the later one counts.
pub open spec fn last_header_value(headers: Seq<(Seq<char>, Seq<char>)>, name: Seq<char>) -> Option<
    Seq<char>,
> {
    if exists|i: int| last_named(headers, name, i) {
        Some(headers[choose|i: int| last_named(headers, name, i)].1)
    } else {
        None
    }
}

/// `needle` stands in `value` at `i`, ASCII capitals and lower-case letters
/// taken as the same.
pub open spec fn matches_at(value: Seq<char>, needle: Seq<char>, i: int) -> bool {
    0 <= i && i + needle.len() <= value.len() && forall|k: int|
        0 <= k < needle.len() ==> fold_case(#[trigger] value[i + k]) == fold_case(needle[k])
}

/// `needle` stands somewhere in `value`, ASCII capitals and lower-case
/// letters taken as the same.
pub open spec fn contains_word(value: Seq<char>, needle: Seq<char>) -> bool {
    exists|i: int| matches_at(value, needle, i)
}

/// How a header of the upgrade stands.
#[derive(Debug, Clone, Copy, PartialEq, Eq, Structural)]
pub enum HeaderCheck {
    /// The header is there and says what it should.
    Good,
    /// The header is there and says something else.
    Unexpected,
    /// The header is not there.
    Missing,
}

/// What is wrong with the headers of an upgrade request, if anything.
#[derive(Debug, Clone, Copy, PartialEq, Eq, Structural)]
pub enum UpgradeDiagnosis {
    /// `Connection` or `Upgrade` is missing: the peer does not ask for an
    /// upgrade as it should.
    MissingUpgradeHeaders,
    /// `Connection` does not name the upgrade.
    ConnectionNotUpgrade,
    /// `Upgrade` does not name the WebSocket protocol.
    UpgradeNotWebsocket,
    /// The headers are as they should be; a failure has another cause.
    HeadersCorrect,
}

/// How the `Connection` header stands: it should hold the word `upgrade`.
pub open spec fn connection_check(headers: Seq<(Seq<char>, Seq<char>)>) -> HeaderCheck {
    match last_header_value(headers, "connection"@) {
        Some(v) => if contains_word(v, "upgrade"@) {
            HeaderCheck::Good
        } else {
            HeaderCheck::Unexpected
        },
        None => HeaderCheck::Missing,
    }
}

/// How the `Upgrade` header stands: it should be `websocket`.
pub open spec fn upgrade_check(headers: Seq<(Seq<char>, Seq<char>)>) -> HeaderCheck {
    match last_header_value(headers, "upgrade"@) {
        Some(v) => if same_name(v, "websocket"@) {
            HeaderCheck::Good
        } else {
            HeaderCheck::Unexpected
        },
        None => HeaderCheck::Missing,
    }
}

/// How the `Sec-WebSocket-Version` header stands: it should be `13`.
pub open spec fn version_check(headers: Seq<(Seq<char>, Seq<char>)>) -> HeaderCheck {
    match last_header_value(headers, "sec-websocket-version"@) {
        Some(v) => if v == WEBSOCKET_VERSION@ {
            HeaderCheck::Good
        } else {
            HeaderCheck::Unexpected
        },
        None => HeaderCheck::Missing,
    }
}

/// What is wrong with the headers of an upgrade request.
pub open spec fn diagnosis(headers: Seq<(Seq<char>, Seq<char>)>) -> UpgradeDiagnosis {
    if connection_check(headers) is Missing || upgrade_check(headers) is Missing {
        UpgradeDiagnosis::MissingUpgradeHeaders
    } else if connection_check(headers) is Unexpected {
        UpgradeDiagnosis::ConnectionNotUpgrade
    } else if upgrade_check(headers) is Unexpected {
        UpgradeDiagnosis::UpgradeNotWebsocket
    } else {
        UpgradeDiagnosis::HeadersCorrect
    }
}

/// What the head of an upgrade request says.
#[derive(Debug, Clone, PartialEq, Eq)]
pub struct RequestAnalysis {
    /// The request line starts with `GET`.
    pub is_get: bool,
    /// The headers, in order, with names and values trimmed.
    pub headers: Vec<(String, String)>,
    pub connection: HeaderCheck,
    pub upgrade: HeaderCheck,
    pub version: HeaderCheck,
    /// The request has a `Sec-WebSocket-Key`.
    pub has_key: bool,
    /// The request has a `Host`.
    pub has_host: bool,
    pub diagnosis: UpgradeDiagnosis,
}

/// The analysis says of a request with the given lines what the functions
/// above say of it.
pub open spec fn analysis_of(a: RequestAnalysis, lines: Seq<Seq<char>>) -> bool {
    let headers = request_headers(lines);
    &&& lines.len() > 0
    &&& a.is_get == "GET"@.is_prefix_of(lines[0])
    &&& headers_view(a.headers@) == headers
    &&& a.connection == connection_check(headers)
    &&& a.upgrade == upgrade_check(headers)
    &&& a.version == version_check(headers)
    &&& a.has_key == (last_header_value(headers, "sec-websocket-key"@) is Some)
    &&& a.has_host == (last_header_value(headers, "host"@) is Some)
    &&& a.diagnosis == diagnosis(headers)
}

/// Whether `needle` stands somewhere in `value`, ASCII capitals and
/// lower-case letters taken as the same.
pub fn contains_ignoring_case(value: &str, needle: &str) -> (r: bool)
    ensures
        r == contains_word(value@, needle@),
{
    let v = chars_of(value);
    let n = chars_of(needle);
    if n.len() > v.len() {
        assert(!contains_word(value@, needle@)) by {
            assert forall|i: int| !matches_at(value@, needle@, i) by {}
        }
        return false;
    }
    if n.len() == 0 {
        assert(matches_at(value@, needle@, 0));
        return true;
    }
    let last = v.len() - n.len();
    let mut i: usize = 0;
    while i <= last
        invariant
            v@ == value@,
            n@ == needle@,
            0 < n@.len() <= v@.len() <= usize::MAX,
            last + n@.len() == v@.len(),
            i <= last + 1,
            forall|j: int| 0 <= j < i ==> !matches_at(value@, needle@, j),
        decreases last + 1 - i,
    {
        let mut k: usize = 0;
        let mut same = true;
        while k < n.len() && same
            invariant
                v@ == value@,
                n@ == needle@,
                0 < n@.len() <= v@.len() <= usize::MAX,
                last + n@.len() == v@.len(),
                i <= last,
                k <= n@.len(),
                same ==> forall|m: int|
                    0 <= m < k ==> fold_case(#[trigger] v@[i + m]) == fold_case(n@[m]),
                !same ==> !matches_at(value@, needle@, i as int),
            decreases n@.len() - k + (if same { 1int } else { 0int }),
        {
            if fold(v[i + k]) != fold(n[k]) {
                same = false;
                assert(fold_case(value@[i + k]) != fold_case(needle@[k as int]));
            } else {
                k = k + 1;
            }
        }
        if same {
            assert(matches_at(value@, needle@, i as int));
            return true;
        }
        i = i + 1;
    }
    assert(!contains_word(value@, needle@)) by {
        assert forall|j: int| !matches_at(value@, needle@, j) by {}
    }
    false
}

/// The value of the last header with the given name.
pub fn find_last_header<'a>(headers: &'a Vec<(String, String)>, name: &str) -> (r: Option<&'a str>)
    ensures
        match r {
            Some(v) => last_header_value(headers_view(headers@), name@) == Some(v@),
            None => last_header_value(headers_view(headers@), name@) is None,
        },
{
    let ghost all = headers_view(headers@);
    let mut i: usize = headers.len();
    while i > 0
        invariant
            i <= headers@.len(),
            all == headers_view(headers@),
            forall|k: int| i <= k < all.len() ==> !same_name(#[trigger] all[k].0, name@),
        decreases i,
    {
        i = i - 1;
        if same_header_name(headers[i].0.as_str(), name) {
            proof {
                assert(last_named(all, name@, i as int));
                let c = choose|c: int| last_named(all, name@, c);
                assert(c == i) by {
                    if c < i {
                        assert(!same_name(all[i as int].0, name@));
                    } else if i < c {
                        assert(!same_name(all[c].0, name@));
                    }
                }
            }
            return Some(headers[i].1.as_str());
        }
    }
    proof {
        assert forall|k: int| !last_named(all, name@, k) by {
            if 0 <= k < all.len() {
                assert(!same_name(all[k].0, name@));
            }
        }
    }
    None
}

/// The header that a line holds.
pub fn parse_header(line: &Vec<char>) -> (r: Option<(String, String)>)
    ensures
        match r {
            Some(h) => header_of(line@) == Some((h.0@, h.1@)),
            None => header_of(line@) is None,
        },
{
    assert(line@.skip(0) =~= line@);
    let colon = find_char(line, 0, ':');
    if colon == line.len() {
        return None;
    }
    let (a, b) = trim_range(line, 0, colon);
    let (c, d) = trim_range(line, colon + 1, line.len());
    assert(line@.subrange(0, colon as int) =~= line@.take(colon as int));
    assert(line@.subrange(colon + 1, line@.len() as int) =~= line@.skip(colon + 1));
    Some((string_of(line, a, b), string_of(line, c, d)))
}

/// The headers of a request with the given lines.
pub fn parse_headers(lines: &Vec<Vec<char>>) -> (headers: Vec<(String, String)>)
    ensures
        headers_view(headers@) == request_headers(lines_view(lines@)),
{
    let ghost all = lines_view(lines@);
    let mut headers: Vec<(String, String)> = Vec::new();
    let mut i: usize = 1;
    if lines.len() <= 1 {
        assert(headers_view(headers@) =~= Seq::<(Seq<char>, Seq<char>)>::empty());
        assert(head_end(all, 1) <= 1);
        return headers;
    }
    assert(headers_view(headers@) =~= headers_upto(all, 1));
    while i < lines.len() && lines[i].len() != 0
        invariant
            all == lines_view(lines@),
            1 <= i <= lines@.len(),
            head_end(all, 1) == head_end(all, i as int),
            headers_view(headers@) == headers_upto(all, i as int),
        decreases lines@.len() - i,
    {
        let ghost before = headers_view(headers@);
        assert(all[i as int] == lines@[i as int]@);
        match parse_header(&lines[i]) {
            Some(h) => {
                headers.push(h);
                assert(headers_view(headers@) =~= before.push((h.0@, h.1@)));
            },
            None => {},
        }
        i = i + 1;
    }
    proof {
        if i < lines@.len() {
            assert(all[i as int] == lines@[i as int]@);
        }
    }
    headers
}

fn check(value: Option<&str>, good: bool) -> (c: HeaderCheck)
    ensures
        c == match value {
            Some(_) => if good {
                HeaderCheck::Good
            } else {
                HeaderCheck::Unexpected
            },
            None => HeaderCheck::Missing,
        },
{
    match value {
        Some(_) => if good {
            HeaderCheck::Good
        } else {
            HeaderCheck::Unexpected
        },
        None => HeaderCheck::Missing,
    }
}

/// Looks at the head of an upgrade request. An empty request has no analysis.
pub fn analyze_http_request(request_data: &str) -> (r: Option<RequestAnalysis>)
    ensures
        match r {
            Some(a) => analysis_of(a, split_lines(request_data@)),
            None => split_lines(request_data@).len() == 0,
        },
{
    let chars = chars_of(request_data);
    let lines = lines_of(&chars);
    if lines.len() == 0 {
        return None;
    }
    let ghost all = lines_view(lines@);
    let get = chars_of("GET");
    let first = &lines[0];
    assert(all[0] == first@);
    let is_get = first.len() >= get.len() && range_eq(first, 0, get.len(), &get);
    proof {
        if first@.len() >= get@.len() {
            assert(first@.subrange(0, get@.len() as int) == get@ <==> get@.is_prefix_of(first@)) by {
                if get@.is_prefix_of(first@) {
                    assert(first@.subrange(0, get@.len() as int) =~= get@);
                }
                if first@.subrange(0, get@.len() as int) == get@ {
                    assert(get@ =~= first@.subrange(0, get@.len() as int));
                }
            }
        }
    }
    let headers = parse_headers(&lines);
    let connection_value = find_last_header(&headers, "connection");
    let connection = check(
        connection_value,
        match connection_value {
            Some(v) => contains_ignoring_case(v, "upgrade"),
            None => false,
        },
    );
    let upgrade_value = find_last_header(&headers, "upgrade");
    let upgrade = check(
        upgrade_value,
        match upgrade_value {
            Some(v) => same_header_name(v, "websocket"),
            None => false,
        },
    );
    let version_value = find_last_header(&headers, "sec-websocket-version");
    let version = check(
        version_value,
        match version_value {
            Some(v) => crate::text::str_eq(v, WEBSOCKET_VERSION),
            None => false,
        },
    );
    let has_key = find_last_header(&headers, "sec-websocket-key").is_some();
    let has_host = find_last_header(&headers, "host").is_some();
    let diagnosis = match (connection, upgrade) {
        (HeaderCheck::Missing, _) => UpgradeDiagnosis::MissingUpgradeHeaders,
        (_, HeaderCheck::Missing) => UpgradeDiagnosis::MissingUpgradeHeaders,
        (HeaderCheck::Unexpected, _) => UpgradeDiagnosis::ConnectionNotUpgrade,
        (_, HeaderCheck::Unexpected) => UpgradeDiagnosis::UpgradeNotWebsocket,
        _ => UpgradeDiagnosis::HeadersCorrect,
    };
    Some(
        RequestAnalysis {
            is_get,
            headers,
            connection,
            upgrade,
            version,
            has_key,
            has_host,
            diagnosis,
        },
    )
}

} // verus!
