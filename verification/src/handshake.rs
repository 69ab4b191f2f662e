//! The decision at the WebSocket handshake: whether the peer shows the
//! server's secret, and whether it offers the subprotocol that is echoed.
use crate::text::{chars_of, find_char, range_eq, str_eq, until};
use crate::websocket::ServerState;
use vstd::prelude::*;
use vstd::string::*;

verus! {

/// The subprotocol that the server echoes where a peer offers it.
pub const SUBPROTOCOL: &'static str = "mcp";

/// The header in which a peer offers subprotocols.
pub const PROTOCOL_HEADER: &'static str = "sec-websocket-protocol";

/// The HTTP status with which a peer without the secret is turned away.
pub const UNAUTHORIZED: u16 = 401;

/// The code of a character, with the ASCII capitals taken to lower case.
pub open spec fn fold_case(c: char) -> u32 {
    if 'A' <= c && c <= 'Z' {
        (c as u32 + 32) as u32
    } else {
        c as u32
    }
}

/// Two header names are the same: names do not tell ASCII capitals from
/// lower-case letters.
pub open spec fn same_name(a: Seq<char>, b: Seq<char>) -> bool {
    a.len() == b.len() && forall|i: int| 0 <= i < a.len() ==> fold_case(a[i]) == fold_case(b[i])
}

/// A space or a tab.
pub open spec fn is_blank(c: char) -> bool {
    c == ' ' || c == '\t'
}

/// `s` without the blanks at its start.
pub open spec fn trim_start(s: Seq<char>) -> Seq<char>
    decreases s.len(),
{
    if s.len() > 0 && is_blank(s[0]) {
        trim_start(s.drop_first())
    } else {
        s
    }
}

/// `s` without the blanks at its end.
pub open spec fn trim_end(s: Seq<char>) -> Seq<char>
    decreases s.len(),
{
    if s.len() > 0 && is_blank(s.last()) {
        trim_end(s.drop_last())
    } else {
        s
    }
}

/// `s` without the blanks at its start and at its end.
pub open spec fn trimmed(s: Seq<char>) -> Seq<char> {
    trim_end(trim_start(s))
}

/// Whether one of the items of a comma-separated list, blanks around it set
/// aside, is `protocol`.
pub open spec fn offers(value: Seq<char>, protocol: Seq<char>) -> bool
    decreases value.len(),
{
    let e = until(value, ',');
    trimmed(value.take(e)) == protocol || (0 <= e < value.len() && offers(
        value.skip(e + 1),
        protocol,
    ))
}

/// The header `i` is the first with the given name.
pub open spec fn first_named(headers: Seq<(Seq<char>, Seq<char>)>, name: Seq<char>, i: int) -> bool {
    &&& 0 <= i < headers.len()
    &&& same_name(headers[i].0, name)
    &&& forall|k: int| 0 <= k < i ==> !same_name(#[trigger] headers[k].0, name)
}

/// The value of the first header with the given name.
pub open spec fn header_value(headers: Seq<(Seq<char>, Seq<char>)>, name: Seq<char>) -> Option<
    Seq<char>,
> {
    if exists|i: int| first_named(headers, name, i) {
        Some(headers[choose|i: int| first_named(headers, name, i)].1)
    } else {
        None
    }
}

/// Whether a subprotocol header of the request offers `protocol`.
pub open spec fn offers_protocol(headers: Seq<(Seq<char>, Seq<char>)>, protocol: Seq<char>) -> bool {
    exists|i: int|
        0 <= i < headers.len() && same_name((#[trigger] headers[i]).0, PROTOCOL_HEADER@) && offers(
            headers[i].1,
            protocol,
        )
}

/// The mathematical value of a [`HandshakeOutcome`].
pub enum HandshakeView {
    Accept { subprotocol: Option<Seq<char>> },
    Reject { status: u16 },
}

/// How a handshake ends.
#[derive(Debug, Clone, PartialEq, Eq)]
pub enum HandshakeOutcome {
    /// The upgrade goes on; the subprotocol, if there is one, is echoed.
    Accept { subprotocol: Option<String> },
    /// The upgrade is refused with the HTTP status.
    Reject { status: u16 },
}

impl View for HandshakeOutcome {
    type V = HandshakeView;

    open spec fn view(&self) -> HandshakeView {
        match self {
            HandshakeOutcome::Accept { subprotocol } => HandshakeView::Accept {
                subprotocol: match subprotocol {
                    Some(s) => Some(s@),
                    None => None,
                },
            },
            HandshakeOutcome::Reject { status } => HandshakeView::Reject { status: *status },
        }
    }
}

/// How a handshake with the given request headers ends at a server that
/// expects `token` in the header `auth_header`: it is accepted if and only if
/// the first header of that name holds exactly the token; the subprotocol is
/// echoed if and only if the peer offers it.
pub open spec fn handshake_outcome(
    headers: Seq<(Seq<char>, Seq<char>)>,
    auth_header: Seq<char>,
    token: Seq<char>,
) -> HandshakeView {
    if header_value(headers, auth_header) == Some(token) {
        HandshakeView::Accept {
            subprotocol: if offers_protocol(headers, SUBPROTOCOL@) {
                Some(SUBPROTOCOL@)
            } else {
                None
            },
        }
    } else {
        HandshakeView::Reject { status: UNAUTHORIZED }
    }
}

/// The views of a list of headers.
pub open spec fn headers_view(headers: Seq<(String, String)>) -> Seq<(Seq<char>, Seq<char>)> {
    Seq::new(headers.len(), |i: int| (headers[i].0@, headers[i].1@))
}

/// `s` without its blanks at the start begins behind them.
pub proof fn lemma_trim_start(s: Seq<char>, a: int)
    requires
        0 <= a <= s.len(),
        forall|i: int| 0 <= i < a ==> is_blank(s[i]),
        a < s.len() ==> !is_blank(s[a]),
    ensures
        trim_start(s) == s.skip(a),
    decreases s.len(),
{
    if a > 0 {
        lemma_trim_start(s.drop_first(), a - 1);
        assert(s.drop_first().skip(a - 1) =~= s.skip(a));
    } else {
        assert(s.skip(0) =~= s);
    }
}

/// `s` without its blanks at the end stops before them.
pub proof fn lemma_trim_end(s: Seq<char>, b: int)
    requires
        0 <= b <= s.len(),
        forall|i: int| b <= i < s.len() ==> is_blank(s[i]),
        b > 0 ==> !is_blank(s[b - 1]),
    ensures
        trim_end(s) == s.take(b),
    decreases s.len(),
{
    if b < s.len() {
        lemma_trim_end(s.drop_last(), b);
        assert(s.drop_last().take(b) =~= s.take(b));
    } else {
        assert(s.take(b) =~= s);
    }
}

/// The code of a character, with the ASCII capitals taken to lower case.
pub fn fold(c: char) -> (u: u32)
    ensures
        u == fold_case(c),
{
    if 'A' <= c && c <= 'Z' {
        c as u32 + 32
    } else {
        c as u32
    }
}

/// Whether two header names are the same.
pub fn same_header_name(a: &str, b: &str) -> (r: bool)
    ensures
        r == same_name(a@, b@),
{
    let x = chars_of(a);
    let y = chars_of(b);
    if x.len() != y.len() {
        return false;
    }
    let mut i: usize = 0;
    while i < x.len()
        invariant
            x@ == a@,
            y@ == b@,
            x@.len() == y@.len(),
            i <= x@.len(),
            forall|k: int| 0 <= k < i ==> fold_case(x@[k]) == fold_case(y@[k]),
        decreases x@.len() - i,
    {
        if fold(x[i]) != fold(y[i]) {
            assert(fold_case(a@[i as int]) != fold_case(b@[i as int]));
            return false;
        }
        i = i + 1;
    }
    true
}

fn blank(c: char) -> (b: bool)
    ensures
        b == is_blank(c),
{
    c == ' ' || c == '\t'
}

/// The bounds of `chars[from..to]` without the blanks at its start and end.
pub fn trim_range(chars: &Vec<char>, from: usize, to: usize) -> (r: (usize, usize))
    requires
        from <= to <= chars@.len(),
    ensures
        from <= r.0 <= r.1 <= to,
        chars@.subrange(r.0 as int, r.1 as int) == trimmed(chars@.subrange(from as int, to as int)),
{
    let mut a: usize = from;
    while a < to && blank(chars[a])
        invariant
            from <= a <= to <= chars@.len(),
            forall|i: int| from <= i < a ==> is_blank(chars@[i]),
        decreases to - a,
    {
        a = a + 1;
    }
    let mut b: usize = to;
    while b > a && blank(chars[b - 1])
        invariant
            a <= b <= to <= chars@.len(),
            forall|i: int| b <= i < to ==> is_blank(chars@[i]),
        decreases b,
    {
        b = b - 1;
    }
    proof {
        let item = chars@.subrange(from as int, to as int);
        lemma_trim_start(item, a - from);
        assert(item.skip(a - from) =~= chars@.subrange(a as int, to as int));
        let tail = chars@.subrange(a as int, to as int);
        lemma_trim_end(tail, b - a);
        assert(tail.take(b - a) =~= chars@.subrange(a as int, b as int));
    }
    (a, b)
}

/// Whether a comma-separated list offers `protocol`.
pub fn offers_in_list(value: &str, protocol: &str) -> (r: bool)
    ensures
        r == offers(value@, protocol@),
{
    let chars = chars_of(value);
    let wanted = chars_of(protocol);
    let n = chars.len();
    let mut start: usize = 0;
    assert(chars@.skip(0) =~= chars@);
    loop
        invariant
            n == chars@.len(),
            chars@ == value@,
            wanted@ == protocol@,
            start <= n,
            offers(value@, protocol@) == offers(chars@.skip(start as int), protocol@),
        decreases n - start,
    {
        let ghost rest = chars@.skip(start as int);
        let end = find_char(&chars, start, ',');
        let (a, b) = trim_range(&chars, start, end);
        proof {
            let item = rest.take(end - start);
            assert(item =~= chars@.subrange(start as int, end as int));
            if end < n {
                assert(rest.skip(end - start + 1) =~= chars@.skip(end + 1));
            }
        }
        if range_eq(&chars, a, b, &wanted) {
            return true;
        }
        if end == n {
            return false;
        }
        start = end + 1;
    }
}

/// The value of the first header with the given name.
pub fn find_header<'a>(headers: &'a Vec<(String, String)>, name: &str) -> (r: Option<&'a str>)
    ensures
        match r {
            Some(v) => header_value(headers_view(headers@), name@) == Some(v@),
            None => header_value(headers_view(headers@), name@) is None,
        },
{
    let ghost all = headers_view(headers@);
    let mut i: usize = 0;
    while i < headers.len()
        invariant
            i <= headers@.len(),
            all == headers_view(headers@),
            forall|k: int| 0 <= k < i ==> !same_name(#[trigger] all[k].0, name@),
        decreases headers@.len() - i,
    {
        if same_header_name(headers[i].0.as_str(), name) {
            proof {
                assert(first_named(all, name@, i as int));
                let c = choose|c: int| first_named(all, name@, c);
                assert(c == i) by {
                    if c < i {
                        assert(!same_name(all[c].0, name@));
                    } else if i < c {
                        assert(!same_name(all[i as int].0, name@));
                    }
                }
            }
            return Some(headers[i].1.as_str());
        }
        i = i + 1;
    }
    None
}

/// Whether a subprotocol header of the request offers `protocol`.
pub fn offers_subprotocol(headers: &Vec<(String, String)>, protocol: &str) -> (r: bool)
    ensures
        r == offers_protocol(headers_view(headers@), protocol@),
{
    let ghost all = headers_view(headers@);
    let mut i: usize = 0;
    while i < headers.len()
        invariant
            i <= headers@.len(),
            all == headers_view(headers@),
            forall|k: int|
                0 <= k < i ==> !(same_name((#[trigger] all[k]).0, PROTOCOL_HEADER@) && offers(
                    all[k].1,
                    protocol@,
                )),
        decreases headers@.len() - i,
    {
        if same_header_name(headers[i].0.as_str(), PROTOCOL_HEADER) && offers_in_list(
            headers[i].1.as_str(),
            protocol,
        ) {
            assert(same_name(all[i as int].0, PROTOCOL_HEADER@) && offers(all[i as int].1, protocol@));
            return true;
        }
        i = i + 1;
    }
    false
}

/// Decides how the handshake of a peer with the given request headers ends.
/// The state of the server is not changed, whatever the outcome.
pub fn check_handshake(headers: &Vec<(String, String)>, state: &ServerState) -> (outcome:
    HandshakeOutcome)
    ensures
        outcome@ == handshake_outcome(
            headers_view(headers@),
            state@.auth_header,
            state@.auth_token,
        ),
{
    let shown = match find_header(headers, state.auth_header.as_str()) {
        Some(value) => str_eq(value, state.auth_token.as_str()),
        None => false,
    };
    if !shown {
        return HandshakeOutcome::Reject { status: UNAUTHORIZED };
    }
    let subprotocol = if offers_subprotocol(headers, SUBPROTOCOL) {
        Some(String::from_str(SUBPROTOCOL))
    } else {
        None
    };
    HandshakeOutcome::Accept { subprotocol }
}

/// A request without the authentication header is refused with 401.
pub proof fn lemma_missing_header_is_refused(
    headers: Seq<(Seq<char>, Seq<char>)>,
    auth_header: Seq<char>,
    token: Seq<char>,
)
    requires
        forall|i: int| 0 <= i < headers.len() ==> !same_name(#[trigger] headers[i].0, auth_header),
    ensures
        handshake_outcome(headers, auth_header, token) == (HandshakeView::Reject {
            status: UNAUTHORIZED,
        }),
{
    assert forall|i: int| !first_named(headers, auth_header, i) by {
        if 0 <= i < headers.len() {
            assert(!same_name(headers[i].0, auth_header));
        }
    }
}

/// A request that shows the token and has no subprotocol header is accepted,
/// and no subprotocol is echoed.
pub proof fn lemma_token_without_subprotocol(
    headers: Seq<(Seq<char>, Seq<char>)>,
    auth_header: Seq<char>,
    token: Seq<char>,
)
    requires
        header_value(headers, auth_header) == Some(token),
        forall|i: int|
            0 <= i < headers.len() ==> !same_name(#[trigger] headers[i].0, PROTOCOL_HEADER@),
    ensures
        handshake_outcome(headers, auth_header, token) == (HandshakeView::Accept {
            subprotocol: None,
        }),
{
    assert(!offers_protocol(headers, SUBPROTOCOL@)) by {
        if offers_protocol(headers, SUBPROTOCOL@) {
            let i = choose|i: int|
                0 <= i < headers.len() && same_name((#[trigger] headers[i]).0, PROTOCOL_HEADER@)
                    && offers(headers[i].1, SUBPROTOCOL@);
            assert(!same_name(headers[i].0, PROTOCOL_HEADER@));
        }
    }
}

} // verus!
