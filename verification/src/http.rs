//! The HTTP backend codec and the server's handler decisions.
//!
//! The remote backend speaks a small JSON protocol: POST `/device/status`
//! queries a device's attached state, POST and DELETE `/device` attach and
//! detach it, GET `/domains` lists the running domains. This module renders
//! and parses those bodies and decides the handlers' replies; the transport
//! itself stays outside the library.

use vstd::prelude::*;
use crate::outcome::{OpError, OpOutcome, spec_describe};
use crate::text;

verus! {

/// The URL devices are attached to and detached from.
pub fn device_url(host: &str) -> (u: String)
    ensures
        u@ == host@ + "/device"@,
{
    String::from_str(host).concat("/device")
}

/// The URL device status is queried from.
pub fn status_url(host: &str) -> (u: String)
    ensures
        u@ == host@ + "/device/status"@,
{
    String::from_str(host).concat("/device/status")
}

/// The URL the running domains are listed from.
pub fn domains_url(host: &str) -> (u: String)
    ensures
        u@ == host@ + "/domains"@,
{
    String::from_str(host).concat("/domains")
}

/// The canonical JSON body identifying a device.
pub open spec fn spec_device_body(domain: Seq<char>, evdev: Seq<char>) -> Seq<char> {
    "{\"domain\":\""@ + domain + "\",\"evdev\":\""@ + evdev + "\"}"@
}

/// Render `spec_device_body` for a concrete device.
pub fn device_body(domain: &str, evdev: &str) -> (b: String)
    ensures
        b@ == spec_device_body(domain@, evdev@),
{
    let s = String::from_str("{\"domain\":\"");
    let s = s.concat(domain);
    let s = s.concat("\",\"evdev\":\"");
    let s = s.concat(evdev);
    s.concat("\"}")
}

/// The canonical JSON body of a device status reply.
pub open spec fn spec_status_body(attached: bool) -> Seq<char> {
    if attached {
        "{\"attached\":true}"@
    } else {
        "{\"attached\":false}"@
    }
}

/// Render `spec_status_body`.
pub fn status_body(attached: bool) -> (b: String)
    ensures
        b@ == spec_status_body(attached),
{
    if attached {
        String::from_str("{\"attached\":true}")
    } else {
        String::from_str("{\"attached\":false}")
    }
}

/// Parse a status reply body; only the canonical renderings are accepted.
pub fn parse_status_body(s: &str) -> (r: Option<bool>)
    ensures
        r == (if s@ == spec_status_body(true) {
            Some(true)
        } else if s@ == spec_status_body(false) {
            Some(false)
        } else {
            None::<bool>
        }),
{
    if text::str_eq(s, "{\"attached\":true}") {
        Some(true)
    } else if text::str_eq(s, "{\"attached\":false}") {
        Some(false)
    } else {
        None
    }
}

/// The attached state from a status exchange: the reply body parsed; a
/// missing reply or an unreadable body counts as detached (fail closed, so
/// a later attach is attempted rather than nothing).
pub fn attached_of_status(reply: &Option<String>) -> (b: bool)
    ensures
        b == (reply matches Some(s) && s@ == spec_status_body(true)),
{
    match reply {
        Some(s) => match parse_status_body(s.as_str()) {
            Some(v) => v,
            None => false,
        },
        None => false,
    }
}

/// An HTTP status code reports success.
pub open spec fn spec_http_success(status: int) -> bool {
    200 <= status < 300
}

/// Classify an HTTP attach or detach exchange: a success status is success;
/// anything else is a transport-level failure carrying the reply text, or a
/// fixed note when the text could not be read.
pub fn http_op_result(status: u16, body: &Option<String>) -> (r: Result<(), OpError>)
    ensures
        spec_http_success(status as int) ==> r == Ok::<(), OpError>(()),
        !spec_http_success(status as int) ==> (r matches Err(OpError::Transport { message })
            && message@ == (match body {
            Option::Some(t) => t@,
            Option::None => "failed to decode response"@,
        })),
{
    if 200 <= status && status < 300 {
        Ok(())
    } else {
        let msg = match body {
            Some(t) => t.clone(),
            None => String::from_str("failed to decode response"),
        };
        Err(OpError::Transport { message: msg })
    }
}

/// The error body of a failed request.
#[derive(Clone, Debug, PartialEq, Eq)]
pub struct ErrorMsg {
    message: String,
}

/// The JSON rendering of an error body.
pub open spec fn spec_error_body(message: Seq<char>) -> Seq<char> {
    "{\"message\":\""@ + message + "\"}"@
}

impl ErrorMsg {
    pub closed spec fn spec_message(self) -> Seq<char> {
        self.message@
    }

    /// The error body for a backend failure.
    pub fn input(err: &OpError) -> (m: ErrorMsg)
        ensures
            m.spec_message() == spec_describe(*err),
    {
        ErrorMsg { message: err.describe() }
    }

    /// The error body for a request whose body could not be parsed.
    pub fn bad_request() -> (m: ErrorMsg)
        ensures
            m.spec_message() == "invalid device request"@,
    {
        ErrorMsg { message: String::from_str("invalid device request") }
    }

    /// The plain message text.
    pub fn message(&self) -> (r: &str)
        ensures
            r@ == self.spec_message(),
    {
        self.message.as_str()
    }

    /// The JSON rendering.
    pub fn body(&self) -> (b: String)
        ensures
            b@ == spec_error_body(self.spec_message()),
    {
        let s = String::from_str("{\"message\":\"");
        let s = s.concat(self.message.as_str());
        s.concat("\"}")
    }
}

/// One reply from the server's handlers: a status code and a body, the body
/// empty for 204.
#[derive(Clone, Debug, PartialEq, Eq)]
pub struct HttpReply {
    pub status: u16,
    pub body: String,
}

/// The reply to a status query: 200 with the canonical status body.
pub fn status_reply(attached: bool) -> (r: HttpReply)
    ensures
        r.status == 200,
        r.body@ == spec_status_body(attached),
{
    HttpReply { status: 200, body: status_body(attached) }
}

/// The reply to an attach or detach request: 204 without content on
/// success - the benign refusals among them - and 500 with the rendered
/// error on a failure.
pub fn op_reply(outcome: &Result<OpOutcome, OpError>) -> (r: HttpReply)
    ensures
        outcome is Ok ==> r.status == 204 && r.body@ == ""@,
        outcome matches Err(e) ==> r.status == 500 && r.body@ == spec_error_body(
            spec_describe(*e),
        ),
{
    match outcome {
        Ok(_) => HttpReply { status: 204, body: String::from_str("") },
        Err(e) => HttpReply { status: 500, body: ErrorMsg::input(e).body() },
    }
}

/// The reply to a request whose body could not be parsed: 400 with a fixed
/// error body.
pub fn bad_request_reply() -> (r: HttpReply)
    ensures
        r.status == 400,
        r.body@ == spec_error_body("invalid device request"@),
{
    HttpReply { status: 400, body: ErrorMsg::bad_request().body() }
}

/// The items of the domains listing: the names in order, each quoted,
/// comma separated.
pub open spec fn spec_domains_items(names: Seq<Seq<char>>) -> Seq<char>
    decreases names.len(),
{
    if names.len() == 0 {
        Seq::empty()
    } else if names.len() == 1 {
        "\""@ + names[0] + "\""@
    } else {
        "\""@ + names[0] + "\","@ + spec_domains_items(names.drop_first())
    }
}

/// The JSON body of the domains listing: the quoted names in an array.
pub open spec fn spec_domains_body(names: Seq<Seq<char>>) -> Seq<char> {
    "["@ + spec_domains_items(names) + "]"@
}

proof fn lemma_domains_items_snoc(names: Seq<Seq<char>>, x: Seq<char>)
    requires
        names.len() >= 1,
    ensures
        spec_domains_items(names.push(x)) =~= spec_domains_items(names) + ","@ + "\""@ + x
            + "\""@,
    decreases names.len(),
{
    let p = names.push(x);
    reveal_strlit("\"");
    reveal_strlit("\",");
    reveal_strlit(",");
    if names.len() == 1 {
        assert(p.drop_first() =~= seq![x]);
        assert(spec_domains_items(p) == "\""@ + p[0] + "\","@ + spec_domains_items(
            p.drop_first(),
        ));
        assert(spec_domains_items(p.drop_first()) == "\""@ + x + "\""@);
        assert(p[0] == names[0]);
    } else {
        lemma_domains_items_snoc(names.drop_first(), x);
        assert(p.drop_first() =~= names.drop_first().push(x));
        assert(p[0] == names[0]);
    }
}

/// Render `spec_domains_body` for a concrete list of names.
pub fn domains_body(names: &Vec<String>) -> (b: String)
    ensures
        b@ == spec_domains_body(names.deep_view()),
{
    let ghost m = names.deep_view();
    proof {
        assert(m.len() == names@.len());
    }
    let mut b = String::from_str("[");
    let n = names.len();
    let mut i: usize = 0;
    while i < n
        invariant
            n == names@.len(),
            i <= n,
            m == names.deep_view(),
            m.len() == names@.len(),
            b@ == "["@ + spec_domains_items(m.take(i as int)),
        decreases n - i,
    {
        if i > 0 {
            b.append(",");
        }
        b.append("\"");
        b.append(names[i].as_str());
        b.append("\"");
        proof {
            assert(names@[i as int].deep_view() == m[i as int]);
            assert(m.take(i as int).push(m[i as int]) =~= m.take(i as int + 1));
            if i == 0 {
                assert(spec_domains_items(m.take(1)) == "\""@ + m.take(1)[0] + "\""@);
                assert(m.take(1)[0] == m[0]);
                assert(b@ =~= "["@ + spec_domains_items(m.take(i as int + 1)));
            } else {
                lemma_domains_items_snoc(m.take(i as int), m[i as int]);
                assert(b@ =~= "["@ + spec_domains_items(m.take(i as int + 1)));
            }
        }
        i = i + 1;
    }
    proof {
        assert(m.take(n as int) =~= m);
    }
    b.append("]");
    proof {
        assert(b@ =~= spec_domains_body(m));
    }
    b
}

/// The reply to the domains listing: 200 with the rendered array.
pub fn domains_reply(names: &Vec<String>) -> (r: HttpReply)
    ensures
        r.status == 200,
        r.body@ == spec_domains_body(names.deep_view()),
{
    HttpReply { status: 200, body: domains_body(names) }
}

/// Parse of a device request body, at the spec level: the body must be the
/// canonical `spec_device_body` rendering of two quote-free names. Parsing
/// is separated from resolution: the result is a plain pair of names, and
/// turning the domain name into a live handle is a distinct step.
pub open spec fn spec_parse_device_body(s: Seq<char>) -> Option<(Seq<char>, Seq<char>)> {
    let p1 = "{\"domain\":\""@;
    let p2 = "\",\"evdev\":\""@;
    let p3 = "\"}"@;
    if s.len() < p1.len() || s.subrange(0, p1.len() as int) != p1 {
        None
    } else {
        let i = text::find_char(s, '"', p1.len() as int);
        if i + p2.len() > s.len() || s.subrange(i, i + p2.len() as int) != p2 {
            None
        } else {
            let j = text::find_char(s, '"', i + p2.len() as int);
            if j + p3.len() == s.len() && s.subrange(j, s.len() as int) == p3 {
                Some((s.subrange(p1.len() as int, i), s.subrange(i + p2.len() as int, j)))
            } else {
                None
            }
        }
    }
}

/// Parse a device request body into the (domain, evdev) pair, accepting
/// exactly what `spec_parse_device_body` accepts.
pub fn parse_device_body(s: &str) -> (r: Option<(String, String)>)
    ensures
        match r {
            Some(p) => spec_parse_device_body(s@) == Some((p.0@, p.1@)),
            None => spec_parse_device_body(s@) is None,
        },
{
    let v = text::chars_of(s);
    let p1 = text::chars_of("{\"domain\":\"");
    let p2 = text::chars_of("\",\"evdev\":\"");
    let p3 = text::chars_of("\"}");
    if v.len() < p1.len() {
        return None;
    }
    if !text::match_at(&v, &p1, 0) {
        return None;
    }
    let i = text::find_char_in(&v, '"', p1.len());
    proof {
        text::lemma_find_char_props(v@, '"', p1@.len() as int);
    }
    if v.len() - i < p2.len() {
        return None;
    }
    if !text::match_at(&v, &p2, i) {
        return None;
    }
    let j = text::find_char_in(&v, '"', i + p2.len());
    proof {
        text::lemma_find_char_props(v@, '"', i + p2@.len() as int);
    }
    if v.len() - j != p3.len() {
        return None;
    }
    if !text::match_at(&v, &p3, j) {
        return None;
    }
    let d = s.substring_char(p1.len(), i);
    let e = s.substring_char(i + p2.len(), j);
    Some((String::from_str(d), String::from_str(e)))
}

/// Law: parsing inverts rendering, for quote-free names.
pub proof fn lemma_device_body_round_trip(domain: Seq<char>, evdev: Seq<char>)
    requires
        !domain.contains('"'),
        !evdev.contains('"'),
    ensures
        spec_parse_device_body(spec_device_body(domain, evdev)) == Some((domain, evdev)),
{
    reveal_strlit("{\"domain\":\"");
    reveal_strlit("\",\"evdev\":\"");
    reveal_strlit("\"}");
    let p1 = "{\"domain\":\""@;
    let p2 = "\",\"evdev\":\""@;
    let p3 = "\"}"@;
    let s = spec_device_body(domain, evdev);
    let dl = domain.len() as int;
    let el = evdev.len() as int;
    assert(p1.len() == 11);
    assert(p2.len() == 11);
    assert(p3.len() == 2);
    assert(s.len() == 11 + dl + 11 + el + 2);
    assert(s.subrange(0, 11) =~= p1);
    assert forall|k: int| 11 <= k < 11 + dl implies s[k] != '"' by {
        assert(s[k] == domain[k - 11]);
        if s[k] == '"' {
            assert(domain.contains('"'));
        }
    }
    assert(s[11 + dl] == p2[0]);
    assert(p2[0] == '"');
    text::lemma_find_char_at(s, '"', 11, 11 + dl);
    let i = text::find_char(s, '"', 11);
    assert(i == 11 + dl);
    assert(s.subrange(i, i + 11) =~= p2);
    assert forall|k: int| i + 11 <= k < i + 11 + el implies s[k] != '"' by {
        assert(s[k] == evdev[k - (i + 11)]);
        if s[k] == '"' {
            assert(evdev.contains('"'));
        }
    }
    assert(s[i + 11 + el] == p3[0]);
    assert(p3[0] == '"');
    text::lemma_find_char_at(s, '"', i + 11, i + 11 + el);
    let j = text::find_char(s, '"', i + 11);
    assert(j == i + 11 + el);
    assert(j + 2 == s.len());
    assert(s.subrange(j, s.len() as int) =~= p3);
    assert(s.subrange(11, i) =~= domain);
    assert(s.subrange(i + 11, j) =~= evdev);
}

} // verus!
