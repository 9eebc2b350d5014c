//! The redirect target and the one-shot listener that waits on it for the
//! authorization code.

use vstd::prelude::*;
use vstd::string::StringExecFns;

use crate::credential::optional_text;

verus! {

/// The character of a decimal digit.
pub open spec fn digit(value: nat) -> char
    recommends
        value < 10,
{
    if value == 0 {
        '0'
    } else if value == 1 {
        '1'
    } else if value == 2 {
        '2'
    } else if value == 3 {
        '3'
    } else if value == 4 {
        '4'
    } else if value == 5 {
        '5'
    } else if value == 6 {
        '6'
    } else if value == 7 {
        '7'
    } else if value == 8 {
        '8'
    } else {
        '9'
    }
}

/// A number written in decimal, without leading zeros.
pub open spec fn decimal(value: nat) -> Seq<char>
    decreases value,
{
    if value < 10 {
        seq![digit(value)]
    } else {
        decimal(value / 10).push(digit(value % 10))
    }
}

fn digit_text(value: u16) -> (text: &'static str)
    requires
        value < 10,
    ensures
        text@ == seq![digit(value as nat)],
{
    proof {
        reveal_strlit("0");
        reveal_strlit("1");
        reveal_strlit("2");
        reveal_strlit("3");
        reveal_strlit("4");
        reveal_strlit("5");
        reveal_strlit("6");
        reveal_strlit("7");
        reveal_strlit("8");
        reveal_strlit("9");
    }
    let text = match value {
        0 => "0",
        1 => "1",
        2 => "2",
        3 => "3",
        4 => "4",
        5 => "5",
        6 => "6",
        7 => "7",
        8 => "8",
        _ => "9",
    };
    assert(text@ =~= seq![digit(value as nat)]);
    text
}

/// Writes a port number in decimal.
pub fn port_text(port: u16) -> (text: String)
    ensures
        text@ == decimal(port as nat),
    decreases port,
{
    if port < 10 {
        String::from_str(digit_text(port))
    } else {
        let mut text = port_text(port / 10);
        text.append(digit_text(port % 10));
        assert(text@ =~= decimal(port as nat));
        text
    }
}

/// The address that a listener is bound to. It is the loopback address:
/// nothing outside this machine reaches a listener.
pub fn loopback_address() -> (address: &'static str)
    ensures
        address@ == "127.0.0.1"@,
{
    "127.0.0.1"
}

/// The scheme and loopback host that every redirect target starts with.
pub open spec fn loopback_origin() -> Seq<char> {
    "http://"@ + "127.0.0.1"@ + ":"@
}

/// Where the remote service sends the browser back to: a port and a path on
/// the loopback address of this machine.
#[derive(Debug, PartialEq, Eq)]
pub struct RedirectTarget {
    pub port: u16,
    pub path: String,
}

/// A path that a listener can be bound to: it starts with a slash and holds
/// neither a query nor a fragment.
pub open spec fn is_route(path: Seq<char>) -> bool {
    &&& path.len() > 0
    &&& path[0] == '/'
    &&& forall|i: int| 0 <= i < path.len() ==> path[i] != '?' && path[i] != '#'
}

impl RedirectTarget {
    pub open spec fn wf(&self) -> bool {
        is_route(self.path@)
    }

    /// The redirect URI in full: the loopback origin, the port and the path.
    pub open spec fn uri_text(&self) -> Seq<char> {
        loopback_origin() + decimal(self.port as nat) + self.path@
    }

    /// A target on `port` with the route `path`; `None` when `path` is no
    /// route.
    pub fn new(port: u16, path: String) -> (target: Option<RedirectTarget>)
        ensures
            target.is_some() <==> is_route(path@),
            target matches Some(t) ==> t.port == port && t.path@ == path@ && t.wf(),
    {
        let length: usize = path.as_str().unicode_len();
        if length == 0 || path.as_str().get_char(0) != '/' {
            return None;
        }
        let mut at: usize = 1;
        while at < length
            invariant
                1 <= at <= length,
                length == path@.len(),
                path@[0] == '/',
                forall|i: int| 0 <= i < at ==> path@[i] != '?' && path@[i] != '#',
            decreases length - at,
        {
            let c = path.as_str().get_char(at);
            if c == '?' || c == '#' {
                return None;
            }
            at = at + 1;
        }
        Some(RedirectTarget { port, path })
    }

    /// The redirect URI that is registered with the remote service.
    pub fn uri(&self) -> (uri: String)
        ensures
            uri@ == self.uri_text(),
    {
        let mut uri = String::from_str("http://");
        uri.append(loopback_address());
        uri.append(":");
        let port = port_text(self.port);
        uri.append(port.as_str());
        uri.append(self.path.as_str());
        uri
    }
}

impl Clone for RedirectTarget {
    fn clone(&self) -> (copy: RedirectTarget)
        ensures
            copy.port == self.port,
            copy.path@ == self.path@,
    {
        RedirectTarget { port: self.port, path: self.path.clone() }
    }
}

/// The method of an HTTP request.
#[derive(Clone, Copy, Debug, PartialEq, Eq, Structural)]
pub enum Method {
    Get,
    Head,
    Post,
    Put,
    Delete,
    Options,
    Patch,
    Trace,
    Connect,
}

/// What the listener reads of a request: the method, the path and the value
/// of the `code` query parameter, decoded, if the request has one.
#[derive(Debug, PartialEq, Eq)]
pub struct CallbackRequest {
    pub method: Method,
    pub path: String,
    pub code: Option<String>,
}

/// A request as the contracts see it.
pub struct CallbackRequestView {
    pub method: Method,
    pub path: Seq<char>,
    pub code: Option<Seq<char>>,
}

impl View for CallbackRequest {
    type V = CallbackRequestView;

    open spec fn view(&self) -> CallbackRequestView {
        CallbackRequestView {
            method: self.method,
            path: self.path@,
            code: optional_text(self.code),
        }
    }
}

/// How the listener answers a request.
#[derive(Clone, Copy, Debug, PartialEq, Eq, Structural)]
pub enum Reply {
    /// The code was taken: status 200 with the acknowledgement as body. The
    /// listener shuts down with this reply.
    Acknowledged,
    /// Another path or another method than the route's: status 404.
    NotFound,
    /// The route, but without a code: status 422.
    MissingCode,
    /// The listener has shut down and the request is turned away: status 503,
    /// where the request still gets an answer at all.
    Closed,
}

impl Reply {
    pub open spec fn status_code(self) -> u16 {
        match self {
            Reply::Acknowledged => 200,
            Reply::NotFound => 404,
            Reply::MissingCode => 422,
            Reply::Closed => 503,
        }
    }

    /// The body that goes with the reply: the acknowledgement where the code
    /// was taken, nothing otherwise.
    pub open spec fn body_text(self) -> Seq<char> {
        match self {
            Reply::Acknowledged => "Close me :)"@,
            _ => ""@,
        }
    }

    /// The HTTP status of the reply.
    pub fn status(self) -> (status: u16)
        ensures
            status == self.status_code(),
    {
        match self {
            Reply::Acknowledged => 200,
            Reply::NotFound => 404,
            Reply::MissingCode => 422,
            Reply::Closed => 503,
        }
    }

    /// The body of the reply, as plain text.
    pub fn body(self) -> (body: &'static str)
        ensures
            body@ == self.body_text(),
    {
        match self {
            Reply::Acknowledged => acknowledgement(),
            _ => "",
        }
    }

    /// Whether the listener is to stop accepting connections after this
    /// reply.
    pub fn shuts_down(self) -> (stop: bool)
        ensures
            stop == (self == Reply::Acknowledged),
    {
        self == Reply::Acknowledged
    }
}

/// The body sent with [`Reply::Acknowledged`]: a line for the person at the
/// browser.
pub fn acknowledgement() -> (body: &'static str)
    ensures
        body@ == "Close me :)"@,
{
    "Close me :)"
}

/// A listener as the contracts see it: its route and whether it still
/// accepts requests.
pub struct ListenerView {
    pub route: Seq<char>,
    pub open: bool,
}

/// What one request does to a listener: the listener afterwards, the reply,
/// and the code that is handed on to whoever waits for it.
pub open spec fn serve(listener: ListenerView, request: CallbackRequestView) -> (
    ListenerView,
    Reply,
    Option<Seq<char>>,
) {
    if !listener.open {
        (listener, Reply::Closed, None)
    } else if request.method != Method::Get || request.path != listener.route {
        (listener, Reply::NotFound, None)
    } else {
        match request.code {
            None => (listener, Reply::MissingCode, None),
            Some(code) => (
                ListenerView { route: listener.route, open: false },
                Reply::Acknowledged,
                Some(code),
            ),
        }
    }
}

/// The listener after a run of requests.
pub open spec fn listener_after(listener: ListenerView, requests: Seq<CallbackRequestView>)
    -> ListenerView
    decreases requests.len(),
{
    if requests.len() == 0 {
        listener
    } else {
        serve(listener_after(listener, requests.drop_last()), requests.last()).0
    }
}

/// The reply to the request at `index` of a run of requests.
pub open spec fn reply_at(
    listener: ListenerView,
    requests: Seq<CallbackRequestView>,
    index: int,
) -> Reply
    recommends
        0 <= index < requests.len(),
{
    serve(listener_after(listener, requests.take(index)), requests[index]).1
}

/// A single-request HTTP responder for the route of a redirect target.
#[derive(Debug)]
pub struct CallbackListener {
    route: String,
    open: bool,
}

impl View for CallbackListener {
    type V = ListenerView;

    closed spec fn view(&self) -> ListenerView {
        ListenerView { route: self.route@, open: self.open }
    }
}

impl CallbackListener {
    /// A listener for the route of `target`, ready for its one request.
    pub fn bind(target: &RedirectTarget) -> (listener: CallbackListener)
        ensures
            listener@ == (ListenerView { route: target.path@, open: true }),
    {
        CallbackListener { route: target.path.clone(), open: true }
    }

    /// Whether the listener still accepts requests.
    pub fn is_open(&self) -> (open: bool)
        ensures
            open == self@.open,
    {
        self.open
    }

    /// Serves one request. The first GET on the route that carries a code is
    /// acknowledged, its code is handed out and the listener shuts down; from
    /// then on nothing is served.
    pub fn handle(&mut self, request: CallbackRequest) -> (outcome: (Reply, Option<String>))
        ensures
            (final(self)@, outcome.0, optional_text(outcome.1)) == serve(old(self)@, request@),
    {
        if !self.open {
            return (Reply::Closed, None);
        }
        if request.method != Method::Get || request.path != self.route {
            return (Reply::NotFound, None);
        }
        match request.code {
            None => (Reply::MissingCode, None),
            Some(code) => {
                self.open = false;
                (Reply::Acknowledged, Some(code))
            },
        }
    }
}

/// After the request that a listener acknowledged it is closed, whatever
/// else arrives.
pub proof fn lemma_closed_after_acknowledgement(
    listener: ListenerView,
    requests: Seq<CallbackRequestView>,
    first: int,
    upto: int,
)
    requires
        0 <= first < upto <= requests.len(),
        reply_at(listener, requests, first) == Reply::Acknowledged,
    ensures
        !listener_after(listener, requests.take(upto)).open,
    decreases upto,
{
    assert(requests.take(upto).drop_last() =~= requests.take(upto - 1));
    assert(requests.take(upto).last() == requests[upto - 1]);
    if upto > first + 1 {
        lemma_closed_after_acknowledgement(listener, requests, first, upto - 1);
    }
}

/// A listener accepts at most one request: every request after the one that
/// it acknowledged is left unserved, one for the same path included.
pub proof fn lemma_one_request_accepted(
    listener: ListenerView,
    requests: Seq<CallbackRequestView>,
    first: int,
    later: int,
)
    requires
        0 <= first < later < requests.len(),
        reply_at(listener, requests, first) == Reply::Acknowledged,
    ensures
        reply_at(listener, requests, later) == Reply::Closed,
{
    lemma_closed_after_acknowledgement(listener, requests, first, later);
}

/// A request is acknowledged exactly when the listener is open and the
/// request is a GET for the route that carries a code.
pub proof fn lemma_acknowledged_requests(listener: ListenerView, request: CallbackRequestView)
    ensures
        (serve(listener, request).1 == Reply::Acknowledged) <==> (listener.open && request.method
            == Method::Get && request.path == listener.route && request.code.is_some()),
        serve(listener, request).2.is_some() <==> serve(listener, request).1
            == Reply::Acknowledged,
        serve(listener, request).2.is_some() ==> serve(listener, request).2 == request.code,
{
}

} // verus!
