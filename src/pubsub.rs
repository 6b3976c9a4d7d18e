use crate::session::PubsubUpdate;
use vstd::prelude::*;

verus! {

/// The subscriptions that the notification service offers.
#[derive(Clone, Copy, Debug, PartialEq, Eq, Structural)]
pub enum PubSubRequest {
    Account,
    Program,
    Signature,
}

/// The name of the subscription method for `r`.
pub open spec fn spec_method(r: PubSubRequest) -> Seq<char> {
    match r {
        PubSubRequest::Account => "accountSubscribe"@,
        PubSubRequest::Program => "programSubscribe"@,
        PubSubRequest::Signature => "signatureSubscribe"@,
    }
}

/// The text of `s` as a JSON string literal, quotes and escapes included.
pub uninterp spec fn json_quoted(s: Seq<char>) -> Seq<char>;

/// Relies on `serde_json::to_string` applied to a `&str`, which writes it as a JSON string
/// literal and cannot fail on one.
#[verifier::external_body]
fn quote_json(s: &str) -> (r: String)
    ensures
        r@ == json_quoted(s@),
{
    serde_json::to_string(s).unwrap_or_default()
}

/// The decimal digit for `d`.
pub open spec fn digit_char(d: nat) -> char {
    if d == 0 {
        '0'
    } else if d == 1 {
        '1'
    } else if d == 2 {
        '2'
    } else if d == 3 {
        '3'
    } else if d == 4 {
        '4'
    } else if d == 5 {
        '5'
    } else if d == 6 {
        '6'
    } else if d == 7 {
        '7'
    } else if d == 8 {
        '8'
    } else {
        '9'
    }
}

/// `n` written in decimal, without leading zeros.
pub open spec fn decimal(n: nat) -> Seq<char>
    decreases n,
{
    if n < 10 {
        seq![digit_char(n)]
    } else {
        decimal(n / 10).push(digit_char(n % 10))
    }
}

fn digit_str(d: u64) -> (r: &'static str)
    requires
        d < 10,
    ensures
        r@ == seq![digit_char(d as nat)],
{
    proof {
        reveal_strlit("0");
        reveal_strlit("1");
        reveal_strlit("2");
        reveal_strlit("3");
        reveal_strlit("4");
        reveal_strlit("5");
        reveal_strlit("6");
        reveal_strlit("7");
        reveal_strlit("8");
        reveal_strlit("9");
    }
    let r = if d == 0 {
        "0"
    } else if d == 1 {
        "1"
    } else if d == 2 {
        "2"
    } else if d == 3 {
        "3"
    } else if d == 4 {
        "4"
    } else if d == 5 {
        "5"
    } else if d == 6 {
        "6"
    } else if d == 7 {
        "7"
    } else if d == 8 {
        "8"
    } else {
        "9"
    };
    assert(r@ =~= seq![digit_char(d as nat)]);
    r
}

/// Appends `n` in decimal to `out`.
fn append_decimal(out: &mut String, n: u64)
    ensures
        final(out)@ == old(out)@ + decimal(n as nat),
    decreases n,
{
    if n >= 10 {
        append_decimal(out, n / 10);
    }
    out.append(digit_str(n % 10));
    assert(old(out)@ + decimal(n as nat) =~= if n >= 10 {
        old(out)@ + decimal((n / 10) as nat) + seq![digit_char((n % 10) as nat)]
    } else {
        old(out)@ + seq![digit_char(n as nat)]
    });
}

/// The text of a subscription request with identifier `id` and, where given, one parameter.
pub open spec fn request_text(r: PubSubRequest, id: u64, param: Option<Seq<char>>) -> Seq<char> {
    "{\"jsonrpc\":\"2.0\",\"id\":"@ + decimal(id as nat) + ",\"method\":\""@ + spec_method(r)
        + "\""@ + match param {
        Some(p) => ",\"params\":["@ + json_quoted(p) + "]"@,
        None => Seq::empty(),
    } + "}"@
}

/// The text of an optional parameter.
pub open spec fn param_text(param: Option<&str>) -> Option<Seq<char>> {
    match param {
        Some(p) => Some(p@),
        None => None,
    }
}

impl PubSubRequest {
    /// The name of this subscription's method.
    pub fn method(&self) -> (r: &'static str)
        ensures
            r@ == spec_method(*self),
    {
        proof {
            reveal_strlit("accountSubscribe");
            reveal_strlit("programSubscribe");
            reveal_strlit("signatureSubscribe");
        }
        match self {
            PubSubRequest::Account => "accountSubscribe",
            PubSubRequest::Program => "programSubscribe",
            PubSubRequest::Signature => "signatureSubscribe",
        }
    }

    /// The JSON-RPC 2.0 text that asks for this subscription, with identifier `id` and, where
    /// given, `param` as the single element of `params`.
    pub fn build_request_json(&self, id: u64, param: Option<&str>) -> (r: String)
        ensures
            r@ == request_text(*self, id, param_text(param)),
    {
        let mut out = String::new();
        out.append("{\"jsonrpc\":\"2.0\",\"id\":");
        append_decimal(&mut out, id);
        out.append(",\"method\":\"");
        out.append(self.method());
        out.append("\"");
        match param {
            Some(p) => {
                out.append(",\"params\":[");
                let quoted = quote_json(p);
                out.append(quoted.as_str());
                out.append("]");
            },
            None => {},
        }
        out.append("}");
        proof {
            assert(out@ =~= request_text(*self, id, param_text(param)));
        }
        out
    }
}

/// The unsigned integer that the JSON text `s` holds at the JSON Pointer `pointer`, or `None`
/// where `s` is not JSON or holds no unsigned integer there.
pub uninterp spec fn json_u64_at(s: Seq<char>, pointer: Seq<char>) -> Option<u64>;

/// Relies on `serde_json::from_str` into a `serde_json::Value`, `Value::pointer` and
/// `Value::as_u64`: the result depends on the two texts alone.
#[verifier::external_body]
fn read_json_u64(s: &str, pointer: &str) -> (r: Option<u64>)
    ensures
        r == json_u64_at(s@, pointer@),
{
    let v: serde_json::Value = serde_json::from_str(s).ok()?;
    v.pointer(pointer)?.as_u64()
}

/// Where an account notification reports the balance.
pub open spec fn lamports_pointer() -> Seq<char> {
    "/params/result/lamports"@
}

/// Where the reply to a subscription request holds the subscription number.
pub open spec fn result_pointer() -> Seq<char> {
    "/result"@
}

/// What an account notification means to the metering step: the new balance, where the
/// notification reports one.
pub fn notification_update(notification: &str) -> (r: PubsubUpdate)
    ensures
        r == match json_u64_at(notification@, lamports_pointer()) {
            Some(l) => PubsubUpdate::Balance(l),
            None => PubsubUpdate::Other,
        },
{
    proof {
        reveal_strlit("/params/result/lamports");
    }
    match read_json_u64(notification, "/params/result/lamports") {
        Some(lamports) => PubsubUpdate::Balance(lamports),
        None => PubsubUpdate::Other,
    }
}

/// Why a subscription could not be set up.
#[derive(Clone, Debug, PartialEq, Eq)]
pub enum PubSubError {
    /// The websocket could not be opened.
    ConnectionFailed,
    /// The websocket closed, with its close code where it gave one, and a message.
    ConnectionDropped(Option<u16>, String),
    /// The reply to the subscription request carried no subscription number.
    SubscriptionFailed,
    /// A second websocket connection was reported.
    DoubleConnect,
}

impl PubSubError {
    /// A description of the error for people.
    pub fn to_string(&self) -> (r: String)
        ensures
            *self == PubSubError::ConnectionFailed ==> r@
                == "The PubSub connection could not be established"@,
            *self == PubSubError::SubscriptionFailed ==> r@ == "The PubSub subscription failed"@,
            *self == PubSubError::DoubleConnect ==> r@ == "Recieved a second WS connection"@,
            self matches PubSubError::ConnectionDropped(None, m) ==> r@ == m@,
            self matches PubSubError::ConnectionDropped(Some(c), m) ==> r@ == dropped_text(*c, m@),
    {
        match self {
            PubSubError::ConnectionFailed => String::from_str(
                "The PubSub connection could not be established",
            ),
            PubSubError::ConnectionDropped(Some(code), m) => dropped_message(*code, m.as_str()),
            PubSubError::ConnectionDropped(None, m) => m.clone(),
            PubSubError::SubscriptionFailed => String::from_str("The PubSub subscription failed"),
            PubSubError::DoubleConnect => String::from_str("Recieved a second WS connection"),
        }
    }
}

/// The message for a connection that closed with `code`.
pub open spec fn dropped_text(code: u16, m: Seq<char>) -> Seq<char> {
    "Connection dropped with code "@ + decimal(code as nat) + " and message "@ + m
}

fn dropped_message(code: u16, m: &str) -> (r: String)
    ensures
        r@ == dropped_text(code, m@),
{
    let mut out = String::from_str("Connection dropped with code ");
    append_decimal(&mut out, code as u64);
    out.append(" and message ");
    out.append(m);
    out
}

/// The subscription number that the reply `reply` grants; a reply without one means the
/// subscription failed.
pub fn subscription_number(reply: &str) -> (r: Result<u64, PubSubError>)
    ensures
        r == match json_u64_at(reply@, result_pointer()) {
            Some(n) => Ok(n),
            None => Err(PubSubError::SubscriptionFailed),
        },
{
    proof {
        reveal_strlit("/result");
    }
    match read_json_u64(reply, "/result") {
        Some(n) => Ok(n),
        None => Err(PubSubError::SubscriptionFailed),
    }
}

/// An event of the websocket that carries a subscription.
#[derive(Clone, Debug, PartialEq, Eq)]
pub enum WsEvent {
    /// The connection opened.
    Connect,
    /// A text frame arrived.
    Message(String),
    /// The connection closed, with its close code where it gave one, and the reason.
    Disconnect(Option<u16>, String),
}

/// How far a subscription has come.
#[derive(Clone, Copy, Debug, PartialEq, Eq, Structural)]
pub enum SubscribeState {
    /// Waiting for the websocket to open.
    AwaitingConnect,
    /// The request was sent; waiting for the reply.
    AwaitingReply,
    /// Subscribed under this number; later messages are notifications for the session.
    Subscribed(u64),
}

/// The message of a connection that closed during the subscription.
pub open spec fn dropped_while_subscribing() -> Seq<char> {
    "Connection dropped while subscribing to pubsub"@
}

/// Takes the subscription one event further: the websocket must open first, the reply to the
/// request must carry a subscription number, and a second open is an error. Once subscribed,
/// every other event is left to the session.
pub fn subscribe_step(state: SubscribeState, event: &WsEvent) -> (r: Result<SubscribeState, PubSubError>)
    ensures
        state == SubscribeState::AwaitingConnect ==> {
            &&& *event == WsEvent::Connect ==> r == Ok::<_, PubSubError>(SubscribeState::AwaitingReply)
            &&& *event != WsEvent::Connect ==> r == Err::<SubscribeState, _>(PubSubError::ConnectionFailed)
        },
        state == SubscribeState::AwaitingReply ==> match *event {
            WsEvent::Message(m) => r == match json_u64_at(m@, result_pointer()) {
                Some(n) => Ok(SubscribeState::Subscribed(n)),
                None => Err(PubSubError::SubscriptionFailed),
            },
            WsEvent::Connect => r == Err::<SubscribeState, _>(PubSubError::DoubleConnect),
            WsEvent::Disconnect(_, _) => (r matches Err(PubSubError::ConnectionDropped(c, msg)) && c
                is None && msg@ == dropped_while_subscribing()),
        },
        state matches SubscribeState::Subscribed(n) ==> {
            &&& *event == WsEvent::Connect ==> r == Err::<SubscribeState, _>(PubSubError::DoubleConnect)
            &&& *event != WsEvent::Connect ==> r == Ok::<_, PubSubError>(SubscribeState::Subscribed(n))
        },
{
    match state {
        SubscribeState::AwaitingConnect => match event {
            WsEvent::Connect => Ok(SubscribeState::AwaitingReply),
            _ => Err(PubSubError::ConnectionFailed),
        },
        SubscribeState::AwaitingReply => match event {
            WsEvent::Message(m) => match subscription_number(m.as_str()) {
                Ok(n) => Ok(SubscribeState::Subscribed(n)),
                Err(e) => Err(e),
            },
            WsEvent::Connect => Err(PubSubError::DoubleConnect),
            WsEvent::Disconnect(_, _) => Err(
                PubSubError::ConnectionDropped(
                    None,
                    String::from_str("Connection dropped while subscribing to pubsub"),
                ),
            ),
        },
        SubscribeState::Subscribed(n) => match event {
            WsEvent::Connect => Err(PubSubError::DoubleConnect),
            _ => Ok(SubscribeState::Subscribed(n)),
        },
    }
}

} // verus!
