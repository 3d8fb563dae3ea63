use crate::addresses::WebsocketClientAddr;
use crate::candle::{Candle, CandleView};
use crate::data_source::NetVersion;
use crate::decimal::Decimal;
use crate::interval::Interval;
use crate::payloads::{WebsocketPayload, WebsocketPayloadView};
use vstd::prelude::*;
use vstd::string::*;

verus! {

/// Seconds between two keep-alive messages.
pub const HEARTBEAT_SECONDS: u64 = 20;

/// The symbol whose candles are streamed.
pub const DEFAULT_SYMBOL: &'static str = "BTCUSDT";

/// One update of a candle that may still be forming, as the venue streams
/// it. `start` is the start of the candle's bucket in milliseconds since the
/// epoch; every update of one candle carries the same `start`.
#[derive(Clone, Copy, Debug, PartialEq, Eq, Structural)]
pub struct Kline {
    pub start: i64,
    pub end: i64,
    pub open: Decimal,
    pub close: Decimal,
    pub high: Decimal,
    pub low: Decimal,
    pub volume: Decimal,
    pub turnover: Decimal,
    pub confirm: bool,
    pub timestamp: i64,
}

impl Kline {
    pub open spec fn spec_to_candle(self) -> CandleView {
        CandleView {
            timestamp: self.start,
            open: self.open,
            high: self.high,
            low: self.low,
            close: self.close,
            volume: self.volume,
            indicators: Map::empty(),
        }
    }

    /// The candle that this update describes, without indicators.
    pub fn to_candle(&self) -> (c: Candle)
        ensures
            c@ == self.spec_to_candle(),
    {
        Candle::new(self.start, self.open, self.high, self.low, self.close, self.volume)
    }
}

/// A message of the venue that carries candle updates.
#[derive(Debug, PartialEq, Eq)]
pub struct KlineResponse {
    pub topic: String,
    pub data: Vec<Kline>,
    pub ts: i64,
}

/// The venue's answer to a keep-alive message.
#[derive(Debug, PartialEq, Eq)]
pub struct PongResponse {
    pub success: bool,
    pub ret_msg: String,
    pub conn_id: String,
    pub req_id: Option<String>,
}

/// The venue's answer to a subscription.
#[derive(Debug, PartialEq, Eq)]
pub struct SubscribeResponse {
    pub success: bool,
    pub ret_msg: String,
    pub conn_id: String,
    pub req_id: Option<String>,
}

/// A decoded text message of the venue.
#[derive(Debug, PartialEq, Eq)]
pub enum IncomingMessage {
    Pong(PongResponse),
    Subscribe(SubscribeResponse),
    Kline(KlineResponse),
}

/// One frame read from the stream: a decoded text message, or a frame of
/// another kind, which the feed passes over.
#[derive(Debug, PartialEq, Eq)]
pub enum Frame {
    Text(IncomingMessage),
    Other,
}

/// Why the feed gave up.
#[derive(Clone, Copy, Debug, PartialEq, Eq, Structural)]
pub enum FeedError {
    /// The venue streams no candles of the interval asked for.
    UnsupportedInterval,
    /// The connection failed.
    Connection,
    /// A text message could not be decoded.
    Decode,
    /// A candle message carried no candle.
    EmptyKline,
}

/// One topic of a subscription: a stream, an interval code and a symbol.
#[derive(Debug, PartialEq, Eq)]
pub struct OutgoingMessageArg {
    pub stream: String,
    pub interval: String,
    pub symbol: String,
}

/// A request to the venue: an operation, its arguments and an optional
/// identifier that the answer will repeat.
#[derive(Debug, PartialEq, Eq)]
pub struct OutgoingMessage {
    pub req_id: Option<String>,
    pub op: String,
    pub args: Vec<OutgoingMessageArg>,
}

pub struct OutgoingMessageView {
    pub req_id: Option<Seq<char>>,
    pub op: Seq<char>,
    /// Stream, interval code and symbol of each argument.
    pub args: Seq<(Seq<char>, Seq<char>, Seq<char>)>,
}

impl View for OutgoingMessage {
    type V = OutgoingMessageView;

    open spec fn view(&self) -> OutgoingMessageView {
        OutgoingMessageView {
            req_id: match self.req_id {
                Some(r) => Some(r@),
                None => None,
            },
            op: self.op@,
            args: Seq::new(
                self.args@.len(),
                |i: int| (self.args@[i].stream@, self.args@[i].interval@, self.args@[i].symbol@),
            ),
        }
    }
}

impl OutgoingMessageArg {
    /// The topic as the venue writes it: stream, interval code and symbol,
    /// joined by dots.
    pub open spec fn spec_topic(&self) -> Seq<char> {
        self.stream@ + "."@ + self.interval@ + "."@ + self.symbol@
    }

    pub fn topic(&self) -> (t: String)
        ensures
            t@ == self.spec_topic(),
    {
        let mut t = self.stream.clone();
        t.append(".");
        t.append(self.interval.as_str());
        t.append(".");
        t.append(self.symbol.as_str());
        t
    }
}

impl OutgoingMessage {
    pub fn new(op: &str, args: Vec<OutgoingMessageArg>) -> (m: OutgoingMessage)
        ensures
            m.req_id is None,
            m.op@ == op@,
            m.args == args,
    {
        OutgoingMessage { req_id: None, op: String::from_str(op), args }
    }

    /// The keep-alive request.
    pub fn ping(req_id: Option<String>) -> (m: OutgoingMessage)
        ensures
            m@ == spec_ping(req_id),
    {
        let m = OutgoingMessage { req_id, op: String::from_str("ping"), args: Vec::new() };
        assert(m@.args =~= Seq::empty());
        m
    }
}

/// The keep-alive request with the given identifier.
pub open spec fn spec_ping(req_id: Option<String>) -> OutgoingMessageView {
    OutgoingMessageView {
        req_id: match req_id {
            Some(r) => Some(r@),
            None => None,
        },
        op: "ping"@,
        args: Seq::empty(),
    }
}

/// The code by which the venue names an interval, if it streams candles of
/// that interval.
pub open spec fn spec_interval_code(interval: Interval) -> Option<Seq<char>> {
    match interval {
        Interval::Minute1 => Some("1"@),
        Interval::Minute5 => Some("5"@),
        Interval::Minute15 => Some("15"@),
        Interval::Minute30 => Some("30"@),
        Interval::Hour1 => Some("60"@),
        Interval::Day1 => Some("D"@),
        Interval::Week1 => Some("W"@),
        _ => None,
    }
}

/// The request that subscribes to the candles of `DEFAULT_SYMBOL` at the
/// interval with the given code.
pub open spec fn spec_subscription(code: Seq<char>) -> OutgoingMessageView {
    OutgoingMessageView {
        req_id: None,
        op: "subscribe"@,
        args: seq![("kline"@, code, "BTCUSDT"@)],
    }
}

/// The address of the venue's public stream on `net`.
pub open spec fn spec_stream_url(net: NetVersion) -> Seq<char> {
    match net {
        NetVersion::Testnet => "wss://stream-testnet.bybit.com/v5/public/spot"@,
        NetVersion::Mainnet => "wss://stream.bybit.com/v5/public/spot"@,
    }
}

/// What is to be done to open a session: connect to `url` and send each of
/// `opening` in turn.
#[derive(Debug, PartialEq, Eq)]
pub struct Session {
    pub url: String,
    pub opening: Vec<OutgoingMessage>,
}

/// The views of a list of requests, in order.
pub open spec fn message_views(messages: Seq<OutgoingMessage>) -> Seq<OutgoingMessageView> {
    Seq::new(messages.len(), |i: int| messages[i]@)
}

/// The market-data feed of one symbol at one interval: turns the stream of
/// candle updates into one event for each candle that has closed.
///
/// The feed remembers the update it saw last. An update of a later bucket
/// shows that the remembered one was the last word on its candle.
#[derive(Debug, PartialEq, Eq)]
pub struct BybitWebsocketApi {
    pub client: WebsocketClientAddr,
    pub interval: Interval,
    pub prev_kline: Option<Kline>,
    /// Whether frames are still taken in. An error ends this for good.
    pub ingesting: bool,
}

impl BybitWebsocketApi {
    /// What the feed does with one candle update: the candle it declares
    /// closed, if any.
    pub open spec fn closes(self, kline: Kline) -> Option<Kline> {
        match self.prev_kline {
            Some(prev) if prev.start != kline.start => Some(prev),
            _ => None,
        }
    }

    /// The feed after it has taken in `kline`.
    pub open spec fn after_kline(self, kline: Kline) -> BybitWebsocketApi {
        BybitWebsocketApi { prev_kline: Some(kline), ..self }
    }

    /// The payload that carries a closed candle.
    pub open spec fn closed_payload(kline: Kline) -> WebsocketPayloadView {
        WebsocketPayloadView { ok: true, message: None, candle: Some(kline.spec_to_candle()) }
    }

    pub fn new(client: &WebsocketClientAddr, interval: Interval) -> (api: BybitWebsocketApi)
        ensures
            api == (BybitWebsocketApi {
                client: *client,
                interval,
                prev_kline: None,
                ingesting: true,
            }),
    {
        BybitWebsocketApi { client: *client, interval, prev_kline: None, ingesting: true }
    }

    /// Opens a session on `net`: where to connect, and what to send first,
    /// the subscription and one keep-alive. The feed starts afresh, with no
    /// update remembered.
    ///
    /// Fails, and changes nothing, if the venue does not stream the feed's
    /// interval.
    pub fn connect(&mut self, net: &NetVersion) -> (r: Result<Session, FeedError>)
        ensures
            match spec_interval_code(old(self).interval) {
                None => {
                    &&& r == Err::<Session, FeedError>(FeedError::UnsupportedInterval)
                    &&& *final(self) == *old(self)
                },
                Some(code) => {
                    &&& r matches Ok(session)
                    &&& session.url@ == spec_stream_url(*net)
                    &&& message_views(session.opening@) == seq![
                        spec_subscription(code),
                        spec_ping(None),
                    ]
                    &&& *final(self) == (BybitWebsocketApi {
                        prev_kline: None,
                        ingesting: true,
                        ..*old(self)
                    })
                },
            },
    {
        let url = match net {
            NetVersion::Testnet => "wss://stream-testnet.bybit.com/v5/public/spot",
            NetVersion::Mainnet => "wss://stream.bybit.com/v5/public/spot",
        };
        let subscribe = match self.subscribe_to_kline() {
            Ok(m) => m,
            Err(e) => {
                return Err(e);
            },
        };
        let ping = Self::send_ping(None);
        let mut opening: Vec<OutgoingMessage> = Vec::new();
        opening.push(subscribe);
        opening.push(ping);
        self.prev_kline = None;
        self.ingesting = true;
        assert(message_views(opening@) =~= seq![
            spec_subscription(spec_interval_code(self.interval)->0),
            spec_ping(None),
        ]);
        Ok(Session { url: String::from_str(url), opening })
    }

    /// The request that subscribes to the candles of `DEFAULT_SYMBOL` at the
    /// feed's interval.
    pub fn subscribe_to_kline(&self) -> (r: Result<OutgoingMessage, FeedError>)
        ensures
            match spec_interval_code(self.interval) {
                None => r == Err::<OutgoingMessage, FeedError>(FeedError::UnsupportedInterval),
                Some(code) => r matches Ok(m) && m@ == spec_subscription(code),
            },
    {
        let interval = match self.interval_as_string() {
            Ok(code) => code,
            Err(e) => {
                return Err(e);
            },
        };
        let mut args: Vec<OutgoingMessageArg> = Vec::new();
        args.push(
            OutgoingMessageArg {
                stream: String::from_str("kline"),
                interval,
                symbol: String::from_str(DEFAULT_SYMBOL),
            },
        );
        let sub = OutgoingMessage::new("subscribe", args);
        assert(sub@.args =~= spec_subscription(spec_interval_code(self.interval)->0).args);
        Ok(sub)
    }

    /// The venue's code for the feed's interval.
    pub fn interval_as_string(&self) -> (r: Result<String, FeedError>)
        ensures
            match spec_interval_code(self.interval) {
                None => r == Err::<String, FeedError>(FeedError::UnsupportedInterval),
                Some(code) => r matches Ok(s) && s@ == code,
            },
    {
        let interval = match self.interval {
            Interval::Minute1 => "1",
            Interval::Minute5 => "5",
            Interval::Minute15 => "15",
            Interval::Minute30 => "30",
            Interval::Hour1 => "60",
            Interval::Day1 => "D",
            Interval::Week1 => "W",
            _ => {
                return Err(FeedError::UnsupportedInterval);
            },
        };
        Ok(String::from_str(interval))
    }

    /// The keep-alive request to send.
    pub fn send_ping(req_id: Option<String>) -> (m: OutgoingMessage)
        ensures
            m@ == spec_ping(req_id),
    {
        OutgoingMessage::ping(req_id)
    }

    /// Answers the heartbeat timer: a keep-alive request whenever the timer
    /// has fired. The heartbeat does not depend on whether frames are still
    /// taken in.
    pub fn handle_ping_message(&self, due: Option<()>) -> (m: Option<OutgoingMessage>)
        ensures
            due is None ==> m is None,
            due is Some ==> (m matches Some(ping) && ping@ == spec_ping(None)),
    {
        match due {
            Some(_) => Some(Self::send_ping(None)),
            None => None,
        }
    }

    /// Takes in what was read from the stream: nothing, an error, or a
    /// frame.
    ///
    /// An error is handed back and ends the taking in of frames: whatever is
    /// read afterwards is passed over. A text frame goes to
    /// `handle_message`; any other frame is passed over.
    pub fn handle_websocket_message(&mut self, ws_msg: Option<Result<Frame, FeedError>>) -> (r:
        Result<Option<WebsocketPayload>, FeedError>)
        ensures
            payload_result_view(r) == old(self).taken_in(ws_msg),
            *final(self) == old(self).after_taken_in(ws_msg),
    {
        if !self.ingesting {
            return Ok(None);
        }
        match ws_msg {
            None => Ok(None),
            Some(Err(e)) => {
                self.ingesting = false;
                Err(e)
            },
            Some(Ok(Frame::Other)) => Ok(None),
            Some(Ok(Frame::Text(msg))) => {
                let r = self.handle_message(msg);
                if r.is_err() {
                    self.ingesting = false;
                }
                r
            },
        }
    }

    /// Takes in one decoded message. Only candle updates have an effect.
    pub fn handle_message(&mut self, msg: IncomingMessage) -> (r: Result<
        Option<WebsocketPayload>,
        FeedError,
    >)
        ensures
            payload_result_view(r) == old(self).decoded(msg),
            *final(self) == old(self).after_decoded(msg),
    {
        match msg {
            IncomingMessage::Pong(_) => Ok(None),
            IncomingMessage::Subscribe(_) => Ok(None),
            IncomingMessage::Kline(kline_response) => self.handle_kline(kline_response),
        }
    }

    /// Takes in one candle update.
    ///
    /// The first update ever seen is only remembered: it belongs to the
    /// candle that was forming when the feed started. An update of the same
    /// bucket as the one remembered takes its place. An update of another
    /// bucket closes the candle of the remembered one, which is handed back
    /// as a payload, and takes its place.
    ///
    /// Fails, and changes nothing, if the message carries no update.
    pub fn handle_kline(&mut self, kline_response: KlineResponse) -> (r: Result<
        Option<WebsocketPayload>,
        FeedError,
    >)
        ensures
            payload_result_view(r) == old(self).decoded(IncomingMessage::Kline(kline_response)),
            *final(self) == old(self).after_decoded(IncomingMessage::Kline(kline_response)),
    {
        let kline = match kline_response.get_kline() {
            Ok(k) => k,
            Err(e) => {
                return Err(e);
            },
        };
        let mut closed: Option<WebsocketPayload> = None;
        match self.prev_kline {
            Some(prev) => {
                if kline.start != prev.start {
                    closed =
                    Some(WebsocketPayload { ok: true, message: None, candle: Some(prev.to_candle()) });
                }
            },
            None => {},
        }
        self.prev_kline = Some(kline);
        Ok(closed)
    }
}

impl KlineResponse {
    /// The update that the message carries: the first of `data`.
    pub fn get_kline(&self) -> (r: Result<Kline, FeedError>)
        ensures
            r == (if self.data@.len() > 0 {
                Ok::<Kline, FeedError>(self.data@[0])
            } else {
                Err::<Kline, FeedError>(FeedError::EmptyKline)
            }),
    {
        if self.data.len() > 0 {
            Ok(self.data[0])
        } else {
            Err(FeedError::EmptyKline)
        }
    }
}

/// The view of what taking in a frame hands back.
pub open spec fn payload_result_view(r: Result<Option<WebsocketPayload>, FeedError>) -> Result<
    Option<WebsocketPayloadView>,
    FeedError,
> {
    match r {
        Ok(Some(p)) => Ok(Some(p@)),
        Ok(None) => Ok(None),
        Err(e) => Err(e),
    }
}

impl BybitWebsocketApi {
    /// What taking in the decoded message `msg` hands back.
    pub open spec fn decoded(self, msg: IncomingMessage) -> Result<
        Option<WebsocketPayloadView>,
        FeedError,
    > {
        match msg {
            IncomingMessage::Kline(response) => if response.data@.len() == 0 {
                Err(FeedError::EmptyKline)
            } else {
                match self.closes(response.data@[0]) {
                    Some(closed) => Ok(Some(Self::closed_payload(closed))),
                    None => Ok(None),
                }
            },
            _ => Ok(None),
        }
    }

    /// The feed after it has taken in the decoded message `msg`.
    pub open spec fn after_decoded(self, msg: IncomingMessage) -> BybitWebsocketApi {
        match msg {
            IncomingMessage::Kline(response) if response.data@.len() > 0 => self.after_kline(
                response.data@[0],
            ),
            _ => self,
        }
    }

    /// What taking in `ws_msg` hands back.
    pub open spec fn taken_in(self, ws_msg: Option<Result<Frame, FeedError>>) -> Result<
        Option<WebsocketPayloadView>,
        FeedError,
    > {
        if !self.ingesting {
            Ok(None)
        } else {
            match ws_msg {
                None => Ok(None),
                Some(Err(e)) => Err(e),
                Some(Ok(Frame::Other)) => Ok(None),
                Some(Ok(Frame::Text(msg))) => self.decoded(msg),
            }
        }
    }

    /// The feed after it has taken in `ws_msg`.
    pub open spec fn after_taken_in(
        self,
        ws_msg: Option<Result<Frame, FeedError>>,
    ) -> BybitWebsocketApi {
        if !self.ingesting {
            self
        } else if self.taken_in(ws_msg) is Err {
            BybitWebsocketApi { ingesting: false, ..self }
        } else {
            match ws_msg {
                Some(Ok(Frame::Text(msg))) => self.after_decoded(msg),
                _ => self,
            }
        }
    }

    /// The candles that the feed declares closed while it takes in `klines`
    /// in turn, in the order in which it does so.
    pub open spec fn closed_by(self, klines: Seq<Kline>) -> Seq<Kline>
        decreases klines.len(),
    {
        if klines.len() == 0 {
            Seq::empty()
        } else {
            let earlier = klines.drop_last();
            let before = self.after_klines(earlier);
            match before.closes(klines.last()) {
                Some(closed) => self.closed_by(earlier).push(closed),
                None => self.closed_by(earlier),
            }
        }
    }

    /// The feed after it has taken in `klines` in turn.
    pub open spec fn after_klines(self, klines: Seq<Kline>) -> BybitWebsocketApi
        decreases klines.len(),
    {
        if klines.len() == 0 {
            self
        } else {
            self.after_klines(klines.drop_last()).after_kline(klines.last())
        }
    }
}

/// While every update is of one bucket, a feed that starts with nothing
/// remembered declares no candle closed, and remembers the last update.
pub proof fn lemma_same_bucket_closes_nothing(feed: BybitWebsocketApi, klines: Seq<Kline>)
    requires
        feed.prev_kline is None,
        forall|i: int| 0 <= i < klines.len() ==> (#[trigger] klines[i]).start == klines[0].start,
    ensures
        feed.closed_by(klines).len() == 0,
        klines.len() > 0 ==> feed.after_klines(klines).prev_kline == Some(klines.last()),
        klines.len() == 0 ==> feed.after_klines(klines).prev_kline is None,
    decreases klines.len(),
{
    if klines.len() > 0 {
        let earlier = klines.drop_last();
        assert forall|i: int| 0 <= i < earlier.len() implies (#[trigger] earlier[i]).start
            == earlier[0].start by {
            assert(earlier[i] == klines[i]);
            assert(earlier[0] == klines[0]);
        }
        lemma_same_bucket_closes_nothing(feed, earlier);
        if earlier.len() > 0 {
            assert(earlier.last() == klines[earlier.len() - 1]);
        }
    }
}

/// A feed that starts with nothing remembered and sees any number of
/// updates of one bucket, followed by one update of another bucket, declares
/// exactly one candle closed: that of the last update of the first bucket,
/// at the moment the update of the other bucket arrives, and none before.
pub proof fn law_candle_close_emission(feed: BybitWebsocketApi, same: Seq<Kline>, next: Kline)
    requires
        feed.prev_kline is None,
        same.len() > 0,
        forall|i: int| 0 <= i < same.len() ==> (#[trigger] same[i]).start == same[0].start,
        next.start != same[0].start,
    ensures
        feed.closed_by(same).len() == 0,
        feed.closed_by(same.push(next)) == seq![same.last()],
{
    lemma_same_bucket_closes_nothing(feed, same);
    let all = same.push(next);
    assert(all.drop_last() == same);
    assert(same.last().start == same[0].start);
    assert(feed.closed_by(all) =~= seq![same.last()]);
}

} // verus!
