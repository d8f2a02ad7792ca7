//! Push-message subscription: decoded frames, messages, and the
//! subscription state machine.
//!
//! A pushed frame arrives as a [`Value`]. Only a frame shaped like a
//! message — an array whose first element is the tag `message` or
//! `pmessage`, with enough following elements — becomes a [`Msg`]; every
//! other frame (a subscribe acknowledgement, a wrong arity, an unknown
//! tag) is silently discarded and the loop keeps receiving.
//!
//! [`RedisPubSubFuture`] is the state machine of one subscription:
//! subscribe, receive frame after frame, hand each accepted message to the
//! caller's handler, and interpret the handler's control decision — keep
//! receiving, or unsubscribe (from all channels, then from all patterns)
//! and finish with the break value. The awaits themselves happen outside;
//! the caller feeds each arrived frame and each handler decision back in.
//! The connection handle is held by exactly one slot at every moment and
//! leaves the machine for good exactly once, on the terminal step.

use vstd::prelude::*;
use vstd::std_specs::cmp::PartialEqSpec;
use vstd::utf8::{decode_utf8, valid_utf8};

use crate::commands::{
    ascii_bytes, ascii_seq, clone_bytes, punsubscribe_command, punsubscribe_parts,
    unsubscribe_command, unsubscribe_parts, Command,
};

verus! {

/// A decoded value of the store's wire protocol, as plain data: raw byte
/// strings, integers, status lines (also as their bytes), the generic OK
/// confirmation, arrays, and the nil reply.
#[derive(Debug, PartialEq)]
pub enum Value {
    Nil,
    Int(i64),
    Data(Vec<u8>),
    Bulk(Vec<Value>),
    Status(Vec<u8>),
    Okay,
}

/// Represents a pubsub message: the payload, the channel it came on, and
/// the matched pattern when the subscription used pattern matching.
#[derive(Debug, PartialEq)]
pub struct Msg {
    pub payload: Value,
    pub channel: Value,
    pub pattern: Option<Value>,
}

/// Whether `v` is a byte-string value (raw or status) holding exactly the
/// bytes `tag`.
pub open spec fn tag_is(v: Value, tag: Seq<u8>) -> bool {
    match v {
        Value::Data(b) => b@ == tag,
        Value::Status(b) => b@ == tag,
        _ => false,
    }
}

/// The type tag of a plain message frame.
pub open spec fn message_tag() -> Seq<u8> {
    ascii_seq("message"@)
}

/// The type tag of a pattern-match message frame.
pub open spec fn pmessage_tag() -> Seq<u8> {
    ascii_seq("pmessage"@)
}

/// The message a pushed frame carries, if it carries one: an array tagged
/// `message` yields channel and payload; one tagged `pmessage` yields
/// pattern, channel and payload; elements beyond those are ignored. Every
/// other frame carries none and is to be discarded.
pub open spec fn msg_of(frame: Value) -> Option<Msg> {
    match frame {
        Value::Bulk(items) => {
            if items@.len() >= 3 && tag_is(items@[0], message_tag()) {
                Some(Msg { payload: items@[2], channel: items@[1], pattern: None })
            } else if items@.len() >= 4 && tag_is(items@[0], pmessage_tag()) {
                Some(Msg { payload: items@[3], channel: items@[2], pattern: Some(items@[1]) })
            } else {
                None
            }
        },
        _ => None,
    }
}

/// Byte-string equality over the contents.
fn bytes_eq(a: &Vec<u8>, b: &Vec<u8>) -> (r: bool)
    ensures
        r == (a@ == b@),
{
    let r = a == b;
    proof {
        if r {
            assert(a@ =~= b@);
        } else {
            if a@ == b@ {
                assert(a.eq_spec(b));
            }
        }
    }
    r
}

/// Whether `v` is a byte-string value holding exactly the bytes of `tag`.
fn value_is_bytes(v: &Value, tag: &Vec<u8>) -> (r: bool)
    ensures
        r == tag_is(*v, tag@),
{
    match v {
        Value::Data(b) => bytes_eq(b, tag),
        Value::Status(b) => bytes_eq(b, tag),
        _ => false,
    }
}

/// The bytes of the `message` tag.
fn message_tag_vec() -> (v: Vec<u8>)
    ensures
        v@ == message_tag(),
{
    proof {
        reveal_strlit("message");
        assert(vstd::string::is_ascii("message"));
    }
    ascii_bytes("message")
}

/// The bytes of the `pmessage` tag.
fn pmessage_tag_vec() -> (v: Vec<u8>)
    ensures
        v@ == pmessage_tag(),
{
    proof {
        reveal_strlit("pmessage");
        assert(vstd::string::is_ascii("pmessage"));
    }
    ascii_bytes("pmessage")
}

/// Decodes a pushed frame into the message it carries, or `None` for a
/// frame that is not a recognized message and is to be discarded.
pub fn value_to_msg(frame: Value) -> (r: Option<Msg>)
    ensures
        r == msg_of(frame),
{
    match frame {
        Value::Bulk(items) => {
            let ghost orig = items@;
            let mut items = items;
            if items.len() == 0 {
                return None;
            }
            let tag = items.remove(0);
            let is_msg = value_is_bytes(&tag, &message_tag_vec());
            let is_pmsg = value_is_bytes(&tag, &pmessage_tag_vec());
            if is_msg {
                if items.len() < 2 {
                    return None;
                }
                let channel = items.remove(0);
                let payload = items.remove(0);
                proof {
                    assert(channel == orig[1] && payload == orig[2]);
                }
                Some(Msg { payload, channel, pattern: None })
            } else if is_pmsg {
                if items.len() < 3 {
                    return None;
                }
                let pattern = items.remove(0);
                let channel = items.remove(0);
                let payload = items.remove(0);
                proof {
                    assert(pattern == orig[1] && channel == orig[2] && payload == orig[3]);
                }
                Some(Msg { payload, channel, pattern: Some(pattern) })
            } else {
                None
            }
        },
        _ => None,
    }
}

/// The characters a byte-string channel value reads as: its UTF-8 decoding,
/// or a single `?` when the value is not a valid UTF-8 byte string.
pub open spec fn channel_name_chars(v: Value) -> Seq<char> {
    match v {
        Value::Data(b) => if valid_utf8(b@) {
            decode_utf8(b@)
        } else {
            seq!['?']
        },
        _ => seq!['?'],
    }
}

/// Relies on `String::from_utf8` from std: it succeeds exactly on input
/// that is valid UTF-8, and then returns the string whose characters are
/// the decoding of those bytes.
#[verifier::external_body]
fn utf8_string(bytes: &Vec<u8>) -> (r: Option<String>)
    ensures
        r is Some <==> valid_utf8(bytes@),
        r matches Some(s) ==> s@ == decode_utf8(bytes@),
{
    String::from_utf8(bytes.clone()).ok()
}

impl Msg {
    /// Returns the channel this message came on.
    pub fn get_channel(&self) -> (r: &Value)
        ensures
            *r == self.channel,
    {
        &self.channel
    }

    /// Convenience method to get a string version of the channel: its
    /// UTF-8 decoding when the channel is a valid UTF-8 byte string, and
    /// `?` otherwise.
    pub fn get_channel_name(&self) -> (r: String)
        ensures
            r@ == channel_name_chars(self.channel),
    {
        let fallback = || -> (s: String)
            ensures
                s@ == seq!['?'],
            {
                proof {
                    reveal_strlit("?");
                    assert("?"@ =~= seq!['?']);
                }
                "?".to_owned()
            };
        match &self.channel {
            Value::Data(b) => {
                match utf8_string(b) {
                    Some(s) => s,
                    None => fallback(),
                }
            },
            _ => fallback(),
        }
    }

    /// Returns the message's payload.
    pub fn get_payload(&self) -> (r: &Value)
        ensures
            *r == self.payload,
    {
        &self.payload
    }

    /// Returns the bytes that are the message's payload, empty when the
    /// payload is not a raw byte string.
    pub fn get_payload_bytes(&self) -> (r: Vec<u8>)
        ensures
            r@ == (match self.payload {
                Value::Data(b) => b@,
                _ => Seq::<u8>::empty(),
            }),
    {
        match &self.payload {
            Value::Data(b) => clone_bytes(b),
            _ => {
                let r: Vec<u8> = Vec::new();
                proof {
                    assert(r@ =~= Seq::<u8>::empty());
                }
                r
            },
        }
    }

    /// Returns true if the message was constructed from a pattern
    /// subscription.
    pub fn from_pattern(&self) -> (r: bool)
        ensures
            r == (self.pattern is Some),
    {
        self.pattern.is_some()
    }

    /// The pattern the subscription matched this message with, if the
    /// message came from a pattern subscription.
    pub fn get_pattern(&self) -> (r: Option<&Value>)
        ensures
            r is Some <==> self.pattern is Some,
            r matches Some(p) ==> self.pattern == Some(*p),
    {
        self.pattern.as_ref()
    }
}

/// The phase of a subscription:
/// subscribing → receiving ⇄ processing → unsubscribing → done.
pub enum SubPhase {
    /// The subscribe command is in flight.
    Subscribing,
    /// Awaiting the next pushed frame; the connection is in that await.
    Receiving,
    /// The handler is deciding; the machine holds the connection locally.
    Processing,
    /// The unsubscribe-from-all-channels command is in flight.
    Unsubscribing,
    /// The unsubscribe-from-all-patterns command is in flight.
    PatternUnsubscribing,
    /// Terminal: the connection has been handed back, exactly once.
    Done,
}

/// What the machine asks for after a frame arrived.
pub enum FrameStep<C> {
    /// The frame is a message: hand it to the handler, then feed the
    /// handler's decision to `on_decision`. The machine keeps the
    /// connection meanwhile.
    Deliver(Msg),
    /// The frame is not a message: discard it and await the next frame on
    /// this connection.
    Skip(C),
}

/// What the machine asks for after the handler decided.
pub enum DecisionStep<C, E> {
    /// The handler chose to continue: await the next frame on this
    /// connection.
    Resume(C),
    /// The handler chose to break: issue this unsubscribe command on this
    /// connection and feed the acknowledgement to `on_unsubscribed`.
    Unsubscribe(C, Command),
    /// The handler failed: the subscription ends at once, surfacing the
    /// connection and the error, with no unsubscribe attempted.
    Abort(C, E),
}

/// The subscription state machine. `C` is the connection handle, `U` the
/// caller-chosen break-value type.
pub struct RedisPubSubFuture<C, U> {
    phase: SubPhase,
    con: Option<C>,
    value: Option<U>,
    handled: Ghost<Seq<Msg>>,
}

impl<C, U> RedisPubSubFuture<C, U> {
    /// The machine's phase.
    pub closed spec fn phase(self) -> SubPhase {
        self.phase
    }

    /// The machine's holding slot for the connection, occupied exactly
    /// while the handler is deciding.
    pub closed spec fn con_slot(self) -> Option<C> {
        self.con
    }

    /// The break value carried from the handler's decision to the terminal
    /// step, present exactly while unsubscribing.
    pub closed spec fn value_slot(self) -> Option<U> {
        self.value
    }

    /// The messages handed to the handler so far, in receipt order.
    pub closed spec fn handled(self) -> Seq<Msg> {
        self.handled@
    }

    /// Well-formedness: the connection is held locally exactly while the
    /// handler is deciding, and a break value is carried exactly while the
    /// unsubscribe commands run.
    pub open spec fn wf(self) -> bool {
        &&& (self.con_slot() is Some <==> self.phase() is Processing)
        &&& (self.value_slot() is Some <==> (self.phase() is Unsubscribing
            || self.phase() is PatternUnsubscribing))
    }

    /// Starts a subscription: the caller issues the subscribe (or
    /// pattern-subscribe) command and feeds its acknowledgement to
    /// `on_subscribed`.
    pub fn new() -> (r: RedisPubSubFuture<C, U>)
        ensures
            r.wf(),
            r.phase() is Subscribing,
            r.handled() == Seq::<Msg>::empty(),
    {
        RedisPubSubFuture { phase: SubPhase::Subscribing, con: None, value: None, handled: Ghost(Seq::empty()) }
    }

    /// The subscribe command was acknowledged: start receiving. The
    /// connection goes straight back out, into the await for the first
    /// pushed frame.
    pub fn on_subscribed(&mut self, con: C) -> (r: C)
        requires
            old(self).wf(),
            old(self).phase() is Subscribing,
        ensures
            final(self).wf(),
            final(self).phase() is Receiving,
            final(self).handled() == old(self).handled(),
            r == con,
    {
        self.phase = SubPhase::Receiving;
        con
    }

    /// A pushed frame arrived. A frame that is not a recognized message is
    /// discarded: the machine stays unchanged in the receiving phase, no
    /// message reaches the handler, and the connection goes back into the
    /// next await. A message frame moves the machine to processing: the
    /// connection is retained locally and the message — appended to
    /// `handled()` — is handed out for the handler.
    pub fn on_frame(&mut self, con: C, frame: Value) -> (r: FrameStep<C>)
        requires
            old(self).wf(),
            old(self).phase() is Receiving,
        ensures
            final(self).wf(),
            match msg_of(frame) {
                Some(m) => {
                    &&& r == FrameStep::<C>::Deliver(m)
                    &&& final(self).phase() is Processing
                    &&& final(self).con_slot() == Some(con)
                    &&& final(self).handled() == old(self).handled().push(m)
                },
                None => {
                    &&& r == FrameStep::Skip(con)
                    &&& *final(self) == *old(self)
                },
            },
    {
        match value_to_msg(frame) {
            Some(msg) => {
                self.con = Some(con);
                self.phase = SubPhase::Processing;
                self.handled = Ghost(self.handled@.push(msg));
                FrameStep::Deliver(msg)
            },
            None => FrameStep::Skip(con),
        }
    }

    /// The handler decided. Continue resumes receiving: the connection
    /// leaves the holding slot for the next await. Break starts the
    /// unsubscribe sequence, carrying the break value: the machine hands
    /// out the unsubscribe-from-all-channels command to issue. A handler
    /// error terminates at once: the connection and the error surface to
    /// the caller and the machine is done.
    pub fn on_decision<E>(&mut self, decision: Result<ControlFlow<U>, E>) -> (r: DecisionStep<C, E>)
        requires
            old(self).wf(),
            old(self).phase() is Processing,
        ensures
            final(self).wf(),
            final(self).handled() == old(self).handled(),
            match decision {
                Ok(ControlFlow::Continue) => {
                    &&& r == DecisionStep::<C, E>::Resume(old(self).con_slot().unwrap())
                    &&& final(self).phase() is Receiving
                },
                Ok(ControlFlow::Break(u)) => {
                    &&& (match r {
                        DecisionStep::Unsubscribe(c, cmd) => {
                            &&& c == old(self).con_slot().unwrap()
                            &&& cmd@ == unsubscribe_parts()
                        },
                        _ => false,
                    })
                    &&& final(self).phase() is Unsubscribing
                    &&& final(self).value_slot() == Some(u)
                },
                Err(e) => {
                    &&& r == DecisionStep::<C, E>::Abort(old(self).con_slot().unwrap(), e)
                    &&& final(self).phase() is Done
                },
            },
    {
        let con = self.con.take().unwrap();
        match decision {
            Ok(ControlFlow::Continue) => {
                self.phase = SubPhase::Receiving;
                DecisionStep::Resume(con)
            },
            Ok(ControlFlow::Break(u)) => {
                self.phase = SubPhase::Unsubscribing;
                self.value = Some(u);
                DecisionStep::Unsubscribe(con, unsubscribe_command())
            },
            Err(e) => {
                self.phase = SubPhase::Done;
                DecisionStep::Abort(con, e)
            },
        }
    }

    /// The unsubscribe-from-all-channels command was acknowledged: the
    /// machine hands out the unsubscribe-from-all-patterns command, issued
    /// unconditionally regardless of which subscribe variant started the
    /// subscription.
    pub fn on_unsubscribed(&mut self, con: C) -> (r: (C, Command))
        requires
            old(self).wf(),
            old(self).phase() is Unsubscribing,
        ensures
            final(self).wf(),
            final(self).phase() is PatternUnsubscribing,
            final(self).value_slot() == old(self).value_slot(),
            final(self).handled() == old(self).handled(),
            r.0 == con,
            r.1@ == punsubscribe_parts(),
    {
        self.phase = SubPhase::PatternUnsubscribing;
        (con, punsubscribe_command())
    }

    /// The unsubscribe-from-all-patterns command was acknowledged: the
    /// subscription is done. The connection and the carried break value go
    /// back to the caller, exactly once.
    pub fn on_pattern_unsubscribed(&mut self, con: C) -> (r: (C, U))
        requires
            old(self).wf(),
            old(self).phase() is PatternUnsubscribing,
        ensures
            final(self).wf(),
            final(self).phase() is Done,
            final(self).handled() == old(self).handled(),
            r.0 == con,
            Some(r.1) == old(self).value_slot(),
    {
        self.phase = SubPhase::Done;
        let value = self.value.take().unwrap();
        (con, value)
    }
}

/// The value a subscription handler returns for each message: keep
/// receiving, or terminate the subscription with a final value.
pub enum ControlFlow<U> {
    /// Continue the subscription and receive the next message.
    Continue,
    /// Unsubscribe and resolve the subscription with this value.
    Break(U),
}

/// Connection-linearity law for the subscription: a well-formed machine
/// holds the connection locally exactly while the handler is deciding; in
/// every other phase the handle sits in the caller's single await, or has
/// already been returned by the terminal step.
pub proof fn lemma_subscription_connection_linear<C, U>(m: RedisPubSubFuture<C, U>)
    requires
        m.wf(),
    ensures
        m.con_slot() is Some <==> m.phase() is Processing,
{
}

} // verus!
