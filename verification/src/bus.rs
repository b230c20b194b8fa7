//! The message bus as the hub sees it: the requests that scripts make of
//! it, and the command that an incoming message turns into.

use vstd::prelude::*;
use vstd::std_specs::iter::IteratorSpec;
use vstd::utf8::encode_utf8;

verus! {

/// How hard the bus tries to deliver.
#[derive(Clone, Copy, Debug, PartialEq, Eq, Structural)]
pub enum QoS {
    AtMostOnce,
    AtLeastOnce,
    ExactlyOnce,
}

/// A request to receive what is published under a topic.
#[derive(Debug)]
pub struct Subscription {
    pub topic: String,
    pub qos: QoS,
}

/// A request to publish a payload under a topic.
#[derive(Debug)]
pub struct Publication {
    pub topic: String,
    pub qos: QoS,
    pub retain: bool,
    pub payload: Vec<u8>,
}

/// `text` with a backslash put before every double quote.
pub open spec fn escape_quotes(text: Seq<char>) -> Seq<char>
    decreases text.len(),
{
    if text.len() == 0 {
        Seq::<char>::empty()
    } else if text.last() == '"' {
        escape_quotes(text.drop_last()).push('\\').push('"')
    } else {
        escape_quotes(text.drop_last()).push(text.last())
    }
}

/// The code that a message of the bus submits to the actor: a call of
/// `handle-event` on the topic as it is and on the payload with its double
/// quotes escaped, both as string literals.
pub open spec fn event_code(topic: Seq<char>, payload: Seq<char>) -> Seq<char> {
    "(handle-event \""@ + topic + "\" \""@ + escape_quotes(payload) + "\")"@
}

/// What `subscribe` asks of the bus: the topic, delivered at most once.
pub fn subscribe_closure() -> (f: impl Fn(String) -> Subscription)
    ensures
        forall|topic: String| call_requires(f, (topic,)),
        forall|topic: String, s: Subscription|
            call_ensures(f, (topic,), s) ==> s.topic == topic && s.qos == QoS::AtMostOnce,
{
    |topic: String| -> (s: Subscription)
        ensures
            s.topic == topic,
            s.qos == QoS::AtMostOnce,
        { Subscription { topic, qos: QoS::AtMostOnce } }
}

/// What `send-simple` (with `retain` off) and `send-retain` (with `retain`
/// on) ask of the bus: the payload's bytes under the topic, delivered at
/// least once.
pub fn send_closure(retain: bool) -> (f: impl Fn(String, String) -> Publication)
    ensures
        forall|topic: String, payload: String| call_requires(f, (topic, payload)),
        forall|topic: String, payload: String, p: Publication|
            call_ensures(f, (topic, payload), p) ==> p.topic == topic && p.qos == QoS::AtLeastOnce
                && p.retain == retain && p.payload@ == encode_utf8(payload@),
{
    move |topic: String, payload: String| -> (p: Publication)
        ensures
            p.topic == topic,
            p.qos == QoS::AtLeastOnce,
            p.retain == retain,
            p.payload@ == encode_utf8(payload@),
        {
            let bytes = payload.as_str().as_bytes_vec();
            Publication { topic, qos: QoS::AtLeastOnce, retain, payload: bytes }
        }
}

/// The code that a message of the bus submits to the actor.
pub fn event_command(topic: &str, payload: &str) -> (code: String)
    ensures
        code@ == event_code(topic@, payload@),
{
    let mut code: String = "(handle-event \"".to_owned();
    code.append(topic);
    code.append("\" \"");
    let ghost head = code@;
    for c in it: payload.chars()
        invariant
            it.seq() == payload@,
            code@ == head + escape_quotes(payload@.take(it.index() as int)),
    {
        proof {
            let next = payload@.take(it.index() + 1);
            assert(next.drop_last() =~= payload@.take(it.index() as int));
            assert(next.last() == c);
        }
        if c == '"' {
            code.push('\\');
        }
        code.push(c);
    }
    proof {
        assert(payload@.take(payload@.len() as int) =~= payload@);
    }
    code.append("\")");
    code
}

} // verus!
