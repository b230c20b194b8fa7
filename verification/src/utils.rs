//! Utilities that the hub offers to scripts: random identifiers, the
//! current time, digests, and the registration of timers.

use vstd::prelude::*;
use vstd::utf8::encode_utf8;
use std::sync::mpsc::Sender;
use rand::Rng;
use crate::channel::send_or_return;
use crate::timer::{clock_of, TimedEvent};

verus! {

/// The MD5 digest of `data`, as `md5::compute` returns it.
pub uninterp spec fn md5_digest(data: Seq<u8>) -> Seq<u8>;

/// An ASCII letter or digit.
pub open spec fn is_alphanumeric(b: u8) -> bool {
    ('a' as u8 <= b <= 'z' as u8) || ('A' as u8 <= b <= 'Z' as u8) || ('0' as u8 <= b <= '9' as u8)
}

/// A lower-case ASCII letter or a digit.
pub open spec fn is_lower_alphanumeric(c: char) -> bool {
    ('a' <= c <= 'z') || ('0' <= c <= '9')
}

/// The character that writes `n`, a number below 16, in lower-case
/// hexadecimal.
pub open spec fn hex_digit(n: int) -> char {
    if n < 10 {
        ('0' as u8 + n) as char
    } else {
        ('a' as u8 + (n - 10)) as char
    }
}

/// The lower-case hexadecimal text of `data`: two digits for each byte, the
/// high half first.
pub open spec fn hex_lower(data: Seq<u8>) -> Seq<char>
    decreases data.len(),
{
    if data.len() == 0 {
        Seq::<char>::empty()
    } else {
        hex_lower(data.drop_last()).push(hex_digit(data.last() as int / 16)).push(
            hex_digit(data.last() as int % 16),
        )
    }
}

/// The bytes of the texts in UTF-8, one text after the other.
pub open spec fn utf8_of_all(texts: Seq<Seq<char>>) -> Seq<u8>
    decreases texts.len(),
{
    if texts.len() == 0 {
        Seq::<u8>::empty()
    } else {
        utf8_of_all(texts.drop_last()) + encode_utf8(texts.last())
    }
}

/// Hexadecimal text has two characters for each byte.
pub proof fn lemma_hex_lower_len(data: Seq<u8>)
    ensures
        hex_lower(data).len() == 2 * data.len(),
    decreases data.len(),
{
    if data.len() > 0 {
        lemma_hex_lower_len(data.drop_last());
    }
}

/// `Rng::sample_iter` over `rand::distributions::Alphanumeric`, on the
/// thread's own generator: each sample is an ASCII letter or digit, and
/// `take` ends the stream after `length` of them.
#[verifier::external_body]
fn sample_alphanumeric(length: usize) -> (sample: Vec<u8>)
    requires
        length <= isize::MAX,
    ensures
        sample@.len() == length,
        forall|i: int| 0 <= i < sample@.len() ==> is_alphanumeric(#[trigger] sample@[i]),
{
    rand::thread_rng().sample_iter(&rand::distributions::Alphanumeric).take(length).collect()
}

/// `md5::compute` returns the MD5 digest of the data, which has 16 bytes.
#[verifier::external_body]
fn md5_of(data: &Vec<u8>) -> (digest: Vec<u8>)
    ensures
        digest@ == md5_digest(data@),
        digest@.len() == 16,
{
    md5::compute(data).0.to_vec()
}

/// `hex::encode` writes each byte as two lower-case hexadecimal digits.
#[verifier::external_body]
fn hex_encode(data: &Vec<u8>) -> (text: String)
    ensures
        text@ == hex_lower(data@),
{
    hex::encode(data)
}

/// A random string of `length` lower-case letters and digits.
pub fn random_string(length: usize) -> (s: String)
    requires
        length <= isize::MAX,
    ensures
        s@.len() == length,
        forall|i: int| 0 <= i < s@.len() ==> is_lower_alphanumeric(#[trigger] s@[i]),
{
    let sample = sample_alphanumeric(length);
    let mut s: String = String::new();
    let mut i: usize = 0;
    while i < sample.len()
        invariant
            i <= sample.len(),
            s@.len() == i,
            forall|k: int| 0 <= k < sample@.len() ==> is_alphanumeric(#[trigger] sample@[k]),
            forall|k: int| 0 <= k < s@.len() ==> is_lower_alphanumeric(#[trigger] s@[k]),
        decreases sample.len() - i,
    {
        let b: u8 = sample[i];
        assert(is_alphanumeric(sample@[i as int]));
        let lower: u8 = if b >= 65 && b <= 90 {
            b + 32
        } else {
            b
        };
        s.push(lower as char);
        i += 1;
    }
    s
}

/// The current time in seconds since the beginning of 1970, as
/// `chrono::Local::now` and `DateTime::timestamp` give it. Nothing is
/// claimed of it.
#[verifier::external_body]
pub fn current_timestamp() -> (seconds: i64) {
    chrono::Local::now().timestamp()
}

/// The MD5 digest, in lower-case hexadecimal, of the inputs taken together
/// as one stream of bytes.
pub fn get_md5(inputs: Vec<String>) -> (hexdigest: String)
    ensures
        hexdigest@ == hex_lower(md5_digest(utf8_of_all(inputs.deep_view()))),
        hexdigest@.len() == 32,
{
    let mut data: Vec<u8> = Vec::new();
    let mut i: usize = 0;
    while i < inputs.len()
        invariant
            i <= inputs.len(),
            data@ == utf8_of_all(inputs.deep_view().take(i as int)),
        decreases inputs.len() - i,
    {
        proof {
            let upto = inputs.deep_view().take(i + 1);
            assert(upto.drop_last() =~= inputs.deep_view().take(i as int));
            assert(upto.last() == inputs[i as int]@);
        }
        data.extend_from_slice(inputs[i].as_str().as_bytes());
        i += 1;
    }
    proof {
        assert(inputs.deep_view().take(inputs.len() as int) =~= inputs.deep_view());
    }
    let digest = md5_of(&data);
    proof {
        lemma_hex_lower_len(digest@);
    }
    hex_encode(&digest)
}

/// What `set-timer` does: it registers a daily trigger for a time written
/// as `HH:MM` under an id, by sending it to the timer subsystem through
/// `tx`. The result says whether the timer subsystem was still there.
///
/// The time must be one that [`crate::timer::parse_clock`] reads.
pub fn set_timer_closure(tx: Sender<TimedEvent>) -> (f: impl Fn(String, String) -> bool)
    ensures
        forall|time_str: String, id: String|
            clock_of(time_str@) is Some ==> call_requires(f, (time_str, id)),
{
    move |time_str: String, id: String| -> (sent: bool)
        requires
            clock_of(time_str@) is Some,
        {
            send_or_return(&tx, TimedEvent::register(time_str, id)).is_ok()
        }
}

} // verus!
