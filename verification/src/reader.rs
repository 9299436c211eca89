use crate::sink::ResponseMeta;
use crate::sink::SendError;
use vstd::prelude::*;
use vstd::utf8::decode_utf8;
use vstd::utf8::valid_utf8;

verus! {

/// One observation a stream reader makes after waiting for its connection
/// to become readable.
pub enum ReadEvent {
    /// Zero bytes were read: the peer closed cleanly.
    Closed,
    /// The bytes of one successful read.
    Data(Vec<u8>),
    /// The readiness report was a false positive: the read would block.
    WouldBlock,
    /// Any other read error.
    Failed,
}

/// What the reader does next for one observation.
pub enum ReadStep {
    /// The connection is done; the reader task terminates.
    Finish,
    /// Forward this decoded chunk as one message, then wait again.
    Forward(String),
    /// Consume nothing and wait for readability again.
    AwaitAgain,
    /// The chunk is not valid text; fatal under the baseline policy.
    AbortInvalidText,
}

/// How a reader leaves (or has not yet left) its loop.
#[derive(Clone, Copy, Debug, PartialEq, Eq, Structural)]
pub enum ReaderOutcome {
    /// The events seen so far end no connection: the reader is still waiting.
    Running,
    /// The peer closed cleanly.
    Finished,
    /// A chunk failed to decode; the baseline aborts.
    Aborted,
}

/// Relies on core::str::from_utf8: it succeeds exactly on valid UTF-8 input
/// and yields the characters that the bytes encode.
#[verifier::external_body]
fn decode_chunk(bytes: &Vec<u8>) -> (r: Option<String>)
    ensures
        r is Some <==> valid_utf8(bytes@),
        r matches Some(s) ==> s@ == decode_utf8(bytes@),
{
    match core::str::from_utf8(bytes.as_slice()) {
        Ok(s) => Some(s.to_owned()),
        Err(_) => None,
    }
}

/// Decides the reader's next step for one observation: a clean close ends
/// the task; a chunk of valid text is forwarded as one message; a spurious
/// readiness report or any other read error consumes nothing and waits
/// again; a chunk that is not valid text aborts.
pub fn read_step(event: ReadEvent) -> (r: ReadStep)
    ensures
        event is Closed <==> r is Finish,
        r is AwaitAgain <==> (event is WouldBlock || event is Failed),
        event matches ReadEvent::Data(b) ==> (if valid_utf8(b@) {
            r matches ReadStep::Forward(m) && m@ == decode_utf8(b@)
        } else {
            r is AbortInvalidText
        }),
{
    match event {
        ReadEvent::Closed => ReadStep::Finish,
        ReadEvent::Data(b) => match decode_chunk(&b) {
            Some(text) => ReadStep::Forward(text),
            None => ReadStep::AbortInvalidText,
        },
        ReadEvent::WouldBlock => ReadStep::AwaitAgain,
        ReadEvent::Failed => ReadStep::AwaitAgain,
    }
}

/// Forwarding is fire-and-forget: whatever the sink reported for the last
/// message — success or any classified failure — the reader resumes waiting
/// for the next chunk. Failures are contained to a log line; they never end
/// the connection or the server.
pub fn resume_after_forward(outcome: &Result<ResponseMeta, SendError>) -> (r: ReadStep)
    ensures
        r is AwaitAgain,
{
    match outcome {
        Ok(_) => ReadStep::AwaitAgain,
        Err(_) => ReadStep::AwaitAgain,
    }
}

/// The texts a reader forwards for one connection's observations, in
/// order: each valid chunk up to the first clean close or decode failure.
pub open spec fn forwarded_texts(events: Seq<ReadEvent>) -> Seq<Seq<char>>
    decreases events.len(),
{
    if events.len() == 0 {
        seq![]
    } else {
        match events.first() {
            ReadEvent::Closed => seq![],
            ReadEvent::Data(b) => if valid_utf8(b@) {
                seq![decode_utf8(b@)] + forwarded_texts(events.drop_first())
            } else {
                seq![]
            },
            ReadEvent::WouldBlock => forwarded_texts(events.drop_first()),
            ReadEvent::Failed => forwarded_texts(events.drop_first()),
        }
    }
}

/// How the reader leaves its loop for one connection's observations.
pub open spec fn reader_outcome(events: Seq<ReadEvent>) -> ReaderOutcome
    decreases events.len(),
{
    if events.len() == 0 {
        ReaderOutcome::Running
    } else {
        match events.first() {
            ReadEvent::Closed => ReaderOutcome::Finished,
            ReadEvent::Data(b) => if valid_utf8(b@) {
                reader_outcome(events.drop_first())
            } else {
                ReaderOutcome::Aborted
            },
            ReadEvent::WouldBlock => reader_outcome(events.drop_first()),
            ReadEvent::Failed => reader_outcome(events.drop_first()),
        }
    }
}

/// Runs the reader's decision loop over one connection's observations and
/// returns the messages it forwards together with how it left the loop.
/// The result depends on this connection's events alone, so no other
/// connection can change or delay them.
pub fn collect_forwards(events: &Vec<ReadEvent>) -> (r: (Vec<String>, ReaderOutcome))
    ensures
        r.0.deep_view() == forwarded_texts(events@),
        r.1 == reader_outcome(events@),
{
    let mut msgs: Vec<String> = Vec::new();
    let mut outcome = ReaderOutcome::Running;
    let mut i: usize = 0;
    let n = events.len();
    proof {
        assert(events@.skip(0) =~= events@);
        assert(Seq::<Seq<char>>::empty() + forwarded_texts(events@) =~~= forwarded_texts(events@));
        assert(msgs.deep_view() =~~= Seq::<Seq<char>>::empty());
    }
    while i < n && outcome == ReaderOutcome::Running
        invariant
            i <= n,
            n == events@.len(),
            outcome is Running ==> forwarded_texts(events@) == msgs.deep_view()
                + forwarded_texts(events@.skip(i as int)),
            outcome is Running ==> reader_outcome(events@) == reader_outcome(
                events@.skip(i as int),
            ),
            !(outcome is Running) ==> msgs.deep_view() == forwarded_texts(events@) && outcome
                == reader_outcome(events@),
        decreases n - i, (if outcome is Running { 1int } else { 0int }),
    {
        proof {
            assert(events@.skip(i as int).first() == events@[i as int]);
            assert(events@.skip(i as int).drop_first() =~= events@.skip(i as int + 1));
        }
        let ghost pre = msgs.deep_view();
        match &events[i] {
            ReadEvent::Closed => {
                proof {
                    assert(forwarded_texts(events@.skip(i as int)) =~~= Seq::<Seq<char>>::empty());
                    assert(msgs.deep_view() + Seq::<Seq<char>>::empty() =~~= msgs.deep_view());
                }
                outcome = ReaderOutcome::Finished;
            },
            ReadEvent::Data(b) => {
                match decode_chunk(b) {
                    Some(text) => {
                        msgs.push(text);
                        i = i + 1;
                        proof {
                            assert(msgs.deep_view() =~~= pre.push(decode_utf8(b@)));
                            assert(pre.push(decode_utf8(b@)) + forwarded_texts(
                                events@.skip(i as int),
                            ) =~~= pre + (seq![decode_utf8(b@)] + forwarded_texts(
                                events@.skip(i as int),
                            )));
                        }
                    },
                    None => {
                        proof {
                            assert(forwarded_texts(events@.skip(i as int))
                                =~~= Seq::<Seq<char>>::empty());
                            assert(msgs.deep_view() + Seq::<Seq<char>>::empty()
                                =~~= msgs.deep_view());
                        }
                        outcome = ReaderOutcome::Aborted;
                    },
                }
            },
            ReadEvent::WouldBlock => {
                i = i + 1;
            },
            ReadEvent::Failed => {
                i = i + 1;
            },
        }
    }
    proof {
        if outcome is Running {
            assert(events@.skip(n as int) =~= Seq::<ReadEvent>::empty());
            assert(msgs.deep_view() + Seq::<Seq<char>>::empty() =~~= msgs.deep_view());
        }
    }
    (msgs, outcome)
}

} // verus!
