//! The decisions of the packet streaming endpoints: how many packets a produce request
//! yields and what they hold, and how a consumed stream is counted and answered.
//!
//! The endpoints themselves await the stream; here each arrival is one step from the
//! count so far to the next count or to the reply.

use vstd::prelude::*;
use crate::messages::{ConsumeResponse, ProduceRequest};

verus! {

/// Size in bytes of one produced voice frame.
pub const VOICE_FRAME_BYTES: usize = 160;

/// Which streaming service is answering; the two word their replies differently.
#[derive(Debug, Clone, Copy, PartialEq, Eq, Structural)]
pub enum PacketEndpoint {
    /// The packet streams of the vocoder service.
    VocoderService,
    /// The plain packet service.
    PacketService,
}

/// The character of a decimal digit.
pub open spec fn digit_char(d: nat) -> char {
    if d == 0 {
        '0'
    } else if d == 1 {
        '1'
    } else if d == 2 {
        '2'
    } else if d == 3 {
        '3'
    } else if d == 4 {
        '4'
    } else if d == 5 {
        '5'
    } else if d == 6 {
        '6'
    } else if d == 7 {
        '7'
    } else if d == 8 {
        '8'
    } else {
        '9'
    }
}

/// The decimal digits of a number, most significant first, without leading zeros.
pub open spec fn decimal(n: nat) -> Seq<char>
    decreases n,
{
    if n < 10 {
        seq![digit_char(n)]
    } else {
        decimal(n / 10) + seq![digit_char(n % 10)]
    }
}

/// The value of a decimal digit character (0 for any other character).
pub open spec fn digit_value(c: char) -> nat {
    if '0' <= c <= '9' {
        (c as nat - '0' as nat) as nat
    } else {
        0
    }
}

/// The number that a string of decimal digits spells.
pub open spec fn decimal_value(digits: Seq<char>) -> nat
    decreases digits.len(),
{
    if digits.len() == 0 {
        0
    } else {
        decimal_value(digits.drop_last()) * 10 + digit_value(digits.last())
    }
}

/// The reply text of a stream that ended after `count` packets.
pub open spec fn success_message(endpoint: PacketEndpoint, count: nat) -> Seq<char> {
    match endpoint {
        PacketEndpoint::VocoderService => "Successfully processed "@ + decimal(count)
            + " packets"@,
        PacketEndpoint::PacketService => "PacketService: Processed "@ + decimal(count)
            + " packets"@,
    }
}

/// The reply text of a stream that failed with the given error text.
pub open spec fn failure_message(endpoint: PacketEndpoint, error: Seq<char>) -> Seq<char> {
    match endpoint {
        PacketEndpoint::VocoderService => "Error processing packets: "@ + error,
        PacketEndpoint::PacketService => "Packet service error: "@ + error,
    }
}

/// The number of packets that a produce request yields: what it asks for, but at least one.
pub open spec fn produced_count(request: ProduceRequest) -> int {
    if request.max_packets < 1 {
        1
    } else {
        request.max_packets as int
    }
}

/// The text of one decimal digit.
fn digit_text(d: u32) -> (text: &'static str)
    requires
        d < 10,
    ensures
        text@ == seq![digit_char(d as nat)],
{
    if d == 0 {
        proof {
            reveal_strlit("0");
        }
        "0"
    } else if d == 1 {
        proof {
            reveal_strlit("1");
        }
        "1"
    } else if d == 2 {
        proof {
            reveal_strlit("2");
        }
        "2"
    } else if d == 3 {
        proof {
            reveal_strlit("3");
        }
        "3"
    } else if d == 4 {
        proof {
            reveal_strlit("4");
        }
        "4"
    } else if d == 5 {
        proof {
            reveal_strlit("5");
        }
        "5"
    } else if d == 6 {
        proof {
            reveal_strlit("6");
        }
        "6"
    } else if d == 7 {
        proof {
            reveal_strlit("7");
        }
        "7"
    } else if d == 8 {
        proof {
            reveal_strlit("8");
        }
        "8"
    } else {
        proof {
            reveal_strlit("9");
        }
        "9"
    }
}

/// Append the decimal digits of a number to a text.
fn append_decimal(text: &mut String, n: u32)
    ensures
        final(text)@ == old(text)@ + decimal(n as nat),
    decreases n,
{
    if n >= 10 {
        append_decimal(text, n / 10);
    }
    text.append(digit_text(n % 10));
    proof {
        if n >= 10 {
            assert(decimal(n as nat) == decimal((n / 10) as nat) + seq![digit_char((n % 10) as nat)]);
        }
    }
}

/// Count of the packets received so far on a consumed stream.
#[derive(Debug, Clone, Copy, PartialEq, Eq, Structural)]
pub struct PacketTally {
    received: u32,
}

impl View for PacketTally {
    type V = nat;

    /// The number of packets counted.
    closed spec fn view(&self) -> nat {
        self.received as nat
    }
}

impl PacketTally {
    /// A tally of no packets.
    pub fn new() -> (tally: Self)
        ensures
            tally@ == 0,
    {
        PacketTally { received: 0 }
    }

    /// The number of packets counted.
    pub fn received(&self) -> (count: u32)
        ensures
            count == self@,
    {
        self.received
    }
}

/// What the consumed stream delivered next.
#[derive(Debug)]
pub enum ConsumeEvent {
    /// A packet arrived.
    Received,
    /// The stream broke with an error, given as its text.
    Failed(String),
    /// The stream ended.
    Ended,
}

/// What an endpoint does after an event of the consumed stream.
#[derive(Debug)]
pub enum ConsumeStep {
    /// Go on reading, with this tally.
    Continue(PacketTally),
    /// Stop reading and answer with this reply.
    Reply(ConsumeResponse),
}

/// One step of consuming a packet stream. A packet is counted; an error ends the
/// stream with a failure reply that carries the error text; the end of the stream is
/// answered with success and the number of packets received.
pub fn consume_step(endpoint: PacketEndpoint, tally: PacketTally, event: ConsumeEvent) -> (step:
    ConsumeStep)
    requires
        event is Received ==> tally@ < i32::MAX,
    ensures
        match event {
            ConsumeEvent::Received => step matches ConsumeStep::Continue(next) && next@ == tally@
                + 1,
            ConsumeEvent::Failed(error) => step matches ConsumeStep::Reply(reply) && !reply.success
                && reply.message@ == failure_message(endpoint, error@),
            ConsumeEvent::Ended => step matches ConsumeStep::Reply(reply) && reply.success
                && reply.message@ == success_message(endpoint, tally@),
        },
{
    match event {
        ConsumeEvent::Received => ConsumeStep::Continue(PacketTally { received: tally.received + 1 }),
        ConsumeEvent::Failed(error) => {
            let mut message = match endpoint {
                PacketEndpoint::VocoderService => String::from_str("Error processing packets: "),
                PacketEndpoint::PacketService => String::from_str("Packet service error: "),
            };
            message.append(error.as_str());
            ConsumeStep::Reply(ConsumeResponse { success: false, message })
        },
        ConsumeEvent::Ended => {
            let mut message = match endpoint {
                PacketEndpoint::VocoderService => String::from_str("Successfully processed "),
                PacketEndpoint::PacketService => String::from_str("PacketService: Processed "),
            };
            append_decimal(&mut message, tally.received);
            message.append(" packets");
            ConsumeStep::Reply(ConsumeResponse { success: true, message })
        },
    }
}

/// The number of packets that a produce request yields.
pub fn produced_packet_count(request: &ProduceRequest) -> (count: usize)
    ensures
        count == produced_count(*request),
{
    if request.max_packets < 1 {
        1
    } else {
        request.max_packets as usize
    }
}

/// One produced packet: a silent voice frame and its sequence number.
#[derive(Debug)]
pub struct PacketFrame {
    pub data: Vec<u8>,
    pub sequence_number: i32,
}

/// The produced packet at the given position of the stream: a frame of
/// [`VOICE_FRAME_BYTES`] zero bytes, numbered by its position.
pub fn silent_frame(index: usize) -> (frame: PacketFrame)
    requires
        index <= i32::MAX,
    ensures
        frame.data@ == Seq::new(VOICE_FRAME_BYTES as nat, |i: int| 0u8),
        frame.sequence_number == index,
{
    let data = vec![0u8; VOICE_FRAME_BYTES];
    assert(data@ =~= Seq::new(VOICE_FRAME_BYTES as nat, |i: int| 0u8));
    PacketFrame { data, sequence_number: index as i32 }
}

/// The reply to an ended stream spells out the exact number of packets received: it
/// is the endpoint's fixed opening, then decimal digits whose value is the count, then
/// " packets".
pub proof fn lemma_success_message(endpoint: PacketEndpoint, count: nat)
    ensures
        ({
            let m = success_message(endpoint, count);
            let opening = match endpoint {
                PacketEndpoint::VocoderService => "Successfully processed "@,
                PacketEndpoint::PacketService => "PacketService: Processed "@,
            };
            let digits = m.subrange(opening.len() as int, m.len() - 8);
            &&& m.len() >= opening.len() + 9
            &&& m.subrange(0, opening.len() as int) == opening
            &&& m.subrange(m.len() - 8, m.len() as int) == " packets"@
            &&& decimal_value(digits) == count
            &&& forall|i: int| 0 <= i < digits.len() ==> '0' <= #[trigger] digits[i] <= '9'
        }),
{
    reveal_strlit(" packets");
    reveal_strlit("Successfully processed ");
    reveal_strlit("PacketService: Processed ");
    lemma_decimal_value(count);
    let m = success_message(endpoint, count);
    let opening = match endpoint {
        PacketEndpoint::VocoderService => "Successfully processed "@,
        PacketEndpoint::PacketService => "PacketService: Processed "@,
    };
    assert(m == opening + decimal(count) + " packets"@);
    assert(m.subrange(0, opening.len() as int) =~= opening);
    assert(m.subrange(m.len() - 8, m.len() as int) =~= " packets"@);
    assert(m.subrange(opening.len() as int, m.len() - 8) =~= decimal(count));
}

/// The reply to a broken stream is the endpoint's fixed opening followed by the
/// error text, unchanged.
pub proof fn lemma_failure_message(endpoint: PacketEndpoint, error: Seq<char>)
    ensures
        ({
            let m = failure_message(endpoint, error);
            let opening = match endpoint {
                PacketEndpoint::VocoderService => "Error processing packets: "@,
                PacketEndpoint::PacketService => "Packet service error: "@,
            };
            &&& m.len() == opening.len() + error.len()
            &&& m.subrange(0, opening.len() as int) == opening
            &&& m.subrange(opening.len() as int, m.len() as int) == error
        }),
{
    let m = failure_message(endpoint, error);
    let opening = match endpoint {
        PacketEndpoint::VocoderService => "Error processing packets: "@,
        PacketEndpoint::PacketService => "Packet service error: "@,
    };
    assert(m.subrange(0, opening.len() as int) =~= opening);
    assert(m.subrange(opening.len() as int, m.len() as int) =~= error);
}

/// A produce request yields what it asks for when that is at least one packet, and
/// exactly one packet otherwise; never fewer than one, never fewer than asked.
pub proof fn lemma_produced_count(request: ProduceRequest)
    ensures
        request.max_packets >= 1 ==> produced_count(request) == request.max_packets,
        request.max_packets < 1 ==> produced_count(request) == 1,
        produced_count(request) >= 1,
        produced_count(request) >= request.max_packets,
{
}

/// The digit character of a digit has that digit's value.
proof fn lemma_digit_char_value(d: nat)
    requires
        d < 10,
    ensures
        digit_value(digit_char(d)) == d,
        '0' <= digit_char(d) <= '9',
{
    assert('0' as nat == 48 && '9' as nat == 57);
    assert('1' as nat == 49 && '2' as nat == 50 && '3' as nat == 51 && '4' as nat == 52);
    assert('5' as nat == 53 && '6' as nat == 54 && '7' as nat == 55 && '8' as nat == 56);
}

/// The decimal digits of a number spell that number, and they are all digits.
pub proof fn lemma_decimal_value(n: nat)
    ensures
        decimal_value(decimal(n)) == n,
        decimal(n).len() >= 1,
        forall|i: int| 0 <= i < decimal(n).len() ==> '0' <= #[trigger] decimal(n)[i] <= '9',
    decreases n,
{
    if n < 10 {
        lemma_digit_char_value(n);
        assert(decimal(n).drop_last() =~= Seq::<char>::empty());
        assert(decimal_value(decimal(n)) == decimal_value(Seq::<char>::empty()) * 10 + digit_value(
            digit_char(n),
        ));
    } else {
        lemma_digit_char_value(n % 10);
        lemma_decimal_value(n / 10);
        let digits = decimal(n);
        assert(digits.drop_last() =~= decimal(n / 10));
        assert(digits.last() == digit_char(n % 10));
        assert(decimal_value(digits) == decimal_value(decimal(n / 10)) * 10 + digit_value(
            digit_char(n % 10),
        ));
        assert(n == (n / 10) * 10 + n % 10);
    }
}

} // verus!
