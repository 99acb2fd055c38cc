//! The command link of the boat: a TCP server on the boat's own access point.
//!
//! One connection is served at a time. While it is served, a reader takes
//! frames from the connection, decodes them into commands and hands each
//! command to the command queue, and a writer keeps sending a buffer back. The
//! status LED is lit while a connection is served. The firmware performs each
//! action that the link returns and reports how it ended as the next event.

use vstd::prelude::*;

verus! {

/// Prefix length of the boat's link-local address.
pub const LINK_PREFIX_LEN: u8 = 16;

/// Static IPv4 setup of the boat's network interface.
pub struct StaticIpv4Config {
    /// Address of the boat.
    pub address: [u8; 4],
    /// Length of the network prefix.
    pub prefix_len: u8,
    /// Default gateway, if any.
    pub gateway: Option<[u8; 4]>,
    /// DNS servers.
    pub dns_servers: Vec<[u8; 4]>,
}

/// The link-local setup used without a DHCP server: the given address in a /16
/// network, no gateway and no DNS server.
pub fn link_local_config(address: [u8; 4]) -> (config: StaticIpv4Config)
    ensures
        config.address@ == address@,
        config.prefix_len == LINK_PREFIX_LEN,
        config.prefix_len == 16,
        config.gateway is None,
        config.dns_servers@.len() == 0,
{
    StaticIpv4Config {
        address,
        prefix_len: LINK_PREFIX_LEN,
        gateway: None,
        dns_servers: Vec::new(),
    }
}

/// How a read from the connection ended.
#[derive(Clone, Copy, Debug, PartialEq, Eq, Structural)]
pub enum ReadOutcome {
    /// This many bytes were read into the buffer; 0 means the peer closed the
    /// stream.
    Received(usize),
    /// The read failed.
    Failed,
}

/// What the firmware reports back to the link.
#[derive(Clone, Copy, Debug, PartialEq, Eq, Structural)]
pub enum LinkEvent {
    /// A peer connected.
    Accepted,
    /// Accepting a connection failed.
    AcceptFailed,
    /// A read ended.
    ReadDone(ReadOutcome),
    /// Decoding the received frame ended: `true` if it held a command.
    DecodeDone(bool),
    /// Handing the command to the queue ended: `true` if the queue took it.
    QueueDone(bool),
    /// A write ended: `true` if it succeeded.
    WriteDone(bool),
}

/// Where the reader of a served connection stands.
#[derive(Clone, Copy, Debug, PartialEq, Eq, Structural)]
pub enum ReaderPhase {
    /// Waiting for bytes from the peer.
    Reading,
    /// Decoding a received frame.
    Decoding,
    /// Handing a decoded command to the queue.
    Queueing,
}

/// State of the link.
#[derive(Clone, Copy, Debug, PartialEq, Eq, Structural)]
pub enum LinkPhase {
    /// No connection; waiting for a peer.
    Listening,
    /// A connection is served.
    Serving(ReaderPhase),
}

/// What the firmware does next.
#[derive(Clone, Copy, Debug, PartialEq, Eq, Structural)]
pub enum LinkAction {
    /// Switch the LED off and wait for a connection.
    Listen,
    /// Switch the LED on, start reading from the connection and writing to it.
    Serve,
    /// Read from the connection again.
    Read,
    /// Decode the first this many bytes of the buffer into a command.
    Decode(usize),
    /// Hand the decoded command to the command queue without waiting.
    Queue,
    /// Write the outgoing buffer again.
    Write,
    /// Drop the connection, switch the LED off and wait for the next one.
    Close,
}

/// The events that can arrive in a phase. While a connection is served the
/// writer may report at any time; a read never reports more bytes than the
/// buffer holds.
pub open spec fn accepts(phase: LinkPhase, event: LinkEvent, capacity: int) -> bool {
    match phase {
        LinkPhase::Listening => event is Accepted || event is AcceptFailed,
        LinkPhase::Serving(reader) => match event {
            LinkEvent::WriteDone(_) => true,
            LinkEvent::ReadDone(outcome) => reader is Reading && match outcome {
                ReadOutcome::Received(n) => n <= capacity,
                ReadOutcome::Failed => true,
            },
            LinkEvent::DecodeDone(_) => reader is Decoding,
            LinkEvent::QueueDone(_) => reader is Queueing,
            _ => false,
        },
    }
}

/// The transition table of the link: next phase and action for an event that
/// the phase accepts.
pub open spec fn transition(phase: LinkPhase, event: LinkEvent) -> (LinkPhase, LinkAction) {
    match event {
        LinkEvent::Accepted => (LinkPhase::Serving(ReaderPhase::Reading), LinkAction::Serve),
        LinkEvent::AcceptFailed => (LinkPhase::Listening, LinkAction::Listen),
        LinkEvent::ReadDone(ReadOutcome::Received(n)) => if n == 0 {
            (LinkPhase::Listening, LinkAction::Close)
        } else {
            (LinkPhase::Serving(ReaderPhase::Decoding), LinkAction::Decode(n))
        },
        LinkEvent::ReadDone(ReadOutcome::Failed) => (LinkPhase::Listening, LinkAction::Close),
        LinkEvent::DecodeDone(decoded) => if decoded {
            (LinkPhase::Serving(ReaderPhase::Queueing), LinkAction::Queue)
        } else {
            (LinkPhase::Serving(ReaderPhase::Reading), LinkAction::Read)
        },
        LinkEvent::QueueDone(queued) => if queued {
            (LinkPhase::Listening, LinkAction::Close)
        } else {
            (LinkPhase::Serving(ReaderPhase::Reading), LinkAction::Read)
        },
        LinkEvent::WriteDone(written) => if written {
            (phase, LinkAction::Write)
        } else {
            (LinkPhase::Listening, LinkAction::Close)
        },
    }
}

/// The LED is lit while a connection is served.
pub open spec fn led_lit(phase: LinkPhase) -> bool {
    phase is Serving
}

/// The LED after the firmware performed `action` with the LED at `led`.
pub open spec fn led_after(action: LinkAction, led: bool) -> bool {
    match action {
        LinkAction::Serve => true,
        LinkAction::Listen => false,
        LinkAction::Close => false,
        _ => led,
    }
}

/// The command link.
pub struct Link {
    /// Where the link stands.
    pub phase: LinkPhase,
    /// Size of the receive buffer in bytes.
    pub capacity: usize,
}

impl Link {
    /// A link waiting for its first connection, reading into a buffer of
    /// `capacity` bytes.
    pub fn new(capacity: usize) -> (link: Link)
        ensures
            link.phase == LinkPhase::Listening,
            link.capacity == capacity,
    {
        Link { phase: LinkPhase::Listening, capacity }
    }

    /// Whether the link is ready for `event` now.
    pub fn expects(&self, event: &LinkEvent) -> (ready: bool)
        ensures
            ready == accepts(self.phase, *event, self.capacity as int),
            self.phase is Serving && event is WriteDone ==> ready,
            self.phase is Listening ==> (ready <==> (event is Accepted || event is AcceptFailed)),
            self.phase is Serving && (event is Accepted || event is AcceptFailed) ==> !ready,
    {
        match self.phase {
            LinkPhase::Listening => match event {
                LinkEvent::Accepted => true,
                LinkEvent::AcceptFailed => true,
                _ => false,
            },
            LinkPhase::Serving(reader) => match event {
                LinkEvent::WriteDone(_) => true,
                LinkEvent::ReadDone(outcome) => match reader {
                    ReaderPhase::Reading => match outcome {
                        ReadOutcome::Received(n) => *n <= self.capacity,
                        ReadOutcome::Failed => true,
                    },
                    _ => false,
                },
                LinkEvent::DecodeDone(_) => match reader {
                    ReaderPhase::Decoding => true,
                    _ => false,
                },
                LinkEvent::QueueDone(_) => match reader {
                    ReaderPhase::Queueing => true,
                    _ => false,
                },
                _ => false,
            },
        }
    }

    /// Whether the status LED is lit: exactly while a connection is served.
    pub fn led_on(&self) -> (lit: bool)
        ensures
            lit == led_lit(self.phase),
    {
        match self.phase {
            LinkPhase::Listening => false,
            LinkPhase::Serving(_) => true,
        }
    }

    /// Takes the next event and returns what the firmware does next:
    /// - a connection is served once accepted; a failed accept listens again;
    /// - an empty read (end of stream) or a failed read closes the connection;
    ///   a read of `n` bytes has them decoded;
    /// - a frame without a command is dropped and reading goes on; a decoded
    ///   command is handed to the queue;
    /// - once the queue took the command the connection is closed; when the
    ///   queue is full the command is lost and reading goes on;
    /// - a successful write is followed by the next; a failed write closes
    ///   the connection.
    pub fn step(&mut self, event: LinkEvent) -> (action: LinkAction)
        requires
            accepts(old(self).phase, event, old(self).capacity as int),
        ensures
            (final(self).phase, action) == transition(old(self).phase, event),
            final(self).capacity == old(self).capacity,
            event == LinkEvent::WriteDone(true) ==> action == LinkAction::Write
                && final(self).phase == old(self).phase,
            event == LinkEvent::WriteDone(false) ==> action == LinkAction::Close
                && final(self).phase == LinkPhase::Listening,
            event == LinkEvent::Accepted ==> action == LinkAction::Serve
                && final(self).phase == LinkPhase::Serving(ReaderPhase::Reading),
            event == LinkEvent::AcceptFailed ==> action == LinkAction::Listen
                && final(self).phase == LinkPhase::Listening,
            event == LinkEvent::ReadDone(ReadOutcome::Received(0)) ==> action == LinkAction::Close
                && final(self).phase == LinkPhase::Listening,
            event == LinkEvent::ReadDone(ReadOutcome::Failed) ==> action == LinkAction::Close
                && final(self).phase == LinkPhase::Listening,
            forall|n: usize| n > 0 && event == LinkEvent::ReadDone(ReadOutcome::Received(n))
                ==> action == LinkAction::Decode(n)
                && final(self).phase == LinkPhase::Serving(ReaderPhase::Decoding),
            event == LinkEvent::DecodeDone(true) ==> action == LinkAction::Queue
                && final(self).phase == LinkPhase::Serving(ReaderPhase::Queueing),
            event == LinkEvent::DecodeDone(false) ==> action == LinkAction::Read
                && final(self).phase == LinkPhase::Serving(ReaderPhase::Reading),
            event == LinkEvent::QueueDone(true) ==> action == LinkAction::Close
                && final(self).phase == LinkPhase::Listening,
            event == LinkEvent::QueueDone(false) ==> action == LinkAction::Read
                && final(self).phase == LinkPhase::Serving(ReaderPhase::Reading),
    {
        let (phase, action) = match event {
            LinkEvent::Accepted => (LinkPhase::Serving(ReaderPhase::Reading), LinkAction::Serve),
            LinkEvent::AcceptFailed => (LinkPhase::Listening, LinkAction::Listen),
            LinkEvent::ReadDone(ReadOutcome::Received(n)) => if n == 0 {
                (LinkPhase::Listening, LinkAction::Close)
            } else {
                (LinkPhase::Serving(ReaderPhase::Decoding), LinkAction::Decode(n))
            },
            LinkEvent::ReadDone(ReadOutcome::Failed) => (LinkPhase::Listening, LinkAction::Close),
            LinkEvent::DecodeDone(decoded) => if decoded {
                (LinkPhase::Serving(ReaderPhase::Queueing), LinkAction::Queue)
            } else {
                (LinkPhase::Serving(ReaderPhase::Reading), LinkAction::Read)
            },
            LinkEvent::QueueDone(queued) => if queued {
                (LinkPhase::Listening, LinkAction::Close)
            } else {
                (LinkPhase::Serving(ReaderPhase::Reading), LinkAction::Read)
            },
            LinkEvent::WriteDone(written) => if written {
                (self.phase, LinkAction::Write)
            } else {
                (LinkPhase::Listening, LinkAction::Close)
            },
        };
        self.phase = phase;
        action
    }
}

/// The LED follows the connection: performing the action of any accepted
/// event leaves it lit exactly when the link serves a connection afterwards.
pub proof fn lemma_led_tracks_connection(phase: LinkPhase, event: LinkEvent, capacity: int)
    requires
        accepts(phase, event, capacity),
    ensures
        led_after(transition(phase, event).1, led_lit(phase)) == led_lit(transition(phase, event).0),
{
}

/// Every action of a served connection that is not a close keeps it served,
/// and every close returns the link to listening.
pub proof fn lemma_close_is_the_only_way_out(phase: LinkPhase, event: LinkEvent, capacity: int)
    requires
        phase is Serving,
        accepts(phase, event, capacity),
    ensures
        transition(phase, event).0 is Listening <==> transition(phase, event).1 == LinkAction::Close,
{
}

/// A frame that holds a command ends the connection once the queue takes the
/// command: read `n > 0` bytes, decode them, queue the command, close.
pub proof fn lemma_queued_command_ends_connection(n: usize, capacity: int)
    requires
        0 < n <= capacity,
    ensures ({
        let s0 = LinkPhase::Serving(ReaderPhase::Reading);
        let (s1, a1) = transition(s0, LinkEvent::ReadDone(ReadOutcome::Received(n)));
        let (s2, a2) = transition(s1, LinkEvent::DecodeDone(true));
        let (s3, a3) = transition(s2, LinkEvent::QueueDone(true));
        &&& accepts(s0, LinkEvent::ReadDone(ReadOutcome::Received(n)), capacity)
        &&& accepts(s1, LinkEvent::DecodeDone(true), capacity)
        &&& accepts(s2, LinkEvent::QueueDone(true), capacity)
        &&& a1 == LinkAction::Decode(n)
        &&& a2 == LinkAction::Queue
        &&& a3 == LinkAction::Close
        &&& s3 == LinkPhase::Listening
    }),
{
}

/// A frame without a command, or a command the full queue refuses, never ends
/// the connection: the reader goes back to reading.
pub proof fn lemma_lost_frames_keep_connection(capacity: int)
    ensures
        transition(LinkPhase::Serving(ReaderPhase::Decoding), LinkEvent::DecodeDone(false))
            == (LinkPhase::Serving(ReaderPhase::Reading), LinkAction::Read),
        transition(LinkPhase::Serving(ReaderPhase::Queueing), LinkEvent::QueueDone(false))
            == (LinkPhase::Serving(ReaderPhase::Reading), LinkAction::Read),
{
}

/// The end of the stream, a failed read and a failed write each close the
/// connection, whatever the reader was doing when the writer failed.
pub proof fn lemma_stream_end_and_errors_close(reader: ReaderPhase)
    ensures
        transition(LinkPhase::Serving(ReaderPhase::Reading), LinkEvent::ReadDone(ReadOutcome::Received(0)))
            == (LinkPhase::Listening, LinkAction::Close),
        transition(LinkPhase::Serving(ReaderPhase::Reading), LinkEvent::ReadDone(ReadOutcome::Failed))
            == (LinkPhase::Listening, LinkAction::Close),
        transition(LinkPhase::Serving(reader), LinkEvent::WriteDone(false))
            == (LinkPhase::Listening, LinkAction::Close),
{
}

/// The writer runs beside the reader: whatever the reader is doing, a served
/// link is ready for the writer's report, a successful write is answered with
/// the next write and leaves the reader where it was, and only a failed write
/// ends the connection.
pub proof fn lemma_writer_independent_of_reader(reader: ReaderPhase, written: bool, capacity: int)
    ensures
        accepts(LinkPhase::Serving(reader), LinkEvent::WriteDone(written), capacity),
        transition(LinkPhase::Serving(reader), LinkEvent::WriteDone(true))
            == (LinkPhase::Serving(reader), LinkAction::Write),
        transition(LinkPhase::Serving(reader), LinkEvent::WriteDone(false))
            == (LinkPhase::Listening, LinkAction::Close),
{
}

/// What each phase is ready for: a listening link only for the outcome of an
/// accept; a served link never for an accept, for a read only while reading
/// (and never for more bytes than the buffer holds), for a decoding result only
/// while decoding, and for a queueing result only while queueing.
pub proof fn lemma_accepted_events(reader: ReaderPhase, event: LinkEvent, capacity: int)
    ensures
        accepts(LinkPhase::Listening, event, capacity) <==> (event is Accepted || event is AcceptFailed),
        (event is Accepted || event is AcceptFailed) ==> !accepts(LinkPhase::Serving(reader), event, capacity),
        event is ReadDone ==> (accepts(LinkPhase::Serving(reader), event, capacity) ==> reader is Reading),
        accepts(LinkPhase::Serving(ReaderPhase::Reading), LinkEvent::ReadDone(ReadOutcome::Failed), capacity),
        forall|n: usize| #[trigger] accepts(LinkPhase::Serving(ReaderPhase::Reading),
            LinkEvent::ReadDone(ReadOutcome::Received(n)), capacity) <==> n <= capacity,
        event is DecodeDone ==> (accepts(LinkPhase::Serving(reader), event, capacity) <==> reader is Decoding),
        event is QueueDone ==> (accepts(LinkPhase::Serving(reader), event, capacity) <==> reader is Queueing),
{
}

/// A read of `n > 0` bytes has exactly those `n` bytes decoded, and a decoded
/// command is handed to the queue.
pub proof fn lemma_received_bytes_are_decoded(n: usize)
    requires
        n > 0,
    ensures
        transition(LinkPhase::Serving(ReaderPhase::Reading), LinkEvent::ReadDone(ReadOutcome::Received(n)))
            == (LinkPhase::Serving(ReaderPhase::Decoding), LinkAction::Decode(n)),
        transition(LinkPhase::Serving(ReaderPhase::Decoding), LinkEvent::DecodeDone(true))
            == (LinkPhase::Serving(ReaderPhase::Queueing), LinkAction::Queue),
{
}

/// A failed accept leaves the link listening; it never stops serving.
pub proof fn lemma_accept_failure_listens_again()
    ensures
        transition(LinkPhase::Listening, LinkEvent::AcceptFailed) == (LinkPhase::Listening, LinkAction::Listen),
        transition(LinkPhase::Listening, LinkEvent::Accepted)
            == (LinkPhase::Serving(ReaderPhase::Reading), LinkAction::Serve),
{
}

} // verus!
