//! A running chat: which packets are listened to, what a message leads to, and
//! whether the peer is still there.

use crate::config::Config;
use crate::message::Message;
use crate::peer::{key_id, SocketAddress};
use crate::traffic_meter::TrafficMeter;
use vstd::prelude::*;
use vstd::string::StringExecFns;

verus! {

use crate::audio::{pcm_samples, ByteOrder};
use crate::message::{counted_bytes, opus_view, MessageView};
use crate::peer::{key_id_of, law_order_follows_the_numbers, rank};
use crate::traffic_meter::{
    counter_after,
    counter_after_all,
    law_counter_holds_the_sum,
    lemma_sum_in_any_order,
    lemma_sum_of_map,
    sum_of,
};

/// The two ends of a chat, as seen from this one.
#[derive(Debug, Clone, Copy)]
pub struct Session {
    my_addr: SocketAddress,
    peer_addr: SocketAddress,
    key_id: u8,
}

/// What waiting for a packet came to.
#[derive(Debug, Clone, PartialEq, Eq)]
pub enum Received {
    /// A packet that holds a sealed message.
    Packet { src: SocketAddress },
    /// Nothing came in time.
    Timeout,
    /// Receiving failed, with this description.
    Failed(String),
}

/// What has to be done about it.
#[derive(Debug, Clone, PartialEq, Eq)]
pub enum ReceiveAction {
    /// Open the sealed message.
    Open,
    /// Wait for the next packet.
    Wait,
    /// Log this error, pause for so many milliseconds, then wait for the next
    /// packet.
    Error { text: String, pause: u64 },
}

/// What an opened message leads to.
#[derive(Debug, Clone, PartialEq, Eq)]
pub enum Delivery {
    /// The message could not be opened: log this error.
    Invalid(String),
    /// The peer is there: note the time.
    Heartbeat,
    /// Decode this audio frame and play it.
    Play(Vec<u8>),
    /// Print this line.
    Print(String),
}

/// What a [`Delivery`] says.
pub enum DeliveryView {
    Invalid(Seq<char>),
    Heartbeat,
    Play(Seq<u8>),
    Print(Seq<char>),
}

impl View for Delivery {
    type V = DeliveryView;

    open spec fn view(&self) -> DeliveryView {
        match self {
            Delivery::Invalid(text) => DeliveryView::Invalid(text@),
            Delivery::Heartbeat => DeliveryView::Heartbeat,
            Delivery::Play(data) => DeliveryView::Play(data@),
            Delivery::Print(line) => DeliveryView::Print(line@),
        }
    }
}

/// What the message `message` leads to.
pub open spec fn delivery_of(message: MessageView) -> DeliveryView {
    match message {
        MessageView::Heartbeat => DeliveryView::Heartbeat,
        MessageView::Opus(data) => DeliveryView::Play(data),
        MessageView::Text(text) => DeliveryView::Print("text message: "@ + text),
    }
}

/// What comes of opening a sealed message, where it gave `opened`: a message, or
/// the reason why there is none.
pub open spec fn delivery_of_opened(opened: Result<MessageView, Seq<char>>) -> DeliveryView {
    match opened {
        Ok(message) => delivery_of(message),
        Err(reason) => DeliveryView::Invalid("invalid message: "@ + reason),
    }
}

/// What `opened` holds.
pub open spec fn opened_view(opened: Result<Message, String>) -> Result<MessageView, Seq<char>> {
    match opened {
        Ok(message) => Ok(message@),
        Err(reason) => Err(reason@),
    }
}

/// What the watchdog finds.
#[derive(Debug, Clone, Copy, PartialEq, Eq, Structural)]
pub enum Watch {
    /// The peer has been silent for too long.
    Dead,
    /// Look again after so many milliseconds.
    Again { pause: u64 },
}

impl Session {
    /// The address of this end.
    pub closed spec fn my_addr(&self) -> SocketAddress {
        self.my_addr
    }

    /// The address of the other end.
    pub closed spec fn peer_addr(&self) -> SocketAddress {
        self.peer_addr
    }

    /// The two ends differ, and the key is derived under the number that their
    /// order gives.
    #[verifier::type_invariant]
    spec fn well_formed(self) -> bool {
        self.my_addr != self.peer_addr && self.key_id == key_id_of(self.my_addr, self.peer_addr)
    }

    /// The chat between `my_addr`, this end, and `peer_addr`.
    pub fn new(my_addr: SocketAddress, peer_addr: SocketAddress) -> (r: Session)
        requires
            my_addr != peer_addr,
        ensures
            r.my_addr() == my_addr,
            r.peer_addr() == peer_addr,
    {
        Session { my_addr, peer_addr, key_id: key_id(&my_addr, &peer_addr) }
    }

    /// The number under which this end derives the shared key.
    pub fn key_id(&self) -> (r: u8)
        ensures
            r == key_id_of(self.my_addr(), self.peer_addr()),
            self.my_addr() != self.peer_addr(),
            rank(self.my_addr()) < rank(self.peer_addr()) ==> r == 0,
            rank(self.my_addr()) > rank(self.peer_addr()) ==> r == 1,
            rank(self.my_addr()) != rank(self.peer_addr()),
    {
        proof {
            use_type_invariant(self);
            law_order_follows_the_numbers(self.my_addr, self.peer_addr);
        }
        self.key_id
    }

    /// Decides about what waiting for a packet came to: only a packet from the
    /// peer is opened.
    pub fn on_received(&self, received: Received) -> (r: ReceiveAction)
        ensures
            match received {
                Received::Packet { src } => if src == self.peer_addr() {
                    r is Open
                } else {
                    r matches ReceiveAction::Error { text, pause } && pause == 0 && text@
                        == "message from other than the expected peer. ignored."@
                },
                Received::Timeout => r is Wait,
                Received::Failed(reason) => r matches ReceiveAction::Error { text, pause } && pause
                    == 1000 && text@ == reason@,
            },
    {
        match received {
            Received::Packet { src } => {
                if src == self.peer_addr {
                    ReceiveAction::Open
                } else {
                    ReceiveAction::Error {
                        text: "message from other than the expected peer. ignored.".to_owned(),
                        pause: 0,
                    }
                }
            },
            Received::Timeout => ReceiveAction::Wait,
            Received::Failed(text) => ReceiveAction::Error { text, pause: 1000 },
        }
    }
}

/// Decides about an opened message, and counts its audio as received.
pub fn on_opened(opened: Result<Message, String>, traffic: &mut TrafficMeter) -> (r: Delivery)
    ensures
        r@ == delivery_of_opened(opened_view(opened)),
        final(traffic).download() == match opened {
            Ok(message) => counter_after(old(traffic).download(), counted_bytes(message@)),
            Err(_) => old(traffic).download(),
        },
        final(traffic).upload() == old(traffic).upload(),
        final(traffic).start() == old(traffic).start(),
        match opened {
            Ok(Message::Heartbeat) => {
                &&& r is Heartbeat
                &&& final(traffic).download() == old(traffic).download()
            },
            Ok(Message::Opus(data)) => {
                &&& r matches Delivery::Play(frame)
                &&& frame@ == data@
                &&& old(traffic).download() + data@.len() <= usize::MAX
                    ==> final(traffic).download() == old(traffic).download() + data@.len()
                &&& old(traffic).download() + data@.len() > usize::MAX
                    ==> final(traffic).download() == old(traffic).download() + data@.len()
                    - usize::MAX - 1
            },
            Ok(Message::Text(text)) => {
                &&& r matches Delivery::Print(line)
                &&& line@ == "text message: "@ + text@
                &&& final(traffic).download() == old(traffic).download()
            },
            Err(reason) => {
                &&& r matches Delivery::Invalid(text)
                &&& text@ == "invalid message: "@ + reason@
                &&& final(traffic).download() == old(traffic).download()
            },
        },
{
    match opened {
        Ok(Message::Heartbeat) => {
            proof {
                traffic.law_counting_nothing();
            }
            Delivery::Heartbeat
        },
        Ok(Message::Opus(data)) => {
            traffic.received_bytes(data.len());
            Delivery::Play(data)
        },
        Ok(Message::Text(text)) => {
            proof {
                traffic.law_counting_nothing();
            }
            let mut line: String = "text message: ".to_owned();
            line.append(text.as_str());
            Delivery::Print(line)
        },
        Err(reason) => {
            let mut text: String = "invalid message: ".to_owned();
            text.append(reason.as_str());
            Delivery::Invalid(text)
        },
    }
}

/// Counts the audio of a message that was sent.
pub fn on_sent(message: &Message, traffic: &mut TrafficMeter)
    ensures
        final(traffic).upload() == counter_after(old(traffic).upload(), counted_bytes(message@)),
        final(traffic).download() == old(traffic).download(),
        final(traffic).start() == old(traffic).start(),
        message matches Message::Opus(data) ==> {
            &&& old(traffic).upload() + data@.len() <= usize::MAX
                ==> final(traffic).upload() == old(traffic).upload() + data@.len()
            &&& old(traffic).upload() + data@.len() > usize::MAX
                ==> final(traffic).upload() == old(traffic).upload() + data@.len() - usize::MAX - 1
        },
        message !is Opus ==> final(traffic).upload() == old(traffic).upload(),
{
    proof {
        traffic.law_counting_nothing();
    }
    match message {
        Message::Opus(data) => traffic.sent_bytes(data.len()),
        _ => {},
    }
}

/// The counters of bytes sent and received, after an attempt to send `message`
/// that succeeded if `sent`: a message that was not sent adds nothing.
pub open spec fn counters_after_send(
    counters: (nat, nat),
    message: MessageView,
    sent: bool,
) -> (nat, nat) {
    if sent {
        (counter_after(counters.0, counted_bytes(message)), counters.1)
    } else {
        counters
    }
}

/// Counts the audio of a message, if it was `sent`.
pub fn on_send_outcome(message: &Message, sent: bool, traffic: &mut TrafficMeter)
    ensures
        (final(traffic).upload(), final(traffic).download()) == counters_after_send(
            (old(traffic).upload(), old(traffic).download()),
            message@,
            sent,
        ),
        final(traffic).start() == old(traffic).start(),
        final(traffic).download() == old(traffic).download(),
        !sent || message !is Opus ==> final(traffic).upload() == old(traffic).upload(),
        sent ==> (message matches Message::Opus(data) ==> {
            &&& old(traffic).upload() + data@.len() <= usize::MAX
                ==> final(traffic).upload() == old(traffic).upload() + data@.len()
            &&& old(traffic).upload() + data@.len() > usize::MAX
                ==> final(traffic).upload() == old(traffic).upload() + data@.len() - usize::MAX - 1
        }),
{
    if sent {
        on_sent(message, traffic);
    }
}

/// The time of the last heartbeat, after `delivery` at the time `now`: only a
/// heartbeat changes it.
pub open spec fn noted_after(noted: Option<nat>, delivery: DeliveryView, now: nat) -> Option<nat> {
    match delivery {
        DeliveryView::Heartbeat => Some(now),
        _ => noted,
    }
}

/// The nanoseconds of `time`.
pub open spec fn time_of(time: Option<u128>) -> Option<nat> {
    match time {
        Some(ns) => Some(ns as nat),
        None => None,
    }
}

/// Notes the time of the last heartbeat: `noted` is what was noted before
/// `delivery`, and `now` is the present time. Times are in nanoseconds since the
/// chat began.
pub fn note_heartbeat(noted: Option<u128>, delivery: &Delivery, now: u128) -> (r: Option<u128>)
    ensures
        time_of(r) == noted_after(time_of(noted), delivery@, now as nat),
        delivery is Heartbeat ==> r == Some(now),
        delivery !is Heartbeat ==> r == noted,
{
    match delivery {
        Delivery::Heartbeat => Some(now),
        _ => noted,
    }
}

/// What the heartbeat does each time: the message to send, and the pause after
/// it in milliseconds.
pub open spec fn heartbeat_round(heartbeat_freq: nat) -> (MessageView, nat) {
    (MessageView::Heartbeat, heartbeat_freq)
}

/// One round of the heartbeat: the message to send, and the pause after it in
/// milliseconds.
pub fn heartbeat(config: &Config) -> (r: (Message, u64))
    ensures
        (r.0@, r.1 as nat) == heartbeat_round(config.heartbeat_freq as nat),
        r.0 is Heartbeat,
        r.1 == config.heartbeat_freq,
{
    (Message::Heartbeat, config.heartbeat_freq)
}

/// The nanoseconds that have passed at `now` since `time`.
pub open spec fn silence(time: nat, now: nat) -> nat {
    if now >= time {
        (now - time) as nat
    } else {
        0
    }
}

/// The nanoseconds in five pauses of `heartbeat_freq` milliseconds.
pub open spec fn patience(heartbeat_freq: nat) -> nat {
    5 * (1_000_000 * heartbeat_freq)
}

/// Whether at `now` a peer whose last heartbeat came at the time `noted` counts
/// as dead: five pauses have passed since. A peer that was never heard of is
/// waited for.
pub open spec fn peer_is_dead(heartbeat_freq: nat, noted: Option<nat>, now: nat) -> bool {
    noted matches Some(time) && silence(time, now) >= patience(heartbeat_freq)
}

/// Looks after the peer, whose last heartbeat, if there was one, came at the time
/// `noted`. Times are in nanoseconds since the chat began.
pub fn watch(config: &Config, noted: Option<u128>, now: u128) -> (r: Watch)
    ensures
        r == if peer_is_dead(config.heartbeat_freq as nat, time_of(noted), now as nat) {
            Watch::Dead
        } else {
            Watch::Again { pause: 500 }
        },
        r is Dead <==> (noted matches Some(time) && (config.heartbeat_freq == 0 || now >= time
            + 5_000_000 * config.heartbeat_freq)),
        r matches Watch::Again { pause } ==> pause == 500,
{
    match noted {
        Some(time) => {
            let silence: u128 = if now >= time {
                now - time
            } else {
                0
            };
            if silence >= 5 * (1_000_000 * config.heartbeat_freq as u128) {
                Watch::Dead
            } else {
                Watch::Again { pause: 500 }
            }
        },
        None => Watch::Again { pause: 500 },
    }
}

/// What each of `messages` adds to the traffic counters.
pub open spec fn counted_amounts(messages: Seq<MessageView>) -> Seq<nat> {
    messages.map_values(|message: MessageView| counted_bytes(message))
}

/// If every message that one end sent was opened once at the other, in whatever
/// order they came, then both ends have counted the same: a counter of bytes
/// sent that went from `count` over `sent` shows what a counter of bytes
/// received shows that went from `count` over `opened`.
pub proof fn law_both_ends_count_alike(
    count: nat,
    sent: Seq<MessageView>,
    opened: Seq<MessageView>,
)
    requires
        count <= usize::MAX,
        sent.to_multiset() == opened.to_multiset(),
    ensures
        counter_after_all(count, counted_amounts(sent)) == counter_after_all(
            count,
            counted_amounts(opened),
        ),
{
    let f = |message: MessageView| counted_bytes(message);
    law_counter_holds_the_sum(count, counted_amounts(sent));
    law_counter_holds_the_sum(count, counted_amounts(opened));
    lemma_sum_of_map(sent, f);
    lemma_sum_of_map(opened, f);
    lemma_sum_in_any_order(sent, opened, f);
}

/// A packet that came from `src`, gave `opened` when it was opened, and was
/// handled at the time `time`.
pub struct Datagram {
    pub src: SocketAddress,
    pub opened: Result<MessageView, Seq<char>>,
    pub time: nat,
}

impl Datagram {
    /// Whether this is a heartbeat of the peer at `peer`.
    pub open spec fn is_heartbeat_of(self, peer: SocketAddress) -> bool {
        &&& self.src == peer
        &&& self.opened matches Ok(message)
        &&& message == MessageView::Heartbeat
    }

    /// The noted time after this packet, in a chat with the peer at `peer`: a
    /// packet from elsewhere is not opened.
    pub open spec fn noted_after(self, peer: SocketAddress, noted: Option<nat>) -> Option<nat> {
        if self.src == peer {
            noted_after(noted, delivery_of_opened(self.opened), self.time)
        } else {
            noted
        }
    }
}

/// The noted time after each packet of `run` was handled in turn, from a start
/// where none was noted.
pub open spec fn noted_after_run(peer: SocketAddress, run: Seq<Datagram>) -> Option<nat>
    decreases run.len(),
{
    if run.len() == 0 {
        None
    } else {
        run.last().noted_after(peer, noted_after_run(peer, run.drop_last()))
    }
}

/// While no heartbeat of the peer was opened, no time is noted. Packets from
/// elsewhere, packets that cannot be opened, texts and audio do not count.
pub proof fn law_no_time_without_heartbeat(peer: SocketAddress, run: Seq<Datagram>)
    requires
        forall|i: int| 0 <= i < run.len() ==> !(#[trigger] run[i]).is_heartbeat_of(peer),
    ensures
        noted_after_run(peer, run) is None,
    decreases run.len(),
{
    if run.len() > 0 {
        law_no_time_without_heartbeat(peer, run.drop_last());
        assert(!run[run.len() - 1].is_heartbeat_of(peer));
    }
}

/// Once a heartbeat of the peer was opened, the noted time is that at which the
/// last one was handled: `last` is where it stands in the run.
pub proof fn law_last_heartbeat_is_noted(peer: SocketAddress, run: Seq<Datagram>, last: int)
    requires
        0 <= last < run.len(),
        run[last].is_heartbeat_of(peer),
        forall|i: int| last < i < run.len() ==> !(#[trigger] run[i]).is_heartbeat_of(peer),
    ensures
        noted_after_run(peer, run) == Some(run[last].time),
    decreases run.len(),
{
    if last < run.len() - 1 {
        law_last_heartbeat_is_noted(peer, run.drop_last(), last);
        assert(!run[run.len() - 1].is_heartbeat_of(peer));
    }
}

/// A peer is found dead only after five pauses without a heartbeat: whatever
/// came in since, at `now` it is dead if and only if a heartbeat was opened and
/// the last one was handled five pauses ago or more.
pub proof fn law_dead_means_five_pauses_of_silence(
    peer: SocketAddress,
    run: Seq<Datagram>,
    last: int,
    heartbeat_freq: nat,
    now: nat,
)
    requires
        0 <= last < run.len(),
        run[last].is_heartbeat_of(peer),
        forall|i: int| last < i < run.len() ==> !(#[trigger] run[i]).is_heartbeat_of(peer),
    ensures
        peer_is_dead(heartbeat_freq, noted_after_run(peer, run), now) == (silence(
            run[last].time,
            now,
        ) >= patience(heartbeat_freq)),
        heartbeat_freq > 0 ==> (peer_is_dead(heartbeat_freq, noted_after_run(peer, run), now)
            <==> now >= run[last].time + 5_000_000 * heartbeat_freq),
{
    law_last_heartbeat_is_noted(peer, run, last);
}

/// One round of the recording: the bytes read from the sound server, the output
/// buffer of the encoder, and how many bytes of it the encoder filled.
pub struct Recorded {
    pub read: Seq<u8>,
    pub output: Seq<u8>,
    pub size: nat,
}

impl Recorded {
    /// Whether the buffers are those of one frame, and the encoder stayed in its
    /// buffer.
    pub open spec fn fits(self, config: Config) -> bool {
        &&& self.read.len() == 2 * config.all_samples()
        &&& self.output.len() == 2 * config.all_samples()
        &&& self.size <= self.output.len()
    }
}

/// The messages that are sent, in order, when the rounds of `run` are recorded.
pub open spec fn messages_of_run(run: Seq<Recorded>) -> Seq<MessageView>
    decreases run.len(),
{
    if run.len() == 0 {
        Seq::empty()
    } else {
        messages_of_run(run.drop_last()).push(
            opus_view(run.last().output, run.last().size as int),
        )
    }
}

/// Each frame of exactly so many samples leads to one message, in order: it
/// carries the bytes that the encoder filled, which are at most twice as many as
/// there are samples in a frame, and they are what the message adds to the
/// traffic counters.
pub proof fn law_each_frame_is_sent_in_order(
    config: Config,
    order: ByteOrder,
    run: Seq<Recorded>,
)
    requires
        forall|i: int| 0 <= i < run.len() ==> (#[trigger] run[i]).fits(config),
    ensures
        messages_of_run(run).len() == run.len(),
        counted_amounts(messages_of_run(run)).len() == run.len(),
        forall|i: int|
            #![trigger messages_of_run(run)[i]]
            #![trigger run[i]]
            0 <= i < run.len() ==> {
                &&& pcm_samples(run[i].read, order).len() == config.all_samples()
                &&& messages_of_run(run)[i] == MessageView::Opus(
                    run[i].output.take(run[i].size as int),
                )
                &&& counted_amounts(messages_of_run(run))[i] == run[i].size
                &&& run[i].size <= 2 * config.all_samples()
            },
    decreases run.len(),
{
    if run.len() > 0 {
        let rest = run.drop_last();
        assert forall|i: int| 0 <= i < rest.len() implies (#[trigger] rest[i]).fits(config) by {
            assert(run[i].fits(config));
        }
        law_each_frame_is_sent_in_order(config, order, rest);
        assert forall|i: int| 0 <= i < run.len() implies {
            &&& pcm_samples(run[i].read, order).len() == config.all_samples()
            &&& messages_of_run(run)[i] == MessageView::Opus(
                run[i].output.take(run[i].size as int),
            )
            &&& counted_amounts(messages_of_run(run))[i] == run[i].size
            &&& run[i].size <= 2 * config.all_samples()
        } by {
            assert(run[i].fits(config));
            if i < rest.len() {
                assert(rest[i] == run[i]);
                assert(messages_of_run(run)[i] == messages_of_run(rest)[i]);
            }
        }
    }
}

/// An encoded frame, and whether the message that carried it was sent.
pub struct Attempt {
    pub payload: Seq<u8>,
    pub sent: bool,
}

/// The counters of bytes sent and received after each attempt of `run` in turn.
pub open spec fn counters_after_run(counters: (nat, nat), run: Seq<Attempt>) -> (nat, nat)
    decreases run.len(),
{
    if run.len() == 0 {
        counters
    } else {
        counters_after_send(
            counters_after_run(counters, run.drop_last()),
            MessageView::Opus(run.last().payload),
            run.last().sent,
        )
    }
}

/// The lengths of the frames of `run` that were sent, in order.
pub open spec fn sent_lengths(run: Seq<Attempt>) -> Seq<nat>
    decreases run.len(),
{
    if run.len() == 0 {
        Seq::empty()
    } else if run.last().sent {
        sent_lengths(run.drop_last()).push(run.last().payload.len())
    } else {
        sent_lengths(run.drop_last())
    }
}

/// Over a run of frames, whichever of them could not be sent, the counter of
/// bytes sent grows by the sum of the lengths of those that were, starting over
/// past the largest `usize`; the others add nothing. The counter of bytes
/// received stays as it is.
pub proof fn law_only_sent_frames_count(counters: (nat, nat), run: Seq<Attempt>)
    requires
        counters.0 <= usize::MAX,
    ensures
        counters_after_run(counters, run).0 == (counters.0 + sum_of(sent_lengths(run))) % (
        usize::MAX as nat + 1),
        counters.0 + sum_of(sent_lengths(run)) <= usize::MAX ==> counters_after_run(
            counters,
            run,
        ).0 == counters.0 + sum_of(sent_lengths(run)),
        counters_after_run(counters, run).1 == counters.1,
{
    lemma_counters_after_run(counters, run);
    law_counter_holds_the_sum(counters.0, sent_lengths(run));
}

proof fn lemma_counters_after_run(counters: (nat, nat), run: Seq<Attempt>)
    ensures
        counters_after_run(counters, run) == (
            counter_after_all(counters.0, sent_lengths(run)),
            counters.1,
        ),
    decreases run.len(),
{
    if run.len() > 0 {
        let rest = run.drop_last();
        lemma_counters_after_run(counters, rest);
        if run.last().sent {
            assert(sent_lengths(run).drop_last() =~= sent_lengths(rest));
        }
    }
}

/// When and what the heartbeat sends: the first message at time 0, each further
/// one after the pause that follows the one before. Sending and waking up take
/// `delays` on top of the pauses, one for each. Times are in milliseconds.
pub open spec fn heartbeat_sends(heartbeat_freq: nat, delays: Seq<nat>) -> Seq<(nat, MessageView)>
    decreases delays.len(),
{
    let (message, pause) = heartbeat_round(heartbeat_freq);
    if delays.len() == 0 {
        seq![(0, message)]
    } else {
        let before = heartbeat_sends(heartbeat_freq, delays.drop_last());
        before.push((before.last().0 + pause + delays.last(), message))
    }
}

/// The heartbeat sends at once and then after every pause, nothing but
/// heartbeats, and two of them that are `j - i` rounds apart are at least as many
/// pauses apart.
pub proof fn law_heartbeats_keep_their_distance(
    heartbeat_freq: nat,
    delays: Seq<nat>,
    i: int,
    j: int,
)
    requires
        0 <= i <= j <= delays.len(),
    ensures
        heartbeat_sends(heartbeat_freq, delays).len() == delays.len() + 1,
        heartbeat_sends(heartbeat_freq, delays)[0].0 == 0,
        heartbeat_sends(heartbeat_freq, delays)[i].1 == MessageView::Heartbeat,
        heartbeat_sends(heartbeat_freq, delays)[j].0 >= heartbeat_sends(
            heartbeat_freq,
            delays,
        )[i].0 + (j - i) * heartbeat_freq,
    decreases delays.len(),
{
    let sends = heartbeat_sends(heartbeat_freq, delays);
    if delays.len() > 0 {
        let n = delays.len() as int;
        let rest = delays.drop_last();
        if j < n {
            law_heartbeats_keep_their_distance(heartbeat_freq, rest, i, j);
        } else if i < n {
            law_heartbeats_keep_their_distance(heartbeat_freq, rest, i, j - 1);
            assert((j - i) * heartbeat_freq == (j - 1 - i) * heartbeat_freq + heartbeat_freq)
                by (nonlinear_arith);
        } else {
            law_heartbeats_keep_their_distance(heartbeat_freq, rest, 0, 0);
        }
    }
    if i == j {
        assert((j - i) * heartbeat_freq == 0) by (nonlinear_arith)
            requires
                i == j,
        ;
    }
}

/// A peer whose heartbeats keep coming, each less than five pauses after the
/// one before, is never found dead, whenever the watchdog looks: `beats` are the
/// times of the heartbeats, and `now`, when the watchdog looks, falls between
/// the one at `last` and the next, or within five pauses of the very last.
pub proof fn law_beating_peer_is_never_dead(
    heartbeat_freq: nat,
    beats: Seq<nat>,
    last: int,
    now: nat,
)
    requires
        0 <= last < beats.len(),
        beats[last] <= now,
        forall|i: int|
            0 <= i < beats.len() - 1 ==> (#[trigger] beats[i + 1]) < beats[i] + patience(
                heartbeat_freq,
            ),
        last + 1 < beats.len() ==> now < beats[last + 1],
        last + 1 == beats.len() ==> now < beats[last] + patience(heartbeat_freq),
    ensures
        !peer_is_dead(heartbeat_freq, Some(beats[last]), now),
{
}

/// A peer that is found dead stays dead as long as it is silent.
pub proof fn law_silence_does_not_revive(
    heartbeat_freq: nat,
    noted: Option<nat>,
    now: nat,
    later: nat,
)
    requires
        peer_is_dead(heartbeat_freq, noted, now),
        now <= later,
    ensures
        peer_is_dead(heartbeat_freq, noted, later),
{
}

/// From five pauses after its last heartbeat on a peer is dead, whenever that
/// heartbeat came, and not a nanosecond earlier. Pauses are in milliseconds, times
/// in nanoseconds.
pub proof fn law_dead_from_five_pauses_on(heartbeat_freq: nat, time: nat, now: nat)
    ensures
        now >= time + 5_000_000 * heartbeat_freq ==> peer_is_dead(
            heartbeat_freq,
            Some(time),
            now,
        ),
        heartbeat_freq > 0 && now < time + 5_000_000 * heartbeat_freq ==> !peer_is_dead(
            heartbeat_freq,
            Some(time),
            now,
        ),
        heartbeat_freq == 0 ==> peer_is_dead(heartbeat_freq, Some(time), now),
        !peer_is_dead(heartbeat_freq, None, now),
{
}

/// Only the time that has passed since the last heartbeat decides, not when the
/// chat began: if both times are `shift` later, the finding is the same.
pub proof fn law_only_the_time_between_decides(
    heartbeat_freq: nat,
    time: nat,
    now: nat,
    shift: nat,
)
    ensures
        peer_is_dead(heartbeat_freq, Some(time), now) == peer_is_dead(
            heartbeat_freq,
            Some(time + shift),
            now + shift,
        ),
{
}

/// The frame that is played is the one that the message carried, every byte of
/// it, and a text is printed in full.
pub proof fn law_messages_are_delivered_whole(data: Seq<u8>, text: Seq<char>)
    ensures
        delivery_of_opened(Ok(MessageView::Opus(data))) == DeliveryView::Play(data),
        delivery_of_opened(Ok(MessageView::Text(text))) == DeliveryView::Print(
            "text message: "@ + text,
        ),
        delivery_of_opened(Ok(MessageView::Heartbeat)) == DeliveryView::Heartbeat,
{
}

/// A message that cannot be opened is only complained about, with the reason in
/// full.
pub proof fn law_unopened_messages_are_reported(reason: Seq<char>)
    ensures
        delivery_of_opened(Err(reason)) == DeliveryView::Invalid("invalid message: "@ + reason),
{
}

/// What the decoder gets at one end is what the encoder wrote at the other: the
/// first `size` bytes of its output, in order, and they are what both ends count.
pub proof fn law_frame_arrives_as_it_was_encoded(output: Seq<u8>, size: nat)
    requires
        size <= output.len(),
    ensures
        delivery_of_opened(Ok(opus_view(output, size as int))) matches DeliveryView::Play(frame)
            && frame.len() == size && forall|i: int|
            0 <= i < size ==> #[trigger] frame[i] == output[i],
        counted_bytes(opus_view(output, size as int)) == size,
{
}

/// The view of a delivery holds what the delivery holds, all of it.
pub proof fn law_view_holds_the_whole_delivery(text: String, data: Vec<u8>)
    ensures
        Delivery::Invalid(text)@ == DeliveryView::Invalid(text@),
        Delivery::Heartbeat@ == DeliveryView::Heartbeat,
        Delivery::Play(data)@ == DeliveryView::Play(data@),
        Delivery::Print(text)@ == DeliveryView::Print(text@),
{
}

/// A heartbeat sets the noted time to the present, and nothing else touches it.
pub proof fn law_only_heartbeats_are_noted(
    noted: Option<nat>,
    data: Seq<u8>,
    text: Seq<char>,
    now: nat,
)
    ensures
        noted_after(noted, DeliveryView::Heartbeat, now) == Some(now),
        noted_after(noted, DeliveryView::Play(data), now) == noted,
        noted_after(noted, DeliveryView::Print(text), now) == noted,
        noted_after(noted, DeliveryView::Invalid(text), now) == noted,
{
}

/// Each heartbeat follows the one before after exactly one pause and the delay on
/// top of it.
pub proof fn law_heartbeat_keeps_time(heartbeat_freq: nat, delays: Seq<nat>, i: int)
    requires
        0 <= i < delays.len(),
    ensures
        heartbeat_sends(heartbeat_freq, delays).len() == delays.len() + 1,
        heartbeat_sends(heartbeat_freq, delays)[i + 1].0 == heartbeat_sends(
            heartbeat_freq,
            delays,
        )[i].0 + heartbeat_freq + delays[i],
    decreases delays.len(),
{
    let rest = delays.drop_last();
    law_heartbeats_keep_their_distance(heartbeat_freq, rest, 0, 0);
    if i < rest.len() {
        law_heartbeat_keeps_time(heartbeat_freq, rest, i);
    }
}

/// One attempt to send audio adds the frame to the bytes sent if it succeeded,
/// and nothing if it failed; texts and heartbeats add nothing either way.
pub proof fn law_one_attempt_counts_once(
    counters: (nat, nat),
    data: Seq<u8>,
    text: Seq<char>,
    sent: bool,
)
    ensures
        counters.0 + data.len() <= usize::MAX ==> counters_after_send(
            counters,
            MessageView::Opus(data),
            true,
        ) == ((counters.0 + data.len()) as nat, counters.1),
        counters_after_send(counters, MessageView::Opus(data), false) == counters,
        counters.0 <= usize::MAX ==> counters_after_send(counters, MessageView::Text(text), sent)
            == counters,
        counters.0 <= usize::MAX ==> counters_after_send(counters, MessageView::Heartbeat, sent)
            == counters,
{
}

}
