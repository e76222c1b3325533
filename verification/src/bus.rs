//! Toast messages and the channel that carries them to the screen.
use std::time::{Duration, Instant};
use vstd::prelude::*;

verus! {

#[verifier::external_type_specification]
#[verifier::external_body]
pub struct ExInstant(Instant);

#[verifier::external_type_specification]
#[verifier::external_body]
#[verifier::reject_recursive_types(T)]
pub struct ExSender<T>(crossbeam_channel::Sender<T>);

#[verifier::external_type_specification]
#[verifier::external_body]
#[verifier::reject_recursive_types(T)]
pub struct ExReceiver<T>(crossbeam_channel::Receiver<T>);

/// How serious a message is.
#[derive(Clone, Copy, PartialEq, Eq, Debug, Structural)]
pub enum Kind {
    Error,
    Warning,
    Info,
}

/// A toast message: its kind, an optional title, the text, and when it stops
/// being shown.
pub struct Message {
    pub kind: Kind,
    pub title: Option<String>,
    pub msg: String,
    pub expired_at: Instant,
}

/// How many seconds a message stays on screen.
pub const MESSAGE_SECONDS: u64 = 4;

/// The current time (`Instant::now`).  Nothing is stated of the result.
#[verifier::external_body]
fn now() -> Instant {
    Instant::now()
}

/// The instant `secs` seconds after `t` (`Instant::checked_add` with
/// `Duration::from_secs`): `None` where that instant cannot be represented.
/// Nothing else is stated of the result.
#[verifier::external_body]
fn after_secs(t: Instant, secs: u64) -> Option<Instant> {
    t.checked_add(Duration::from_secs(secs))
}

/// The view of an optional title.
pub open spec fn title_view(t: Option<String>) -> Option<Seq<char>> {
    match t {
        Some(s) => Some(s@),
        None => None,
    }
}

impl Message {
    /// An informational message.
    pub fn info(msg: String) -> (r: Message)
        ensures
            r.kind == Kind::Info,
            r.title is None,
            r.msg@ == msg@,
    {
        Self::with_default(Kind::Info, msg)
    }

    /// An error message.
    pub fn error(msg: String) -> (r: Message)
        ensures
            r.kind == Kind::Error,
            r.title is None,
            r.msg@ == msg@,
    {
        Self::with_default(Kind::Error, msg)
    }

    /// A warning.
    pub fn warning(msg: String) -> (r: Message)
        ensures
            r.kind == Kind::Warning,
            r.title is None,
            r.msg@ == msg@,
    {
        Self::with_default(Kind::Warning, msg)
    }

    /// A message without title that expires four seconds from now (now itself
    /// where the clock cannot reach that far).
    fn with_default(kind: Kind, msg: String) -> (r: Message)
        ensures
            r.kind == kind,
            r.title is None,
            r.msg@ == msg@,
    {
        let t = now();
        let expired_at = match after_secs(t, MESSAGE_SECONDS) {
            Some(e) => e,
            None => t,
        };
        Message { kind, title: None, msg, expired_at }
    }

    /// The same message with a title.
    pub fn title(self, title: String) -> (r: Message)
        ensures
            r.kind == self.kind,
            title_view(r.title) == Some(title@),
            r.msg@ == self.msg@,
            r.expired_at == self.expired_at,
    {
        Message { title: Some(title), ..self }
    }
}

/// Why a message could not go through the channel.
#[derive(Clone, Copy, PartialEq, Eq, Debug, Structural)]
pub enum BusError {
    /// Every receiver is gone.
    PublishFailed,
    /// No message is waiting, or every sender is gone.
    TakeFailed,
}

/// The two ends of a message channel.  They are made together by
/// `Channel::new` and never handed out, so every message goes through
/// `publish_msg` and `try_take_msg`, which borrow the channel exclusively.
pub struct Channel {
    tx: crossbeam_channel::Sender<Message>,
    rx: crossbeam_channel::Receiver<Message>,
}

/// A message as the queue's contracts see it: kind, title and text.
pub open spec fn message_view(m: Message) -> (Kind, Option<Seq<char>>, Seq<char>) {
    (m.kind, title_view(m.title), m.msg@)
}

/// What `crossbeam_channel::Receiver::capacity` gives for a receiver of
/// messages: how many messages its channel holds, `None` where it is
/// unbounded.  It is fixed when the channel is made.
pub uninterp spec fn receiver_capacity(rx: crossbeam_channel::Receiver<Message>) -> Option<usize>;

/// The messages waiting in the channel a receiver takes from, oldest first,
/// each by its view.
pub uninterp spec fn queued_messages(rx: crossbeam_channel::Receiver<Message>) -> Seq<
    (Kind, Option<Seq<char>>, Seq<char>),
>;

/// A channel that holds up to `cap` messages (`crossbeam_channel::bounded`):
/// it starts empty, and its receiver reports `Some(cap)` as its capacity
/// (for `cap == 0` the channel is a rendezvous one, whose capacity is
/// `Some(0)`).
#[verifier::external_body]
fn bounded_channel(cap: usize) -> (r: (crossbeam_channel::Sender<Message>, crossbeam_channel::Receiver<Message>))
    ensures
        receiver_capacity(r.1) == Some(cap),
        queued_messages(r.1) == Seq::<(Kind, Option<Seq<char>>, Seq<char>)>::empty(),
{
    crossbeam_channel::bounded(cap)
}

/// Sends a message on the channel (`crossbeam_channel::Sender::send`).  The
/// send fails only when every receiver is gone, and the channel's receiver
/// is held in the same struct, so it succeeds; with room in the channel it
/// does not wait, and the message goes to the back of the queue.
#[verifier::external_body]
fn send_message(channel: &mut Channel, msg: Message) -> (r: Result<(), crossbeam_channel::SendError<Message>>)
    requires
        old(channel).rx_capacity() matches Some(c) && old(channel).queue().len() < c,
    ensures
        r is Ok,
        final(channel).rx_capacity() == old(channel).rx_capacity(),
        final(channel).queue() == old(channel).queue().push(message_view(msg)),
{
    channel.tx.send(msg)
}

/// Takes the oldest waiting message without blocking
/// (`crossbeam_channel::Receiver::try_recv`).  The channel's sender is held
/// in the same struct, so the channel is never disconnected: an empty queue
/// gives an error (`Empty`) and stays empty, else the oldest message comes
/// out of the queue.
#[verifier::external_body]
fn take_message(channel: &mut Channel) -> (r: Result<Message, crossbeam_channel::TryRecvError>)
    ensures
        final(channel).rx_capacity() == old(channel).rx_capacity(),
        old(channel).queue().len() == 0 ==> r is Err && final(channel).queue() == old(channel).queue(),
        old(channel).queue().len() > 0 ==> (r matches Ok(m) && message_view(m) == old(channel).queue()[0])
            && final(channel).queue() == old(channel).queue().drop_first(),
{
    channel.rx.try_recv()
}

#[verifier::external_type_specification]
#[verifier::external_body]
#[verifier::reject_recursive_types(T)]
pub struct ExSendError<T>(crossbeam_channel::SendError<T>);

#[verifier::external_type_specification]
#[verifier::external_body]
pub struct ExTryRecvError(crossbeam_channel::TryRecvError);

/// How many messages the toast channel holds.
pub const TOAST_CAPACITY: usize = 4;

impl Channel {
    /// The messages waiting, oldest first.
    pub closed spec fn queue(self) -> Seq<(Kind, Option<Seq<char>>, Seq<char>)> {
        queued_messages(self.rx)
    }

    /// How many messages the channel holds.
    pub closed spec fn rx_capacity(self) -> Option<usize> {
        receiver_capacity(self.rx)
    }

    /// The toast channel: empty, and it holds up to four messages.
    pub fn new() -> (r: Channel)
        ensures
            r.rx_capacity() == Some(TOAST_CAPACITY),
            r.queue().len() == 0,
    {
        let (tx, rx) = bounded_channel(TOAST_CAPACITY);
        Channel { tx, rx }
    }
}

/// Publishes a message on the channel: it goes to the back of the queue.  A
/// full channel is left out: nothing else can take from it, so the send
/// would wait for ever.
pub fn publish_msg(channel: &mut Channel, event: Message) -> (r: Result<(), BusError>)
    requires
        old(channel).rx_capacity() == Some(TOAST_CAPACITY),
        old(channel).queue().len() < TOAST_CAPACITY,
    ensures
        r is Ok,
        final(channel).rx_capacity() == Some(TOAST_CAPACITY),
        final(channel).queue() == old(channel).queue().push(message_view(event)),
{
    match send_message(channel, event) {
        Ok(()) => Ok(()),
        Err(_) => Err(BusError::PublishFailed),
    }
}

/// Takes the oldest waiting message: first in, first out; `TakeFailed`, and
/// the queue unchanged, when none is waiting.
pub fn try_take_msg(channel: &mut Channel) -> (r: Result<Message, BusError>)
    ensures
        final(channel).rx_capacity() == old(channel).rx_capacity(),
        old(channel).queue().len() == 0 ==> r == Err::<Message, BusError>(BusError::TakeFailed)
            && final(channel).queue() == old(channel).queue(),
        old(channel).queue().len() > 0 ==> (r matches Ok(m) && message_view(m) == old(channel).queue()[0])
            && final(channel).queue() == old(channel).queue().drop_first(),
{
    match take_message(channel) {
        Ok(m) => Ok(m),
        Err(_) => Err(BusError::TakeFailed),
    }
}

} // verus!
