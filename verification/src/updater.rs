//! The event bus: update events, the channel that carries them, and the
//! listener that they are delivered to.
//!
//! The channel is an unbounded channel of `crossbeam`. Any thread that holds
//! the sending end may put an update on it; the one receiving end takes them
//! off in the order in which they were put on.

use crate::navigation::{Route, Router};
use crossbeam::channel::{unbounded, Receiver, Sender, TryRecvError, TrySendError};
use vstd::prelude::*;

verus! {

/// What a committed change to the store tells the listener.
#[derive(Debug)]
pub enum Update {
    /// The persisted state changed.
    DatabaseUpdate,
    /// The navigation stack changed; the router as it is after the change.
    RouterUpdate { router: Router, current_route: Option<Route> },
}

/// An update as a plain value.
pub enum UpdateView {
    DatabaseUpdate,
    RouterUpdate { router: Seq<Route>, current_route: Option<Route> },
}

impl View for Update {
    type V = UpdateView;

    open spec fn view(&self) -> UpdateView {
        match *self {
            Update::DatabaseUpdate => UpdateView::DatabaseUpdate,
            Update::RouterUpdate { router, current_route } => UpdateView::RouterUpdate {
                router: router@,
                current_route,
            },
        }
    }
}

/// The sending end of a channel of `crossbeam`. Nothing is known of a value
/// of it but its identity.
#[verifier::external_type_specification]
#[verifier::external_body]
#[verifier::reject_recursive_types(T)]
pub struct ExSender<T>(Sender<T>);

/// The receiving end of a channel of `crossbeam`. Nothing is known of a
/// value of it but its identity.
#[verifier::external_type_specification]
#[verifier::external_body]
#[verifier::reject_recursive_types(T)]
pub struct ExReceiver<T>(Receiver<T>);

/// A message that a channel did not take, and why.
#[derive(Debug)]
pub enum Unsent<T> {
    /// The channel is bounded and has no room.
    Full(T),
    /// Every receiving end of the channel is gone.
    Disconnected(T),
}

impl<T> Unsent<T> {
    /// The message that was handed back.
    pub open spec fn message(self) -> T {
        match self {
            Unsent::Full(message) => message,
            Unsent::Disconnected(message) => message,
        }
    }
}

/// Why a channel gave no message.
#[derive(Debug, Clone, Copy, PartialEq, Eq, Structural)]
pub enum Idle {
    /// The channel holds no message now.
    Empty,
    /// The channel holds no message, and every sending end is gone.
    Disconnected,
}

/// `crossbeam::channel::unbounded`: a new channel that holds any number of
/// messages. Nothing is claimed of the two ends.
#[verifier::external_body]
pub(crate) fn channel<T>() -> (ends: (Sender<T>, Receiver<T>)) {
    unbounded()
}

/// `crossbeam::channel::Sender::try_send`: hands the message to the channel
/// without blocking. Where the channel does not take it, the message comes
/// back unchanged, with the reason.
#[verifier::external_body]
pub(crate) fn try_send<T>(sender: &Sender<T>, message: T) -> (outcome: Result<(), Unsent<T>>)
    ensures
        outcome matches Err(unsent) ==> unsent.message() == message,
{
    match sender.try_send(message) {
        Ok(()) => Ok(()),
        Err(TrySendError::Full(message)) => Err(Unsent::Full(message)),
        Err(TrySendError::Disconnected(message)) => Err(Unsent::Disconnected(message)),
    }
}

/// `crossbeam::channel::Receiver::try_recv`: takes the oldest message off
/// the channel without blocking, or tells why there is none. Nothing is
/// claimed of the message.
#[verifier::external_body]
pub(crate) fn try_recv<T>(receiver: &Receiver<T>) -> (outcome: Result<T, Idle>) {
    match receiver.try_recv() {
        Ok(message) => Ok(message),
        Err(TryRecvError::Empty) => Err(Idle::Empty),
        Err(TryRecvError::Disconnected) => Err(Idle::Disconnected),
    }
}

/// The event bus of one application: the slot for the sending end of its
/// update channel. The slot is filled once; whoever fills it first wins.
pub struct Updater {
    sender: Option<Sender<Update>>,
}

impl Updater {
    /// The sending end that is installed, if any.
    pub closed spec fn endpoint(&self) -> Option<Sender<Update>> {
        self.sender
    }

    /// A bus with no sending end installed yet.
    pub fn new() -> (updater: Self)
        ensures
            updater.endpoint() is None,
    {
        Updater { sender: None }
    }

    /// Whether a sending end is installed.
    pub fn is_initialized(&self) -> (installed: bool)
        ensures
            installed == self.endpoint() is Some,
    {
        self.sender.is_some()
    }

    /// Installs `sender` as the sending end, unless one is installed
    /// already: then the call changes nothing.
    pub fn init(&mut self, sender: Sender<Update>)
        ensures
            final(self).endpoint() == if old(self).endpoint() is Some {
                old(self).endpoint()
            } else {
                Some(sender)
            },
    {
        if self.sender.is_none() {
            self.sender = Some(sender);
        }
    }

    /// Puts `update` on the bus. An update that the channel does not take
    /// comes back in the error.
    pub fn send_update(&self, update: Update) -> (outcome: Result<(), Unsent<Update>>)
        requires
            self.endpoint() is Some,
        ensures
            outcome matches Err(unsent) ==> unsent.message() == update,
    {
        try_send(self.sender.as_ref().unwrap(), update)
    }
}

/// The listener: whoever wants to be told of updates implements it.
pub trait FfiUpdater: Send + Sync + 'static {
    /// Called with each update, in the order in which the updates were put
    /// on the bus.
    fn update(&self, update: Update);
}

/// What became of one attempt to deliver an update.
#[derive(Debug, Clone, Copy, PartialEq, Eq, Structural)]
pub enum Delivery {
    /// The oldest update was taken off the bus and handed to the listener.
    Delivered,
    /// The bus held no update.
    Nothing,
    /// The bus held no update and never will: every sending end is gone.
    Closed,
}

/// Hands what the bus gave to `listener`: an update is delivered, and the
/// reason for which there was none is passed on.
pub fn deliver<L: FfiUpdater + ?Sized>(received: Result<Update, Idle>, listener: &L) -> (delivery: Delivery)
    ensures
        delivery == match received {
            Ok(_) => Delivery::Delivered,
            Err(Idle::Empty) => Delivery::Nothing,
            Err(Idle::Disconnected) => Delivery::Closed,
        },
{
    match received {
        Ok(update) => {
            listener.update(update);
            Delivery::Delivered
        },
        Err(Idle::Empty) => Delivery::Nothing,
        Err(Idle::Disconnected) => Delivery::Closed,
    }
}

/// Takes the oldest update off the bus, if there is one, and hands it to
/// `listener`. A listener that is served by this function alone is told of
/// the updates in the order in which the channel gives them.
pub fn deliver_next<L: FfiUpdater + ?Sized>(receiver: &Receiver<Update>, listener: &L) -> (delivery:
    Delivery) {
    deliver(try_recv(receiver), listener)
}

/// The bus of a running application: an update channel with its sending
/// end installed, and its receiving end kept for the listener.
pub struct EventBus {
    updater: Updater,
    receiver: Receiver<Update>,
}

impl EventBus {
    #[verifier::type_invariant]
    spec fn installed(self) -> bool {
        self.updater.endpoint() is Some
    }

    /// A bus on a new unbounded channel: the sending end of the channel is
    /// installed on the bus, and its receiving end is kept.
    pub fn new() -> (bus: Self)
        ensures
            bus.sending_end() is Some,
    {
        let (sender, receiver) = channel();
        EventBus::from_ends(sender, receiver)
    }

    /// Puts the update of a commit on the bus; a commit without an update
    /// puts nothing on it. An update that the bus does not take comes back
    /// in the error.
    pub fn publish(&self, update: Option<Update>) -> (outcome: Result<(), Unsent<Update>>)
        ensures
            update is None ==> outcome is Ok,
            outcome matches Err(unsent) ==> update == Some(unsent.message()),
    {
        proof {
            use_type_invariant(self);
        }
        match update {
            Some(update) => self.updater.send_update(update),
            None => Ok(()),
        }
    }

    /// The receiving end of the bus.
    pub closed spec fn receiving_end(&self) -> Receiver<Update> {
        self.receiver
    }

    /// The receiving end of the bus, for the listener. Every call gives the
    /// same end.
    pub fn receiver(&self) -> (receiver: &Receiver<Update>)
        ensures
            *receiver == self.receiving_end(),
    {
        &self.receiver
    }

    /// Takes the oldest update off the bus, if there is one, and hands it to
    /// `listener`.
    pub fn deliver_next<L: FfiUpdater + ?Sized>(&self, listener: &L) -> (delivery: Delivery) {
        deliver_next(&self.receiver, listener)
    }

    /// The sending end that is installed on the bus.
    pub closed spec fn sending_end(&self) -> Option<Sender<Update>> {
        self.updater.endpoint()
    }

    /// The bus on the channel whose ends are `sender` and `receiver`:
    /// `sender` is installed as the sending end, `receiver` is kept.
    pub fn from_ends(sender: Sender<Update>, receiver: Receiver<Update>) -> (bus: Self)
        ensures
            bus.sending_end() == Some(sender),
            bus.receiving_end() == receiver,
    {
        let mut updater = Updater::new();
        updater.init(sender);
        EventBus { updater, receiver }
    }
}

} // verus!
