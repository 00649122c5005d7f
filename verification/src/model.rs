//! The counter as a model that is kept in memory: the model, the bus that
//! carries its updates to the view, and the handle of the frontend.

use crate::database::Action;
use crate::updater::{channel, try_recv, try_send, Delivery, Idle, Unsent};
use crossbeam::channel::{Receiver, Sender};
use vstd::prelude::*;

verus! {

/// What the model tells the view.
#[derive(Debug, Clone, Copy, PartialEq, Eq, Structural)]
pub enum ModelUpdate {
    /// The counter changed; its new value.
    CountChanged { count: i32 },
}

/// The view: whoever wants to be told of the model's updates implements it.
pub trait RmpViewModel: Send + Sync + 'static {
    /// The updates that the view takes.
    type UpdateType;

    /// Called with each update of the model.
    fn model_update(&self, model_update: Self::UpdateType);
}

/// The model of an application, as the framework manages it: it is created
/// on a directory for its data, it takes the actions of the frontend, and
/// it may hand out the receiving end of the channel that carries its
/// updates.
pub trait RmpAppModel: Sized {
    /// The actions that the model takes.
    type ActionType;

    /// The updates that the model sends to the view.
    type UpdateType;

    /// A new model, whose data lies in `data_dir`.
    fn create(data_dir: String) -> Self;

    /// Takes an action of the frontend.
    fn action(&mut self, action: Self::ActionType);

    /// The receiving end of the model's update channel; `None` for a model
    /// that sends no updates.
    fn get_update_receiver(&self) -> Option<&Receiver<Self::UpdateType>> {
        None
    }
}

/// The bus from the model to the view: the slot for the sending end of the
/// model's update channel. The slot is filled once; whoever fills it first
/// wins.
pub struct ViewModel {
    sender: Option<Sender<ModelUpdate>>,
}

impl ViewModel {
    /// The sending end that is installed, if any.
    pub closed spec fn endpoint(&self) -> Option<Sender<ModelUpdate>> {
        self.sender
    }

    /// A bus with no sending end installed yet.
    pub fn new() -> (view_model: Self)
        ensures
            view_model.endpoint() is None,
    {
        ViewModel { sender: None }
    }

    /// Installs `sender` as the sending end, unless one is installed
    /// already: then the call changes nothing.
    pub fn init(&mut self, sender: Sender<ModelUpdate>)
        ensures
            final(self).endpoint() == if old(self).endpoint() is Some {
                old(self).endpoint()
            } else {
                Some(sender)
            },
    {
        if self.sender.is_none() {
            self.sender = Some(sender);
        }
    }

    /// Puts `model_update` on the bus. An update that the channel does not
    /// take comes back in the error.
    pub fn model_update(&self, model_update: ModelUpdate) -> (outcome: Result<
        (),
        Unsent<ModelUpdate>,
    >)
        requires
            self.endpoint() is Some,
        ensures
            outcome matches Err(unsent) ==> unsent.message() == model_update,
    {
        try_send(self.sender.as_ref().unwrap(), model_update)
    }
}

/// Hands what a model's channel gave to `view_model`: an update is
/// delivered, and the reason for which there was none is passed on.
pub fn deliver_model_update<V: RmpViewModel + ?Sized>(
    received: Result<V::UpdateType, Idle>,
    view_model: &V,
) -> (delivery: Delivery)
    ensures
        delivery == match received {
            Ok(_) => Delivery::Delivered,
            Err(Idle::Empty) => Delivery::Nothing,
            Err(Idle::Disconnected) => Delivery::Closed,
        },
{
    match received {
        Ok(model_update) => {
            view_model.model_update(model_update);
            Delivery::Delivered
        },
        Err(Idle::Empty) => Delivery::Nothing,
        Err(Idle::Disconnected) => Delivery::Closed,
    }
}

/// The counter after `action`, if it stays a 32-bit integer.
pub open spec fn counted(count: i32, action: Action) -> Option<i32> {
    let value = count + action.delta();
    if i32::MIN <= value <= i32::MAX {
        Some(value as i32)
    } else {
        None
    }
}

/// Why an action on the model failed.
#[derive(Debug)]
pub enum ActionError {
    /// The counter would leave the range of a 32-bit integer; it was left
    /// as it was.
    CounterOutOfRange,
    /// The counter was changed, but the bus did not take the update.
    Undelivered(Unsent<ModelUpdate>),
}

/// The channel of a model: its bus with the sending end installed, and the
/// receiving end, which is kept for the view.
pub struct ModelChannel {
    view_model: ViewModel,
    update_receiver: Receiver<ModelUpdate>,
}

impl ModelChannel {
    #[verifier::type_invariant]
    spec fn installed(self) -> bool {
        self.view_model.endpoint() is Some
    }

    /// The receiving end of the channel.
    pub closed spec fn receiving_end(&self) -> Receiver<ModelUpdate> {
        self.update_receiver
    }

    /// A new unbounded channel: its sending end is installed on a bus, and
    /// its receiving end is kept.
    pub fn new() -> (channel: Self)
        ensures
            channel.sending_end() is Some,
    {
        let (sender, update_receiver) = channel();
        ModelChannel::from_ends(sender, update_receiver)
    }

    /// Puts `model_update` on the bus. An update that the channel does not
    /// take comes back in the error.
    pub fn send(&self, model_update: ModelUpdate) -> (outcome: Result<(), Unsent<ModelUpdate>>)
        ensures
            outcome matches Err(unsent) ==> unsent.message() == model_update,
    {
        proof {
            use_type_invariant(self);
        }
        self.view_model.model_update(model_update)
    }

    /// The receiving end of the channel, for the view. Every call gives the
    /// same end.
    pub fn receiver(&self) -> (receiver: &Receiver<ModelUpdate>)
        ensures
            *receiver == self.receiving_end(),
    {
        &self.update_receiver
    }

    /// The sending end that is installed on the bus of the channel.
    pub closed spec fn sending_end(&self) -> Option<Sender<ModelUpdate>> {
        self.view_model.endpoint()
    }

    /// The channel whose ends are `sender` and `update_receiver`: `sender`
    /// is installed as the sending end, `update_receiver` is kept.
    pub fn from_ends(sender: Sender<ModelUpdate>, update_receiver: Receiver<ModelUpdate>) -> (channel:
        Self)
        ensures
            channel.sending_end() == Some(sender),
            channel.receiving_end() == update_receiver,
    {
        let mut view_model = ViewModel::new();
        view_model.init(sender);
        ModelChannel { view_model, update_receiver }
    }
}

/// The model: a counter, the directory for its data, and the channel that
/// carries its updates.
pub struct Model {
    pub count: i32,
    pub data_dir: String,
    channel: ModelChannel,
}

impl Model {
    /// The value of the counter.
    pub closed spec fn spec_count(&self) -> i32 {
        self.count
    }

    /// The directory for the model's data.
    pub closed spec fn spec_data_dir(&self) -> Seq<char> {
        self.data_dir@
    }

    /// The receiving end of the model's update channel.
    pub closed spec fn receiving_end(&self) -> Receiver<ModelUpdate> {
        self.channel.receiving_end()
    }

    /// A model whose counter is zero, with a new channel for its updates.
    pub fn create(data_dir: String) -> (model: Self)
        ensures
            model.spec_count() == 0,
            model.spec_data_dir() == data_dir@,
    {
        Model { count: 0, data_dir, channel: ModelChannel::new() }
    }

    /// Moves the counter by one and puts the change on the bus. A step that
    /// would take the counter out of its range fails and changes nothing.
    pub fn action(&mut self, action: Action) -> (outcome: Result<(), ActionError>)
        ensures
            final(self).spec_data_dir() == old(self).spec_data_dir(),
            final(self).receiving_end() == old(self).receiving_end(),
            final(self).spec_count() == match counted(old(self).spec_count(), action) {
                Some(count) => count,
                None => old(self).spec_count(),
            },
            match outcome {
                Ok(_) => counted(old(self).spec_count(), action) is Some,
                Err(ActionError::CounterOutOfRange) => counted(old(self).spec_count(), action)
                    is None,
                Err(ActionError::Undelivered(unsent)) => counted(old(self).spec_count(), action)
                    == Some(unsent.message()->count),
            },
    {
        let next = match action {
            Action::Increment => self.count.checked_add(1),
            Action::Decrement => self.count.checked_sub(1),
        };
        let count: i32 = match next {
            Some(count) => count,
            None => { return Err(ActionError::CounterOutOfRange); },
        };
        self.count = count;
        match self.channel.send(ModelUpdate::CountChanged { count }) {
            Ok(()) => Ok(()),
            Err(unsent) => Err(ActionError::Undelivered(unsent)),
        }
    }

    /// The receiving end of the model's update channel, for the view. Every
    /// call gives the same end.
    pub fn get_update_receiver(&self) -> (receiver: Option<&Receiver<ModelUpdate>>)
        ensures
            receiver matches Some(end) && *end == self.receiving_end(),
    {
        Some(self.channel.receiver())
    }

    /// Takes the oldest update off the model's channel, if there is one, and
    /// hands it to `view_model`.
    pub fn deliver_next<V: RmpViewModel<UpdateType = ModelUpdate> + ?Sized>(
        &self,
        view_model: &V,
    ) -> (delivery: Delivery) {
        deliver_model_update(try_recv(self.channel.receiver()), view_model)
    }
}

impl RmpAppModel for Model {
    type ActionType = Action;

    type UpdateType = ModelUpdate;

    /// A model whose counter is zero, with a new channel for its updates.
    fn create(data_dir: String) -> (model: Self)
        ensures
            model.spec_count() == 0,
            model.spec_data_dir() == data_dir@,
    {
        Model::create(data_dir)
    }

    /// Moves the counter by one and puts the change on the bus. A step that
    /// would take the counter out of its range is not taken. What became of
    /// the step is not returned here: `Model::action` returns it.
    fn action(&mut self, action: Action)
        ensures
            final(self).spec_data_dir() == old(self).spec_data_dir(),
            final(self).receiving_end() == old(self).receiving_end(),
            final(self).spec_count() == match counted(old(self).spec_count(), action) {
                Some(count) => count,
                None => old(self).spec_count(),
            },
    {
        let _ = Model::action(self, action);
    }

    /// The receiving end of the model's update channel. Every call gives
    /// the same end.
    fn get_update_receiver(&self) -> (receiver: Option<&Receiver<ModelUpdate>>)
        ensures
            receiver matches Some(end) && *end == self.receiving_end(),
    {
        Model::get_update_receiver(self)
    }
}

/// The handle through which the frontend reaches the model. The model is
/// created when it is first needed.
pub struct RmpModel {
    pub data_dir: String,
    model: Option<Model>,
}

impl RmpModel {
    /// The model, once it is created.
    pub closed spec fn model(&self) -> Option<Model> {
        self.model
    }

    /// The directory for the model's data.
    pub closed spec fn spec_data_dir(&self) -> Seq<char> {
        self.data_dir@
    }

    /// The value of the counter: that of the model, or zero where no model
    /// is created yet.
    pub open spec fn spec_count(&self) -> i32 {
        match self.model() {
            Some(model) => model.spec_count(),
            None => 0,
        }
    }

    /// A handle on the model whose data lies in `data_dir`. The model is not
    /// created yet.
    pub fn new(data_dir: String) -> (handle: Self)
        ensures
            handle.spec_data_dir() == data_dir@,
            handle.model() is None,
    {
        RmpModel { data_dir, model: None }
    }

    /// Hands `action` to the model, which is created first where there is
    /// none yet.
    pub fn action(&mut self, action: Action) -> (outcome: Result<(), ActionError>)
        ensures
            final(self).spec_data_dir() == old(self).spec_data_dir(),
            final(self).model() is Some,
            final(self).spec_count() == match counted(old(self).spec_count(), action) {
                Some(count) => count,
                None => old(self).spec_count(),
            },
            match outcome {
                Ok(_) => counted(old(self).spec_count(), action) is Some,
                Err(ActionError::CounterOutOfRange) => counted(old(self).spec_count(), action)
                    is None,
                Err(ActionError::Undelivered(unsent)) => counted(old(self).spec_count(), action)
                    == Some(unsent.message()->count),
            },
    {
        let mut model = self.get_or_set_global_model();
        let outcome = model.action(action);
        self.model = Some(model);
        outcome
    }

    /// The value of the counter.
    pub fn get_count(&self) -> (count: i32)
        ensures
            count == self.spec_count(),
    {
        match &self.model {
            Some(model) => model.count,
            None => 0,
        }
    }

    /// The model, created first where there is none yet.
    fn get_or_set_global_model(&mut self) -> (model: Model)
        ensures
            final(self).spec_data_dir() == old(self).spec_data_dir(),
            final(self).model() is None,
            model.spec_count() == old(self).spec_count(),
    {
        match self.model.take() {
            Some(model) => model,
            None => Model::create(self.data_dir.clone()),
        }
    }
}

} // verus!
