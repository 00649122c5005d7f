use crossbeam::channel::unbounded;
use rust_multiplatform::database::Action;
use rust_multiplatform::model::{
    deliver_model_update, ActionError, Model, ModelChannel, ModelUpdate, RmpAppModel, RmpModel,
    RmpViewModel, ViewModel,
};
use rust_multiplatform::updater::{Delivery, Idle};
use std::sync::Mutex;

struct TestViewModel {
    seen: Mutex<Vec<ModelUpdate>>,
}

impl RmpViewModel for TestViewModel {
    type UpdateType = ModelUpdate;

    fn model_update(&self, model_update: ModelUpdate) {
        self.seen.lock().unwrap().push(model_update);
    }
}

struct TestModel {
    count: i32,
    data_dir: String,
}

enum TestAction {
    TestAction,
}

impl RmpAppModel for TestModel {
    type ActionType = TestAction;
    type UpdateType = ModelUpdate;

    fn create(data_dir: String) -> Self {
        TestModel { count: 0, data_dir }
    }

    fn action(&mut self, action: Self::ActionType) {
        match action {
            TestAction::TestAction => self.count += 1,
        }
    }
}

#[test]
fn test_register_app() {
    let mut registered = TestModel::create("test_dir".to_string());
    registered.action(TestAction::TestAction);
    assert_eq!(registered.count, 1);
    assert_eq!(registered.data_dir, "test_dir");
    assert!(registered.get_update_receiver().is_none());
    let model = RmpModel::new("test_dir".to_string());
    let view = TestViewModel { seen: Mutex::new(Vec::new()) };
    view.model_update(ModelUpdate::CountChanged { count: model.get_count() });
    assert!(true);
}

#[test]
fn the_model_is_an_application_model() {
    let mut model = <Model as RmpAppModel>::create("data".to_string());
    assert_eq!(model.count, 0);
    assert_eq!(model.data_dir, "data");
    RmpAppModel::action(&mut model, Action::Increment);
    RmpAppModel::action(&mut model, Action::Increment);
    RmpAppModel::action(&mut model, Action::Decrement);
    assert_eq!(model.count, 1);
    let receiver = RmpAppModel::get_update_receiver(&model).unwrap();
    assert_eq!(receiver.try_recv(), Ok(ModelUpdate::CountChanged { count: 1 }));
    assert_eq!(receiver.try_recv(), Ok(ModelUpdate::CountChanged { count: 2 }));
    assert_eq!(receiver.try_recv(), Ok(ModelUpdate::CountChanged { count: 1 }));
    model.count = i32::MAX;
    RmpAppModel::action(&mut model, Action::Increment);
    assert_eq!(model.count, i32::MAX);
    assert!(RmpAppModel::get_update_receiver(&model).unwrap().try_recv().is_err());
}

#[test]
fn the_view_is_told_of_the_models_updates_in_order() {
    let mut model = Model::create("data".to_string());
    let view = TestViewModel { seen: Mutex::new(Vec::new()) };
    assert_eq!(model.deliver_next(&view), Delivery::Nothing);
    model.action(Action::Decrement).unwrap();
    model.action(Action::Increment).unwrap();
    model.action(Action::Increment).unwrap();
    assert_eq!(model.deliver_next(&view), Delivery::Delivered);
    assert_eq!(model.deliver_next(&view), Delivery::Delivered);
    assert_eq!(model.deliver_next(&view), Delivery::Delivered);
    assert_eq!(model.deliver_next(&view), Delivery::Nothing);
    assert_eq!(
        *view.seen.lock().unwrap(),
        vec![
            ModelUpdate::CountChanged { count: -1 },
            ModelUpdate::CountChanged { count: 0 },
            ModelUpdate::CountChanged { count: 1 },
        ]
    );
    assert_eq!(deliver_model_update(Err(Idle::Disconnected), &view), Delivery::Closed);
    assert_eq!(deliver_model_update(Err(Idle::Empty), &view), Delivery::Nothing);
    assert_eq!(
        deliver_model_update(Ok(ModelUpdate::CountChanged { count: 9 }), &view),
        Delivery::Delivered
    );
    assert_eq!(view.seen.lock().unwrap().len(), 4);
}

#[test]
fn test_model_creation() {
    let model = RmpModel::new("test_dir".to_string());
    assert_eq!(model.data_dir, "test_dir");
}

#[test]
fn test_action_handling() {
    let mut model = RmpModel::new("test_dir".to_string());
    assert!(model.action(Action::Increment).is_ok());
    assert_eq!(model.get_count(), 1);
}

#[test]
fn test_view_model() {
    let (sender, receiver) = unbounded();
    let mut view_model = ViewModel::new();
    view_model.init(sender);
    assert!(view_model.model_update(ModelUpdate::CountChanged { count: 42 }).is_ok());
    if let Ok(update) = receiver.try_recv() {
        match update {
            ModelUpdate::CountChanged { count } => assert_eq!(count, 42),
        }
    } else {
        panic!("No update received");
    }
}

#[test]
fn view_model_keeps_the_first_sender() {
    let (first, first_receiver) = unbounded();
    let (second, second_receiver) = unbounded();
    let mut view_model = ViewModel::new();
    view_model.init(first);
    view_model.init(second);
    assert!(view_model.model_update(ModelUpdate::CountChanged { count: 7 }).is_ok());
    assert_eq!(first_receiver.try_recv(), Ok(ModelUpdate::CountChanged { count: 7 }));
    assert!(second_receiver.try_recv().is_err());
}

#[test]
fn model_counts_up_and_down() {
    let mut model = Model::create("data".to_string());
    assert_eq!(model.count, 0);
    assert_eq!(model.data_dir, "data");
    assert!(model.action(Action::Increment).is_ok());
    assert!(model.action(Action::Increment).is_ok());
    assert!(model.action(Action::Decrement).is_ok());
    assert_eq!(model.count, 1);
    assert!(matches!(model.action(Action::Decrement), Ok(())));
    assert!(matches!(model.action(Action::Increment), Ok(())));
    let receiver = model.get_update_receiver().unwrap();
    assert_eq!(receiver.try_recv(), Ok(ModelUpdate::CountChanged { count: 1 }));
    assert_eq!(receiver.try_recv(), Ok(ModelUpdate::CountChanged { count: 2 }));
    assert_eq!(receiver.try_recv(), Ok(ModelUpdate::CountChanged { count: 1 }));
    assert_eq!(receiver.try_recv(), Ok(ModelUpdate::CountChanged { count: 0 }));
    assert_eq!(receiver.try_recv(), Ok(ModelUpdate::CountChanged { count: 1 }));
    assert!(receiver.try_recv().is_err());
}

#[test]
fn model_goes_below_zero() {
    let mut model = RmpModel::new("data".to_string());
    assert_eq!(model.get_count(), 0);
    assert!(model.action(Action::Decrement).is_ok());
    assert_eq!(model.get_count(), -1);
}

#[test]
fn model_update_comes_back_when_the_view_is_gone() {
    let (sender, receiver) = unbounded();
    let mut view_model = ViewModel::new();
    view_model.init(sender);
    drop(receiver);
    match view_model.model_update(ModelUpdate::CountChanged { count: 3 }) {
        Err(rust_multiplatform::updater::Unsent::Disconnected(update)) => {
            assert_eq!(update, ModelUpdate::CountChanged { count: 3 })
        }
        _ => panic!("the update should have come back"),
    }
}

#[test]
fn a_model_channel_is_made_on_the_ends_it_is_given() {
    let (sender, receiver) = crossbeam::channel::bounded(1);
    let channel = ModelChannel::from_ends(sender, receiver.clone());
    channel.send(ModelUpdate::CountChanged { count: 5 }).unwrap();
    match channel.send(ModelUpdate::CountChanged { count: 6 }) {
        Err(rust_multiplatform::updater::Unsent::Full(update)) => {
            assert_eq!(update, ModelUpdate::CountChanged { count: 6 })
        }
        _ => panic!("the channel has no room for a second update"),
    }
    assert_eq!(receiver.try_recv(), Ok(ModelUpdate::CountChanged { count: 5 }));
    assert!(channel.receiver().try_recv().is_err());
    let fresh = ModelChannel::new();
    fresh.send(ModelUpdate::CountChanged { count: 1 }).unwrap();
    assert_eq!(fresh.receiver().try_recv(), Ok(ModelUpdate::CountChanged { count: 1 }));
}

#[test]
fn the_model_does_not_leave_its_range() {
    let mut model = Model::create("data".to_string());
    model.count = i32::MAX;
    assert!(matches!(model.action(Action::Increment), Err(ActionError::CounterOutOfRange)));
    assert_eq!(model.count, i32::MAX);
    assert!(model.get_update_receiver().unwrap().try_recv().is_err());
    model.count = i32::MIN;
    assert!(matches!(model.action(Action::Decrement), Err(ActionError::CounterOutOfRange)));
    assert_eq!(model.count, i32::MIN);
    assert!(model.action(Action::Increment).is_ok());
    assert_eq!(model.count, i32::MIN + 1);
    assert_eq!(
        model.get_update_receiver().unwrap().try_recv(),
        Ok(ModelUpdate::CountChanged { count: i32::MIN + 1 })
    );
}
