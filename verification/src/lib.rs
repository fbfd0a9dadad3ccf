pub mod controller;
pub mod defer;
pub mod event;
pub mod event_lite;
pub mod notification;
pub mod observable;
pub mod poll;
pub mod rx;
pub mod stream_controller;
pub mod stream_defer;
pub mod stream_ext;
pub mod subject;

pub use crate::controller::Controller;
pub use crate::event::Event;
pub use crate::event_lite::EventLite;
pub use crate::notification::Notification;
pub use crate::observable::Observable;
pub use crate::poll::Poll;
pub use crate::poll::Signal;
pub use crate::poll::Step;
pub use crate::rx::combine_latest::CombineLatest;
pub use crate::rx::zip::Zip;
pub use crate::subject::behavior_subject::BehaviorSubject;
pub use crate::subject::publish_subject::PublishSubject;
pub use crate::subject::replay_subject::ReplaySubject;
pub use crate::subject::Subject;
