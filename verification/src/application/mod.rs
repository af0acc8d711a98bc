pub mod event_service;

pub use event_service::EventService;
