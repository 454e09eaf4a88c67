//! Declaring HTTP resources for a dispatcher.
//!
//! A resource is a name, a visibility flag and a handler for each verb that it
//! declares. The resources are collected in a [`Registry`] at startup and handed
//! to the dispatcher, which routes calls, enforces authentication and answers
//! for every verb that a resource leaves undeclared.

pub mod greeting;
pub mod handler;
pub mod registry;
pub mod reply;
pub mod resource;
pub mod startup;
pub mod tables;
pub mod telemetry;
pub mod verb;

pub use greeting::{Greeting, GreetingResource};
pub use handler::{Capability, Handler, HandlerView, Handlers, Response, ResponseView};
pub use registry::Registry;
pub use reply::{HandlerError, Reply};
pub use resource::{Resource, ResourceView};
pub use startup::declare_resources;
pub use tables::TableExtender;
pub use telemetry::{LogEvent, LogEventView, LogLevel};
pub use verb::Verb;
