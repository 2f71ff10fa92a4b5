//! Data types of a voice-assistant skill protocol, with a verified resolver
//! for the partially specified dates and times that the assistant recognizes
//! in an utterance.

pub mod errors;
pub mod instant;
pub mod json;
pub mod request;
pub mod response;
pub mod yandex_types;

pub use request::{
    IncomingMessage, InterfaceAccountLinking, InterfaceScreen, Interfaces, Intent, Markup, Meta,
    Nlu, NluEntity, NluEntityTokens, Request, RequestInner, RequestInnerType, Session, State,
};
pub use response::{Message, Response};
