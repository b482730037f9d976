//! What most callers need, in one import.

pub use crate::assembler::{read_response, Assembler, Event, State, Want};
pub use crate::exchange::{Directive, Dispatch, Session, TransportFailure, TransportKind};
pub use crate::preflight::{preflight, PreflightDecision, PreflightOutcome};
pub use crate::serializer::serialize;
pub use crate::structs::{
    ClientConfig, Cookie, DataType, HTTPtype, Header, PostData, Request, RequestType, Response,
};
pub use crate::types::{Error, ErrorKind};
