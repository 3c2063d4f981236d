//! The schema: the types of event data, each a value that can be processed.

pub mod access;
pub mod context;
pub mod contexts;
pub mod event;
pub mod event_id;
pub mod exception;
pub mod getter;
pub mod interfaces;
pub mod pairs;
pub mod release;
pub mod types;
pub mod user;

pub use self::context::{Context, ContextInner, Contexts, DefaultContext};
pub use self::contexts::{
    AppContext, BrowserContext, DeviceContext, GpuContext, MonitorContext, OsContext,
    ProfileContext, ResponseContext, RuntimeContext, TraceContext,
};
pub use self::event::{Event, EventProcessingError, ExtraValue, GroupingConfig};
pub use self::event_id::{EventId, InvalidEventId};
pub use self::exception::Exception;
pub use self::getter::{or_none, release_value};
pub use self::interfaces::{
    Breakdowns, ClientSdkInfo, LogEntry, Measurement, Measurements, Request, TransactionInfo,
    Values,
};
pub use self::pairs::{Header, Headers, TagEntry, Tags};
pub use self::release::ParsedRelease;
pub use self::types::{
    EventType, HeaderName, HeaderValue, HexId, IpAddr, JsonLenientString, LenientString, Level,
    Message, Millis, PairList, SpanStatus, Timestamp, TransactionSource,
};
pub use self::user::{Geo, User};
