//! Verified core of the Cronet bindings: request and engine configuration,
//! native result and status codes, the socket-like stream state machine,
//! the Naive padding protocol, Naive client planning and the DNS name
//! rules used for ECH and server redirects.

pub mod bidirectional;
pub mod bidirectional_conn;
pub mod callback;
pub mod client;
pub mod dns;
pub mod dns_message;
pub mod engine;
pub mod error;
pub mod ip;
pub mod json;
pub mod metrics;
pub mod model;
pub mod naive;
pub mod naive_client;
pub mod net_error;
pub mod params;
pub mod status;
pub mod text;
pub mod upload;

pub use bidirectional::{BidirectionalStreamHandle, BidirectionalStreamHandler};
pub use bidirectional_conn::{BidirectionalConnection, StreamError};
pub use callback::{RequestHandle, UrlRequestHandler};
pub use client::{CollectingHandler, RequestError, RequestOptions, Response};
pub use engine::{SplitDatagram, SplitStream, UdpDialResult};
pub use error::Error;
pub use metrics::{FinishedReason, Metrics, RequestFinished, RequestFinishedInfo};
pub use model::{Header, NetworkError, ResponseInfo};
pub use naive::{NaiveConnectOptions, NaiveConnection, NaivePadding};
pub use naive_client::{NaiveClient, NaiveClientOptions, NaiveClientStartError};
pub use net_error::{IoErrorKind, NetError};
pub use params::{CacheMode, EngineParams, RequestParams, RequestPriority};
pub use status::RequestStatus;
pub use upload::UploadState;
