//! The tunables of one HTTP/2 transport connection.

use crate::time::TimeSpan;
use vstd::prelude::*;

verus! {

/// The default window of one stream: 2 MiB.
pub const DEFAULT_STREAM_WINDOW_SIZE: u32 = 2097152;

/// The default window of one connection: 5 MiB.
pub const DEFAULT_CONN_WINDOW_SIZE: u32 = 5242880;

/// The default upper bound of a frame: 16 KiB.
pub const DEFAULT_MAX_FRAME_SIZE: u32 = 16384;

/// The default upper bound of the send buffer: 1 MiB.
pub const DEFAULT_MAX_SEND_BUF_SIZE: usize = 1048576;

/// The default keepalive timeout, in seconds.
pub const DEFAULT_KEEPALIVE_TIMEOUT_SECS: u64 = 20;

/// The default number of streams that may be in reset at once.
pub const DEFAULT_MAX_CONCURRENT_RESET_STREAMS: usize = 10;

/// An `Http2Config` as a mathematical value. Spans are in nanoseconds.
pub struct Http2ConfigView {
    pub init_stream_window_size: u32,
    pub init_connection_window_size: u32,
    pub adaptive_window: bool,
    pub max_frame_size: u32,
    pub http2_keepalive_interval: Option<nat>,
    pub http2_keepalive_timeout: nat,
    pub http2_keepalive_while_idle: bool,
    pub max_concurrent_reset_streams: usize,
    pub retry_canceled_requests: bool,
    pub max_send_buf_size: usize,
    pub accept_http1: bool,
}

impl Http2ConfigView {
    /// The documented defaults.
    pub open spec fn defaults() -> Http2ConfigView {
        Http2ConfigView {
            init_stream_window_size: 2097152,
            init_connection_window_size: 5242880,
            adaptive_window: false,
            max_frame_size: 16384,
            http2_keepalive_interval: None,
            http2_keepalive_timeout: 20_000_000_000,
            http2_keepalive_while_idle: false,
            max_concurrent_reset_streams: 10,
            retry_canceled_requests: true,
            max_send_buf_size: 1048576,
            accept_http1: false,
        }
    }

    /// The sizes that a connection cannot do without are not zero.
    pub open spec fn valid(self) -> bool {
        &&& self.init_stream_window_size > 0
        &&& self.init_connection_window_size > 0
        &&& self.max_frame_size > 0
    }
}

/// Configuration for the underlying h2 connection. The two window sizes and
/// the frame size are never zero.
#[derive(Debug, Clone, Copy)]
pub struct Http2Config {
    pub(crate) init_stream_window_size: u32,
    pub(crate) init_connection_window_size: u32,
    pub(crate) adaptive_window: bool,
    pub(crate) max_frame_size: u32,
    pub(crate) http2_keepalive_interval: Option<TimeSpan>,
    pub(crate) http2_keepalive_timeout: TimeSpan,
    pub(crate) http2_keepalive_while_idle: bool,
    pub(crate) max_concurrent_reset_streams: usize,
    pub(crate) retry_canceled_requests: bool,
    pub(crate) max_send_buf_size: usize,
    pub(crate) accept_http1: bool,
}

impl View for Http2Config {
    type V = Http2ConfigView;

    closed spec fn view(&self) -> Http2ConfigView {
        Http2ConfigView {
            init_stream_window_size: self.init_stream_window_size,
            init_connection_window_size: self.init_connection_window_size,
            adaptive_window: self.adaptive_window,
            max_frame_size: self.max_frame_size,
            http2_keepalive_interval: match self.http2_keepalive_interval {
                Some(span) => Some(span.as_nanos()),
                None => None,
            },
            http2_keepalive_timeout: self.http2_keepalive_timeout.as_nanos(),
            http2_keepalive_while_idle: self.http2_keepalive_while_idle,
            max_concurrent_reset_streams: self.max_concurrent_reset_streams,
            retry_canceled_requests: self.retry_canceled_requests,
            max_send_buf_size: self.max_send_buf_size,
            accept_http1: self.accept_http1,
        }
    }
}

impl Default for Http2Config {
    fn default() -> (config: Http2Config)
        ensures
            config@ == Http2ConfigView::defaults(),
    {
        Self {
            init_stream_window_size: DEFAULT_STREAM_WINDOW_SIZE,
            init_connection_window_size: DEFAULT_CONN_WINDOW_SIZE,
            adaptive_window: false,
            max_frame_size: DEFAULT_MAX_FRAME_SIZE,
            http2_keepalive_interval: None,
            http2_keepalive_timeout: TimeSpan::from_secs(DEFAULT_KEEPALIVE_TIMEOUT_SECS),
            http2_keepalive_while_idle: false,
            max_concurrent_reset_streams: DEFAULT_MAX_CONCURRENT_RESET_STREAMS,
            max_send_buf_size: DEFAULT_MAX_SEND_BUF_SIZE,
            retry_canceled_requests: true,
            accept_http1: false,
        }
    }
}

impl Http2Config {
    #[verifier::type_invariant]
    spec fn well_formed(&self) -> bool {
        &&& self.init_stream_window_size > 0
        &&& self.init_connection_window_size > 0
        &&& self.max_frame_size > 0
    }

    /// The defaults with the three sizes that a connection cannot do
    /// without replaced. A zero among them is the caller's error.
    pub fn with_sizes(
        init_stream_window_size: u32,
        init_connection_window_size: u32,
        max_frame_size: u32,
    ) -> (config: Http2Config)
        requires
            init_stream_window_size > 0,
            init_connection_window_size > 0,
            max_frame_size > 0,
        ensures
            config@ == (Http2ConfigView {
                init_stream_window_size,
                init_connection_window_size,
                max_frame_size,
                ..Http2ConfigView::defaults()
            }),
    {
        Self {
            init_stream_window_size,
            init_connection_window_size,
            adaptive_window: false,
            max_frame_size,
            http2_keepalive_interval: None,
            http2_keepalive_timeout: TimeSpan::from_secs(DEFAULT_KEEPALIVE_TIMEOUT_SECS),
            http2_keepalive_while_idle: false,
            max_concurrent_reset_streams: DEFAULT_MAX_CONCURRENT_RESET_STREAMS,
            max_send_buf_size: DEFAULT_MAX_SEND_BUF_SIZE,
            retry_canceled_requests: true,
            accept_http1: false,
        }
    }

    /// Whether the three sizes are all fit for `with_sizes`.
    pub fn sizes_valid(
        init_stream_window_size: u32,
        init_connection_window_size: u32,
        max_frame_size: u32,
    ) -> (valid: bool)
        ensures
            valid == (init_stream_window_size > 0 && init_connection_window_size > 0
                && max_frame_size > 0),
    {
        init_stream_window_size > 0 && init_connection_window_size > 0 && max_frame_size > 0
    }

    pub fn init_stream_window_size(&self) -> (size: u32)
        ensures
            size == self@.init_stream_window_size,
            size > 0,
    {
        proof {
            use_type_invariant(self);
        }
        self.init_stream_window_size
    }

    pub fn init_connection_window_size(&self) -> (size: u32)
        ensures
            size == self@.init_connection_window_size,
            size > 0,
    {
        proof {
            use_type_invariant(self);
        }
        self.init_connection_window_size
    }

    pub fn adaptive_window(&self) -> (on: bool)
        ensures
            on == self@.adaptive_window,
    {
        self.adaptive_window
    }

    pub fn max_frame_size(&self) -> (size: u32)
        ensures
            size == self@.max_frame_size,
            size > 0,
    {
        proof {
            use_type_invariant(self);
        }
        self.max_frame_size
    }

    pub fn http2_keepalive_interval(&self) -> (interval: Option<TimeSpan>)
        ensures
            interval is Some == self@.http2_keepalive_interval is Some,
            interval matches Some(span) ==> self@.http2_keepalive_interval == Some(span.as_nanos()),
    {
        self.http2_keepalive_interval
    }

    pub fn http2_keepalive_timeout(&self) -> (timeout: TimeSpan)
        ensures
            timeout.as_nanos() == self@.http2_keepalive_timeout,
    {
        self.http2_keepalive_timeout
    }

    pub fn http2_keepalive_while_idle(&self) -> (on: bool)
        ensures
            on == self@.http2_keepalive_while_idle,
    {
        self.http2_keepalive_while_idle
    }

    pub fn max_concurrent_reset_streams(&self) -> (streams: usize)
        ensures
            streams == self@.max_concurrent_reset_streams,
    {
        self.max_concurrent_reset_streams
    }

    pub fn retry_canceled_requests(&self) -> (on: bool)
        ensures
            on == self@.retry_canceled_requests,
    {
        self.retry_canceled_requests
    }

    pub fn max_send_buf_size(&self) -> (size: usize)
        ensures
            size == self@.max_send_buf_size,
    {
        self.max_send_buf_size
    }

    pub fn accept_http1(&self) -> (on: bool)
        ensures
            on == self@.accept_http1,
    {
        self.accept_http1
    }
}

/// The defaults are a valid configuration.
pub proof fn lemma_defaults_valid()
    ensures
        Http2ConfigView::defaults().valid(),
{
}

} // verus!
