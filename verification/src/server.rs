//! The transport settings of the server front end. The protocol carries
//! its status in trailers, which only HTTP/2 can deliver, so a fresh
//! configuration accepts HTTP/2 alone.

use vstd::prelude::*;

verus! {

/// Connection settings that the listener applies to accepted sockets.
pub struct ProtoServer {
    http2_only: bool,
    tcp_keepalive_ms: Option<u64>,
    tcp_nodelay: bool,
}

impl ProtoServer {
    /// Whether only HTTP/2 connections are accepted.
    pub closed spec fn spec_http2_only(&self) -> bool {
        self.http2_only
    }

    /// The TCP keepalive interval, in milliseconds, if any.
    pub closed spec fn spec_tcp_keepalive_ms(&self) -> Option<u64> {
        self.tcp_keepalive_ms
    }

    /// Whether small writes go out without delay.
    pub closed spec fn spec_tcp_nodelay(&self) -> bool {
        self.tcp_nodelay
    }

    /// Fresh settings: HTTP/2 only, no keepalive, no write delay.
    pub fn new() -> (r: ProtoServer)
        ensures
            r.spec_http2_only() == true,
            r.spec_tcp_keepalive_ms() is None,
            r.spec_tcp_nodelay() == true,
    {
        ProtoServer { http2_only: true, tcp_keepalive_ms: None, tcp_nodelay: true }
    }

    /// Sets whether the connections should only ever accept HTTP/2.
    pub fn set_http2_only(&mut self, http2_only: bool)
        ensures
            final(self).spec_http2_only() == http2_only,
            final(self).spec_tcp_keepalive_ms() == old(self).spec_tcp_keepalive_ms(),
            final(self).spec_tcp_nodelay() == old(self).spec_tcp_nodelay(),
    {
        self.http2_only = http2_only;
    }

    /// Sets the connection keepalive interval.
    pub fn set_tcp_keepalive(&mut self, tcp_keepalive_ms: Option<u64>)
        ensures
            final(self).spec_tcp_keepalive_ms() == tcp_keepalive_ms,
            final(self).spec_http2_only() == old(self).spec_http2_only(),
            final(self).spec_tcp_nodelay() == old(self).spec_tcp_nodelay(),
    {
        self.tcp_keepalive_ms = tcp_keepalive_ms;
    }

    /// Sets whether small writes go out without delay.
    pub fn set_tcp_nodelay(&mut self, tcp_nodelay: bool)
        ensures
            final(self).spec_tcp_nodelay() == tcp_nodelay,
            final(self).spec_http2_only() == old(self).spec_http2_only(),
            final(self).spec_tcp_keepalive_ms() == old(self).spec_tcp_keepalive_ms(),
    {
        self.tcp_nodelay = tcp_nodelay;
    }

    /// Whether only HTTP/2 connections are accepted.
    pub fn http2_only(&self) -> (r: bool)
        ensures
            r == self.spec_http2_only(),
    {
        self.http2_only
    }

    /// The TCP keepalive interval, in milliseconds, if any.
    pub fn tcp_keepalive(&self) -> (r: Option<u64>)
        ensures
            r == self.spec_tcp_keepalive_ms(),
    {
        self.tcp_keepalive_ms
    }

    /// Whether small writes go out without delay.
    pub fn tcp_nodelay(&self) -> (r: bool)
        ensures
            r == self.spec_tcp_nodelay(),
    {
        self.tcp_nodelay
    }
}

} // verus!
