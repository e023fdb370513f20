//! The per-request context: it bridges the surrounding request/response
//! framework to the codec and the outbound body. It owns the inbound
//! octets (consumable exactly once), the response status line, the header
//! table, and the outbound body, and it is finalized exactly once into a
//! transport-level response description.

use vstd::prelude::*;
use vstd::string::*;
use crate::body::{BodyView, ProtoBody, TrailerView};
use crate::codec::{decode_frame, encode_frame, frame_of, CodecError};
use crate::digits::{dec_of, u64_to_dec};
use crate::headers::Headers;

verus! {

/// How a response cookie is scoped between sites.
#[derive(Clone, Copy, Debug, PartialEq, Eq, Structural)]
pub enum SameSite {
    Strict,
    Lax,
}

/// The attributes rendered into a response cookie.
pub struct CookieOptions {
    pub domain: String,
    pub path: String,
    pub expires: u64,
    pub http_only: bool,
    pub max_age: u64,
    pub secure: bool,
    pub signed: bool,
    pub same_site: SameSite,
}

impl Default for CookieOptions {
    /// Path `/`, everything else off or empty.
    fn default() -> (r: CookieOptions)
        ensures
            r.domain@ == Seq::<char>::empty(),
            r.path@ == "/"@,
            r.expires == 0,
            r.http_only == false,
            r.max_age == 0,
            r.secure == false,
            r.signed == false,
            r.same_site == SameSite::Strict,
    {
        CookieOptions {
            domain: String::new(),
            path: String::from_str("/"),
            expires: 0,
            http_only: false,
            max_age: 0,
            secure: false,
            signed: false,
            same_site: SameSite::Strict,
        }
    }
}

/// The piece that announces a cookie's site scoping.
pub open spec fn same_site_piece(s: SameSite) -> Seq<char> {
    match s {
        SameSite::Strict => "SameSite=Strict"@,
        SameSite::Lax => "SameSite=Lax"@,
    }
}

/// The text of one response cookie: `name=value; ` and the attribute
/// pieces joined by `, ` — the path first, then each attribute that is
/// switched on, the site scoping last.
pub open spec fn cookify_spec(name: Seq<char>, value: Seq<char>, o: CookieOptions) -> Seq<char> {
    name + "="@ + value + "; "@ + "Path="@ + o.path@ + (if o.expires > 0 {
        ", Expires="@ + dec_of(o.expires as nat)
    } else {
        Seq::<char>::empty()
    }) + (if o.max_age > 0 {
        ", Max-Age="@ + dec_of(o.max_age as nat)
    } else {
        Seq::<char>::empty()
    }) + (if o.domain@.len() > 0 {
        ", Domain="@ + o.domain@
    } else {
        Seq::<char>::empty()
    }) + (if o.secure {
        ", Secure"@
    } else {
        Seq::<char>::empty()
    }) + (if o.http_only {
        ", HttpOnly"@
    } else {
        Seq::<char>::empty()
    }) + ", "@ + same_site_piece(o.same_site)
}

/// The protocol version that the response asks the transport to use.
#[derive(Clone, Copy, Debug, PartialEq, Eq, Structural)]
pub enum HttpVersion {
    Http10,
    Http11,
    Http2,
}

/// The inbound octets of a request: present until some caller decodes
/// them, consumed from then on.
pub enum Inbound {
    NotYetRead(Vec<u8>),
    Consumed,
}

/// The inbound slot after a receive attempt, whatever it held.
pub open spec fn inbound_after_receive(i: Inbound) -> Inbound {
    Inbound::Consumed
}

/// What a receive attempt yields from an inbound slot: the payload
/// octets behind the five-octet frame header the first time, a framing
/// error on a short frame, and the contract-violation error once the
/// slot was consumed.
pub open spec fn receive_result(i: Inbound) -> Result<Seq<u8>, CodecError> {
    match i {
        Inbound::NotYetRead(b) => if b@.len() >= 5 {
            Ok(b@.subrange(5, b@.len() as int))
        } else {
            Err(CodecError::Truncated)
        },
        Inbound::Consumed => Err(CodecError::AlreadyConsumed),
    }
}

/// Single-consumption law: after any receive attempt the inbound slot
/// is consumed, and a further attempt yields the contract-violation
/// error — never data again, and never empty data.
pub proof fn lemma_receive_once(i: Inbound)
    ensures
        receive_result(inbound_after_receive(i)) == Err::<Seq<u8>, CodecError>(
            CodecError::AlreadyConsumed,
        ),
{
}

/// Wire round trip between peers: a context whose inbound octets are
/// the frame that a send built around `payload` — as its contract
/// states it, and as the transport carries it unchanged — yields
/// exactly `payload` back from its first receive.
pub proof fn lemma_send_receive_round_trip(b: Vec<u8>, payload: Seq<u8>)
    requires
        payload.len() <= u32::MAX,
        b@ == frame_of(payload),
    ensures
        receive_result(Inbound::NotYetRead(b)) == Ok::<Seq<u8>, CodecError>(payload),
{
    crate::codec::lemma_frame_round_trip(payload);
}

/// The transport-level response description that a finalized context
/// yields: status line, headers, protocol version, and the outbound
/// body whose trailer slot holds the same headers.
pub struct ProtoResponse {
    pub status: u16,
    pub headers: Headers,
    pub version: HttpVersion,
    pub body: ProtoBody,
}

/// The per-request state.
pub struct ProtoContext<T> {
    pub body: ProtoBody,
    pub query_params: Option<Vec<(String, String)>>,
    pub status: u16,
    pub inbound: Inbound,
    pub extra: T,
    pub http_version: HttpVersion,
    pub headers: Headers,
}

impl<T> ProtoContext<T> {
    /// The header table of the response in progress.
    pub open spec fn spec_headers(&self) -> Map<Seq<char>, Seq<char>> {
        self.headers@
    }

    /// The protocol version of the response in progress.
    pub open spec fn spec_version(&self) -> HttpVersion {
        self.http_version
    }

    /// The header tables held by the context carry distinct names.
    pub open spec fn wf(&self) -> bool {
        self.headers.wf() && self.body.wf()
    }

    /// A fresh context around the inbound octets: status 200, a lone
    /// `Server` header, HTTP/1.1 until a send forces HTTP/2, an empty
    /// body, and the inbound slot not yet read.
    pub fn new(inbound: Vec<u8>, extra: T) -> (r: ProtoContext<T>)
        ensures
            r.wf(),
            r.status == 200,
            r.spec_version() == HttpVersion::Http11,
            r.spec_headers() == Map::<Seq<char>, Seq<char>>::empty().insert(
                "Server"@,
                "Thruster"@,
            ),
            r.inbound == Inbound::NotYetRead(inbound),
            r.query_params is None,
            r.body@.content is None,
            r.body@.trailers == TrailerView::Unset,
            r.extra == extra,
    {
        let mut headers = Headers::new();
        headers.set("Server", "Thruster");
        ProtoContext {
            body: ProtoBody::empty(),
            query_params: None,
            status: 200,
            inbound: Inbound::NotYetRead(inbound),
            extra,
            http_version: HttpVersion::Http11,
            headers,
        }
    }

    /// Sets the response status code.
    pub fn status(&mut self, code: u32)
        requires
            code <= 65535,
        ensures
            final(self).status == code,
            final(self).body == old(self).body,
            final(self).inbound == old(self).inbound,
            final(self).query_params == old(self).query_params,
            final(self).extra == old(self).extra,
            final(self).spec_version() == old(self).spec_version(),
            final(self).spec_headers() == old(self).spec_headers(),
            final(self).wf() == old(self).wf(),
    {
        self.status = code as u16;
    }

    /// Enters `value` under `key` in the response headers, overriding
    /// any earlier value under that key.
    pub fn set(&mut self, key: &str, value: &str)
        requires
            old(self).wf(),
        ensures
            final(self).wf(),
            final(self).spec_headers() == old(self).spec_headers().insert(key@, value@),
            final(self).status == old(self).status,
            final(self).body == old(self).body,
            final(self).inbound == old(self).inbound,
            final(self).query_params == old(self).query_params,
            final(self).extra == old(self).extra,
            final(self).spec_version() == old(self).spec_version(),
    {
        self.headers.set(key, value);
    }

    /// Takes `key` out of the response headers, if it was there.
    pub fn remove(&mut self, key: &str)
        requires
            old(self).wf(),
        ensures
            final(self).wf(),
            final(self).spec_headers() == old(self).spec_headers().remove(key@),
            final(self).status == old(self).status,
            final(self).body == old(self).body,
            final(self).inbound == old(self).inbound,
            final(self).query_params == old(self).query_params,
            final(self).extra == old(self).extra,
            final(self).spec_version() == old(self).spec_version(),
    {
        self.headers.remove(key);
    }

    /// Sets the response `Content-Type`.
    pub fn content_type(&mut self, c_type: &str)
        requires
            old(self).wf(),
        ensures
            final(self).wf(),
            final(self).spec_headers() == old(self).spec_headers().insert(
                "Content-Type"@,
                c_type@,
            ),
            final(self).status == old(self).status,
            final(self).body == old(self).body,
            final(self).inbound == old(self).inbound,
            final(self).query_params == old(self).query_params,
            final(self).extra == old(self).extra,
            final(self).spec_version() == old(self).spec_version(),
    {
        self.set("Content-Type", c_type);
    }

    /// Sets up a redirect: status 302 and the `Location` header.
    pub fn redirect(&mut self, destination: &str)
        requires
            old(self).wf(),
        ensures
            final(self).wf(),
            final(self).status == 302,
            final(self).spec_headers() == old(self).spec_headers().insert(
                "Location"@,
                destination@,
            ),
            final(self).body == old(self).body,
            final(self).inbound == old(self).inbound,
            final(self).query_params == old(self).query_params,
            final(self).extra == old(self).extra,
            final(self).spec_version() == old(self).spec_version(),
    {
        self.status(302);
        self.set("Location", destination);
    }

    /// Sets a cookie on the response: appended, after `, `, to an
    /// earlier `Set-Cookie` value if one is there, else entered fresh.
    pub fn cookie(&mut self, name: &str, value: &str, options: &CookieOptions)
        requires
            old(self).wf(),
        ensures
            final(self).wf(),
            final(self).spec_headers() == old(self).spec_headers().insert(
                "Set-Cookie"@,
                (if old(self).spec_headers().contains_key("Set-Cookie"@) {
                    old(self).spec_headers()["Set-Cookie"@] + ", "@ + cookify_spec(
                        name@,
                        value@,
                        *options,
                    )
                } else {
                    cookify_spec(name@, value@, *options)
                }),
            ),
            final(self).status == old(self).status,
            final(self).body == old(self).body,
            final(self).inbound == old(self).inbound,
            final(self).query_params == old(self).query_params,
            final(self).extra == old(self).extra,
            final(self).spec_version() == old(self).spec_version(),
    {
        let piece = self.cookify_options(name, value, options);
        let cookie_value = match self.headers.get("Set-Cookie") {
            Some(val) => {
                let mut joined = val.clone();
                joined.append(", ");
                joined.append(piece.as_str());
                joined
            },
            None => piece,
        };
        self.set("Set-Cookie", cookie_value.as_str());
    }

    #[verifier::rlimit(60)]
    fn cookify_options(&self, name: &str, value: &str, options: &CookieOptions) -> (r: String)
        ensures
            r@ == cookify_spec(name@, value@, *options),
    {
        let mut out = String::from_str(name);
        out.append("=");
        out.append(value);
        out.append("; ");
        out.append("Path=");
        out.append(options.path.as_str());
        let ghost p0 = name@ + "="@ + value@ + "; "@ + "Path="@ + options.path@;
        proof {
            assert(out@ =~= p0);
        }
        if options.expires > 0 {
            out.append(", Expires=");
            let rendered = u64_to_dec(options.expires);
            out.append(rendered.as_str());
        }
        let ghost p1 = p0 + (if options.expires > 0 {
            ", Expires="@ + dec_of(options.expires as nat)
        } else {
            Seq::<char>::empty()
        });
        proof {
            assert(out@ =~= p1);
        }
        if options.max_age > 0 {
            out.append(", Max-Age=");
            let rendered = u64_to_dec(options.max_age);
            out.append(rendered.as_str());
        }
        let ghost p2 = p1 + (if options.max_age > 0 {
            ", Max-Age="@ + dec_of(options.max_age as nat)
        } else {
            Seq::<char>::empty()
        });
        proof {
            assert(out@ =~= p2);
        }
        if !options.domain.as_str().is_empty() {
            out.append(", Domain=");
            out.append(options.domain.as_str());
        }
        let ghost p3 = p2 + (if options.domain@.len() > 0 {
            ", Domain="@ + options.domain@
        } else {
            Seq::<char>::empty()
        });
        proof {
            assert(out@ =~= p3);
        }
        if options.secure {
            out.append(", Secure");
        }
        let ghost p4 = p3 + (if options.secure {
            ", Secure"@
        } else {
            Seq::<char>::empty()
        });
        proof {
            assert(out@ =~= p4);
        }
        if options.http_only {
            out.append(", HttpOnly");
        }
        let ghost p5 = p4 + (if options.http_only {
            ", HttpOnly"@
        } else {
            Seq::<char>::empty()
        });
        proof {
            assert(out@ =~= p5);
        }
        match options.same_site {
            SameSite::Strict => out.append(", SameSite=Strict"),
            SameSite::Lax => out.append(", SameSite=Lax"),
        }
        proof {
            reveal_strlit(", SameSite=Strict");
            reveal_strlit(", SameSite=Lax");
            reveal_strlit(", ");
            reveal_strlit("SameSite=Strict");
            reveal_strlit("SameSite=Lax");
            assert(out@ =~= p5 + ", "@ + same_site_piece(options.same_site));
            assert(out@ =~= cookify_spec(name@, value@, *options));
        }
        out
    }

    /// Asks the transport for HTTP/2.
    pub fn set_http2(&mut self)
        ensures
            final(self).spec_version() == HttpVersion::Http2,
            final(self).status == old(self).status,
            final(self).body == old(self).body,
            final(self).inbound == old(self).inbound,
            final(self).query_params == old(self).query_params,
            final(self).extra == old(self).extra,
            final(self).spec_headers() == old(self).spec_headers(),
            final(self).wf() == old(self).wf(),
    {
        self.http_version = HttpVersion::Http2;
    }

    /// Asks the transport for HTTP/1.1.
    pub fn set_http11(&mut self)
        ensures
            final(self).spec_version() == HttpVersion::Http11,
            final(self).status == old(self).status,
            final(self).body == old(self).body,
            final(self).inbound == old(self).inbound,
            final(self).query_params == old(self).query_params,
            final(self).extra == old(self).extra,
            final(self).spec_headers() == old(self).spec_headers(),
            final(self).wf() == old(self).wf(),
    {
        self.http_version = HttpVersion::Http11;
    }

    /// Asks the transport for HTTP/1.0.
    pub fn set_http10(&mut self)
        ensures
            final(self).spec_version() == HttpVersion::Http10,
            final(self).status == old(self).status,
            final(self).body == old(self).body,
            final(self).inbound == old(self).inbound,
            final(self).query_params == old(self).query_params,
            final(self).extra == old(self).extra,
            final(self).spec_headers() == old(self).spec_headers(),
            final(self).wf() == old(self).wf(),
    {
        self.http_version = HttpVersion::Http10;
    }

    /// Enters the protocol status, in decimal, under `grpc-status` in
    /// the headers, from where finalization carries it into the
    /// trailers.
    pub fn set_proto_status(&mut self, status: u16)
        requires
            old(self).wf(),
        ensures
            final(self).wf(),
            final(self).spec_headers() == old(self).spec_headers().insert(
                "grpc-status"@,
                dec_of(status as nat),
            ),
            final(self).status == old(self).status,
            final(self).body == old(self).body,
            final(self).inbound == old(self).inbound,
            final(self).query_params == old(self).query_params,
            final(self).extra == old(self).extra,
            final(self).spec_version() == old(self).spec_version(),
    {
        let rendered = u64_to_dec(status as u64);
        self.headers.set("grpc-status", rendered.as_str());
    }

    /// Stores the query parameters that the surrounding framework
    /// matched out of the request path.
    pub fn set_query_params(&mut self, query_params: Vec<(String, String)>)
        ensures
            final(self).query_params == Some(query_params),
            final(self).status == old(self).status,
            final(self).body == old(self).body,
            final(self).inbound == old(self).inbound,
            final(self).extra == old(self).extra,
            final(self).spec_headers() == old(self).spec_headers(),
            final(self).spec_version() == old(self).spec_version(),
            final(self).wf() == old(self).wf(),
    {
        self.query_params = Some(query_params);
    }

    /// Replaces the outbound body wholesale with raw octets; any
    /// trailer state of the old body is discarded with it.
    pub fn set_body(&mut self, body: Vec<u8>)
        ensures
            final(self).body@.content == Some(body@),
            final(self).body@.trailers == TrailerView::Unset,
            final(self).status == old(self).status,
            final(self).inbound == old(self).inbound,
            final(self).query_params == old(self).query_params,
            final(self).extra == old(self).extra,
            final(self).spec_headers() == old(self).spec_headers(),
            final(self).spec_version() == old(self).spec_version(),
            old(self).wf() ==> final(self).wf(),
    {
        self.body = ProtoBody::from_bytes(body);
    }

    /// Installs the drained inbound octets. A transport that delivers
    /// the request head before its body creates the context first and
    /// hands the octets over once, when the stream has ended; `receive`
    /// then consumes them.
    pub fn supply_inbound(&mut self, bytes: Vec<u8>)
        ensures
            final(self).inbound == Inbound::NotYetRead(bytes),
            final(self).status == old(self).status,
            final(self).body == old(self).body,
            final(self).query_params == old(self).query_params,
            final(self).extra == old(self).extra,
            final(self).spec_headers() == old(self).spec_headers(),
            final(self).spec_version() == old(self).spec_version(),
            final(self).wf() == old(self).wf(),
    {
        self.inbound = Inbound::NotYetRead(bytes);
    }

    /// Consumes the inbound octets — exactly once — and strips the
    /// frame header from them. The first call yields the payload octets
    /// (or the framing error, if fewer than five octets arrived); every
    /// later call fails fast with the contract-violation error.
    pub fn receive(&mut self) -> (r: Result<Vec<u8>, CodecError>)
        ensures
            final(self).inbound == inbound_after_receive(old(self).inbound),
            (match r {
                Ok(p) => receive_result(old(self).inbound) == Ok::<Seq<u8>, CodecError>(p@),
                Err(e) => receive_result(old(self).inbound) == Err::<Seq<u8>, CodecError>(e),
            }),
            final(self).status == old(self).status,
            final(self).body == old(self).body,
            final(self).query_params == old(self).query_params,
            final(self).extra == old(self).extra,
            final(self).spec_headers() == old(self).spec_headers(),
            final(self).spec_version() == old(self).spec_version(),
            final(self).wf() == old(self).wf(),
    {
        let mut prev = Inbound::Consumed;
        core::mem::swap(&mut self.inbound, &mut prev);
        match prev {
            Inbound::NotYetRead(raw) => decode_frame(raw.as_slice()),
            Inbound::Consumed => Err(CodecError::AlreadyConsumed),
        }
    }

    /// Sends a serialized reply: enters the standard response headers —
    /// the protocol's content type, a zero status, and the announcement
    /// that the status will travel as a trailer — forces HTTP/2, and
    /// installs the frame around `payload` as the outbound body. Fails,
    /// leaving the context untouched, exactly when the payload does not
    /// fit the frame's length field.
    pub fn send(&mut self, payload: &[u8]) -> (r: Result<(), CodecError>)
        requires
            old(self).wf(),
        ensures
            final(self).wf(),
            payload@.len() > u32::MAX ==> (r == Err::<(), CodecError>(CodecError::Oversize)
                && *final(self) == *old(self)),
            payload@.len() <= u32::MAX ==> (r is Ok && final(self).spec_headers() == old(
                self,
            ).spec_headers().insert("content-type"@, "application/grpc"@).insert(
                "grpc-status"@,
                "0"@,
            ).insert("trailer"@, "grpc-status"@) && final(self).spec_version()
                == HttpVersion::Http2 && final(self).body@.content == Some(frame_of(payload@))
                && final(self).body@.trailers == TrailerView::Unset && final(self).status == old(
                self,
            ).status && final(self).inbound == old(self).inbound && final(self).query_params == old(
                self,
            ).query_params && final(self).extra == old(self).extra),
    {
        let framed = match encode_frame(payload) {
            Ok(f) => f,
            Err(e) => {
                return Err(e);
            },
        };
        self.set("content-type", "application/grpc");
        self.set("grpc-status", "0");
        self.set("trailer", "grpc-status");
        self.set_http2();
        self.body = ProtoBody::from_bytes(framed);
        Ok(())
    }

    /// Finalizes the context — exactly once, it is consumed — into the
    /// transport-level response: the accumulated headers go onto the
    /// response and, as one table, into the body's trailer slot; the
    /// status line and protocol version are carried over.
    pub fn get_response(self) -> (r: ProtoResponse)
        requires
            self.wf(),
        ensures
            r.status == self.status,
            r.version == self.spec_version(),
            r.headers@ == self.spec_headers(),
            r.headers.wf(),
            r.body@.content == self.body@.content,
            r.body@.trailers == TrailerView::Filled(self.spec_headers()),
            r.body.wf(),
    {
        let ProtoContext { mut body, headers, status, http_version, .. } = self;
        let trailer_table = headers.duplicate();
        body.set_headers(trailer_table);
        ProtoResponse { status, headers, version: http_version, body }
    }
}

} // verus!
