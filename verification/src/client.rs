//! Connection manager: owns the endpoint, the optional bearer token, the
//! optional transport-security settings, the lazily created channel handle,
//! and the connection-state hub.
//!
//! Building a transport channel suspends on network activity, so the attempt
//! itself runs with the caller; this manager validates and stores the
//! configuration, records each attempt's outcome, and publishes the resulting
//! state transition. Concurrent connect attempts are not mutually safe: the
//! caller serializes them, taking exclusive access to the manager.

use vstd::prelude::*;
use vstd::string::StringExecFns;

use crate::auth::AuthInterceptor;
use crate::auth::bearer_value;
use crate::auth::check_header_value;
use crate::auth::legal_header_value;
use crate::auth::make_bearer;
use crate::endpoint::Endpoint;
use crate::hub::hub_publish;
use crate::hub::hub_subscribe;
use crate::hub::hub_topic;
use crate::hub::new_hub;
use crate::hub::stream_topic;
use crate::types::ConnectionState;
use crate::types::Error;
use crate::types::TlsConfig;
use crate::types::TokenError;

verus! {

#[verifier::external_type_specification]
#[verifier::external_body]
pub struct ExChannel(tonic::transport::Channel);

/// The message of the connection error reported for a failed attempt against
/// the given endpoint text.
pub open spec fn connect_failure_message(uri: Seq<char>, err: Seq<char>) -> Seq<char> {
    "Failed to connect to "@ + uri + ": "@ + err
}

/// Client of the broker: endpoint, credential, transport settings, channel
/// handle, and the connection-state hub. The ghost field records, in order,
/// every state event handed to the hub, so contracts can say what a connect
/// attempt publishes.
pub struct Client {
    uri: Endpoint,
    token: Option<String>,
    tls_config: Option<TlsConfig>,
    channel: Option<tonic::transport::Channel>,
    connection_state_subs: Option<tokio::sync::broadcast::Sender<ConnectionState>>,
    published_events: Ghost<Seq<ConnectionState>>,
}

impl Client {
    /// The stored header value, if a token is configured.
    pub closed spec fn token_view(&self) -> Option<Seq<char>> {
        match self.token {
            Some(t) => Some(t@),
            None => None,
        }
    }

    /// The current target endpoint.
    pub closed spec fn endpoint_view(&self) -> Endpoint {
        self.uri
    }

    /// The stored transport-security settings, if any.
    pub closed spec fn tls_view(&self) -> Option<TlsConfig> {
        self.tls_config
    }

    /// The stored channel handle, if a connect attempt has succeeded.
    pub closed spec fn channel_view(&self) -> Option<tonic::transport::Channel> {
        self.channel
    }

    /// Whether a channel handle is currently stored.
    pub open spec fn connected(&self) -> bool {
        self.channel_view() is Some
    }

    /// The connection-state events published to the hub so far, in order:
    /// one per connect attempt made while a hub existed. A slow observer may
    /// still miss events under bounded lag; nothing here claims delivery.
    pub closed spec fn published(&self) -> Seq<ConnectionState> {
        self.published_events@
    }

    /// The topic of the connection-state hub, once one exists.
    pub closed spec fn hub_id(&self) -> Option<int> {
        match self.connection_state_subs {
            Some(tx) => Some(hub_topic(tx)),
            None => None,
        }
    }

    /// A configured token is always legal header-value text.
    pub closed spec fn wf(&self) -> bool {
        match self.token {
            Some(t) => legal_header_value(t@),
            None => true,
        }
    }

    /// A fresh client: no channel, no token, no transport-security settings,
    /// no hub.
    pub fn new(uri: Endpoint) -> (r: Client)
        ensures
            r.wf(),
            r.endpoint_view() == uri,
            r.token_view() is None,
            !r.connected(),
            r.hub_id() is None,
            r.tls_view() is None,
            r.published() == Seq::<ConnectionState>::empty(),
    {
        Client {
            uri,
            token: None,
            tls_config: None,
            channel: None,
            connection_state_subs: None,
            published_events: Ghost(Seq::empty()),
        }
    }

    /// The current endpoint as text.
    pub fn get_uri(&self) -> (r: String)
        ensures
            r@ == self.endpoint_view().text_view(),
    {
        self.uri.to_text()
    }

    /// Stores transport-security settings for the next channel build; an
    /// already-open channel is unaffected.
    pub fn set_tls_config(&mut self, tls_config: TlsConfig)
        requires
            old(self).wf(),
        ensures
            final(self).wf(),
            final(self).tls_view() == Some(tls_config),
            final(self).token_view() == old(self).token_view(),
            final(self).endpoint_view() == old(self).endpoint_view(),
            final(self).channel_view() == old(self).channel_view(),
            final(self).hub_id() == old(self).hub_id(),
            final(self).published() == old(self).published(),
    {
        self.tls_config = Some(tls_config);
    }

    /// The stored transport-security settings, for the caller that builds the
    /// channel.
    pub fn tls_config(&self) -> (r: &Option<TlsConfig>)
        ensures
            *r == self.tls_view(),
    {
        &self.tls_config
    }

    /// Validates the token text and stores its bearer value for every future
    /// outbound call. Text with an illegal header character is rejected and
    /// the previously stored token is left untouched; calls already
    /// dispatched are unaffected either way.
    pub fn set_access_token(&mut self, token: &str) -> (r: Result<(), TokenError>)
        requires
            old(self).wf(),
        ensures
            final(self).wf(),
            r is Ok <==> legal_header_value(bearer_value(token@)),
            r is Ok ==> final(self).token_view() == Some(bearer_value(token@)),
            r matches Err(TokenError::MalformedTokenError(m)) ==> final(self).token_view()
                == old(self).token_view() && m@ == "token text is not a legal header value"@,
            final(self).endpoint_view() == old(self).endpoint_view(),
            final(self).channel_view() == old(self).channel_view(),
            final(self).hub_id() == old(self).hub_id(),
            final(self).tls_view() == old(self).tls_view(),
            final(self).published() == old(self).published(),
    {
        let bearer = make_bearer(token);
        if check_header_value(bearer.as_str()) {
            self.token = Some(bearer);
            Ok(())
        } else {
            Err(
                TokenError::MalformedTokenError(
                    "token text is not a legal header value".to_owned(),
                ),
            )
        }
    }

    /// Whether a channel handle currently exists. Optimistic: no live health
    /// check stands behind it, and a silent failure of an established channel
    /// goes unnoticed here.
    pub fn is_connected(&self) -> (r: bool)
        ensures
            r == self.connected(),
    {
        self.channel.is_some()
    }

    /// A fresh observer on the connection-state hub, which is created on the
    /// first subscription. Nothing published earlier is replayed to it.
    pub fn subscribe_to_connection_state(&mut self) -> (r: tokio_stream::wrappers::BroadcastStream<
        ConnectionState,
    >)
        requires
            old(self).wf(),
        ensures
            final(self).wf(),
            final(self).hub_id() == Some(stream_topic(r)),
            old(self).hub_id() is Some ==> final(self).hub_id() == old(self).hub_id(),
            final(self).token_view() == old(self).token_view(),
            final(self).endpoint_view() == old(self).endpoint_view(),
            final(self).channel_view() == old(self).channel_view(),
            final(self).tls_view() == old(self).tls_view(),
            final(self).published() == old(self).published(),
    {
        match &self.connection_state_subs {
            Some(tx) => hub_subscribe(tx),
            None => {
                let (tx, stream) = new_hub(1);
                self.connection_state_subs = Some(tx);
                stream
            },
        }
    }

    /// Replaces the target endpoint; the next connect attempt is made against
    /// the new one.
    pub fn set_endpoint(&mut self, uri: Endpoint)
        requires
            old(self).wf(),
        ensures
            final(self).wf(),
            final(self).endpoint_view() == uri,
            final(self).token_view() == old(self).token_view(),
            final(self).channel_view() == old(self).channel_view(),
            final(self).hub_id() == old(self).hub_id(),
            final(self).tls_view() == old(self).tls_view(),
            final(self).published() == old(self).published(),
    {
        self.uri = uri;
    }

    /// The events a connect attempt publishes: the state it transitions to,
    /// appended to the log when a hub exists to publish into, and the log as
    /// it was when no hub exists yet.
    pub open spec fn published_after(self, state: ConnectionState) -> Seq<ConnectionState> {
        if self.hub_id() is Some {
            self.published().push(state)
        } else {
            self.published()
        }
    }

    /// Records the outcome of one connect attempt at the current endpoint,
    /// made by the caller under its exclusive access. On success the handle
    /// is stored as one wholesale swap and `Connected` is published, a no-op
    /// without subscribers. On failure `Disconnected` is published
    /// best-effort, the prior handle is kept, and a connection error carrying
    /// a readable message comes back. No retry happens here.
    pub fn complete_connect(&mut self, outcome: Result<tonic::transport::Channel, String>) -> (r:
        Result<(), Error>)
        requires
            old(self).wf(),
        ensures
            final(self).wf(),
            outcome matches Ok(ch) ==> r is Ok && final(self).channel_view() == Some(ch)
                && final(self).published() == old(self).published_after(
                ConnectionState::Connected,
            ),
            outcome matches Err(m) ==> final(self).channel_view() == old(self).channel_view() && (
            r matches Err(Error::Connection(em)) && em@ == connect_failure_message(
                old(self).endpoint_view().text_view(),
                m@,
            )) && final(self).published() == old(self).published_after(
                ConnectionState::Disconnected,
            ),
            final(self).token_view() == old(self).token_view(),
            final(self).endpoint_view() == old(self).endpoint_view(),
            final(self).hub_id() == old(self).hub_id(),
            final(self).tls_view() == old(self).tls_view(),
    {
        match outcome {
            Ok(channel) => {
                if let Some(subs) = &self.connection_state_subs {
                    hub_publish(subs, ConnectionState::Connected);
                    proof {
                        self.published_events@ = self.published_events@.push(
                            ConnectionState::Connected,
                        );
                    }
                }
                self.channel = Some(channel);
                Ok(())
            },
            Err(err) => {
                if let Some(subs) = &self.connection_state_subs {
                    hub_publish(subs, ConnectionState::Disconnected);
                    proof {
                        self.published_events@ = self.published_events@.push(
                            ConnectionState::Disconnected,
                        );
                    }
                }
                let uri_text = self.uri.to_text();
                let mut m: String = "Failed to connect to ".to_owned();
                m.append(uri_text.as_str());
                m.append(": ");
                m.append(err.as_str());
                Err(Error::Connection(m))
            },
        }
    }

    /// The stored channel handle, if any; issuing a call clones it. When it
    /// is absent the caller performs exactly one connect attempt and records
    /// it through `complete_connect`.
    pub fn channel(&self) -> (r: &Option<tonic::transport::Channel>)
        ensures
            *r == self.channel_view(),
    {
        &self.channel
    }

    /// A per-call hook carrying the configured token; applied to a request it
    /// inserts the stored bearer value as the "authorization" header, or
    /// passes the request through unchanged when no token is set. Never
    /// fails: token legality was checked when the token was set.
    pub fn get_auth_interceptor(&self) -> (r: AuthInterceptor)
        requires
            self.wf(),
        ensures
            r.wf(),
            r.token_view() == self.token_view(),
    {
        let token: Option<String> = match &self.token {
            Some(t) => Some(t.clone()),
            None => None,
        };
        AuthInterceptor::from_token(token)
    }
}

} // verus!
