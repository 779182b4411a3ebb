use kuksa_broker::client::Client;
use kuksa_broker::endpoint::Endpoint;
use kuksa_broker::endpoint::to_uri;
use kuksa_broker::types::ConnectionState;
use kuksa_broker::types::Error;
use tokio_stream::StreamExt;

fn test_endpoint() -> Endpoint {
    Endpoint::new("http".to_owned(), "127.0.0.1:55555".to_owned())
}

fn runtime() -> tokio::runtime::Runtime {
    tokio::runtime::Builder::new_current_thread().build().unwrap()
}

fn lazy_channel() -> tonic::transport::Channel {
    tonic::transport::Endpoint::from_static("http://127.0.0.1:50051").connect_lazy()
}

#[test]
fn endpoint_text_round_trip() {
    let e = Endpoint::new("https".to_owned(), "example.com:443".to_owned());
    assert_eq!(e.to_text(), "https://example.com:443");
    assert_eq!(e.scheme().as_str(), "https");
    assert_eq!(e.authority().as_str(), "example.com:443");
}

#[test]
fn to_uri_defaults_scheme_to_http() {
    let e = to_uri("127.0.0.1:55555").unwrap();
    assert_eq!(e.to_text(), "http://127.0.0.1:55555");
}

#[test]
fn to_uri_keeps_scheme_and_drops_path() {
    let e = to_uri("https://example.com:443/some/path?q=1").unwrap();
    assert_eq!(e.to_text(), "https://example.com:443");
}

#[test]
fn to_uri_without_authority_is_rejected() {
    let r = to_uri("/only/a/path");
    assert_eq!(r.unwrap_err(), "No server uri specified");
}

#[test]
fn to_uri_unparsable_text_is_rejected() {
    assert!(to_uri("http://exa mple.com").is_err());
}

#[test]
fn get_uri_reports_current_endpoint() {
    let mut client = Client::new(test_endpoint());
    assert_eq!(client.get_uri(), "http://127.0.0.1:55555");
    client.set_endpoint(Endpoint::new("http".to_owned(), "10.0.0.1:1234".to_owned()));
    assert_eq!(client.get_uri(), "http://10.0.0.1:1234");
}

#[test]
fn is_connected_false_after_construction() {
    let client = Client::new(test_endpoint());
    assert!(!client.is_connected());
}

#[test]
fn is_connected_lifecycle_is_optimistic() {
    let rt = runtime();
    rt.block_on(async {
        let mut client = Client::new(test_endpoint());
        assert!(!client.is_connected());

        client.complete_connect(Ok(lazy_channel())).unwrap();
        assert!(client.is_connected());

        // A later failed attempt reports the error but keeps the stored
        // handle: the flag stays optimistically true.
        let err = client.complete_connect(Err("boom".to_owned())).unwrap_err();
        match err {
            Error::Connection(msg) => {
                assert_eq!(msg, "Failed to connect to http://127.0.0.1:55555: boom");
            }
            Error::Status(_) => panic!("expected a connection error"),
        }
        assert!(client.is_connected());
        assert!(client.channel().is_some());
    });
}

#[test]
fn both_subscribers_receive_connected() {
    let rt = runtime();
    rt.block_on(async {
        let mut client = Client::new(test_endpoint());
        let mut first = client.subscribe_to_connection_state();
        let mut second = client.subscribe_to_connection_state();

        client.complete_connect(Ok(lazy_channel())).unwrap();

        let got1 = first.next().await.unwrap().unwrap();
        let got2 = second.next().await.unwrap().unwrap();
        assert_eq!(got1, ConnectionState::Connected);
        assert_eq!(got2, ConnectionState::Connected);
    });
}

#[test]
fn failed_attempt_publishes_disconnected() {
    let rt = runtime();
    rt.block_on(async {
        let mut client = Client::new(test_endpoint());
        let mut observer = client.subscribe_to_connection_state();
        assert!(client.complete_connect(Err("refused".to_owned())).is_err());
        let got = observer.next().await.unwrap().unwrap();
        assert_eq!(got, ConnectionState::Disconnected);
    });
}

#[test]
fn connect_without_subscribers_succeeds() {
    let rt = runtime();
    rt.block_on(async {
        let mut client = Client::new(test_endpoint());
        assert!(client.complete_connect(Ok(lazy_channel())).is_ok());
        assert!(client.is_connected());
    });
}

#[test]
fn status_errors_carry_the_transport_status() {
    let err = Error::Status(tonic::Status::internal("stream broke"));
    match err {
        Error::Status(status) => {
            assert_eq!(status.code(), tonic::Code::Internal);
            assert_eq!(status.message(), "stream broke");
        }
        Error::Connection(_) => panic!("expected a wrapped status"),
    }
}

#[test]
fn late_subscriber_sees_no_replay() {
    let rt = runtime();
    rt.block_on(async {
        let mut client = Client::new(test_endpoint());
        let mut early = client.subscribe_to_connection_state();
        client.complete_connect(Ok(lazy_channel())).unwrap();
        let mut late = client.subscribe_to_connection_state();

        assert_eq!(early.next().await.unwrap().unwrap(), ConnectionState::Connected);
        // The late observer saw nothing published before it subscribed; the
        // next event is the first it receives.
        assert!(client.complete_connect(Err("down".to_owned())).is_err());
        assert_eq!(late.next().await.unwrap().unwrap(), ConnectionState::Disconnected);
    });
}
