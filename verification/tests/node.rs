use mccl_node::ids::{default_folder_name, new_alpn, new_token};
use mccl_node::node::{
    establish_next, greeting, host_next, link_next, node_key, test_target, EstablishFailure,
    EstablishStage, HostFailure, HostStage, LinkFailure, LinkStage, TargetError,
};
use mccl_node::relay::{
    finishes_stream, socket_read_step, stream_read_step, write_step, RelaySource, RelayStep,
    RelayStop, RELAY_BUFFER_LEN,
};
use mccl_node::service::ServiceCheck;

const VALID_KEY: [u8; 32] = [
    215, 90, 152, 1, 130, 177, 10, 183, 213, 75, 254, 211, 201, 100, 7, 58, 14, 225, 114, 243,
    218, 166, 35, 37, 175, 2, 26, 104, 247, 7, 81, 26,
];

#[test]
fn alpn_is_32_url_safe_bytes() {
    let a = new_alpn();
    assert_eq!(a.len(), 32);
    assert!(a.iter().all(|b| b.is_ascii_alphanumeric() || *b == b'_' || *b == b'-'));
    assert_ne!(new_alpn(), a);
}

#[test]
fn token_and_folder_name() {
    let t = new_token();
    assert_eq!(t.chars().count(), 48);
    assert!(t.chars().all(|c| c.is_ascii_alphanumeric() || c == '_' || c == '-'));
    let f = default_folder_name();
    assert_eq!(f.chars().count(), 10);
    assert!(f.chars().all(|c| c.is_ascii_alphanumeric()));
}

#[test]
fn node_keys() {
    let key = node_key(&VALID_KEY.to_vec()).ok().unwrap().into_key();
    assert_eq!(key.as_bytes(), &VALID_KEY);
    assert!(matches!(node_key(&vec![1, 2, 3]), Err(TargetError::KeyLength)));
    let mut bad = vec![0u8; 32];
    bad[0] = 2;
    assert!(matches!(node_key(&bad), Err(TargetError::InvalidKey)));
}

#[test]
fn test_target_reads_alpn() {
    let check = ServiceCheck {
        status: "running".to_string(),
        host: Some("h".to_string()),
        nodeid: Some(vec![0; 3]),
        alpn: Some(VALID_KEY.to_vec()),
    };
    let key = test_target(&check).ok().unwrap().into_key();
    assert_eq!(key.as_bytes(), &VALID_KEY);
    let short = ServiceCheck { alpn: Some(vec![1; 31]), ..check };
    assert!(matches!(test_target(&short), Err(TargetError::KeyLength)));
}

#[test]
fn link_stages() {
    assert_eq!(greeting(), vec![1u8]);
    assert_eq!(link_next(LinkStage::Connect, true), Ok(LinkStage::OpenStream));
    assert_eq!(link_next(LinkStage::OpenStream, true), Ok(LinkStage::Greet));
    assert_eq!(link_next(LinkStage::Greet, true), Ok(LinkStage::Ready));
    assert_eq!(link_next(LinkStage::Connect, false), Err(LinkFailure::CannotConnect));
    assert_eq!(link_next(LinkStage::OpenStream, false), Err(LinkFailure::StreamRefused));
    assert_eq!(link_next(LinkStage::Greet, false), Err(LinkFailure::GreetFailed));
}

#[test]
fn establish_stages() {
    let mut stage = EstablishStage::Test(LinkStage::Connect);
    for _ in 0..3 {
        stage = establish_next(stage, true).unwrap();
    }
    assert_eq!(stage, EstablishStage::BindV4);
    assert_eq!(establish_next(EstablishStage::BindV4, false), Ok(EstablishStage::BindV6));
    assert_eq!(establish_next(EstablishStage::BindV6, false), Err(EstablishFailure::NoProxyPort));
    assert_eq!(establish_next(EstablishStage::BindV6, true), Ok(EstablishStage::Listen));
    assert_eq!(establish_next(EstablishStage::Listen, false), Err(EstablishFailure::ListenFailed));
    assert_eq!(establish_next(EstablishStage::Listen, true), Ok(EstablishStage::Serve));
    assert_eq!(establish_next(EstablishStage::Serve, false), Ok(EstablishStage::Serve));
    assert_eq!(
        establish_next(EstablishStage::Test(LinkStage::OpenStream), false),
        Err(EstablishFailure::Test(LinkFailure::StreamRefused))
    );
}

#[test]
fn host_stages() {
    assert_eq!(host_next(HostStage::Accept, false), Err(HostFailure::Handshake));
    assert_eq!(host_next(HostStage::AcceptStream, false), Err(HostFailure::StreamRefused));
    assert_eq!(host_next(HostStage::BindLocal, false), Ok(HostStage::ConnectServer));
    assert_eq!(host_next(HostStage::ConnectServer, false), Err(HostFailure::ServerUnreachable));
    assert_eq!(host_next(HostStage::ConnectServer, true), Ok(HostStage::Relay));
}

#[test]
fn relay_steps() {
    assert_eq!(socket_read_step(Ok(10), RELAY_BUFFER_LEN), RelayStep::Forward(10));
    assert_eq!(socket_read_step(Ok(0), RELAY_BUFFER_LEN), RelayStep::Stop(RelayStop::SocketClosed));
    assert_eq!(socket_read_step(Err(()), RELAY_BUFFER_LEN), RelayStep::Stop(RelayStop::ReadFailed));
    assert_eq!(stream_read_step(Ok(Some(4096)), RELAY_BUFFER_LEN), RelayStep::Forward(4096));
    assert_eq!(stream_read_step(Ok(Some(0)), RELAY_BUFFER_LEN), RelayStep::Stop(RelayStop::StreamStopped));
    assert_eq!(stream_read_step(Ok(None), RELAY_BUFFER_LEN), RelayStep::Stop(RelayStop::StreamFinished));
    assert_eq!(write_step(true), None);
    assert_eq!(write_step(false), Some(RelayStop::WriteFailed));
    assert!(finishes_stream(RelaySource::Socket));
    assert!(!finishes_stream(RelaySource::Stream));
}

#[test]
fn relay_run_copies_until_stop() {
    let reads: Vec<Result<Vec<u8>, ()>> = vec![Ok(vec![1, 2]), Ok(vec![3]), Ok(vec![]), Ok(vec![4])];
    let mut output: Vec<u8> = vec![];
    for read in &reads {
        let len = read.as_ref().map(|d| d.len()).map_err(|_| ());
        match socket_read_step(len, RELAY_BUFFER_LEN) {
            RelayStep::Forward(n) => output.extend_from_slice(&read.as_ref().unwrap()[..n]),
            RelayStep::Stop(_) => break,
        }
    }
    assert_eq!(output, vec![1, 2, 3]);

    let stream: Vec<Result<Option<Vec<u8>>, ()>> = vec![Ok(Some(vec![9])), Ok(None), Ok(Some(vec![8]))];
    let mut output: Vec<u8> = vec![];
    for read in &stream {
        let len = read.as_ref().map(|o| o.as_ref().map(|d| d.len())).map_err(|_| ());
        match stream_read_step(len, RELAY_BUFFER_LEN) {
            RelayStep::Forward(n) => output.extend_from_slice(&read.as_ref().unwrap().as_ref().unwrap()[..n]),
            RelayStep::Stop(_) => break,
        }
    }
    assert_eq!(output, vec![9]);
}
