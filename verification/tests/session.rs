use dbc::session::{Loopback, NoEncryption, Session, SessionError};

#[test]
fn session_loopback_roundtrip() {
    let mut session = Session::new(NoEncryption, Loopback::new()).unwrap();
    assert_eq!(session.send_raw_message(b"ping").unwrap(), 4);
    assert_eq!(session.send_raw_message(b"pong").unwrap(), 4);
    assert_eq!(session.recv_raw_message().unwrap(), b"ping".to_vec());
    assert_eq!(session.recv_raw_message().unwrap(), b"pong".to_vec());
    assert_eq!(session.recv_raw_message().unwrap_err(), SessionError::Transport);
}
