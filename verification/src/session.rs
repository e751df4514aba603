//! A generic session: a transcoding layer over a framed duplex transport.
//! The commitment engine never touches this layer; it is the byte-stream
//! service around it. Transports and transcoders are supplied by the user
//! through the traits here; an identity transcoder and an in-memory
//! loopback transport are provided.

use vstd::prelude::*;

verus! {

/// Errors of the session layer.
#[derive(Clone, Copy, PartialEq, Eq, Structural, Debug)]
pub enum SessionError {
    /// The transport could not receive or send a frame.
    Transport,
    /// The transcoder rejected a frame.
    Transcode,
}

/// Decodes incoming frames.
pub trait Decrypt {
    fn decrypt(&mut self, data: Vec<u8>) -> Result<Vec<u8>, SessionError>;
}

/// Encodes outgoing frames.
pub trait Encrypt {
    fn encrypt(&mut self, data: Vec<u8>) -> Vec<u8>;
}

/// Both directions of a session's encoding.
pub trait Transcode: Decrypt + Encrypt {

}

/// Receives raw frames from a transport.
pub trait Receiver {
    fn recv_frame(&mut self) -> Result<Vec<u8>, SessionError>;
}

/// Sends raw frames over a transport.
pub trait Sender {
    fn send_frame(&mut self, data: &[u8]) -> Result<usize, SessionError>;
}

/// A transport that both receives and sends frames.
pub trait Duplex: Receiver + Sender {

}

/// Marker for full sessions.
pub trait SessionTrait {

}

/// A session: a transcoder over a duplex byte stream.
pub struct Session<T: Transcode, S: Duplex> {
    transcoder: T,
    stream: S,
}

/// The inbound half of a session.
pub struct Inbound<D: Decrypt, I: Receiver> {
    /// Decodes what the input hands in.
    pub decryptor: D,
    /// The receiving side of the transport.
    pub input: I,
}

/// The outbound half of a session.
pub struct Outbound<E: Encrypt, O: Sender> {
    /// Encodes what the output sends out.
    pub encryptor: E,
    /// The sending side of the transport.
    pub output: O,
}

impl<T: Transcode, S: Duplex> SessionTrait for Session<T, S> {

}

impl<T: Transcode, S: Duplex> Session<T, S> {
    /// Pairs a transcoder with a transport.
    pub fn new(transcoder: T, stream: S) -> (r: Result<Session<T, S>, SessionError>)
        ensures
            r is Ok,
    {
        Result::Ok(Session { transcoder, stream })
    }

    /// Receives one frame from the transport and decodes it.
    pub fn recv_raw_message(&mut self) -> Result<Vec<u8>, SessionError> {
        match self.stream.recv_frame() {
            Result::Err(e) => Result::Err(e),
            Result::Ok(frame) => self.transcoder.decrypt(frame),
        }
    }

    /// Encodes one frame and sends it over the transport.
    pub fn send_raw_message(&mut self, raw: &[u8]) -> Result<usize, SessionError> {
        let encoded = self.transcoder.encrypt(vstd::slice::slice_to_vec(raw));
        self.stream.send_frame(encoded.as_slice())
    }
}

/// The identity transcoder: frames pass unchanged in both directions.
pub struct NoEncryption;

impl Decrypt for NoEncryption {
    fn decrypt(&mut self, data: Vec<u8>) -> Result<Vec<u8>, SessionError> {
        Result::Ok(data)
    }
}

impl Encrypt for NoEncryption {
    fn encrypt(&mut self, data: Vec<u8>) -> Vec<u8> {
        data
    }
}

impl Transcode for NoEncryption {

}

/// An in-memory transport: sent frames queue up and are received back in
/// order.
pub struct Loopback {
    frames: Vec<Vec<u8>>,
}

impl Loopback {
    /// An empty loopback transport.
    pub fn new() -> (r: Loopback) {
        Loopback { frames: Vec::new() }
    }
}

impl Receiver for Loopback {
    fn recv_frame(&mut self) -> Result<Vec<u8>, SessionError> {
        if self.frames.len() == 0 {
            Result::Err(SessionError::Transport)
        } else {
            Result::Ok(self.frames.remove(0))
        }
    }
}

impl Sender for Loopback {
    fn send_frame(&mut self, data: &[u8]) -> Result<usize, SessionError> {
        self.frames.push(vstd::slice::slice_to_vec(data));
        Result::Ok(data.len())
    }
}

impl Duplex for Loopback {

}

} // verus!
