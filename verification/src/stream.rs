//! The streaming decoder: owns the accumulation buffer that grows as
//! the transport hands bytes over, attempts a decode against what is
//! buffered, consumes exactly the bytes of a complete response, and
//! classifies a closed connection as "no response" or "reset".
use crate::command::Command;
use crate::decode::{CommandResp, Decoded, decode_spec};
use crate::error::MementoError;
use crate::wire::sub_vec;
use vstd::prelude::*;

verus! {

/// Specification-level image of a [`Decoder`].
pub ghost struct DecoderView {
    /// The bytes received but not yet consumed by a decoded response.
    pub buf: Seq<u8>,
    /// Whether any byte has ever been received on this connection.
    pub started: bool,
}

/// Drop the first `n` bytes of `v`.
fn drain_front(v: &mut Vec<u8>, n: usize)
    requires
        n <= old(v)@.len(),
    ensures
        final(v)@ == old(v)@.skip(n as int),
{
    let rest = sub_vec(v.as_slice(), n, v.len());
    proof {
        assert(rest@ =~= old(v)@.skip(n as int));
    }
    *v = rest;
}

/// The buffered state of one logical connection: everything received
/// from the transport that no decoded response has consumed yet.
#[derive(Debug)]
pub struct Decoder {
    buf: Vec<u8>,
    started: bool,
}

impl View for Decoder {
    type V = DecoderView;

    closed spec fn view(&self) -> DecoderView {
        DecoderView { buf: self.buf@, started: self.started }
    }
}

impl Decoder {
    /// A decoder for a fresh connection: nothing buffered, nothing
    /// ever received.
    pub fn new() -> (r: Decoder)
        ensures
            r@.buf == Seq::<u8>::empty(),
            !r@.started,
    {
        Decoder { buf: Vec::new(), started: false }
    }

    /// Append one transport read to the accumulation buffer.
    pub fn feed(&mut self, chunk: &[u8])
        ensures
            final(self)@.buf == old(self)@.buf + chunk@,
            final(self)@.started == (old(self)@.started || chunk@.len() > 0),
    {
        if chunk.len() > 0 {
            self.started = true;
        }
        self.buf.extend_from_slice(chunk);
    }

    /// One decode attempt against the buffered bytes, per
    /// [`decode_spec`]: a complete response is handed back and exactly
    /// the bytes it occupied leave the buffer; otherwise the buffer is
    /// untouched and `Ok(None)` asks the caller to feed more bytes.
    pub fn poll(&mut self, cmd: &Command) -> (r: Result<Option<CommandResp>, MementoError>)
        ensures
            final(self)@.started == old(self)@.started,
            match r {
                Ok(None) => decode_spec(old(self)@.buf, cmd@) is NeedMore && final(self)@.buf
                    == old(self)@.buf,
                Ok(Some(resp)) => decode_spec(old(self)@.buf, cmd@) matches Decoded::Done {
                    resp: rv,
                    used,
                } && resp@ == rv && final(self)@.buf == old(self)@.buf.skip(used),
                Err(e) => decode_spec(old(self)@.buf, cmd@) == Decoded::Fail(e@)
                    && final(self)@.buf == old(self)@.buf,
            },
    {
        match CommandResp::create(self.buf.as_slice(), cmd) {
            Ok(None) => Ok(None),
            Ok(Some((resp, used))) => {
                drain_front(&mut self.buf, used);
                Ok(Some(resp))
            },
            Err(e) => Err(e),
        }
    }

    /// What a read of zero bytes (the peer closed the connection)
    /// means: nothing was ever received, so the command simply has no
    /// response; or bytes of an uncompleted response had arrived, and
    /// the connection was reset under it.
    pub fn eof(&self) -> (r: Result<CommandResp, MementoError>)
        ensures
            match r {
                Ok(resp) => !self@.started && resp@ is NoResponse,
                Err(e) => self@.started && e@ is ConnectionReset,
            },
    {
        if self.started {
            Err(MementoError::ConnectionReset)
        } else {
            Ok(CommandResp::NoResponse)
        }
    }
}

} // verus!
