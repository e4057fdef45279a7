//! The terminal streaming mode of a session.

use crate::session::PicoGPIO;
use vstd::prelude::*;
use vstd::slice::slice_to_vec;

verus! {

/// What the streamed bytes drive.
#[derive(Clone, Copy, PartialEq, Eq, Structural, Debug)]
pub enum PwmStreamMode {
    PWM,
    Audio,
}

/// A session that was handed over to streaming. It forwards bytes and takes
/// no commands; there is no way back.
pub struct PwmStreamer {
    /// The session that was handed over, as it was at that moment.
    pub session: PicoGPIO,
    pub mode: PwmStreamMode,
}

impl PwmStreamer {
    /// The stream that a session has become.
    pub(crate) fn new(session: PicoGPIO, mode: PwmStreamMode) -> (s: PwmStreamer)
        ensures
            s.session == session,
            s.mode == mode,
    {
        PwmStreamer { session, mode }
    }

    /// What the streamed bytes drive.
    pub fn get_mode(&self) -> (m: PwmStreamMode)
        ensures
            m == self.mode,
    {
        self.mode
    }

    /// The bytes to write and flush for one sample: the sample itself.
    pub fn submit_byte(&mut self, b: u8) -> (out: Vec<u8>)
        ensures
            out@ == seq![b],
            *final(self) == *old(self),
    {
        let mut out: Vec<u8> = Vec::new();
        out.push(b);
        out
    }

    /// The bytes to write and flush for a run of samples: the samples as
    /// they are.
    pub fn submit_data(&mut self, data: &[u8]) -> (out: Vec<u8>)
        ensures
            out@ == data@,
            *final(self) == *old(self),
    {
        slice_to_vec(data)
    }
}

} // verus!
