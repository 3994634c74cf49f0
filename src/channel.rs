//! The completion-based socket channel: one receive slot and one send slot,
//! each Idle, InFlight or Ready, with at most one operation in flight per
//! slot. The socket calls themselves are made by the caller, which reports
//! what the primitive answered.
use vstd::prelude::*;

verus! {

/// The state of one slot.
#[derive(Clone, Copy, Debug, PartialEq, Eq, Structural)]
pub enum SlotState {
    Idle,
    InFlight,
    Ready,
}

/// What the socket primitive answered when an operation was issued.
#[derive(Clone, Copy, Debug, PartialEq, Eq, Structural)]
pub enum IoOutcome {
    /// Done at once, with this many bytes transferred.
    Completed { bytes: u32 },
    /// "Would block": a completion signal will follow.
    Pending,
    /// Any other error, fatal to the socket.
    Failed { code: i32 },
}

/// Why a slot operation was refused.
#[derive(Clone, Copy, Debug, PartialEq, Eq, Structural)]
pub enum ChannelError {
    /// An operation is already in flight on that slot.
    Busy,
    /// The primitive failed; the socket is unusable.
    Fatal { code: i32 },
    /// A completion was reported for a slot with nothing in flight.
    NotInFlight,
}

/// The two slots of one socket and the byte counts they carry.
#[derive(Clone, Copy, Debug, PartialEq, Eq, Structural)]
pub struct SocketChannel {
    pub recv: SlotState,
    pub send: SlotState,
    /// Bytes held in the receive buffer while `recv` is Ready.
    pub recv_len: u32,
    /// Bytes handed to the send still in flight.
    pub send_len: u32,
}

impl SocketChannel {
    pub fn new() -> (r: SocketChannel)
        ensures
            r.recv == SlotState::Idle,
            r.send == SlotState::Idle,
            r.recv_len == 0,
            r.send_len == 0,
    {
        SocketChannel { recv: SlotState::Idle, send: SlotState::Idle, recv_len: 0, send_len: 0 }
    }

    /// Whether a send may be issued now.
    pub fn can_start_send(&self) -> (r: bool)
        ensures
            r == (self.send != SlotState::InFlight),
    {
        !matches!(self.send, SlotState::InFlight)
    }

    /// Whether a receive may be issued now.
    pub fn can_start_receive(&self) -> (r: bool)
        ensures
            r == (self.recv == SlotState::Idle),
    {
        matches!(self.recv, SlotState::Idle)
    }

    /// Records a receive issued on the socket. Done at once: the slot is
    /// Ready and the byte count is returned. Pending: the slot is InFlight.
    /// Refused, with nothing changed, unless the slot was Idle.
    pub fn start_receive(&mut self, outcome: IoOutcome) -> (r: Result<Option<u32>, ChannelError>)
        ensures
            final(self).send == old(self).send,
            final(self).send_len == old(self).send_len,
            old(self).recv != SlotState::Idle ==> r == Err::<Option<u32>, ChannelError>(
                ChannelError::Busy,
            ) && *final(self) == *old(self),
            old(self).recv == SlotState::Idle ==> match outcome {
                IoOutcome::Completed { bytes } => r == Ok::<Option<u32>, ChannelError>(Some(bytes))
                    && final(self).recv == SlotState::Ready && final(self).recv_len == bytes,
                IoOutcome::Pending => r == Ok::<Option<u32>, ChannelError>(None) && final(self).recv
                    == SlotState::InFlight && final(self).recv_len == 0,
                IoOutcome::Failed { code } => r == Err::<Option<u32>, ChannelError>(
                    ChannelError::Fatal { code },
                ) && *final(self) == *old(self),
            },
    {
        if !matches!(self.recv, SlotState::Idle) {
            return Err(ChannelError::Busy);
        }
        match outcome {
            IoOutcome::Completed { bytes } => {
                self.recv = SlotState::Ready;
                self.recv_len = bytes;
                Ok(Some(bytes))
            },
            IoOutcome::Pending => {
                self.recv = SlotState::InFlight;
                self.recv_len = 0;
                Ok(None)
            },
            IoOutcome::Failed { code } => Err(ChannelError::Fatal { code }),
        }
    }

    /// Records the completion of the receive in flight, with the byte count
    /// the primitive reported: the slot becomes Ready.
    pub fn finish_receive(&mut self, bytes: u32) -> (r: Result<u32, ChannelError>)
        ensures
            final(self).send == old(self).send,
            final(self).send_len == old(self).send_len,
            old(self).recv == SlotState::InFlight ==> r == Ok::<u32, ChannelError>(bytes)
                && final(self).recv == SlotState::Ready && final(self).recv_len == bytes,
            old(self).recv != SlotState::InFlight ==> r == Err::<u32, ChannelError>(
                ChannelError::NotInFlight,
            ) && *final(self) == *old(self),
    {
        if !matches!(self.recv, SlotState::InFlight) {
            return Err(ChannelError::NotInFlight);
        }
        self.recv = SlotState::Ready;
        self.recv_len = bytes;
        Ok(bytes)
    }

    /// Hands the received byte count to the caller, which has consumed the
    /// buffer: a Ready slot becomes Idle.
    pub fn take_received(&mut self) -> (r: Option<u32>)
        ensures
            final(self).send == old(self).send,
            final(self).send_len == old(self).send_len,
            old(self).recv == SlotState::Ready ==> r == Some(old(self).recv_len) && final(self).recv
                == SlotState::Idle && final(self).recv_len == 0,
            old(self).recv != SlotState::Ready ==> r is None && *final(self) == *old(self),
    {
        if !matches!(self.recv, SlotState::Ready) {
            return None;
        }
        let n = self.recv_len;
        self.recv = SlotState::Idle;
        self.recv_len = 0;
        Some(n)
    }

    /// Records a send of `len` bytes issued on the socket. A send is never
    /// recorded over one in flight: that is refused with nothing changed.
    /// Done at once: the slot stays free. Pending: the slot is InFlight.
    pub fn start_send(&mut self, len: u32, outcome: IoOutcome) -> (r: Result<bool, ChannelError>)
        ensures
            final(self).recv == old(self).recv,
            final(self).recv_len == old(self).recv_len,
            old(self).send == SlotState::InFlight ==> r == Err::<bool, ChannelError>(
                ChannelError::Busy,
            ) && *final(self) == *old(self),
            old(self).send != SlotState::InFlight ==> match outcome {
                IoOutcome::Completed { bytes } => r == Ok::<bool, ChannelError>(true)
                    && final(self).send == SlotState::Idle && final(self).send_len == 0,
                IoOutcome::Pending => r == Ok::<bool, ChannelError>(false) && final(self).send
                    == SlotState::InFlight && final(self).send_len == len,
                IoOutcome::Failed { code } => r == Err::<bool, ChannelError>(
                    ChannelError::Fatal { code },
                ) && *final(self) == *old(self),
            },
    {
        if matches!(self.send, SlotState::InFlight) {
            return Err(ChannelError::Busy);
        }
        match outcome {
            IoOutcome::Completed { bytes: _ } => {
                self.send = SlotState::Idle;
                self.send_len = 0;
                Ok(true)
            },
            IoOutcome::Pending => {
                self.send = SlotState::InFlight;
                self.send_len = len;
                Ok(false)
            },
            IoOutcome::Failed { code } => Err(ChannelError::Fatal { code }),
        }
    }

    /// Records the completion of the send in flight: the slot is free again.
    pub fn finish_send(&mut self, bytes: u32) -> (r: Result<u32, ChannelError>)
        ensures
            final(self).recv == old(self).recv,
            final(self).recv_len == old(self).recv_len,
            old(self).send == SlotState::InFlight ==> r == Ok::<u32, ChannelError>(bytes)
                && final(self).send == SlotState::Idle && final(self).send_len == 0,
            old(self).send != SlotState::InFlight ==> r == Err::<u32, ChannelError>(
                ChannelError::NotInFlight,
            ) && *final(self) == *old(self),
    {
        if !matches!(self.send, SlotState::InFlight) {
            return Err(ChannelError::NotInFlight);
        }
        self.send = SlotState::Idle;
        self.send_len = 0;
        Ok(bytes)
    }
}

} // verus!
