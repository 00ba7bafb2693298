//! The one-shot relay that carries a rendered location from the termination
//! hook to the code that runs after the catch.
use vstd::prelude::*;

verus! {

/// Why a receive on the relay yielded no location.
#[derive(PartialEq, Eq, Structural, Clone, Copy, Debug)]
pub enum RecvError {
    /// The producer never sent a location.
    NothingSent,
    /// The one location that was sent has already been received.
    AlreadyReceived,
}

impl RecvError {
    /// A short description of the failure.
    pub fn message(&self) -> (r: &'static str)
        ensures
            r@ == recv_error_text(*self),
    {
        proof {
            reveal_strlit("no location was sent");
            reveal_strlit("the location was already received");
        }
        match self {
            RecvError::NothingSent => "no location was sent",
            RecvError::AlreadyReceived => "the location was already received",
        }
    }
}

pub open spec fn recv_error_text(e: RecvError) -> Seq<char> {
    match e {
        RecvError::NothingSent => "no location was sent"@,
        RecvError::AlreadyReceived => "the location was already received"@,
    }
}

/// A single-slot channel: the producer sends at most once and the consumer
/// receives at most once.
pub struct LocationRelay {
    slot: Option<String>,
    sent: bool,
    received: bool,
}

/// The abstract state of a relay.
pub struct RelayView {
    /// The location waiting to be received.
    pub slot: Option<Seq<char>>,
    /// Whether the producer has used its one send.
    pub sent: bool,
    /// Whether the consumer has used its one receive.
    pub received: bool,
}

impl View for LocationRelay {
    type V = RelayView;

    closed spec fn view(&self) -> RelayView {
        RelayView {
            slot: match self.slot {
                Some(s) => Some(s@),
                None => None,
            },
            sent: self.sent,
            received: self.received,
        }
    }
}

impl LocationRelay {
    /// A slot holds a value only between the one send and the one receive.
    pub open spec fn wf(&self) -> bool {
        self@.slot is Some <==> (self@.sent && !self@.received)
    }

    /// A fresh relay: nothing sent, nothing received.
    pub fn new() -> (r: LocationRelay)
        ensures
            r.wf(),
            r@ == (RelayView { slot: None, sent: false, received: false }),
    {
        LocationRelay { slot: None, sent: false, received: false }
    }

    /// Offers `location` to the consumer. Only the first send of a relay
    /// delivers; a later one, or one after the consumer has received, is
    /// dropped. Returns whether the location was delivered.
    pub fn send(&mut self, location: String) -> (delivered: bool)
        requires
            old(self).wf(),
        ensures
            final(self).wf(),
            delivered == (!old(self)@.sent && !old(self)@.received),
            delivered ==> final(self)@ == (RelayView {
                slot: Some(location@),
                sent: true,
                received: false,
            }),
            !delivered ==> final(self)@ == old(self)@,
    {
        if self.sent || self.received {
            false
        } else {
            self.slot = Some(location);
            self.sent = true;
            true
        }
    }

    /// Takes the location that was sent, if one is waiting.
    pub fn recv(&mut self) -> (r: Result<String, RecvError>)
        requires
            old(self).wf(),
        ensures
            final(self).wf(),
            final(self)@ == (RelayView { slot: None, sent: old(self)@.sent, received: true }),
            match old(self)@.slot {
                Some(s) => r is Ok && r->Ok_0@ == s,
                None => r == Err::<String, RecvError>(
                    if old(self)@.received {
                        RecvError::AlreadyReceived
                    } else {
                        RecvError::NothingSent
                    },
                ),
            },
    {
        let taken = self.slot.take();
        let was_received = self.received;
        self.received = true;
        match taken {
            Some(s) => Ok(s),
            None => {
                if was_received {
                    Err(RecvError::AlreadyReceived)
                } else {
                    Err(RecvError::NothingSent)
                }
            },
        }
    }
}

} // verus!
