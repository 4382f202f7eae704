//! The one-way messages between the user interface and the tasks that
//! work for it in the background: envelopes that can be opened once, and
//! the side of the user interface that sends a request and takes what
//! comes back.

use vstd::prelude::*;

verus! {

/// Why a message was turned away.
#[derive(Copy, Clone, Debug, PartialEq, Eq, Structural)]
pub enum BridgeError {
    /// The envelope had been opened before.
    Consumed,
    /// The request had been made before.
    AlreadyRequested,
    /// The one result that was asked for had come before.
    AlreadyDelivered,
    /// The message is addressed to another node.
    NotAddressed,
}

/// What opening an envelope gives, and what is left in it: the first
/// opening gives the payload and leaves nothing, every later one is
/// turned away.
pub open spec fn opened<T>(payload: Option<T>) -> (Result<T, BridgeError>, Option<T>) {
    match payload {
        Some(value) => (Ok(value), None),
        None => (Err(BridgeError::Consumed), None),
    }
}

/// An envelope gives its payload once: the first opening gives exactly
/// what was put in, and a second opening is turned away, as is every one
/// after it.
pub proof fn lemma_opened_once<T>(value: T)
    ensures
        opened(Some(value)).0 == Ok::<T, BridgeError>(value),
        opened(opened(Some(value)).1).0 == Err::<T, BridgeError>(BridgeError::Consumed),
        opened(opened(opened(Some(value)).1).1) == opened(opened(Some(value)).1),
{
}

/// A message that can be consumed once.
#[derive(Debug)]
pub struct Envelope<T> {
    payload: Option<T>,
}

impl<T> Envelope<T> {
    /// What the envelope holds: the payload, until it is taken.
    pub closed spec fn payload(&self) -> Option<T> {
        self.payload
    }

    /// An envelope that holds `value`.
    pub fn new(value: T) -> (r: Self)
        ensures
            r.payload() == Some(value),
    {
        Envelope { payload: Some(value) }
    }

    /// Whether the payload has been taken.
    pub fn is_consumed(&self) -> (r: bool)
        ensures
            r == self.payload() is None,
    {
        self.payload.is_none()
    }

    /// Takes the payload out. The first call gives it; every later call
    /// is turned away.
    pub fn take(&mut self) -> (r: Result<T, BridgeError>)
        ensures
            r == opened(old(self).payload()).0,
            final(self).payload() == opened(old(self).payload()).1,
    {
        let mut payload: Option<T> = None;
        core::mem::swap(&mut self.payload, &mut payload);
        match payload {
            Some(value) => Ok(value),
            None => Err(BridgeError::Consumed),
        }
    }
}

/// The request that a node sends to the background: the node to which
/// the answers are to be addressed.
#[derive(Copy, Clone, Debug, PartialEq, Eq, Structural)]
pub struct Request {
    pub sender: u64,
}

/// The side of the user interface of a request for one value: a node that
/// asks once and takes one answer.
#[derive(Copy, Clone, Debug, PartialEq, Eq, Structural)]
pub struct FutureBridge {
    pub id: u64,
    pub requested: bool,
    pub delivered: bool,
}

impl FutureBridge {
    /// The bridge of node `id`, before it has asked.
    pub fn new(id: u64) -> (r: Self)
        ensures
            r == (FutureBridge { id, requested: false, delivered: false }),
    {
        FutureBridge { id, requested: false, delivered: false }
    }

    /// The node has joined the user interface: the request to send. Only
    /// the first call gives one.
    pub fn on_added(&mut self) -> (r: Result<Request, BridgeError>)
        ensures
            r == if old(self).requested {
                Err::<Request, BridgeError>(BridgeError::AlreadyRequested)
            } else {
                Ok::<Request, BridgeError>(Request { sender: old(self).id })
            },
            *final(self) == (FutureBridge { requested: true, ..*old(self) }),
    {
        if self.requested {
            Err(BridgeError::AlreadyRequested)
        } else {
            self.requested = true;
            Ok(Request { sender: self.id })
        }
    }

    /// An answer addressed to node `target` has come. One addressed to
    /// another node is left unopened. Else the envelope is opened, and
    /// its payload is the result, unless a result had come before.
    pub fn on_response<T>(&mut self, target: u64, envelope: &mut Envelope<T>) -> (r: Result<
        T,
        BridgeError,
    >)
        ensures
            r == if target != old(self).id {
                Err::<T, BridgeError>(BridgeError::NotAddressed)
            } else {
                match opened(old(envelope).payload()).0 {
                    Err(e) => Err::<T, BridgeError>(e),
                    Ok(value) => if old(self).delivered {
                        Err::<T, BridgeError>(BridgeError::AlreadyDelivered)
                    } else {
                        Ok::<T, BridgeError>(value)
                    },
                }
            },
            final(envelope).payload() == if target != old(self).id {
                old(envelope).payload()
            } else {
                opened(old(envelope).payload()).1
            },
            *final(self) == (FutureBridge {
                delivered: old(self).delivered || r is Ok,
                ..*old(self)
            }),
    {
        if target != self.id {
            return Err(BridgeError::NotAddressed);
        }
        let value = envelope.take()?;
        if self.delivered {
            Err(BridgeError::AlreadyDelivered)
        } else {
            self.delivered = true;
            Ok(value)
        }
    }
}

/// The side of the user interface of a subscription to a stream of
/// values: a node that asks once and takes every answer that comes, in
/// the order in which they come.
#[derive(Copy, Clone, Debug, PartialEq, Eq, Structural)]
pub struct StreamBridge {
    pub id: u64,
    pub requested: bool,
    pub delivered: u64,
}

impl StreamBridge {
    /// The bridge of node `id`, before it has asked.
    pub fn new(id: u64) -> (r: Self)
        ensures
            r == (StreamBridge { id, requested: false, delivered: 0 }),
    {
        StreamBridge { id, requested: false, delivered: 0 }
    }

    /// The node has joined the user interface: the request to send. Only
    /// the first call gives one.
    pub fn on_added(&mut self) -> (r: Result<Request, BridgeError>)
        ensures
            r == if old(self).requested {
                Err::<Request, BridgeError>(BridgeError::AlreadyRequested)
            } else {
                Ok::<Request, BridgeError>(Request { sender: old(self).id })
            },
            *final(self) == (StreamBridge { requested: true, ..*old(self) }),
    {
        if self.requested {
            Err(BridgeError::AlreadyRequested)
        } else {
            self.requested = true;
            Ok(Request { sender: self.id })
        }
    }

    /// An item addressed to node `target` has come. One addressed to
    /// another node is left unopened. Else the envelope is opened and its
    /// payload is the next item. The count of items taken stops at
    /// `u64::MAX`.
    pub fn on_response<T>(&mut self, target: u64, envelope: &mut Envelope<T>) -> (r: Result<
        T,
        BridgeError,
    >)
        ensures
            r == if target != old(self).id {
                Err::<T, BridgeError>(BridgeError::NotAddressed)
            } else {
                opened(old(envelope).payload()).0
            },
            final(envelope).payload() == if target != old(self).id {
                old(envelope).payload()
            } else {
                opened(old(envelope).payload()).1
            },
            *final(self) == (StreamBridge {
                delivered: if r is Ok && old(self).delivered < u64::MAX {
                    (old(self).delivered + 1) as u64
                } else {
                    old(self).delivered
                },
                ..*old(self)
            }),
    {
        if target != self.id {
            return Err(BridgeError::NotAddressed);
        }
        let value = envelope.take()?;
        if self.delivered < u64::MAX {
            self.delivered = self.delivered + 1;
        }
        Ok(value)
    }
}

/// The commands that the bridge itself answers, and all others.
#[derive(Copy, Clone, Debug, PartialEq, Eq, Structural)]
pub enum BridgeCommand {
    SpawnFuture,
    SpawnStream,
    Other,
}

/// Where a command goes: to the task that runs futures, to the task that
/// runs streams, to the delegate behind the bridge, or nowhere.
#[derive(Copy, Clone, Debug, PartialEq, Eq, Structural)]
pub enum Dispatch {
    Futures,
    Streams,
    Inner,
    Unhandled,
}

/// Decides where a command goes: the two requests go to their tasks,
/// every other command to the delegate behind the bridge, where there is
/// one.
pub fn dispatch(command: BridgeCommand, has_inner: bool) -> (r: Dispatch)
    ensures
        r == match command {
            BridgeCommand::SpawnFuture => Dispatch::Futures,
            BridgeCommand::SpawnStream => Dispatch::Streams,
            BridgeCommand::Other => if has_inner {
                Dispatch::Inner
            } else {
                Dispatch::Unhandled
            },
        },
{
    match command {
        BridgeCommand::SpawnFuture => Dispatch::Futures,
        BridgeCommand::SpawnStream => Dispatch::Streams,
        BridgeCommand::Other => if has_inner {
            Dispatch::Inner
        } else {
            Dispatch::Unhandled
        },
    }
}

} // verus!
