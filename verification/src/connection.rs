//! The connection lifecycle: validating a listen request and the single
//! slot that holds at most one open connection handle.
//!
//! Opening and closing hardware connections belongs to the MIDI
//! transport. The library owns the decisions around it: whether a
//! requested port index may proceed, and the replace-on-reconnect rule
//! of the one shared slot. The slot is generic over the handle type, so
//! the embedding application supplies the transport's own handle.

use vstd::prelude::*;

verus! {

/// Why a device listing or listen request failed.
#[derive(Debug, PartialEq, Eq)]
pub enum MidiError {
    /// The MIDI subsystem could not be initialized; carries the
    /// transport's description of the failure.
    TransportInit(String),
    /// The requested port index is not among the available ports;
    /// carries the offending index.
    PortRange(usize),
    /// The transport rejected the connection attempt; carries the
    /// transport's description of the failure.
    Connect(String),
}

/// The single slot holding at most one open connection handle. Starting
/// a new connection replaces — and thereby closes — the previous one.
pub struct ConnectionSlot<C> {
    conn: Option<C>,
}

impl<C> View for ConnectionSlot<C> {
    type V = Option<C>;

    /// The handle currently stored, if any.
    closed spec fn view(&self) -> Option<C> {
        self.conn
    }
}

impl<C> ConnectionSlot<C> {
    /// An empty slot: no connection active.
    pub fn new() -> (slot: ConnectionSlot<C>)
        ensures
            slot@ is None,
    {
        ConnectionSlot { conn: None }
    }

    /// Whether a connection is currently active.
    pub fn is_active(&self) -> (r: bool)
        ensures
            r == (self@ is Some),
    {
        self.conn.is_some()
    }

    /// Validate a listen request against the number of currently
    /// available ports. Deciding writes nothing: the slot is unchanged,
    /// and an out-of-range index is reported with the offending index.
    pub fn request_listen(&mut self, port_index: usize, num_ports: usize) -> (r: Result<
        (),
        MidiError,
    >)
        ensures
            final(self)@ == old(self)@,
            r is Ok <==> port_index < num_ports,
            r is Err ==> r->Err_0 == MidiError::PortRange(port_index),
    {
        if port_index < num_ports {
            Ok(())
        } else {
            Err(MidiError::PortRange(port_index))
        }
    }

    /// Store a newly opened connection, replacing any previous one. The
    /// previous handle is returned so the caller closes it explicitly.
    pub fn replace(&mut self, conn: C) -> (prev: Option<C>)
        ensures
            final(self)@ == Some(conn),
            prev == old(self)@,
    {
        let prev = self.conn.take();
        self.conn = Some(conn);
        prev
    }

    /// Drop any active connection, returning it for explicit closing.
    pub fn clear(&mut self) -> (prev: Option<C>)
        ensures
            final(self)@ is None,
            prev == old(self)@,
    {
        self.conn.take()
    }
}

} // verus!
