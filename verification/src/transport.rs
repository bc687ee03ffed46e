//! A mock transport for testing MQTT protocol implementations: reads are
//! served from queued bytes, writes are captured, and failures can be
//! injected.
use vstd::prelude::*;
use std::collections::VecDeque;

use crate::error::TransportError;

verus! {

/// The text of an optional address.
pub open spec fn opt_addr(a: Option<String>) -> Option<Seq<char>> {
    match a {
        Some(s) => Some(s@),
        None => None,
    }
}

/// Whether `needle` occurs in `hay` at position `i`.
pub open spec fn occurs_at(hay: Seq<u8>, needle: Seq<u8>, i: int) -> bool {
    0 <= i && i + needle.len() <= hay.len() && hay.subrange(i, i + needle.len()) == needle
}

/// What a read gives back of the queued bytes: a buffer with room for all
/// of them receives them all, in order, and leaves none queued.
pub proof fn lemma_read_returns_queued(queued: Seq<u8>, buf: Seq<u8>)
    requires
        buf.len() >= queued.len(),
    ensures
        ({
            let k = if buf.len() < queued.len() {
                buf.len()
            } else {
                queued.len()
            };
            &&& k == queued.len()
            &&& (queued.take(k as int) + buf.skip(k as int)).take(k as int) == queued
            &&& queued.skip(k as int).len() == 0
        }),
{
    let k = queued.len();
    assert((queued.take(k as int) + buf.skip(k as int)).take(k as int) =~= queued);
}

/// A mock transport for testing MQTT protocol implementations.
#[derive(Debug)]
pub struct MockTransport {
    incoming_data: VecDeque<u8>,
    outgoing_data: Vec<u8>,
    connected: bool,
    read_errors: VecDeque<TransportError>,
    write_errors: VecDeque<TransportError>,
    local_addr: Option<String>,
    remote_addr: Option<String>,
    simulate_slow_read: bool,
    simulate_connection_loss: bool,
}

impl MockTransport {
    /// The bytes that reads will return, in order.
    pub closed spec fn incoming(&self) -> Seq<u8> {
        self.incoming_data@
    }

    /// The bytes written so far.
    pub closed spec fn outgoing(&self) -> Seq<u8> {
        self.outgoing_data@
    }

    /// Whether the transport is connected.
    pub closed spec fn spec_connected(&self) -> bool {
        self.connected
    }

    /// The errors that the next reads return, in order.
    pub closed spec fn read_failures(&self) -> Seq<TransportError> {
        self.read_errors@
    }

    /// The errors that the next writes return, in order.
    pub closed spec fn write_failures(&self) -> Seq<TransportError> {
        self.write_errors@
    }

    /// The local address.
    pub closed spec fn local(&self) -> Option<Seq<char>> {
        opt_addr(self.local_addr)
    }

    /// The remote address.
    pub closed spec fn remote(&self) -> Option<Seq<char>> {
        opt_addr(self.remote_addr)
    }

    /// Whether reads time out.
    pub closed spec fn slow_read(&self) -> bool {
        self.simulate_slow_read
    }

    /// Whether the next read or write loses the connection.
    pub closed spec fn connection_loss(&self) -> bool {
        self.simulate_connection_loss
    }

    /// Nothing queued, captured or injected, no address, no simulation.
    pub open spec fn is_pristine(&self) -> bool {
        &&& self.incoming().len() == 0
        &&& self.outgoing().len() == 0
        &&& self.read_failures().len() == 0
        &&& self.write_failures().len() == 0
        &&& self.local() is None
        &&& self.remote() is None
        &&& !self.slow_read()
        &&& !self.connection_loss()
    }

    /// Everything but the incoming bytes stays.
    pub open spec fn same_but_incoming(&self, other: &MockTransport) -> bool {
        &&& self.outgoing() == other.outgoing()
        &&& self.spec_connected() == other.spec_connected()
        &&& self.read_failures() == other.read_failures()
        &&& self.write_failures() == other.write_failures()
        &&& self.local() == other.local()
        &&& self.remote() == other.remote()
        &&& self.slow_read() == other.slow_read()
        &&& self.connection_loss() == other.connection_loss()
    }

    /// Everything but the captured bytes stays.
    pub open spec fn same_but_outgoing(&self, other: &MockTransport) -> bool {
        &&& self.incoming() == other.incoming()
        &&& self.spec_connected() == other.spec_connected()
        &&& self.read_failures() == other.read_failures()
        &&& self.write_failures() == other.write_failures()
        &&& self.local() == other.local()
        &&& self.remote() == other.remote()
        &&& self.slow_read() == other.slow_read()
        &&& self.connection_loss() == other.connection_loss()
    }

    /// Everything but the connection flag stays.
    pub open spec fn same_but_connection(&self, other: &MockTransport) -> bool {
        &&& self.incoming() == other.incoming()
        &&& self.outgoing() == other.outgoing()
        &&& self.read_failures() == other.read_failures()
        &&& self.write_failures() == other.write_failures()
        &&& self.local() == other.local()
        &&& self.remote() == other.remote()
        &&& self.slow_read() == other.slow_read()
        &&& self.connection_loss() == other.connection_loss()
    }

    /// Creates a new mock transport in connected state.
    pub fn new() -> (res: Self)
        ensures
            res.spec_connected(),
            res.is_pristine(),
    {
        MockTransport {
            incoming_data: VecDeque::new(),
            outgoing_data: Vec::new(),
            connected: true,
            read_errors: VecDeque::new(),
            write_errors: VecDeque::new(),
            local_addr: None,
            remote_addr: None,
            simulate_slow_read: false,
            simulate_connection_loss: false,
        }
    }

    /// Creates a new mock transport in disconnected state.
    pub fn new_disconnected() -> (res: Self)
        ensures
            !res.spec_connected(),
            res.is_pristine(),
    {
        let mut transport = Self::new();
        transport.connected = false;
        transport
    }

    /// Adds data that subsequent reads return.
    pub fn add_incoming_data(&mut self, data: &[u8])
        ensures
            final(self).incoming() == old(self).incoming() + data@,
            final(self).same_but_incoming(old(self)),
    {
        let n = data.len();
        for i in 0..n
            invariant
                n == data@.len(),
                self.incoming_data@ == old(self).incoming_data@ + data@.take(i as int),
                self.same_but_incoming(old(self)),
        {
            self.incoming_data.push_back(data[i]);
            proof {
                assert(data@.take(i + 1) =~= data@.take(i as int).push(data@[i as int]));
                assert(self.incoming_data@ =~= old(self).incoming_data@ + data@.take(i + 1));
            }
        }
        proof {
            assert(data@.take(n as int) =~= data@);
        }
    }

    /// Adds a complete MQTT packet to the incoming data.
    pub fn add_incoming_packet(&mut self, packet_data: &[u8])
        ensures
            final(self).incoming() == old(self).incoming() + packet_data@,
            final(self).same_but_incoming(old(self)),
    {
        self.add_incoming_data(packet_data);
    }

    /// Returns all data written to the transport.
    pub fn get_outgoing_data(&self) -> (res: &[u8])
        ensures
            res@ == self.outgoing(),
    {
        self.outgoing_data.as_slice()
    }

    /// Clears the captured outgoing data.
    pub fn clear_outgoing_data(&mut self)
        ensures
            final(self).outgoing().len() == 0,
            final(self).same_but_outgoing(old(self)),
    {
        self.outgoing_data.clear();
    }

    /// Returns the last `n` bytes written, or all of them when fewer were
    /// written.
    pub fn get_last_outgoing_bytes(&self, n: usize) -> (res: &[u8])
        ensures
            res@ == self.outgoing().subrange(
                if n < self.outgoing().len() {
                    self.outgoing().len() - n
                } else {
                    0
                },
                self.outgoing().len() as int,
            ),
    {
        let len = self.outgoing_data.len();
        let start = len.saturating_sub(n);
        vstd::slice::slice_subrange(self.outgoing_data.as_slice(), start, len)
    }

    /// Whether `expected` occurs somewhere in the outgoing data.
    pub fn outgoing_contains(&self, expected: &[u8]) -> (res: bool)
        requires
            expected@.len() > 0,
        ensures
            res == exists|i: int| occurs_at(self.outgoing(), expected@, i),
    {
        let hay = self.outgoing_data.as_slice();
        let m = expected.len();
        if m > hay.len() {
            proof {
                assert forall|i: int| !occurs_at(self.outgoing(), expected@, i) by {}
            }
            return false;
        }
        let last = hay.len() - m;
        let mut i: usize = 0;
        while i <= last
            invariant
                hay@ == self.outgoing(),
                m == expected@.len(),
                m > 0,
                last + m == hay@.len(),
                hay@.len() <= usize::MAX,
                i <= last + 1,
                forall|k: int| 0 <= k < i ==> !occurs_at(hay@, expected@, k),
            decreases last + 1 - i,
        {
            let mut j: usize = 0;
            let mut same = true;
            while j < m
                invariant
                    hay@ == self.outgoing(),
                    m == expected@.len(),
                    i <= last,
                    last + m == hay@.len(),
                    hay@.len() <= usize::MAX,
                    j <= m,
                    same == forall|t: int| 0 <= t < j ==> hay@[i + t] == expected@[t],
                decreases m - j,
            {
                if hay[i + j] != expected[j] {
                    same = false;
                }
                j = j + 1;
            }
            if same {
                proof {
                    assert(hay@.subrange(i as int, i + m) =~= expected@);
                    assert(occurs_at(self.outgoing(), expected@, i as int));
                }
                return true;
            }
            proof {
                assert(!occurs_at(hay@, expected@, i as int)) by {
                    if occurs_at(hay@, expected@, i as int) {
                        let t = choose|t: int| 0 <= t < m && hay@[i + t] != expected@[t];
                        assert(hay@.subrange(i as int, i + m)[t] == hay@[i + t]);
                    }
                }
            }
            i = i + 1;
        }
        proof {
            assert forall|k: int| !occurs_at(hay@, expected@, k) by {
                if 0 <= k && k < i {
                } else if k >= i {
                    assert(k + m > hay@.len());
                }
            }
        }
        false
    }

    /// Whether the outgoing data ends with `expected`.
    pub fn outgoing_ends_with(&self, expected: &[u8]) -> (res: bool)
        ensures
            res == (expected@.len() <= self.outgoing().len() && self.outgoing().subrange(
                self.outgoing().len() - expected@.len(),
                self.outgoing().len() as int,
            ) == expected@),
    {
        let hay = self.outgoing_data.as_slice();
        let m = expected.len();
        if m > hay.len() {
            return false;
        }
        let start = hay.len() - m;
        let mut j: usize = 0;
        while j < m
            invariant
                hay@ == self.outgoing(),
                m == expected@.len(),
                start + m == hay@.len(),
                hay@.len() <= usize::MAX,
                j <= m,
                forall|t: int| 0 <= t < j ==> hay@[start + t] == expected@[t],
            decreases m - j,
        {
            if hay[start + j] != expected[j] {
                proof {
                    assert(hay@.subrange(start as int, hay@.len() as int)[j as int] == hay@[start + j]);
                }
                return false;
            }
            j = j + 1;
        }
        proof {
            assert(hay@.subrange(start as int, hay@.len() as int) =~= expected@);
        }
        true
    }

    /// Adds an error that a coming read returns.
    pub fn add_read_error(&mut self, error: TransportError)
        ensures
            final(self).read_failures() == old(self).read_failures().push(error),
            final(self).incoming() == old(self).incoming(),
            final(self).outgoing() == old(self).outgoing(),
            final(self).spec_connected() == old(self).spec_connected(),
            final(self).write_failures() == old(self).write_failures(),
            final(self).local() == old(self).local(),
            final(self).remote() == old(self).remote(),
            final(self).slow_read() == old(self).slow_read(),
            final(self).connection_loss() == old(self).connection_loss(),
    {
        self.read_errors.push_back(error);
    }

    /// Adds an error that a coming write returns.
    pub fn add_write_error(&mut self, error: TransportError)
        ensures
            final(self).write_failures() == old(self).write_failures().push(error),
            final(self).incoming() == old(self).incoming(),
            final(self).outgoing() == old(self).outgoing(),
            final(self).spec_connected() == old(self).spec_connected(),
            final(self).read_failures() == old(self).read_failures(),
            final(self).local() == old(self).local(),
            final(self).remote() == old(self).remote(),
            final(self).slow_read() == old(self).slow_read(),
            final(self).connection_loss() == old(self).connection_loss(),
    {
        self.write_errors.push_back(error);
    }

    /// Sets the connection state.
    pub fn set_connected(&mut self, connected: bool)
        ensures
            final(self).spec_connected() == connected,
            final(self).same_but_connection(old(self)),
    {
        self.connected = connected;
    }

    /// Simulates a connection loss.
    pub fn disconnect(&mut self)
        ensures
            !final(self).spec_connected(),
            final(self).same_but_connection(old(self)),
    {
        self.set_connected(false);
    }

    /// Simulates a reconnection.
    pub fn reconnect(&mut self)
        ensures
            final(self).spec_connected(),
            final(self).same_but_connection(old(self)),
    {
        self.set_connected(true);
    }

    /// Sets the local address.
    pub fn set_local_addr(&mut self, addr: String)
        ensures
            final(self).local() == Some(addr@),
            final(self).incoming() == old(self).incoming(),
            final(self).outgoing() == old(self).outgoing(),
            final(self).spec_connected() == old(self).spec_connected(),
            final(self).read_failures() == old(self).read_failures(),
            final(self).write_failures() == old(self).write_failures(),
            final(self).remote() == old(self).remote(),
            final(self).slow_read() == old(self).slow_read(),
            final(self).connection_loss() == old(self).connection_loss(),
    {
        self.local_addr = Some(addr);
    }

    /// Sets the remote address.
    pub fn set_remote_addr(&mut self, addr: String)
        ensures
            final(self).remote() == Some(addr@),
            final(self).incoming() == old(self).incoming(),
            final(self).outgoing() == old(self).outgoing(),
            final(self).spec_connected() == old(self).spec_connected(),
            final(self).read_failures() == old(self).read_failures(),
            final(self).write_failures() == old(self).write_failures(),
            final(self).local() == old(self).local(),
            final(self).slow_read() == old(self).slow_read(),
            final(self).connection_loss() == old(self).connection_loss(),
    {
        self.remote_addr = Some(addr);
    }

    /// Makes reads time out, or stops doing so.
    pub fn set_simulate_slow_read(&mut self, enable: bool)
        ensures
            final(self).slow_read() == enable,
            final(self).incoming() == old(self).incoming(),
            final(self).outgoing() == old(self).outgoing(),
            final(self).spec_connected() == old(self).spec_connected(),
            final(self).read_failures() == old(self).read_failures(),
            final(self).write_failures() == old(self).write_failures(),
            final(self).local() == old(self).local(),
            final(self).remote() == old(self).remote(),
            final(self).connection_loss() == old(self).connection_loss(),
    {
        self.simulate_slow_read = enable;
    }

    /// Makes reads and writes lose the connection, or stops doing so.
    pub fn set_simulate_connection_loss(&mut self, enable: bool)
        ensures
            final(self).connection_loss() == enable,
            final(self).incoming() == old(self).incoming(),
            final(self).outgoing() == old(self).outgoing(),
            final(self).spec_connected() == old(self).spec_connected(),
            final(self).read_failures() == old(self).read_failures(),
            final(self).write_failures() == old(self).write_failures(),
            final(self).local() == old(self).local(),
            final(self).remote() == old(self).remote(),
            final(self).slow_read() == old(self).slow_read(),
    {
        self.simulate_connection_loss = enable;
    }

    /// Returns the number of bytes available for reading.
    pub fn incoming_data_len(&self) -> (res: usize)
        ensures
            res == self.incoming().len(),
    {
        self.incoming_data.len()
    }

    /// Returns the number of bytes written.
    pub fn outgoing_data_len(&self) -> (res: usize)
        ensures
            res == self.outgoing().len(),
    {
        self.outgoing_data.len()
    }

    /// Returns the number of read errors still to come.
    pub fn read_error_count(&self) -> (res: usize)
        ensures
            res == self.read_failures().len(),
    {
        self.read_errors.len()
    }

    /// Clears all incoming data.
    pub fn clear_incoming_data(&mut self)
        ensures
            final(self).incoming().len() == 0,
            final(self).same_but_incoming(old(self)),
    {
        self.incoming_data.clear();
    }

    /// Clears all injected errors.
    pub fn clear_errors(&mut self)
        ensures
            final(self).read_failures().len() == 0,
            final(self).write_failures().len() == 0,
            final(self).incoming() == old(self).incoming(),
            final(self).outgoing() == old(self).outgoing(),
            final(self).spec_connected() == old(self).spec_connected(),
            final(self).local() == old(self).local(),
            final(self).remote() == old(self).remote(),
            final(self).slow_read() == old(self).slow_read(),
            final(self).connection_loss() == old(self).connection_loss(),
    {
        self.read_errors.clear();
        self.write_errors.clear();
    }

    /// Resets the transport: connected, with nothing queued, captured or
    /// injected and no simulation; the addresses stay.
    pub fn reset(&mut self)
        ensures
            final(self).spec_connected(),
            final(self).incoming().len() == 0,
            final(self).outgoing().len() == 0,
            final(self).read_failures().len() == 0,
            final(self).write_failures().len() == 0,
            !final(self).slow_read(),
            !final(self).connection_loss(),
            final(self).local() == old(self).local(),
            final(self).remote() == old(self).remote(),
    {
        self.incoming_data.clear();
        self.outgoing_data.clear();
        self.read_errors.clear();
        self.write_errors.clear();
        self.connected = true;
        self.simulate_slow_read = false;
        self.simulate_connection_loss = false;
    }

    /// Closes the connection; safe to call more than once.
    pub fn close(&mut self) -> (res: Result<(), TransportError>)
        ensures
            res is Ok,
            !final(self).spec_connected(),
            final(self).same_but_connection(old(self)),
    {
        self.connected = false;
        Ok(())
    }

    /// Whether the transport is connected.
    pub fn is_connected(&self) -> (res: bool)
        ensures
            res == self.spec_connected(),
    {
        self.connected
    }

    /// Returns the local address, if set.
    pub fn local_addr(&self) -> (res: Option<&str>)
        ensures
            match res {
                Some(a) => self.local() == Some(a@),
                None => self.local() is None,
            },
    {
        match &self.local_addr {
            Some(a) => Some(a.as_str()),
            None => None,
        }
    }

    /// Returns the remote address, if set.
    pub fn remote_addr(&self) -> (res: Option<&str>)
        ensures
            match res {
                Some(a) => self.remote() == Some(a@),
                None => self.remote() is None,
            },
    {
        match &self.remote_addr {
            Some(a) => Some(a.as_str()),
            None => None,
        }
    }

    /// Reads into `buf`. A simulated connection loss disconnects and fails
    /// with `ConnectionLost`, as does a disconnected transport; then the
    /// injected read errors come, one per read; a slow read times out.
    /// Otherwise as many queued bytes as fit are moved into `buf`, and
    /// their number is returned (0 when none is queued).
    pub fn do_read(&mut self, buf: &mut [u8]) -> (res: Result<usize, TransportError>)
        ensures
            old(self).connection_loss() ==> res == Err::<usize, TransportError>(
                TransportError::ConnectionLost,
            ) && !final(self).spec_connected() && final(self).same_but_connection(old(self))
                && final(buf)@ == old(buf)@,
            !old(self).connection_loss() && !old(self).spec_connected() ==> res == Err::<
                usize,
                TransportError,
            >(TransportError::ConnectionLost) && *final(self) == *old(self) && final(buf)@ == old(
                buf)@,
            !old(self).connection_loss() && old(self).spec_connected() && old(
                self).read_failures().len() > 0 ==> res == Err::<usize, TransportError>(
                old(self).read_failures()[0],
            ) && final(self).read_failures() == old(self).read_failures().drop_first() && final(
                self).incoming() == old(self).incoming() && final(self).outgoing() == old(
                self).outgoing() && final(self).spec_connected() && final(self).write_failures()
                == old(self).write_failures() && final(self).local() == old(self).local() && final(
                self).remote() == old(self).remote() && final(self).slow_read() == old(
                self).slow_read() && !final(self).connection_loss() && final(buf)@ == old(buf)@,
            !old(self).connection_loss() && old(self).spec_connected() && old(
                self).read_failures().len() == 0 && old(self).slow_read() ==> res == Err::<
                usize,
                TransportError,
            >(TransportError::Timeout) && final(self).same_but_incoming(old(self)) && final(
                self).incoming() == old(self).incoming() && final(buf)@ == old(buf)@,
            !old(self).connection_loss() && old(self).spec_connected() && old(
                self).read_failures().len() == 0 && !old(self).slow_read() ==> {
                let k = if old(buf)@.len() < old(self).incoming().len() {
                    old(buf)@.len()
                } else {
                    old(self).incoming().len()
                };
                &&& res == Ok::<usize, TransportError>(k as usize)
                &&& final(buf)@ == old(self).incoming().take(k as int) + old(buf)@.skip(k as int)
                &&& final(self).incoming() == old(self).incoming().skip(k as int)
                &&& final(self).same_but_incoming(old(self))
            },
    {
        if self.simulate_connection_loss {
            self.connected = false;
            return Err(TransportError::ConnectionLost);
        }
        if !self.connected {
            return Err(TransportError::ConnectionLost);
        }
        match self.read_errors.pop_front() {
            Some(error) => {
                return Err(error);
            },
            None => {},
        }
        if self.simulate_slow_read {
            return Err(TransportError::Timeout);
        }
        let k = if buf.len() < self.incoming_data.len() {
            buf.len()
        } else {
            self.incoming_data.len()
        };
        let ghost queued = self.incoming_data@;
        let ghost original = buf@;
        for i in 0..k
            invariant
                k <= queued.len(),
                k <= original.len(),
                buf@.len() == original.len(),
                self.incoming_data@ == queued.skip(i as int),
                buf@ == queued.take(i as int) + original.skip(i as int),
                self.same_but_incoming(old(self)),
        {
            match self.incoming_data.pop_front() {
                Some(b) => {
                    buf[i] = b;
                },
                None => {},
            }
            proof {
                assert(self.incoming_data@ =~= queued.skip(i + 1));
                assert(buf@ =~= queued.take(i + 1) + original.skip(i + 1));
            }
        }
        Ok(k)
    }

    /// Writes `buf`. A simulated connection loss disconnects and fails with
    /// `ConnectionLost`, as does a disconnected transport; then the
    /// injected write errors come, one per write. Otherwise the bytes are
    /// captured and their number is returned.
    pub fn do_write(&mut self, buf: &[u8]) -> (res: Result<usize, TransportError>)
        ensures
            old(self).connection_loss() ==> res == Err::<usize, TransportError>(
                TransportError::ConnectionLost,
            ) && !final(self).spec_connected() && final(self).same_but_connection(old(self)),
            !old(self).connection_loss() && !old(self).spec_connected() ==> res == Err::<
                usize,
                TransportError,
            >(TransportError::ConnectionLost) && *final(self) == *old(self),
            !old(self).connection_loss() && old(self).spec_connected() && old(
                self).write_failures().len() > 0 ==> res == Err::<usize, TransportError>(
                old(self).write_failures()[0],
            ) && final(self).write_failures() == old(self).write_failures().drop_first() && final(
                self).incoming() == old(self).incoming() && final(self).outgoing() == old(
                self).outgoing() && final(self).spec_connected() && final(self).read_failures()
                == old(self).read_failures() && final(self).local() == old(self).local() && final(
                self).remote() == old(self).remote() && final(self).slow_read() == old(
                self).slow_read() && !final(self).connection_loss(),
            !old(self).connection_loss() && old(self).spec_connected() && old(
                self).write_failures().len() == 0 ==> res == Ok::<usize, TransportError>(
                buf@.len() as usize,
            ) && final(self).outgoing() == old(self).outgoing() + buf@ && final(
                self).same_but_outgoing(old(self)),
    {
        if self.simulate_connection_loss {
            self.connected = false;
            return Err(TransportError::ConnectionLost);
        }
        if !self.connected {
            return Err(TransportError::ConnectionLost);
        }
        match self.write_errors.pop_front() {
            Some(error) => {
                return Err(error);
            },
            None => {},
        }
        let n = buf.len();
        for i in 0..n
            invariant
                n == buf@.len(),
                self.outgoing_data@ == old(self).outgoing_data@ + buf@.take(i as int),
                self.same_but_outgoing(old(self)),
        {
            self.outgoing_data.push(buf[i]);
            proof {
                assert(buf@.take(i + 1) =~= buf@.take(i as int).push(buf@[i as int]));
                assert(self.outgoing_data@ =~= old(self).outgoing_data@ + buf@.take(i + 1));
            }
        }
        proof {
            assert(buf@.take(n as int) =~= buf@);
        }
        Ok(n)
    }

    /// Flushes: succeeds when connected, else fails with `ConnectionLost`.
    pub fn do_flush(&self) -> (res: Result<(), TransportError>)
        ensures
            self.spec_connected() ==> res is Ok,
            !self.spec_connected() ==> res == Err::<(), TransportError>(
                TransportError::ConnectionLost,
            ),
    {
        if !self.connected {
            return Err(TransportError::ConnectionLost);
        }
        Ok(())
    }
}

impl Default for MockTransport {
    fn default() -> (res: Self)
        ensures
            res.spec_connected(),
            res.is_pristine(),
    {
        Self::new()
    }
}

} // verus!
