//! A record-and-replay bus for exercising the driver without hardware.
//!
//! A [`MockBus`] is loaded with the exact transactions the driver is
//! expected to issue, in order. Each [`I2cBus`] call is compared against the
//! next expectation: on a match it plays back the scripted outcome (success,
//! scripted response bytes, or a scripted bus failure), on anything else it
//! reports a mismatch error. After the run, [`MockBus::is_done`] tells
//! whether the whole script was consumed.

use crate::bus::{BusOp, I2cBus};
use vstd::prelude::*;

verus! {

/// One expected bus transaction, with its scripted outcome.
pub enum BusTransaction {
    /// Expect a pure write of these bytes to this address; report success.
    Write { address: u8, bytes: Vec<u8> },
    /// Expect a pure write of these bytes to this address; report a bus
    /// failure.
    WriteFault { address: u8, bytes: Vec<u8> },
    /// Expect a write of these bytes to this address followed by a read;
    /// answer the read with `response`.
    WriteRead { address: u8, bytes: Vec<u8>, response: Vec<u8> },
    /// Expect a write of these bytes to this address followed by a read;
    /// report a bus failure.
    WriteReadFault { address: u8, bytes: Vec<u8> },
}

/// The scripted transaction accepts the call `write(address, bytes)` and
/// reports success.
pub open spec fn accepts_write(t: BusTransaction, address: u8, bytes: Seq<u8>) -> bool {
    match t {
        BusTransaction::Write { address: a, bytes: b } => a == address && b@ == bytes,
        _ => false,
    }
}

/// The scripted transaction accepts the call `write(address, bytes)` and
/// reports a scripted bus failure.
pub open spec fn faults_write(t: BusTransaction, address: u8, bytes: Seq<u8>) -> bool {
    match t {
        BusTransaction::WriteFault { address: a, bytes: b } => a == address && b@ == bytes,
        _ => false,
    }
}

/// The scripted transaction accepts the call
/// `write_read(address, bytes, read_len)` and answers with its scripted
/// response.
pub open spec fn accepts_write_read(
    t: BusTransaction,
    address: u8,
    bytes: Seq<u8>,
    read_len: int,
) -> bool {
    match t {
        BusTransaction::WriteRead { address: a, bytes: b, response } => a == address && b@ == bytes
            && response@.len() == read_len,
        _ => false,
    }
}

/// The scripted response of a `WriteRead` transaction.
pub open spec fn scripted_response(t: BusTransaction) -> Seq<u8> {
    match t {
        BusTransaction::WriteRead { response, .. } => response@,
        _ => Seq::empty(),
    }
}

/// The scripted transaction accepts the call `write_read(address, bytes, _)`
/// and reports a scripted bus failure.
pub open spec fn faults_write_read(t: BusTransaction, address: u8, bytes: Seq<u8>) -> bool {
    match t {
        BusTransaction::WriteReadFault { address: a, bytes: b } => a == address && b@ == bytes,
        _ => false,
    }
}

/// The error type of the mock bus.
#[derive(Debug, Clone, PartialEq)]
pub enum MockError {
    /// The call did not match the next scripted transaction (or the script
    /// was already exhausted, or the scripted response has the wrong
    /// length).
    Mismatch,
    /// A scripted bus failure.
    Fault,
}

/// A bus that replays a fixed script of expected transactions.
pub struct MockBus {
    expected: Vec<BusTransaction>,
    position: usize,
    log: Ghost<Seq<BusOp>>,
}

/// Compare two byte strings for equality.
fn bytes_match(a: &[u8], b: &[u8]) -> (r: bool)
    ensures
        r == (a@ == b@),
{
    if a.len() != b.len() {
        assert(a@ != b@);
        return false;
    }
    let mut i: usize = 0;
    while i < a.len()
        invariant
            0 <= i <= a@.len(),
            a@.len() == b@.len(),
            forall|j: int| 0 <= j < i ==> a@[j] == b@[j],
        decreases a@.len() - i,
    {
        if a[i] != b[i] {
            assert(a@ != b@);
            return false;
        }
        i += 1;
    }
    proof {
        assert(a@ =~= b@);
    }
    true
}

/// Copy a byte string into an owned vector.
fn copy_bytes(src: &[u8]) -> (r: Vec<u8>)
    ensures
        r@ == src@,
{
    let mut r: Vec<u8> = Vec::new();
    let mut i: usize = 0;
    while i < src.len()
        invariant
            0 <= i <= src@.len(),
            r@ == src@.subrange(0, i as int),
        decreases src@.len() - i,
    {
        r.push(src[i]);
        i += 1;
        proof {
            assert(r@ =~= src@.subrange(0, i as int));
        }
    }
    proof {
        assert(r@ =~= src@);
    }
    r
}

impl MockBus {
    /// The scripted transactions.
    pub closed spec fn spec_expected(&self) -> Seq<BusTransaction> {
        self.expected@
    }

    /// How many scripted transactions have been consumed.
    pub closed spec fn spec_position(&self) -> int {
        self.position as int
    }

    /// Create a mock bus that expects exactly these transactions, in order.
    /// Its transaction history starts empty.
    pub fn new(expected: Vec<BusTransaction>) -> (bus: MockBus)
        ensures
            bus.spec_expected() == expected@,
            bus.spec_position() == 0,
            bus.history() == Seq::<BusOp>::empty(),
    {
        MockBus { expected, position: 0, log: Ghost(Seq::empty()) }
    }

    /// True when every scripted transaction has been consumed.
    pub fn is_done(&self) -> (r: bool)
        ensures
            r == (self.spec_position() == self.spec_expected().len()),
    {
        self.position == self.expected.len()
    }
}

impl I2cBus for MockBus {
    type Error = MockError;

    /// The transactions completed so far: every matched, non-faulting call.
    closed spec fn history(&self) -> Seq<BusOp> {
        self.log@
    }

    /// Compare the call against the next scripted transaction: success
    /// exactly when it is a matching `Write`, the scripted failure exactly
    /// when it is a matching `WriteFault`, a mismatch error on everything
    /// else. The position advances by one whenever the script is not yet
    /// exhausted.
    fn write(&mut self, address: u8, bytes: &[u8]) -> (r: Result<(), MockError>)
        ensures
            final(self).spec_expected() == old(self).spec_expected(),
            old(self).spec_position() < old(self).spec_expected().len() ==> final(self).spec_position() == old(self).spec_position() + 1,
            old(self).spec_position() >= old(self).spec_expected().len() ==> final(self).spec_position() == old(self).spec_position(),
            r is Ok <==> (old(self).spec_position() < old(self).spec_expected().len()
                && accepts_write(
                old(self).spec_expected()[old(self).spec_position()],
                address,
                bytes@,
            )),
            (r is Err && r->Err_0 is Fault) <==> (old(self).spec_position() < old(self).spec_expected().len() && faults_write(
                old(self).spec_expected()[old(self).spec_position()],
                address,
                bytes@,
            )),
    {
        if self.position >= self.expected.len() {
            return Err(MockError::Mismatch);
        }
        let index = self.position;
        self.position = index + 1;
        match &self.expected[index] {
            BusTransaction::Write { address: a, bytes: b } => {
                if *a == address && bytes_match(bytes, b.as_slice()) {
                    self.log = Ghost(self.log@.push((BusOp::Write { address, bytes: bytes@ })));
                    Ok(())
                } else {
                    Err(MockError::Mismatch)
                }
            },
            BusTransaction::WriteFault { address: a, bytes: b } => {
                if *a == address && bytes_match(bytes, b.as_slice()) {
                    Err(MockError::Fault)
                } else {
                    Err(MockError::Mismatch)
                }
            },
            _ => Err(MockError::Mismatch),
        }
    }

    /// Compare the call against the next scripted transaction: success, with
    /// the scripted response, exactly when it is a matching `WriteRead`
    /// whose response has the requested length; the scripted failure exactly
    /// when it is a matching `WriteReadFault`; a mismatch error on
    /// everything else. The position advances by one whenever the script is
    /// not yet exhausted.
    fn write_read(&mut self, address: u8, bytes: &[u8], read_len: usize) -> (r: Result<
        Vec<u8>,
        MockError,
    >)
        ensures
            final(self).spec_expected() == old(self).spec_expected(),
            old(self).spec_position() < old(self).spec_expected().len() ==> final(self).spec_position() == old(self).spec_position() + 1,
            old(self).spec_position() >= old(self).spec_expected().len() ==> final(self).spec_position() == old(self).spec_position(),
            r is Ok <==> (old(self).spec_position() < old(self).spec_expected().len()
                && accepts_write_read(
                old(self).spec_expected()[old(self).spec_position()],
                address,
                bytes@,
                read_len as int,
            )),
            r is Ok ==> r->Ok_0@ == scripted_response(
                old(self).spec_expected()[old(self).spec_position()],
            ),
            (r is Err && r->Err_0 is Fault) <==> (old(self).spec_position() < old(self).spec_expected().len() && faults_write_read(
                old(self).spec_expected()[old(self).spec_position()],
                address,
                bytes@,
            )),
    {
        if self.position >= self.expected.len() {
            return Err(MockError::Mismatch);
        }
        let index = self.position;
        self.position = index + 1;
        match &self.expected[index] {
            BusTransaction::WriteRead { address: a, bytes: b, response } => {
                if *a == address && bytes_match(bytes, b.as_slice()) && response.len()
                    == read_len {
                    let data = copy_bytes(response.as_slice());
                    self.log = Ghost(
                        self.log@.push(
                            (BusOp::WriteRead { address, bytes: bytes@, response: data@ }),
                        ),
                    );
                    Ok(data)
                } else {
                    Err(MockError::Mismatch)
                }
            },
            BusTransaction::WriteReadFault { address: a, bytes: b } => {
                if *a == address && bytes_match(bytes, b.as_slice()) {
                    Err(MockError::Fault)
                } else {
                    Err(MockError::Mismatch)
                }
            },
            _ => Err(MockError::Mismatch),
        }
    }
}

} // verus!
