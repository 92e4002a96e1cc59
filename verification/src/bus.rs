//! The blocking bus-transaction capability consumed by the driver.

use vstd::prelude::*;

verus! {

/// One completed bus transaction, as recorded in a bus's history.
///
/// This is a specification-level record: contracts use it to say which bytes
/// went over the wire and, for a combined write-then-read, which bytes came
/// back.
pub enum BusOp {
    /// A pure write of `bytes` to the device at `address`.
    Write { address: u8, bytes: Seq<u8> },
    /// A write of `bytes` to the device at `address`, answered by `response`
    /// within the same transaction.
    WriteRead { address: u8, bytes: Seq<u8>, response: Seq<u8> },
}

/// A blocking I2C bus, injected into the driver at construction.
///
/// The driver needs two transaction shapes: a pure write of some bytes to a
/// 7-bit device address, and a combined write-then-read against the same
/// address. Either may fail with a bus-level error.
///
/// `history()` is the ghost log of the transactions completed so far. Each
/// successful call appends exactly its own transaction to it; a failed call
/// completes nothing and leaves it unchanged. Through this log the driver's
/// contracts pin down which bytes each operation puts on the wire, and that
/// an operation succeeds exactly when its bus transaction does. Of a
/// successful read nothing is promised beyond its length: what the bytes
/// hold is up to the device on the other end of the bus.
///
/// A hardware bus from outside the verified library enters as a [`RawI2c`]
/// wrapped in a [`LoggedBus`]; tests use the verified
/// [`crate::mock::MockBus`].
pub trait I2cBus {
    /// The bus-level error type.
    type Error;

    /// The transactions completed so far, in order.
    spec fn history(&self) -> Seq<BusOp>;

    /// Write `bytes` to the device at `address`.
    fn write(&mut self, address: u8, bytes: &[u8]) -> (r: Result<(), Self::Error>)
        ensures
            r is Ok ==> final(self).history() == old(self).history().push(
                (BusOp::Write { address, bytes: bytes@ }),
            ),
            r is Err ==> final(self).history() == old(self).history(),
    ;

    /// Write `bytes` to the device at `address`, then read `read_len` bytes
    /// back from it within the same transaction.
    fn write_read(&mut self, address: u8, bytes: &[u8], read_len: usize) -> (r: Result<
        Vec<u8>,
        Self::Error,
    >)
        ensures
            r is Ok ==> r->Ok_0@.len() == read_len && final(self).history() == old(
                self,
            ).history().push(
                (BusOp::WriteRead { address, bytes: bytes@, response: r->Ok_0@ }),
            ),
            r is Err ==> final(self).history() == old(self).history(),
    ;
}

/// A raw blocking I2C bus, as a hardware implementation provides it: the
/// same two transaction shapes, but without the ghost history.
///
/// This is the trait to implement outside the verified library (an adapter
/// over a hardware abstraction layer's bus, say). Nothing verified stands
/// behind such an implementation; the one promise believed of it is that a
/// successful read delivers the requested number of bytes. Wrap it in a
/// [`LoggedBus`] to obtain an [`I2cBus`] for the driver.
pub trait RawI2c {
    /// The bus-level error type.
    type Error;

    /// Write `bytes` to the device at `address`.
    fn write(&mut self, address: u8, bytes: &[u8]) -> (r: Result<(), Self::Error>);

    /// Write `bytes` to the device at `address`, then read `read_len` bytes
    /// back from it within the same transaction.
    fn write_read(&mut self, address: u8, bytes: &[u8], read_len: usize) -> (r: Result<
        Vec<u8>,
        Self::Error,
    >)
        ensures
            r is Ok ==> r->Ok_0@.len() == read_len,
    ;
}

/// A raw bus together with the ghost log of its completed transactions.
///
/// Every call is passed straight through to the wrapped bus; on success the
/// transaction is recorded in the history. This is how a bus implemented
/// outside the verified library serves the driver.
pub struct LoggedBus<B> {
    inner: B,
    log: Ghost<Seq<BusOp>>,
}

impl<B> LoggedBus<B> {
    /// The wrapped raw bus.
    pub closed spec fn spec_inner(&self) -> B {
        self.inner
    }

    /// Wrap a raw bus. The transaction history starts empty.
    pub fn new(inner: B) -> (bus: LoggedBus<B>)
        ensures
            bus.spec_inner() == inner,
    {
        LoggedBus { inner, log: Ghost(Seq::empty()) }
    }

    /// Unwrap, giving the raw bus back.
    pub fn release(self) -> (r: B)
        ensures
            r == self.spec_inner(),
    {
        self.inner
    }
}

impl<B: RawI2c> I2cBus for LoggedBus<B> {
    type Error = B::Error;

    /// The transactions the wrapped bus completed: every successful call.
    closed spec fn history(&self) -> Seq<BusOp> {
        self.log@
    }

    fn write(&mut self, address: u8, bytes: &[u8]) -> (r: Result<(), B::Error>) {
        match self.inner.write(address, bytes) {
            Ok(_) => {
                self.log = Ghost(self.log@.push((BusOp::Write { address, bytes: bytes@ })));
                Ok(())
            },
            Err(e) => Err(e),
        }
    }

    fn write_read(&mut self, address: u8, bytes: &[u8], read_len: usize) -> (r: Result<
        Vec<u8>,
        B::Error,
    >) {
        match self.inner.write_read(address, bytes, read_len) {
            Ok(data) => {
                self.log = Ghost(
                    self.log@.push((BusOp::WriteRead { address, bytes: bytes@, response: data@ })),
                );
                Ok(data)
            },
            Err(e) => Err(e),
        }
    }
}

} // verus!
