//! A scripted bus transport: it answers reads and accepts writes exactly as
//! a script prescribes, and reports a fault on any transaction that departs
//! from it. It implements the driver's transport capability, so any bus
//! sequence can be exercised without hardware.

use crate::transport::I2cTransport;
use crate::transport::Transaction;
use vstd::prelude::*;

verus! {

/// One scripted bus transaction.
pub enum MockTransaction {
    /// The driver must write exactly `bytes` to the device at `addr`.
    Write { addr: u8, bytes: Vec<u8> },
    /// The driver must read `response.len()` bytes from the device at
    /// `addr`; it receives `response`.
    Read { addr: u8, response: Vec<u8> },
}

/// Transport fault of the scripted bus: the attempted transaction is not the
/// next one in the script, or the script is exhausted.
#[derive(Clone, Copy, Debug, PartialEq, Eq, Structural)]
pub struct ScriptMismatch;

/// A bus transport that follows a fixed script of expected transactions.
pub struct MockBus {
    script: Vec<MockTransaction>,
    position: usize,
    log: Ghost<Seq<Transaction>>,
}

fn bytes_equal(a: &[u8], b: &[u8]) -> (r: bool)
    ensures
        r == (a@ == b@),
{
    if a.len() != b.len() {
        return false;
    }
    let mut i: usize = 0;
    while i < a.len()
        invariant
            i <= a@.len(),
            a@.len() == b@.len(),
            forall|j: int| 0 <= j < i ==> a@[j] == b@[j],
        decreases a@.len() - i,
    {
        if a[i] != b[i] {
            return false;
        }
        i = i + 1;
    }
    proof {
        assert(a@ =~= b@);
    }
    true
}

impl MockBus {
    /// How many scripted transactions have been consumed.
    pub closed spec fn consumed(&self) -> nat {
        self.position as nat
    }

    /// How many transactions the script holds in all.
    pub closed spec fn script_len(&self) -> nat {
        self.script@.len()
    }

    /// A fresh scripted bus, with nothing on the wire yet.
    pub fn new(script: Vec<MockTransaction>) -> (r: MockBus)
        ensures
            r.history() == Seq::<Transaction>::empty(),
            r.consumed() == 0,
            r.script_len() == script@.len(),
    {
        MockBus { script, position: 0, log: Ghost(Seq::empty()) }
    }

    /// True when every scripted transaction has been consumed.
    pub fn done(&self) -> (r: bool)
        ensures
            r == (self.consumed() == self.script_len()),
    {
        self.position == self.script.len()
    }
}

impl I2cTransport for MockBus {
    type BusError = ScriptMismatch;

    closed spec fn history(&self) -> Seq<Transaction> {
        self.log@
    }

    fn bus_write(&mut self, addr: u8, bytes: &[u8]) -> (r: Result<(), ScriptMismatch>) {
        if self.position >= self.script.len() {
            return Err(ScriptMismatch);
        }
        let accepted: bool = match &self.script[self.position] {
            MockTransaction::Write { addr: exp_addr, bytes: exp_bytes } => {
                *exp_addr == addr && bytes_equal(bytes, exp_bytes.as_slice())
            },
            MockTransaction::Read { .. } => false,
        };
        if !accepted {
            return Err(ScriptMismatch);
        }
        self.position = self.position + 1;
        self.log = Ghost(self.log@.push(Transaction::Write { addr, bytes: bytes@ }));
        Ok(())
    }

    fn bus_read(&mut self, addr: u8, buffer: &mut Vec<u8>) -> (r: Result<(), ScriptMismatch>) {
        if self.position >= self.script.len() {
            return Err(ScriptMismatch);
        }
        let ghost buffer_len = buffer@.len();
        let accepted: bool = match &self.script[self.position] {
            MockTransaction::Read { addr: exp_addr, response } => {
                *exp_addr == addr && response.len() == buffer.len()
            },
            MockTransaction::Write { .. } => false,
        };
        if !accepted {
            return Err(ScriptMismatch);
        }
        match &self.script[self.position] {
            MockTransaction::Read { addr: _, response } => {
                let mut i: usize = 0;
                while i < response.len()
                    invariant
                        i <= response@.len(),
                        buffer@.len() == buffer_len,
                        response@.len() == buffer_len,
                    decreases response@.len() - i,
                {
                    let v: u8 = response[i];
                    buffer.set(i, v);
                    i = i + 1;
                }
            },
            MockTransaction::Write { .. } => {},
        }
        self.position = self.position + 1;
        self.log = Ghost(self.log@.push(Transaction::Read { addr, bytes: buffer@ }));
        Ok(())
    }
}

} // verus!
