//! A single register probe and the meaning of each outcome of the device.
use vstd::prelude::*;

verus! {

/// What one attempt to read a register from the device came to.
#[derive(Clone, Copy, Debug)]
pub enum DeviceRead {
    /// The per-CPU resource could not be opened.
    OpenFailed,
    /// The resource could not be positioned at the register's address.
    SeekFailed,
    /// Fewer than eight bytes could be read at the address.
    ReadFailed,
    /// Eight bytes were read, in the order the device returned them.
    Bytes([u8; 8]),
}

/// A failure of the resource itself, which ends the whole operation.
#[derive(Clone, Copy, Debug, PartialEq, Eq, Structural)]
pub enum ProbeError {
    /// The per-CPU resource could not be opened.
    OpenFailed,
    /// The resource could not be positioned at the register's address.
    SeekFailed,
}

/// One register address together with the outcome of the last read of it:
/// `value` holds the eight raw bytes when that read succeeded, and is `None`
/// when it did not or when no read has been made.
#[derive(Clone, Copy, Debug)]
pub struct Msr {
    pub addr: u64,
    pub value: Option<[u8; 8]>,
}

/// The effect of reading `m` with the device outcome `o`: open and seek failures
/// are errors and leave the probe as it was; a failed data read records an absent
/// value; a full read records the bytes. The address never changes.
pub open spec fn read_spec(m: Msr, o: DeviceRead) -> Result<Msr, ProbeError> {
    match o {
        DeviceRead::OpenFailed => Err(ProbeError::OpenFailed),
        DeviceRead::SeekFailed => Err(ProbeError::SeekFailed),
        DeviceRead::ReadFailed => Ok(Msr { addr: m.addr, value: None }),
        DeviceRead::Bytes(b) => Ok(Msr { addr: m.addr, value: Some(b) }),
    }
}

/// The result of probing `addr` once, the device answering `o`.
pub open spec fn probe_spec(addr: u64, o: DeviceRead) -> Result<Msr, ProbeError> {
    read_spec(Msr { addr, value: None }, o)
}

impl Msr {
    /// A probe of `addr` on which no read has been attempted yet.
    pub fn new(addr: u64) -> (r: Msr)
        ensures
            r.addr == addr,
            r.value is None,
    {
        Msr { addr, value: None }
    }

    /// Records the outcome `outcome` of a read of this register. On an open or
    /// seek failure the error is returned and the probe is left unchanged.
    pub fn read(&mut self, outcome: DeviceRead) -> (r: Result<(), ProbeError>)
        ensures
            match read_spec(*old(self), outcome) {
                Ok(m) => r is Ok && *final(self) == m,
                Err(e) => r == Err::<(), ProbeError>(e) && *final(self) == *old(self),
            },
    {
        match outcome {
            DeviceRead::OpenFailed => Err(ProbeError::OpenFailed),
            DeviceRead::SeekFailed => Err(ProbeError::SeekFailed),
            DeviceRead::ReadFailed => {
                self.value = None;
                Ok(())
            },
            DeviceRead::Bytes(b) => {
                self.value = Some(b);
                Ok(())
            },
        }
    }
}

/// Probes the register at `addr`, the device answering `outcome`.
pub fn probe(addr: u64, outcome: DeviceRead) -> (r: Result<Msr, ProbeError>)
    ensures
        r == probe_spec(addr, outcome),
{
    let mut msr = Msr::new(addr);
    match msr.read(outcome) {
        Ok(()) => Ok(msr),
        Err(e) => Err(e),
    }
}

/// A successful probe of `addr` reports `addr` itself, and either no value or
/// exactly the eight bytes that the device returned.
pub proof fn lemma_probe_reports_address(addr: u64, o: DeviceRead)
    ensures
        probe_spec(addr, o) is Ok <==> (o is ReadFailed || o is Bytes),
        probe_spec(addr, o) is Ok ==> {
            let m = probe_spec(addr, o)->Ok_0;
            &&& m.addr == addr
            &&& match m.value {
                None => o is ReadFailed,
                Some(b) => o == DeviceRead::Bytes(b) && b@.len() == 8,
            }
        },
{
}

/// Reading a register again with the same device outcome changes nothing: the
/// probe keeps its address, presence and bytes.
pub proof fn lemma_read_idempotent(m: Msr, o: DeviceRead)
    ensures
        read_spec(m, o) is Ok ==> read_spec(read_spec(m, o)->Ok_0, o) == read_spec(m, o),
{
}

} // verus!
