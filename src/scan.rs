//! The report of one CPU's registers, and the scan of an inclusive address range.
use vstd::prelude::*;

use crate::probe::{probe_spec, DeviceRead, Msr, ProbeError};

verus! {

/// The probes made on one CPU, in the order they were made.
#[derive(Debug)]
pub struct CpuMsr {
    pub cpu: usize,
    pub msrs: Vec<Msr>,
}

impl CpuMsr {
    /// An empty report for `cpu`.
    pub fn new(cpu: usize) -> (r: CpuMsr)
        ensures
            r.cpu == cpu,
            r.msrs@ == Seq::<Msr>::empty(),
    {
        CpuMsr { cpu, msrs: Vec::new() }
    }

    /// Probes `addr`, the device answering `outcome`, and appends the probe to the
    /// report. On an open or seek failure the error is returned and the report is
    /// left unchanged.
    pub fn read(&mut self, addr: u64, outcome: DeviceRead) -> (r: Result<(), ProbeError>)
        ensures
            final(self).cpu == old(self).cpu,
            match probe_spec(addr, outcome) {
                Ok(m) => r is Ok && final(self).msrs@ == old(self).msrs@.push(m),
                Err(e) => r == Err::<(), ProbeError>(e) && final(self).msrs@ == old(self).msrs@,
            },
    {
        let mut msr = Msr::new(addr);
        match msr.read(outcome) {
            Ok(()) => {
                self.msrs.push(msr);
                Ok(())
            },
            Err(e) => Err(e),
        }
    }
}

/// What a range scan has seen so far: the CPU, the inclusive bounds, and the
/// probes made, one per address from `start` on.
pub ghost struct ScanView {
    pub cpu: usize,
    pub start: int,
    pub end: int,
    pub probes: Seq<Msr>,
}

impl ScanView {
    /// The address that is to be probed next.
    pub open spec fn next_addr(self) -> int {
        self.start + self.probes.len()
    }

    /// Every address of the range has been probed (at once, for an empty range).
    pub open spec fn finished(self) -> bool {
        self.next_addr() > self.end
    }
}

/// A scan of the addresses `start..=end` of one CPU in ascending order. The
/// caller asks for the next address, reads it from the device, and hands the
/// outcome back; the first open or seek failure ends the scan and discards
/// the probes made so far.
pub struct RangeScan {
    report: CpuMsr,
    start: u64,
    end: u64,
    next: u64,
    done: bool,
}

impl View for RangeScan {
    type V = ScanView;

    closed spec fn view(&self) -> ScanView {
        ScanView {
            cpu: self.report.cpu,
            start: self.start as int,
            end: self.end as int,
            probes: self.report.msrs@,
        }
    }
}

impl RangeScan {
    /// The internal state agrees with what has been probed, and the probes carry
    /// the addresses `start`, `start + 1`, ... in order.
    pub closed spec fn wf(&self) -> bool {
        &&& self.done <==> self@.finished()
        &&& !self.done ==> self.next as int == self@.next_addr()
        &&& self.start <= self.end ==> self@.probes.len() <= self.end - self.start + 1
        &&& self.start > self.end ==> self@.probes.len() == 0
        &&& forall|i: int|
            0 <= i < self@.probes.len() ==> #[trigger] self@.probes[i].addr == self.start + i
    }

    /// A scan of `start..=end` on `cpu` with nothing probed yet. It is finished
    /// from the start when `start > end`.
    pub fn new(cpu: usize, start: u64, end: u64) -> (r: RangeScan)
        ensures
            r.wf(),
            r@ == (ScanView { cpu, start: start as int, end: end as int, probes: Seq::empty() }),
            r@.finished() <==> start > end,
    {
        RangeScan { report: CpuMsr::new(cpu), start, end, next: start, done: start > end }
    }

    /// The address to probe next, or `None` once the whole range has been probed.
    pub fn next_address(&self) -> (r: Option<u64>)
        requires
            self.wf(),
        ensures
            r == (if self@.finished() {
                None::<u64>
            } else {
                Some(self@.next_addr() as u64)
            }),
            r is Some ==> self@.start <= r->Some_0 <= self@.end,
    {
        if self.done {
            None
        } else {
            Some(self.next)
        }
    }

    /// Hands over the device's answer for the address given by `next_address`.
    /// On a value or an unreadable register the probe is appended and the scan
    /// moves on; on an open or seek failure the scan ends with that error.
    pub fn record(self, outcome: DeviceRead) -> (r: Result<RangeScan, ProbeError>)
        requires
            self.wf(),
            !self@.finished(),
        ensures
            match probe_spec(self@.next_addr() as u64, outcome) {
                Ok(m) => r is Ok && r->Ok_0.wf() && r->Ok_0@ == (ScanView {
                    probes: self@.probes.push(m),
                    ..self@
                }),
                Err(e) => r == Err::<RangeScan, ProbeError>(e),
            },
    {
        let mut s = self;
        let addr = s.next;
        match s.report.read(addr, outcome) {
            Ok(()) => {
                if addr == s.end {
                    s.done = true;
                } else {
                    s.next = addr + 1;
                }
                Ok(s)
            },
            Err(e) => Err(e),
        }
    }

    /// The report of the probes made, in ascending address order.
    pub fn into_report(self) -> (r: CpuMsr)
        requires
            self.wf(),
        ensures
            r.cpu == self@.cpu,
            r.msrs@ == self@.probes,
    {
        self.report
    }
}

/// A finished scan of `start..=end` holds exactly one probe per address of the
/// range, the `i`-th for address `start + i`; for `start > end` it holds none.
pub proof fn lemma_finished_scan_complete(s: RangeScan)
    requires
        s.wf(),
        s@.finished(),
    ensures
        s@.start <= s@.end ==> s@.probes.len() == s@.end - s@.start + 1,
        s@.start > s@.end ==> s@.probes.len() == 0,
        forall|i: int| 0 <= i < s@.probes.len() ==> #[trigger] s@.probes[i].addr == s@.start + i,
{
}

/// When the device fails to open or seek at the next address `start + k`,
/// recording that outcome ends the scan with the error, and the probes made
/// until then are exactly those of the addresses `start..start + k`.
pub proof fn lemma_fatal_stops_scan(s: RangeScan, o: DeviceRead)
    requires
        s.wf(),
        !s@.finished(),
        probe_spec(s@.next_addr() as u64, o) is Err,
    ensures
        o is OpenFailed || o is SeekFailed,
        s@.probes.len() == s@.next_addr() - s@.start,
        forall|i: int| 0 <= i < s@.probes.len() ==> #[trigger] s@.probes[i].addr < s@.next_addr(),
{
}

} // verus!
