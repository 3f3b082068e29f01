//! A scan of one target: the probes to launch, the records that come back,
//! and the report that is left.

use crate::ports::{parse_port_range, port_range_of, ports_between, ports_in_range};
use crate::probe::PortInfo;
use vstd::prelude::*;
use vstd::string::StringExecFns;

verus! {

/// How the report is given out.
#[derive(Clone, Copy, Debug, PartialEq, Eq, Structural)]
pub enum OutputMode {
    /// One line per open port, as the probes come back.
    Text,
    /// One file, when the scan is over.
    Json,
    /// Neither: the word was not one of the two.
    Silent,
}

/// Where a scan stands.
#[derive(Clone, Copy, Debug, PartialEq, Eq, Structural)]
pub enum ScanPhase {
    /// The target address is being checked and looked up.
    Validating,
    /// Probes are under way.
    Scanning,
    /// Every probe is back: the report is complete.
    Reporting,
    /// The target was no address: nothing was probed.
    Failed,
}

/// What one scan found.
pub struct PortScanResult {
    pub hostname: String,
    pub ip_address: String,
    pub open_ports: Vec<PortInfo>,
}

/// What happened outside since the last step.
pub enum ScanEvent {
    /// The target text is no IP address.
    TargetInvalid,
    /// The target text is an IP address, and the reverse lookup gave this name.
    TargetValid { hostname: Option<String> },
    /// One probe is back, with its record or, where the port is not open or
    /// the probe broke down, without.
    ProbeDone(Option<PortInfo>),
}

/// What the caller of a step does next.
pub enum ScanAction {
    /// Tell the user that the target is no IP address, and stop.
    Reject,
    /// Start one probe for each of these ports, all at once; before that,
    /// where `announce` is set, show the host name.
    Launch { ports: Vec<u16>, announce: bool },
    /// A record was added at the end of the report; where `show` is set,
    /// print its line.
    Recorded { show: bool },
    /// Nothing.
    Idle,
}

/// A scan under way.
pub struct Scan {
    pub phase: ScanPhase,
    pub mode: OutputMode,
    pub start_port: u16,
    pub end_port: u16,
    /// How many probes have not come back.
    pub awaited: u32,
    pub report: PortScanResult,
}

/// The output mode that a word names.
pub open spec fn mode_of(word: Seq<char>) -> OutputMode {
    if word == "text"@ {
        OutputMode::Text
    } else if word == "json"@ {
        OutputMode::Json
    } else {
        OutputMode::Silent
    }
}

/// The host name of a target whose reverse lookup failed.
pub open spec fn unknown_host() -> Seq<char> {
    "Hostname bulunamadı"@
}

/// The name of the file that holds the report on an address.
pub open spec fn report_file_of(ip: Seq<char>) -> Seq<char> {
    "port_scan_"@ + ip + ".json"@
}

/// The ports that a sequence of records speaks of.
pub open spec fn ports_of(records: Seq<PortInfo>) -> Set<u16> {
    Set::new(|p: u16| exists|i: int| 0 <= i < records.len() && #[trigger] records[i].port == p)
}

/// The port that a probe adds to the report of a scan from `start` to `end`:
/// that of a record of an open port of the range.
pub open spec fn found_port(start: u16, end: u16, outcome: Option<PortInfo>) -> Option<u16> {
    match outcome {
        Some(info) => if info.is_open && start <= info.port <= end {
            Some(info.port)
        } else {
            None
        },
        None => None,
    }
}

/// The set of open ports after one more probe.
pub open spec fn ports_after(ports: Set<u16>, found: Option<u16>) -> Set<u16> {
    match found {
        Some(p) => ports.insert(p),
        None => ports,
    }
}

/// The set of open ports after a run of probes, in the order they came back.
pub open spec fn ports_after_all(ports: Set<u16>, found: Seq<Option<u16>>) -> Set<u16>
    decreases found.len(),
{
    if found.len() == 0 {
        ports
    } else {
        ports_after(ports_after_all(ports, found.drop_last()), found.last())
    }
}

/// What the course of a scan depends on: its phase, how many probes are not
/// back, its range, and the ports that are reported open.
pub struct ScanModel {
    pub phase: ScanPhase,
    pub awaited: nat,
    pub start_port: u16,
    pub end_port: u16,
    pub ports: Set<u16>,
}

/// A scan after its target was found to be an address: one probe is awaited
/// for each port of the range, and with none to await the report is complete.
pub open spec fn launched(m: ScanModel) -> ScanModel {
    if m.phase == ScanPhase::Validating {
        ScanModel {
            phase: if m.start_port <= m.end_port {
                ScanPhase::Scanning
            } else {
                ScanPhase::Reporting
            },
            awaited: ports_between(m.start_port, m.end_port).len(),
            start_port: m.start_port,
            end_port: m.end_port,
            ports: m.ports,
        }
    } else {
        m
    }
}

/// A scan after one more probe came back and found this.
pub open spec fn after_probe(m: ScanModel, found: Option<u16>) -> ScanModel {
    if m.phase == ScanPhase::Scanning {
        ScanModel {
            phase: if m.awaited == 1 {
                ScanPhase::Reporting
            } else {
                ScanPhase::Scanning
            },
            awaited: (m.awaited - 1) as nat,
            start_port: m.start_port,
            end_port: m.end_port,
            ports: ports_after(m.ports, found),
        }
    } else {
        m
    }
}

/// A scan after a run of probes came back, in this order.
pub open spec fn after_probes(m: ScanModel, found: Seq<Option<u16>>) -> ScanModel
    decreases found.len(),
{
    if found.len() == 0 {
        m
    } else {
        after_probe(after_probes(m, found.drop_last()), found.last())
    }
}

impl PortScanResult {
    /// No port has two records, and every record is of an open port.
    pub open spec fn wf(&self) -> bool {
        &&& forall|i: int, j: int|
            0 <= i < j < self.open_ports@.len() ==> self.open_ports@[i].port
                != self.open_ports@[j].port
        &&& forall|i: int| 0 <= i < self.open_ports@.len() ==> self.open_ports@[i].is_open
    }

    /// The ports that are reported open.
    pub open spec fn ports(&self) -> Set<u16> {
        ports_of(self.open_ports@)
    }

    /// Tells whether `port` has a record.
    pub fn has_port(&self, port: u16) -> (r: bool)
        ensures
            r == self.ports().contains(port),
    {
        let mut i: usize = 0;
        while i < self.open_ports.len()
            invariant
                i <= self.open_ports@.len(),
                forall|k: int| 0 <= k < i ==> self.open_ports@[k].port != port,
            decreases self.open_ports@.len() - i,
        {
            if self.open_ports[i].port == port {
                return true;
            }
            i = i + 1;
        }
        false
    }

    /// The name of the file that the report is written to.
    pub fn file_name(&self) -> (r: String)
        ensures
            r@ == report_file_of(self.ip_address@),
    {
        let mut s = "port_scan_".to_owned();
        s.append(self.ip_address.as_str());
        s.append(".json");
        s
    }
}

/// Reads the word that names the output mode.
pub fn output_mode(word: &str) -> (r: OutputMode)
    ensures
        r == mode_of(word@),
{
    let w = word.to_owned();
    if w == "text".to_owned() {
        OutputMode::Text
    } else if w == "json".to_owned() {
        OutputMode::Json
    } else {
        OutputMode::Silent
    }
}

impl Scan {
    /// What holds of a scan at every step.
    pub open spec fn wf(&self) -> bool {
        &&& self.report.wf()
        &&& forall|i: int|
            0 <= i < self.report.open_ports@.len() ==> self.start_port
                <= #[trigger] self.report.open_ports@[i].port <= self.end_port
        &&& self.phase == ScanPhase::Scanning <==> self.awaited > 0
        &&& (self.phase == ScanPhase::Validating || self.phase == ScanPhase::Failed)
            ==> self.report.open_ports@.len() == 0
    }

    /// What the course of the scan depends on.
    pub open spec fn model(&self) -> ScanModel {
        ScanModel {
            phase: self.phase,
            awaited: self.awaited as nat,
            start_port: self.start_port,
            end_port: self.end_port,
            ports: self.report.ports(),
        }
    }

    /// Sets a scan up: nothing is probed before the target is checked.
    pub fn new(ip: &str, port_range: &str, output: &str) -> (r: Scan)
        ensures
            r.wf(),
            r.phase == ScanPhase::Validating,
            r.mode == mode_of(output@),
            (r.start_port, r.end_port) == port_range_of(port_range@),
            r.awaited == 0,
            r.report.ip_address@ == ip@,
            r.report.hostname@ == unknown_host(),
            r.report.open_ports@.len() == 0,
            r.report.ports() == Set::<u16>::empty(),
    {
        let (start_port, end_port) = parse_port_range(port_range);
        assert(ports_of(Seq::<PortInfo>::empty()) =~= Set::<u16>::empty());
        Scan {
            phase: ScanPhase::Validating,
            mode: output_mode(output),
            start_port,
            end_port,
            awaited: 0,
            report: PortScanResult {
                hostname: "Hostname bulunamadı".to_owned(),
                ip_address: ip.to_owned(),
                open_ports: Vec::new(),
            },
        }
    }

    /// Takes the scan one step on.
    ///
    /// While the target is being checked: a target that is no address ends
    /// the scan with nothing probed; an address starts one probe for each
    /// port of the range, and with an empty range the report is complete at
    /// once. While probes are under way: each one that comes back is counted,
    /// and its record, where it has one of an open port of the range that
    /// has none yet, is added at the end of the report; with the last one the
    /// report is complete. Every other event changes nothing.
    pub fn step(&mut self, event: ScanEvent) -> (action: ScanAction)
        requires
            old(self).wf(),
        ensures
            final(self).wf(),
            final(self).mode == old(self).mode,
            final(self).start_port == old(self).start_port,
            final(self).end_port == old(self).end_port,
            final(self).report.ip_address == old(self).report.ip_address,
            old(self).phase == ScanPhase::Validating && event is TargetInvalid ==> {
                &&& action is Reject
                &&& final(self).phase == ScanPhase::Failed
                &&& final(self).report == old(self).report
                &&& final(self).awaited == 0
            },
            old(self).phase == ScanPhase::Validating && event is TargetValid ==> {
                &&& final(self).model() == launched(old(self).model())
                &&& action is Launch
                &&& action->ports@ == ports_between(old(self).start_port, old(self).end_port)
                &&& action->announce == (old(self).mode == OutputMode::Text)
                &&& final(self).awaited == action->ports@.len()
                &&& final(self).phase == if old(self).start_port <= old(self).end_port {
                    ScanPhase::Scanning
                } else {
                    ScanPhase::Reporting
                }
                &&& final(self).report.hostname@ == match event->hostname {
                    Some(name) => name@,
                    None => unknown_host(),
                }
                &&& final(self).report.open_ports@.len() == 0
            },
            old(self).phase == ScanPhase::Scanning && event is ProbeDone ==> {
                &&& final(self).model() == after_probe(
                    old(self).model(),
                    found_port(old(self).start_port, old(self).end_port, event->ProbeDone_0),
                )
                &&& final(self).awaited == old(self).awaited - 1
                &&& final(self).phase == if old(self).awaited == 1 {
                    ScanPhase::Reporting
                } else {
                    ScanPhase::Scanning
                }
                &&& final(self).report.hostname == old(self).report.hostname
                &&& final(self).report.ports() == ports_after(
                    old(self).report.ports(),
                    found_port(old(self).start_port, old(self).end_port, event->ProbeDone_0),
                )
                &&& match found_port(
                    old(self).start_port,
                    old(self).end_port,
                    event->ProbeDone_0,
                ) {
                    Some(p) if !old(self).report.ports().contains(p) => {
                        &&& action == (ScanAction::Recorded {
                            show: old(self).mode == OutputMode::Text,
                        })
                        &&& final(self).report.open_ports@ == old(self).report.open_ports@.push(
                            event->ProbeDone_0->0,
                        )
                    },
                    _ => {
                        &&& action is Idle
                        &&& final(self).report.open_ports@ == old(self).report.open_ports@
                    },
                }
            },
            !(old(self).phase == ScanPhase::Validating && !(event is ProbeDone)) && !(old(
                self,
            ).phase == ScanPhase::Scanning && event is ProbeDone) ==> {
                &&& action is Idle
                &&& *final(self) == *old(self)
            },
    {
        match (self.phase, event) {
            (ScanPhase::Validating, ScanEvent::TargetInvalid) => {
                self.phase = ScanPhase::Failed;
                ScanAction::Reject
            },
            (ScanPhase::Validating, ScanEvent::TargetValid { hostname }) => {
                self.report.hostname = match hostname {
                    Some(name) => name,
                    None => "Hostname bulunamadı".to_owned(),
                };
                let ports = ports_in_range(self.start_port, self.end_port);
                self.awaited = ports.len() as u32;
                self.phase = if self.start_port <= self.end_port {
                    ScanPhase::Scanning
                } else {
                    ScanPhase::Reporting
                };
                ScanAction::Launch { ports, announce: self.mode == OutputMode::Text }
            },
            (ScanPhase::Scanning, ScanEvent::ProbeDone(outcome)) => {
                self.awaited = self.awaited - 1;
                if self.awaited == 0 {
                    self.phase = ScanPhase::Reporting;
                }
                match outcome {
                    Some(info) => {
                        if info.is_open && self.start_port <= info.port && info.port
                            <= self.end_port && !self.report.has_port(info.port) {
                            let ghost before = self.report.open_ports@;
                            self.report.open_ports.push(info);
                            proof {
                                lemma_ports_of_push(before, info);
                            }
                            ScanAction::Recorded { show: self.mode == OutputMode::Text }
                        } else {
                            assert(self.report.ports().contains(info.port)
                                ==> self.report.ports().insert(info.port) =~= self.report.ports());
                            ScanAction::Idle
                        }
                    },
                    None => ScanAction::Idle,
                }
            },
            _ => ScanAction::Idle,
        }
    }

    /// The file to write when the scan is over: one in JSON mode with the
    /// report complete, none otherwise.
    pub fn output_file(&self) -> (r: Option<String>)
        ensures
            r is Some <==> self.phase == ScanPhase::Reporting && self.mode == OutputMode::Json,
            r is Some ==> r->0@ == report_file_of(self.report.ip_address@),
    {
        if self.phase == ScanPhase::Reporting && self.mode == OutputMode::Json {
            Some(self.report.file_name())
        } else {
            None
        }
    }
}

/// A record added at the end adds its port to the ports spoken of.
pub proof fn lemma_ports_of_push(records: Seq<PortInfo>, info: PortInfo)
    ensures
        ports_of(records.push(info)) == ports_of(records).insert(info.port),
{
    let longer = records.push(info);
    assert forall|p: u16| ports_of(longer).contains(p) <==> ports_of(records).insert(
        info.port,
    ).contains(p) by {
        if ports_of(longer).contains(p) {
            let i = choose|i: int| 0 <= i < longer.len() && #[trigger] longer[i].port == p;
            if i < records.len() {
                assert(records[i].port == p);
            }
        }
        if ports_of(records).contains(p) {
            let i = choose|i: int| 0 <= i < records.len() && #[trigger] records[i].port == p;
            assert(longer[i].port == p);
        }
        if p == info.port {
            assert(longer[records.len() as int].port == p);
        }
    }
    assert(ports_of(longer) =~= ports_of(records).insert(info.port));
}

/// After a run of probes the open ports are those that were open before
/// and those that a probe of the run found.
pub proof fn lemma_ports_after_all(ports: Set<u16>, found: Seq<Option<u16>>)
    ensures
        forall|p: u16|
            #![trigger ports_after_all(ports, found).contains(p)]
            ports_after_all(ports, found).contains(p) <==> (ports.contains(p) || found.contains(
                Some(p),
            )),
    decreases found.len(),
{
    if found.len() > 0 {
        let shorter = found.drop_last();
        lemma_ports_after_all(ports, shorter);
        assert forall|p: u16|
            ports_after_all(ports, found).contains(p) <==> (ports.contains(p) || found.contains(
                Some(p),
            )) by {
            assert(ports_after_all(ports, shorter).contains(p) <==> (ports.contains(p)
                || shorter.contains(Some(p))));
            if found.contains(Some(p)) {
                let i = choose|i: int| 0 <= i < found.len() && found[i] == Some(p);
                if i < shorter.len() {
                    assert(shorter[i] == Some(p));
                }
            }
            if shorter.contains(Some(p)) {
                let i = choose|i: int| 0 <= i < shorter.len() && shorter[i] == Some(p);
                assert(found[i] == Some(p));
            }
            if found.last() == Some(p) {
                assert(found[found.len() - 1] == Some(p));
            }
        }
    }
}

/// Two scans whose probes find the same, in whatever order they come back,
/// report the same set of open ports.
pub proof fn law_order_of_probes_is_free(
    ports: Set<u16>,
    first: Seq<Option<u16>>,
    second: Seq<Option<u16>>,
)
    requires
        first.to_multiset() == second.to_multiset(),
    ensures
        ports_after_all(ports, first) == ports_after_all(ports, second),
{
    lemma_ports_after_all(ports, first);
    lemma_ports_after_all(ports, second);
    first.to_multiset_ensures();
    second.to_multiset_ensures();
    assert forall|p: u16|
        ports_after_all(ports, first).contains(p) <==> ports_after_all(ports, second).contains(
            p,
        ) by {
        assert(first.contains(Some(p)) <==> first.to_multiset().count(Some(p)) > 0);
        assert(second.contains(Some(p)) <==> second.to_multiset().count(Some(p)) > 0);
    }
    assert(ports_after_all(ports, first) =~= ports_after_all(ports, second));
}

/// Probes that find nothing, however many, add no port: one that breaks
/// down or meets a closed port does not disturb the others.
pub proof fn law_closed_ports_add_nothing(ports: Set<u16>, found: Seq<Option<u16>>)
    requires
        forall|i: int| 0 <= i < found.len() ==> found[i] is None,
    ensures
        ports_after_all(ports, found) == ports,
{
    lemma_ports_after_all(ports, found);
    assert forall|p: u16| ports_after_all(ports, found).contains(p) <==> ports.contains(p) by {
        if found.contains(Some(p)) {
            let i = choose|i: int| 0 <= i < found.len() && found[i] == Some(p);
            assert(found[i] is None);
        }
    }
    assert(ports_after_all(ports, found) =~= ports);
}

/// While probes are awaited, each one that comes back is counted, and the
/// report is complete with the last one.
pub proof fn lemma_after_probes(m: ScanModel, found: Seq<Option<u16>>)
    requires
        m.phase == ScanPhase::Scanning,
        0 < m.awaited,
        found.len() <= m.awaited,
    ensures
        after_probes(m, found).awaited == m.awaited - found.len(),
        after_probes(m, found).phase == if found.len() == m.awaited {
            ScanPhase::Reporting
        } else {
            ScanPhase::Scanning
        },
        after_probes(m, found).ports == ports_after_all(m.ports, found),
        after_probes(m, found).start_port == m.start_port,
        after_probes(m, found).end_port == m.end_port,
    decreases found.len(),
{
    if found.len() > 0 {
        lemma_after_probes(m, found.drop_last());
    }
}

/// A scan of an address ends: when as many probes are back as the range has
/// ports, in whatever order and whatever they found, the report is complete,
/// and it holds the ports that the probes found.
pub proof fn law_scan_ends_with_the_last_probe(m: ScanModel, found: Seq<Option<u16>>)
    requires
        m.phase == ScanPhase::Validating,
        found.len() == ports_between(m.start_port, m.end_port).len(),
    ensures
        after_probes(launched(m), found).phase == ScanPhase::Reporting,
        after_probes(launched(m), found).awaited == 0,
        after_probes(launched(m), found).ports == ports_after_all(m.ports, found),
{
    if m.start_port <= m.end_port {
        lemma_after_probes(launched(m), found);
    }
}

/// A scan of a target without listeners ends with a complete report that
/// holds no port.
pub proof fn law_scan_without_listeners_reports_nothing(m: ScanModel, found: Seq<Option<u16>>)
    requires
        m.phase == ScanPhase::Validating,
        m.ports == Set::<u16>::empty(),
        found.len() == ports_between(m.start_port, m.end_port).len(),
        forall|i: int| 0 <= i < found.len() ==> found[i] is None,
    ensures
        after_probes(launched(m), found).phase == ScanPhase::Reporting,
        after_probes(launched(m), found).ports == Set::<u16>::empty(),
{
    law_scan_ends_with_the_last_probe(m, found);
    law_closed_ports_add_nothing(m.ports, found);
}

} // verus!
