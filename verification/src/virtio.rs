//! VirtIO probing and transport dispatch.
//!
//! The probe walks an enumerated PCI device list, keeps the devices of the
//! VirtIO vendor whose device identifier falls in the VirtIO range,
//! processes the candidates in reverse discovery order while assigning each
//! a monotonically increasing local index, asks the platform to construct a
//! transport for each, and routes every transport obtained to the subsystem
//! responsible for its device type.  A candidate whose transport cannot be
//! constructed is recorded and skipped; no single candidate's failure stops
//! the scan.  The returned report holds one entry per candidate, so every
//! outcome is observable by the caller.

use crate::dev_id::{u16_to_dec_string, DeviceId};
use crate::error::SystemError;
use crate::kobject::lemma_filter_push;
use vstd::prelude::*;

verus! {

/// The PCI vendor identifier all VirtIO devices carry.
pub const VIRTIO_VENDOR_ID: u16 = 0x1AF4;

/// The lowest PCI device identifier of the VirtIO range.
pub const VIRTIO_DEVICE_ID_MIN: u16 = 0x1000;

/// The highest PCI device identifier of the VirtIO range.
pub const VIRTIO_DEVICE_ID_MAX: u16 = 0x103F;

/// The common PCI configuration header fields the probe reads.
#[derive(Clone, Copy, Debug, PartialEq, Eq, Structural)]
pub struct PciCommonHeader {
    /// The vendor identifier.
    pub vendor_id: u16,
    /// The device identifier.
    pub device_id: u16,
}

/// A standard (general) PCI device as the probe sees it.
#[derive(Clone, Copy, Debug, PartialEq, Eq, Structural)]
pub struct PciDeviceStructureGeneralDevice {
    /// The common configuration header.
    pub common_header: PciCommonHeader,
}

/// An entry of the enumerated PCI device list: a standard device or some
/// other header type (a bridge, for instance), of which the probe reads
/// only the common header.
#[derive(Clone, Copy, Debug, PartialEq, Eq, Structural)]
pub enum PciDeviceStructure {
    /// A standard device.
    GeneralDevice(PciDeviceStructureGeneralDevice),
    /// Any other header type.
    Other(PciCommonHeader),
}

impl PciDeviceStructure {
    /// The common configuration header of the entry.
    pub open spec fn spec_common_header(self) -> PciCommonHeader {
        match self {
            PciDeviceStructure::GeneralDevice(g) => g.common_header,
            PciDeviceStructure::Other(h) => h,
        }
    }

    /// The common configuration header of the entry.
    pub fn common_header(&self) -> (h: PciCommonHeader)
        ensures
            h == self.spec_common_header(),
    {
        match self {
            PciDeviceStructure::GeneralDevice(g) => g.common_header,
            PciDeviceStructure::Other(h) => *h,
        }
    }

    /// The entry as a standard device, if it is one.
    pub fn as_standard_device(&self) -> (r: Option<PciDeviceStructureGeneralDevice>)
        ensures
            r == (match *self {
                PciDeviceStructure::GeneralDevice(g) => Some(g),
                PciDeviceStructure::Other(_) => None::<PciDeviceStructureGeneralDevice>,
            }),
    {
        match self {
            PciDeviceStructure::GeneralDevice(g) => Some(*g),
            PciDeviceStructure::Other(_) => None,
        }
    }
}

/// The device type a transport reports.
#[derive(Clone, Copy, Debug, PartialEq, Eq, Structural)]
pub enum VirtioDeviceType {
    /// A block device.
    Block,
    /// A network device.
    Network,
    /// A graphics device.
    Gpu,
    /// An input device.
    Input,
    /// Any other reported type, by its raw number.
    Other(u32),
}

/// The transport negotiated for a VirtIO device: PCI capability-based or
/// MMIO-mapped.  It carries what the generic probing code reads — the
/// reported device type and the offered feature bits — without the caller
/// knowing which concrete transport backs it.
#[derive(Clone, Copy, Debug, PartialEq, Eq, Structural)]
pub enum VirtIOTransport {
    /// A transport backed by PCI capabilities.
    Pci(TransportInfo),
    /// A transport backed by MMIO registers.
    Mmio(TransportInfo),
}

/// What a transport reports: the device type and the feature bits.
#[derive(Clone, Copy, Debug, PartialEq, Eq, Structural)]
pub struct TransportInfo {
    /// The device type the transport reports.
    pub device_type: VirtioDeviceType,
    /// The feature bits the device offers.
    pub features: u64,
}

impl VirtIOTransport {
    /// The device type the transport reports.
    pub open spec fn spec_device_type(self) -> VirtioDeviceType {
        match self {
            VirtIOTransport::Pci(i) => i.device_type,
            VirtIOTransport::Mmio(i) => i.device_type,
        }
    }

    /// The feature bits the device offers.
    pub open spec fn spec_features(self) -> u64 {
        match self {
            VirtIOTransport::Pci(i) => i.features,
            VirtIOTransport::Mmio(i) => i.features,
        }
    }

    /// The device type the transport reports.
    pub fn device_type(&self) -> (t: VirtioDeviceType)
        ensures
            t == self.spec_device_type(),
    {
        match self {
            VirtIOTransport::Pci(i) => i.device_type,
            VirtIOTransport::Mmio(i) => i.device_type,
        }
    }

    /// The feature bits the device offers.
    pub fn read_device_features(&self) -> (f: u64)
        ensures
            f == self.spec_features(),
    {
        match self {
            VirtIOTransport::Pci(i) => i.features,
            VirtIOTransport::Mmio(i) => i.features,
        }
    }
}

/// An MMIO-discovered VirtIO device: its transport and its identifier.
#[derive(Debug)]
pub struct MmioVirtioDevice {
    /// The transport constructed for the device.
    pub transport: VirtIOTransport,
    /// The identifier assigned to the device.
    pub dev_id: DeviceId,
}

/// The platform collaborators of the probe: transport construction for a
/// PCI candidate, the platform's own MMIO enumeration, and the subsystem
/// entry points that take ownership of a routed transport.  Nothing is
/// assumed of them; the probe records what they return.
pub trait VirtioPlatform {
    /// Constructs a transport for a PCI candidate; `index` disambiguates
    /// multiple functions of one physical card.
    fn create_pci_transport(
        &mut self,
        device: &PciDeviceStructureGeneralDevice,
        dev_id: &DeviceId,
        index: usize,
    ) -> Result<VirtIOTransport, SystemError>;

    /// Enumerates MMIO-discoverable VirtIO devices; an error here is the
    /// platform's and is not recovered.
    fn probe_mmio(&mut self) -> Result<Vec<MmioVirtioDevice>, SystemError>;

    /// The block subsystem entry point; it takes ownership of the
    /// transport and completes registration on its own.
    fn virtio_blk(&mut self, transport: VirtIOTransport, dev_id: DeviceId);

    /// The network subsystem entry point; it takes ownership of the
    /// transport and completes registration on its own.
    fn virtio_net(&mut self, transport: VirtIOTransport, dev_id: DeviceId);
}

/// Where a transport was routed, by the device type it reported.
#[derive(Clone, Copy, Debug, PartialEq, Eq, Structural)]
pub enum DispatchOutcome {
    /// Routed to the block subsystem.
    Block,
    /// Routed to the network subsystem.
    Network,
    /// A graphics device; not supported, deliberately not routed.
    UnsupportedGpu,
    /// An input device; not supported, deliberately not routed.
    UnsupportedInput,
    /// An unrecognized device type, by its raw number; skipped.
    Unrecognized(u32),
}

/// The routing table: which outcome each reported device type produces.
pub open spec fn spec_dispatch(t: VirtioDeviceType) -> DispatchOutcome {
    match t {
        VirtioDeviceType::Block => DispatchOutcome::Block,
        VirtioDeviceType::Network => DispatchOutcome::Network,
        VirtioDeviceType::Gpu => DispatchOutcome::UnsupportedGpu,
        VirtioDeviceType::Input => DispatchOutcome::UnsupportedInput,
        VirtioDeviceType::Other(n) => DispatchOutcome::Unrecognized(n),
    }
}

/// One observed probe step.
#[derive(Clone, Copy, Debug, PartialEq, Eq, Structural)]
pub enum ProbeEvent {
    /// Transport construction failed for a PCI candidate; the candidate
    /// was skipped and the scan went on.
    PciTransportFailed {
        /// The candidate's common header.
        device: PciCommonHeader,
        /// The local index the candidate was assigned.
        index: usize,
        /// The error the platform reported.
        error: SystemError,
    },
    /// A PCI candidate's transport was constructed and routed.
    PciDispatched {
        /// The candidate's common header.
        device: PciCommonHeader,
        /// The local index the candidate was assigned.
        index: usize,
        /// The device type the transport reported.
        device_type: VirtioDeviceType,
        /// Where the transport was routed.
        outcome: DispatchOutcome,
    },
    /// An MMIO-discovered device was routed.
    MmioDispatched {
        /// Where the transport was routed.
        outcome: DispatchOutcome,
    },
}

/// The predicate keeping the list entries with the given vendor.
pub open spec fn spec_vendor_pred(vendor_id: u16) -> spec_fn(PciDeviceStructure) -> bool {
    |d: PciDeviceStructure| d.spec_common_header().vendor_id == vendor_id
}

/// The predicate keeping standard devices whose device identifier lies in
/// the VirtIO range.
pub open spec fn spec_range_pred() -> spec_fn(PciDeviceStructure) -> bool {
    |d: PciDeviceStructure| d is GeneralDevice
        && VIRTIO_DEVICE_ID_MIN <= d.spec_common_header().device_id
        && d.spec_common_header().device_id <= VIRTIO_DEVICE_ID_MAX
}

/// The predicate keeping VirtIO candidates: standard devices of the VirtIO
/// vendor whose device identifier lies in the VirtIO range.
pub open spec fn spec_candidate_pred() -> spec_fn(PciDeviceStructure) -> bool {
    |d: PciDeviceStructure| d is GeneralDevice
        && d.spec_common_header().vendor_id == VIRTIO_VENDOR_ID
        && VIRTIO_DEVICE_ID_MIN <= d.spec_common_header().device_id
        && d.spec_common_header().device_id <= VIRTIO_DEVICE_ID_MAX
}

/// The standard device behind a list entry (the entry's header for the
/// other header types, which the candidate filter never keeps).
pub open spec fn spec_as_general(d: PciDeviceStructure) -> PciDeviceStructureGeneralDevice {
    match d {
        PciDeviceStructure::GeneralDevice(g) => g,
        PciDeviceStructure::Other(h) => PciDeviceStructureGeneralDevice { common_header: h },
    }
}

/// The VirtIO candidates of an enumerated list, in discovery order.
pub open spec fn spec_virtio_candidates(
    s: Seq<PciDeviceStructure>,
) -> Seq<PciDeviceStructureGeneralDevice> {
    s.filter(spec_candidate_pred()).map_values(|d: PciDeviceStructure| spec_as_general(d))
}

/// Filtering twice filters once by the conjunction.
proof fn lemma_filter_filter<A>(
    s: Seq<A>,
    p: spec_fn(A) -> bool,
    q: spec_fn(A) -> bool,
    pq: spec_fn(A) -> bool,
)
    requires
        forall|x: A| #[trigger] pq(x) <==> (p(x) && q(x)),
    ensures
        s.filter(p).filter(q) == s.filter(pq),
    decreases s.len(),
{
    if s.len() == 0 {
        reveal(Seq::filter);
        assert(s.filter(p).filter(q) =~= s.filter(pq));
    } else {
        let d = s.drop_last();
        let l = s.last();
        lemma_filter_filter(d, p, q, pq);
        assert(s == d.push(l));
        lemma_filter_push(d, p, l);
        lemma_filter_push(d, pq, l);
        if p(l) {
            lemma_filter_push(d.filter(p), q, l);
        }
    }
}

/// Queries the enumerated PCI list for the entries of one vendor, in
/// discovery order.
pub fn get_pci_device_structures_by_vendor_id(
    list: &Vec<PciDeviceStructure>,
    vendor_id: u16,
) -> (r: Vec<PciDeviceStructure>)
    ensures
        r@ == list@.filter(spec_vendor_pred(vendor_id)),
{
    let mut out: Vec<PciDeviceStructure> = Vec::new();
    let mut i: usize = 0;
    while i < list.len()
        invariant
            i <= list.len(),
            out@ == list@.subrange(0, i as int).filter(spec_vendor_pred(vendor_id)),
        decreases list.len() - i,
    {
        let d = list[i];
        proof {
            assert(list@.subrange(0, i + 1 as int)
                == list@.subrange(0, i as int).push(d));
            lemma_filter_push(list@.subrange(0, i as int), spec_vendor_pred(vendor_id), d);
        }
        if d.common_header().vendor_id == vendor_id {
            out.push(d);
        }
        i = i + 1;
    }
    proof {
        assert(list@.subrange(0, list@.len() as int) == list@);
    }
    out
}

/// Searches the enumerated PCI list for VirtIO devices: the standard
/// devices of the VirtIO vendor whose device identifier lies in the VirtIO
/// range, in discovery order.
pub fn virtio_device_search(
    list: &Vec<PciDeviceStructure>,
) -> (r: Vec<PciDeviceStructureGeneralDevice>)
    ensures
        r@ == spec_virtio_candidates(list@),
{
    let result = get_pci_device_structures_by_vendor_id(list, VIRTIO_VENDOR_ID);
    let mut virtio_list: Vec<PciDeviceStructureGeneralDevice> = Vec::new();
    let mut i: usize = 0;
    while i < result.len()
        invariant
            i <= result.len(),
            virtio_list@ == result@.subrange(0, i as int).filter(spec_range_pred())
                .map_values(|d: PciDeviceStructure| spec_as_general(d)),
        decreases result.len() - i,
    {
        let d = result[i];
        proof {
            assert(result@.subrange(0, i + 1 as int)
                == result@.subrange(0, i as int).push(d));
            lemma_filter_push(result@.subrange(0, i as int), spec_range_pred(), d);
            if spec_range_pred()(d) {
                assert(result@.subrange(0, i + 1 as int).filter(spec_range_pred())
                    .map_values(|x: PciDeviceStructure| spec_as_general(x))
                    =~= virtio_list@.push(spec_as_general(d)));
            }
        }
        match d.as_standard_device() {
            Some(g) => {
                let header = g.common_header;
                if header.device_id >= VIRTIO_DEVICE_ID_MIN
                    && header.device_id <= VIRTIO_DEVICE_ID_MAX {
                    virtio_list.push(g);
                }
            },
            None => {},
        }
        i = i + 1;
    }
    proof {
        assert(result@.subrange(0, result@.len() as int) == result@);
        lemma_filter_filter(
            list@,
            spec_vendor_pred(VIRTIO_VENDOR_ID),
            spec_range_pred(),
            spec_candidate_pred(),
        );
    }
    virtio_list
}

/// Routes a transport to the subsystem responsible for its reported device
/// type and returns where it went: a block transport to the block entry
/// point, a network transport to the network entry point, graphics and
/// input deliberately unrouted, anything else skipped as unrecognized.
pub fn virtio_device_init<P: VirtioPlatform>(
    platform: &mut P,
    transport: VirtIOTransport,
    dev_id: DeviceId,
) -> (r: DispatchOutcome)
    ensures
        r == spec_dispatch(transport.spec_device_type()),
{
    match transport.device_type() {
        VirtioDeviceType::Block => {
            platform.virtio_blk(transport, dev_id);
            DispatchOutcome::Block
        },
        VirtioDeviceType::Gpu => DispatchOutcome::UnsupportedGpu,
        VirtioDeviceType::Input => DispatchOutcome::UnsupportedInput,
        VirtioDeviceType::Network => {
            platform.virtio_net(transport, dev_id);
            DispatchOutcome::Network
        },
        VirtioDeviceType::Other(t) => DispatchOutcome::Unrecognized(t),
    }
}

/// Whether `e` is the event the probe records for candidate `c` under
/// local index `k`: the candidate's header and index, and — when a
/// transport was obtained — an outcome that follows the routing table for
/// the device type the transport reported.
pub open spec fn spec_event_for(
    e: ProbeEvent,
    c: PciDeviceStructureGeneralDevice,
    k: int,
) -> bool {
    match e {
        ProbeEvent::PciTransportFailed { device, index, error: _ } =>
            device == c.common_header && index == k,
        ProbeEvent::PciDispatched { device, index, device_type, outcome } =>
            device == c.common_header && index == k && outcome == spec_dispatch(device_type),
        ProbeEvent::MmioDispatched { .. } => false,
    }
}

/// Whether `report` covers the candidates completely: one event per
/// candidate, in reverse discovery order, each carrying its candidate's
/// header and its local index.
pub open spec fn spec_pci_report_ok(
    report: Seq<ProbeEvent>,
    cands: Seq<PciDeviceStructureGeneralDevice>,
) -> bool {
    &&& report.len() == cands.len()
    &&& forall|k: int| 0 <= k < report.len()
        ==> spec_event_for(#[trigger] report[k], cands[cands.len() - 1 - k], k)
}

/// Probes the VirtIO devices of the enumerated PCI list.
///
/// Candidates are processed in reverse discovery order and assigned a
/// monotonically increasing local index.  For each, the platform is asked
/// to construct a transport; a constructed transport is routed by device
/// type, a construction failure is recorded and the scan goes on.  The
/// report holds exactly one event per candidate.
pub fn virtio_probe_pci<P: VirtioPlatform>(
    platform: &mut P,
    list: &Vec<PciDeviceStructure>,
) -> (report: Vec<ProbeEvent>)
    ensures
        spec_pci_report_ok(report@, spec_virtio_candidates(list@)),
{
    let virtio_list = virtio_device_search(list);
    let mut report: Vec<ProbeEvent> = Vec::new();
    let total = virtio_list.len();
    let mut add: usize = 0;
    while add < total
        invariant
            total == virtio_list@.len(),
            add <= total,
            report@.len() == add,
            forall|k: int| 0 <= k < add
                ==> spec_event_for(#[trigger] report@[k], virtio_list@[total - 1 - k], k),
        decreases total - add,
    {
        let virtio_device = virtio_list[total - 1 - add];
        let header = virtio_device.common_header;
        let dev_id = DeviceId::new(None, Some(u16_to_dec_string(header.device_id))).unwrap();
        match platform.create_pci_transport(&virtio_device, &dev_id, add) {
            Ok(transport) => {
                let device_type = transport.device_type();
                let outcome = virtio_device_init(platform, transport, dev_id);
                report.push(ProbeEvent::PciDispatched {
                    device: header,
                    index: add,
                    device_type,
                    outcome,
                });
            },
            Err(err) => {
                report.push(ProbeEvent::PciTransportFailed {
                    device: header,
                    index: add,
                    error: err,
                });
            },
        }
        add = add + 1;
    }
    report
}

/// Whether `report` is a complete probe report over the enumerated list:
/// first one event per PCI candidate, then only MMIO events.
pub open spec fn spec_probe_report_ok(
    report: Seq<ProbeEvent>,
    list: Seq<PciDeviceStructure>,
) -> bool {
    let cands = spec_virtio_candidates(list);
    &&& report.len() >= cands.len()
    &&& spec_pci_report_ok(report.subrange(0, cands.len() as int), cands)
    &&& forall|k: int| cands.len() <= k < report.len()
        ==> #[trigger] report[k] is MmioDispatched
}

/// Routes every MMIO-discovered device through the common routing step and
/// appends one event per device to the report, in discovery order; the
/// outcome of each event follows the routing table for the device type its
/// transport reports.
pub fn virtio_dispatch_mmio<P: VirtioPlatform>(
    platform: &mut P,
    devices: Vec<MmioVirtioDevice>,
    report: &mut Vec<ProbeEvent>,
)
    ensures
        final(report)@.len() == old(report)@.len() + devices@.len(),
        final(report)@.subrange(0, old(report)@.len() as int) == old(report)@,
        forall|k: int| 0 <= k < devices@.len()
            ==> final(report)@[old(report)@.len() + k] == (ProbeEvent::MmioDispatched {
                outcome: spec_dispatch(devices@[k].transport.spec_device_type()),
            }),
{
    let ghost orig = devices@;
    let ghost base = old(report)@;
    let mut devices = devices;
    while devices.len() > 0
        invariant
            devices@.len() <= orig.len(),
            devices@ == orig.skip(orig.len() - devices@.len()),
            report@.len() == base.len() + orig.len() - devices@.len(),
            report@.subrange(0, base.len() as int) == base,
            forall|k: int| 0 <= k < orig.len() - devices@.len()
                ==> report@[base.len() + k] == (ProbeEvent::MmioDispatched {
                    outcome: spec_dispatch(orig[k].transport.spec_device_type()),
                }),
        decreases devices.len(),
    {
        let ghost done = orig.len() - devices@.len();
        let m = devices.remove(0);
        proof {
            assert(m == orig[done]);
            assert(devices@ =~= orig.skip(done + 1));
        }
        let outcome = virtio_device_init(platform, m.transport, m.dev_id);
        report.push(ProbeEvent::MmioDispatched { outcome });
        proof {
            assert(report@.subrange(0, base.len() as int) =~= base);
        }
    }
}

/// Finds and routes every VirtIO device: first the PCI candidates of the
/// enumerated list, then the platform's own MMIO enumeration, whose
/// discoveries go through the same routing step.
///
/// A failure of the MMIO enumeration itself is the platform's and is
/// propagated; it is deliberately not recovered here.
pub fn virtio_probe<P: VirtioPlatform>(
    platform: &mut P,
    list: &Vec<PciDeviceStructure>,
) -> (r: Result<Vec<ProbeEvent>, SystemError>)
    ensures
        r matches Ok(report) ==> spec_probe_report_ok(report@, list@),
{
    let mut report = virtio_probe_pci(platform, list);
    let ghost pci_part = report@;
    match platform.probe_mmio() {
        Err(e) => Err(e),
        Ok(discovered) => {
            let ghost disc = discovered@;
            virtio_dispatch_mmio(platform, discovered, &mut report);
            proof {
                let cands = spec_virtio_candidates(list@);
                assert(pci_part.len() == cands.len());
                assert(report@.subrange(0, cands.len() as int) == pci_part);
                assert forall|k: int| cands.len() <= k < report@.len()
                    implies #[trigger] report@[k] is MmioDispatched by {
                    assert(report@[pci_part.len() + (k - pci_part.len())]
                        == (ProbeEvent::MmioDispatched {
                            outcome: spec_dispatch(
                                disc[k - pci_part.len()].transport.spec_device_type(),
                            ),
                        }));
                }
            }
            Ok(report)
        },
    }
}

} // verus!
