//! The decisions of device discovery: which responder to probe next, how many
//! probes may run at once, and what each answer adds to the result.
//!
//! The network is not reached from here. A driver performs each action and
//! reports each outcome; one probe that fails costs one device and nothing
//! else.

use vstd::prelude::*;
use crate::markup::{element_text, first_named, text_of, xml_items};
use crate::roku::{check_status, is_success, RokuDevice, RokuDeviceView, TransportError};
use crate::weburl::{join_url, joined_text, parse_url, parsed_text, url_text};
use reqwest::Url;
use crate::text::{decode_entities, texts, unquoted};

verus! {

/// The views of a sequence of devices.
pub open spec fn devices_view(devices: Seq<RokuDevice>) -> Seq<RokuDeviceView> {
    devices.map_values(|d: RokuDevice| d@)
}

/// `items` without repetitions: each text once, where it first occurs.
pub open spec fn distinct_of(items: Seq<Seq<char>>) -> Seq<Seq<char>>
    decreases items.len(),
{
    if items.len() == 0 {
        Seq::empty()
    } else {
        let before = distinct_of(items.drop_last());
        if before.contains(items.last()) {
            before
        } else {
            before.push(items.last())
        }
    }
}

fn holds(items: &Vec<String>, wanted: &String) -> (r: bool)
    ensures
        r == texts(items@).contains(wanted@),
{
    let mut i: usize = 0;
    while i < items.len()
        invariant
            i <= items@.len(),
            !texts(items@).take(i as int).contains(wanted@),
        decreases items@.len() - i,
    {
        if items[i] == *wanted {
            assert(texts(items@)[i as int] == wanted@);
            return true;
        }
        proof {
            let seen = texts(items@).take(i + 1);
            assert forall|k: int| 0 <= k < seen.len() implies seen[k] != wanted@ by {
                if k < i {
                    assert(texts(items@).take(i as int)[k] == seen[k]);
                }
            }
        }
        i += 1;
    }
    proof {
        assert(texts(items@).take(i as int) =~= texts(items@));
    }
    false
}

/// The responders that answered, each once, in the order of their first
/// answer.
pub fn distinct(locations: &Vec<String>) -> (r: Vec<String>)
    ensures
        texts(r@) == distinct_of(texts(locations@)),
{
    let mut out: Vec<String> = Vec::new();
    let mut i: usize = 0;
    assert(texts(out@) =~= distinct_of(texts(locations@).take(0)));
    while i < locations.len()
        invariant
            i <= locations@.len(),
            texts(out@) == distinct_of(texts(locations@).take(i as int)),
        decreases locations@.len() - i,
    {
        proof {
            let next = texts(locations@).take(i + 1);
            assert(next.drop_last() =~= texts(locations@).take(i as int));
            assert(next.last() == locations@[i as int]@);
        }
        if !holds(&out, &locations[i]) {
            let ghost before = out@;
            out.push(locations[i].clone());
            assert(texts(out@) =~= texts(before).push(locations@[i as int]@));
        }
        i += 1;
    }
    proof {
        assert(texts(locations@).take(i as int) =~= texts(locations@));
    }
    out
}

/// The name under which a device presents itself: the text of the first
/// `friendly-device-name` element of its answer, entities decoded.
pub open spec fn friendly_name_of(body: Seq<char>) -> Option<Seq<char>> {
    match first_named(xml_items(body), "friendly-device-name"@) {
        Some(raw) => Some(unquoted(raw)),
        None => None,
    }
}

/// Reads the friendly name out of a device's answer to `query/device-info`.
pub fn friendly_name(body: &str) -> (r: Option<String>)
    ensures
        text_of(r) == friendly_name_of(body@),
{
    match element_text(body, "friendly-device-name") {
        Some(raw) => Some(decode_entities(raw.as_str())),
        None => None,
    }
}

/// How one probe ended.
#[derive(Debug, Clone)]
pub enum ProbeOutcome {
    /// The responder at `addr` answered with this status and body.
    Answered { addr: String, status: u16, body: String },
    /// The probe failed: refused, timed out, or cut short.
    Failed,
}

/// The device that an outcome stands for, if any: an answer with a success
/// status whose body names the device.
pub open spec fn device_of(outcome: ProbeOutcome) -> Option<RokuDeviceView> {
    match outcome {
        ProbeOutcome::Answered { addr, status, body } => if is_success(status) {
            match friendly_name_of(body@) {
                Some(name) => Some(RokuDeviceView { name, addr: addr@ }),
                None => None,
            }
        } else {
            None
        },
        ProbeOutcome::Failed => None,
    }
}

/// The view of an optional device.
pub open spec fn device_view(d: Option<RokuDevice>) -> Option<RokuDeviceView> {
    match d {
        Some(d) => Some(d@),
        None => None,
    }
}

/// Turns the outcome of a probe into a device, or into nothing where the
/// probe failed, the status is no success, or the body names no device.
pub fn device_from(outcome: &ProbeOutcome) -> (r: Option<RokuDevice>)
    ensures
        device_view(r) == device_of(*outcome),
{
    match outcome {
        ProbeOutcome::Answered { addr, status, body } => {
            if check_status(*status).is_ok() {
                match friendly_name(body.as_str()) {
                    Some(name) => Some(RokuDevice { name, addr: addr.clone() }),
                    None => None,
                }
            } else {
                None
            }
        },
        ProbeOutcome::Failed => None,
    }
}

/// What the driver does next.
#[derive(Debug, Clone)]
pub enum DiscoveryAction {
    /// Start a probe of the responder at this location.
    Probe(String),
    /// Every slot is taken or every responder handed out: wait for an outcome.
    Wait,
    /// Every responder was probed and every probe has ended.
    Done,
}

/// Why a discovery cannot start.
#[derive(Debug, Clone, Copy, PartialEq, Eq, Structural)]
pub enum DiscoveryError {
    /// With no probe allowed in flight nothing can be probed.
    NoProbeSlots,
}

/// A discovery under way.
pub struct Discovery {
    /// The responders to probe, each once.
    pub targets: Vec<String>,
    /// How many of them were handed out.
    pub next: usize,
    /// How many probes are in flight.
    pub in_flight: usize,
    /// How many may be in flight at once.
    pub limit: usize,
    /// The devices found so far.
    pub found: Vec<RokuDevice>,
}

impl Discovery {
    /// The invariant of a discovery: no more probes in flight than allowed,
    /// and every device found and every probe in flight accounted for by a
    /// responder that was handed out.
    pub open spec fn wf(&self) -> bool {
        &&& self.limit >= 1
        &&& self.in_flight <= self.limit
        &&& self.next <= self.targets@.len()
        &&& self.found@.len() + self.in_flight <= self.next
    }

    /// The steps that are left at most: two for each responder still to be
    /// handed out, one for each probe in flight.
    pub open spec fn work(&self) -> nat {
        (2 * (self.targets@.len() - self.next) + self.in_flight) as nat
    }

    /// Whether the next action is a probe.
    pub open spec fn can_probe(&self) -> bool {
        self.next < self.targets@.len() && self.in_flight < self.limit
    }

    /// Starts a discovery over the responders at `locations`, with at most
    /// `probe_concurrency` probes in flight at once.
    pub fn new(locations: &Vec<String>, probe_concurrency: usize) -> (r: Result<
        Discovery,
        DiscoveryError,
    >)
        ensures
            probe_concurrency == 0 ==> r == Err::<Discovery, DiscoveryError>(
                DiscoveryError::NoProbeSlots,
            ),
            probe_concurrency > 0 ==> r is Ok && ({
                let d = r->Ok_0;
                &&& d.wf()
                &&& texts(d.targets@) == distinct_of(texts(locations@))
                &&& d.next == 0
                &&& d.in_flight == 0
                &&& d.limit == probe_concurrency
                &&& d.found@.len() == 0
            }),
    {
        if probe_concurrency == 0 {
            return Err(DiscoveryError::NoProbeSlots);
        }
        Ok(
            Discovery {
                targets: distinct(locations),
                next: 0,
                in_flight: 0,
                limit: probe_concurrency,
                found: Vec::new(),
            },
        )
    }

    /// Decides what the driver does next: a probe while a responder is left
    /// and a slot is free, else a wait while a probe is in flight, else
    /// nothing more.
    pub fn next_action(&mut self) -> (action: DiscoveryAction)
        requires
            old(self).wf(),
        ensures
            final(self).wf(),
            final(self).targets == old(self).targets,
            final(self).limit == old(self).limit,
            final(self).found == old(self).found,
            old(self).can_probe() ==> {
                &&& action matches DiscoveryAction::Probe(location)
                &&& location@ == old(self).targets@[old(self).next as int]@
                &&& final(self).next == old(self).next + 1
                &&& final(self).in_flight == old(self).in_flight + 1
                &&& final(self).work() < old(self).work()
            },
            !old(self).can_probe() ==> {
                &&& final(self).next == old(self).next
                &&& final(self).in_flight == old(self).in_flight
                &&& (old(self).in_flight > 0 ==> action is Wait)
                &&& (old(self).in_flight == 0 ==> action is Done)
            },
    {
        if self.next < self.targets.len() && self.in_flight < self.limit {
            let location = self.targets[self.next].clone();
            self.next += 1;
            self.in_flight += 1;
            DiscoveryAction::Probe(location)
        } else if self.in_flight > 0 {
            DiscoveryAction::Wait
        } else {
            DiscoveryAction::Done
        }
    }

    /// Takes the outcome of one probe. It frees a slot; a device is added
    /// where the outcome stands for one, and nothing else changes. An outcome
    /// that comes while no probe is in flight is left aside.
    pub fn record(&mut self, outcome: &ProbeOutcome) -> (taken: bool)
        requires
            old(self).wf(),
        ensures
            final(self).wf(),
            final(self).targets == old(self).targets,
            final(self).limit == old(self).limit,
            final(self).next == old(self).next,
            taken == (old(self).in_flight > 0),
            !taken ==> *final(self) == *old(self),
            taken ==> {
                &&& final(self).in_flight == old(self).in_flight - 1
                &&& final(self).work() < old(self).work()
                &&& match device_of(*outcome) {
                    Some(d) => {
                        &&& final(self).found@.len() == old(self).found@.len() + 1
                        &&& final(self).found@.drop_last() == old(self).found@
                        &&& final(self).found@.last()@ == d
                    },
                    None => final(self).found == old(self).found,
                }
            },
    {
        if self.in_flight == 0 {
            return false;
        }
        self.in_flight -= 1;
        match device_from(outcome) {
            Some(device) => {
                self.found.push(device);
                assert(self.found@.drop_last() =~= old(self).found@);
            },
            None => {},
        }
        true
    }

    /// Whether every responder was probed and every probe has ended.
    pub fn is_done(&self) -> (r: bool)
        requires
            self.wf(),
        ensures
            r == (self.next == self.targets@.len() && self.in_flight == 0),
            r == (self.work() == 0),
    {
        self.next == self.targets.len() && self.in_flight == 0
    }

    /// Ends the discovery and hands out the devices found, in the order in
    /// which their answers came.
    pub fn finish(self) -> (r: Vec<RokuDevice>)
        ensures
            r == self.found,
    {
        self.found
    }
}

/// `distinct_of` keeps every text and repeats none.
pub proof fn distinct_has_no_repeats(items: Seq<Seq<char>>)
    ensures
        forall|x: Seq<char>| distinct_of(items).contains(x) <==> items.contains(x),
        forall|i: int, j: int|
            0 <= i < j < distinct_of(items).len() ==> distinct_of(items)[i] != distinct_of(
                items,
            )[j],
        distinct_of(items).len() <= items.len(),
    decreases items.len(),
{
    if items.len() > 0 {
        let front = items.drop_last();
        let before = distinct_of(front);
        distinct_has_no_repeats(front);
        assert forall|x: Seq<char>| distinct_of(items).contains(x) <==> items.contains(x) by {
            if items.contains(x) {
                let k = choose|k: int| 0 <= k < items.len() && items[k] == x;
                if k < front.len() {
                    assert(front[k] == x);
                    assert(front.contains(x));
                    assert(before.contains(x));
                    let m = choose|m: int| 0 <= m < before.len() && before[m] == x;
                    assert(distinct_of(items)[m] == x);
                } else {
                    if !before.contains(x) {
                        assert(distinct_of(items)[before.len() as int] == x);
                    }
                }
            }
            if distinct_of(items).contains(x) {
                let m = choose|m: int| 0 <= m < distinct_of(items).len() && distinct_of(items)[m] == x;
                if m < before.len() {
                    assert(before[m] == x);
                    assert(front.contains(x));
                    let k = choose|k: int| 0 <= k < front.len() && front[k] == x;
                    assert(items[k] == x);
                } else {
                    assert(items[items.len() - 1] == x);
                }
            }
        }
    }
}

/// The URL of the probe of the responder at `location`: its device-info
/// query. A location that is no URL gives `BadAddress`.
pub fn probe_url(location: &str) -> (r: Result<Url, TransportError>)
    ensures
        match r {
            Ok(url) => probe_text(location@) == Some(url_text(url)),
            Err(e) => e == TransportError::BadAddress && probe_text(location@) is None,
        },
{
    let base = match parse_url(location) {
        Some(base) => base,
        None => {
            return Err(TransportError::BadAddress);
        },
    };
    match join_url(&base, "query/device-info") {
        Some(url) => Ok(url),
        None => Err(TransportError::BadAddress),
    }
}

/// The text of the URL that probes the responder at `location`.
pub open spec fn probe_text(location: Seq<char>) -> Option<Seq<char>> {
    match parsed_text(location) {
        Some(base) => joined_text(base, "query/device-info"@),
        None => None,
    }
}

} // verus!
