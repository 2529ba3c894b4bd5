//! USB discovery: which network interfaces of the host are candidate Puppis
//! adapters (USB devices of the adapter's vendor), and how they are named.

use vstd::prelude::*;
use crate::failures::failure_is;
use crate::model::{OperationFailure, PuppisCandidate, UsbLinkSpeed};
use crate::text::{lemma_text_less_order, less_than, text, text_less, trim, trimmed};

verus! {

/// A network interface of the host, with what the attributes of its USB
/// device hold (`None` when the interface is no USB device or the attribute
/// cannot be read).
#[derive(Debug, Clone, PartialEq, Eq)]
pub struct NetworkInterface {
    pub name: String,
    pub vendor: Option<String>,
    pub product: Option<String>,
    pub speed: Option<String>,
}

/// The vendor identifier of the adapter.
pub const ADAPTER_VENDOR: &'static str = "0b95";

/// The link speed that a USB device's `speed` attribute (in Mbit/s) gives.
pub open spec fn link_speed_of(speed: Option<String>) -> UsbLinkSpeed {
    match speed {
        Some(s) => {
            let t = trimmed(s@);
            if t == "5000"@ || t == "10000"@ || t == "20000"@ {
                UsbLinkSpeed::SuperSpeed
            } else if t == "1.5"@ || t == "12"@ || t == "480"@ {
                UsbLinkSpeed::Usb2
            } else {
                UsbLinkSpeed::Unknown
            }
        },
        None => UsbLinkSpeed::Unknown,
    }
}

/// The product identifier, or "unknown".
pub open spec fn product_of(product: Option<String>) -> Seq<char> {
    match product {
        Some(p) => trimmed(p@),
        None => "unknown"@,
    }
}

/// The interface is a USB device of the adapter's vendor.
pub open spec fn is_adapter(i: NetworkInterface) -> bool {
    i.vendor matches Some(v) && trimmed(v@) == ADAPTER_VENDOR@
}

/// A candidate as texts: identifier, interface name, display name, speed.
pub open spec fn candidate_view(c: PuppisCandidate) -> (Seq<char>, Seq<char>, Seq<char>, UsbLinkSpeed) {
    (c.id@, c.interface_name@, c.display_name@, c.link_speed)
}

/// The candidate that an adapter interface gives.
pub open spec fn candidate_for(i: NetworkInterface) -> (Seq<char>, Seq<char>, Seq<char>, UsbLinkSpeed) {
    ("usb:"@ + i.name@ + ":"@ + product_of(i.product), i.name@, "USB network adapter ("@ + i.name@ + ")"@, link_speed_of(i.speed))
}

/// The candidates of the adapter interfaces, in interface order.
pub open spec fn candidates_of(interfaces: Seq<NetworkInterface>) -> Seq<(Seq<char>, Seq<char>, Seq<char>, UsbLinkSpeed)>
    decreases interfaces.len(),
{
    if interfaces.len() == 0 {
        Seq::empty()
    } else {
        let rest = candidates_of(interfaces.drop_last());
        if is_adapter(interfaces.last()) { rest.push(candidate_for(interfaces.last())) } else { rest }
    }
}

/// Candidates are ordered by interface name.
pub open spec fn is_interface_ordered(c: Seq<PuppisCandidate>) -> bool {
    forall|i: int, j: int| 0 <= i < j < c.len() ==> !text_less(c[j].interface_name@, c[i].interface_name@)
}

fn is_one_of(t: &String, a: &str, b: &str, c: &str) -> (r: bool)
    ensures
        r == (t@ == a@ || t@ == b@ || t@ == c@),
{
    crate::text::is_text(t, a) || crate::text::is_text(t, b) || crate::text::is_text(t, c)
}

/// The candidate of an adapter interface.
fn candidate(i: &NetworkInterface) -> (r: PuppisCandidate)
    ensures
        candidate_view(r) == candidate_for(*i),
{
    let product = match &i.product {
        Some(p) => trim(p.as_str()),
        None => text("unknown"),
    };
    let link_speed = match &i.speed {
        Some(s) => {
            let t = trim(s.as_str());
            if is_one_of(&t, "5000", "10000", "20000") {
                UsbLinkSpeed::SuperSpeed
            } else if is_one_of(&t, "1.5", "12", "480") {
                UsbLinkSpeed::Usb2
            } else {
                UsbLinkSpeed::Unknown
            }
        },
        None => UsbLinkSpeed::Unknown,
    };
    PuppisCandidate {
        id: text("usb:").concat(i.name.as_str()).concat(":").concat(product.as_str()),
        interface_name: i.name.clone(),
        display_name: text("USB network adapter (").concat(i.name.as_str()).concat(")"),
        link_speed,
    }
}

/// The candidate Puppis adapters among the host's network interfaces:
/// every USB interface of the adapter's vendor, ordered by interface name.
pub fn discover_linux_candidates(interfaces: &Vec<NetworkInterface>) -> (r: Vec<PuppisCandidate>)
    ensures
        r@.map_values(|c: PuppisCandidate| candidate_view(c)).to_multiset() == candidates_of(interfaces@).to_multiset(),
        is_interface_ordered(r@),
{
    broadcast use vstd::seq_lib::group_to_multiset_ensures;
    let mut found: Vec<PuppisCandidate> = Vec::new();
    for k in 0..interfaces.len()
        invariant
            found@.map_values(|c: PuppisCandidate| candidate_view(c)) == candidates_of(interfaces@.take(k as int)),
    {
        assert(interfaces@.take(k + 1 as int).drop_last() =~= interfaces@.take(k as int));
        assert(interfaces@.take(k + 1 as int).last() == interfaces@[k as int]);
        let vendor_matches = match &interfaces[k].vendor {
            Some(v) => {
                let t = trim(v.as_str());
                crate::text::is_text(&t, ADAPTER_VENDOR)
            },
            None => false,
        };
        if vendor_matches {
            let c = candidate(&interfaces[k]);
            let ghost before = found@;
            found.push(c);
            assert(found@.map_values(|c: PuppisCandidate| candidate_view(c))
                =~= before.map_values(|c: PuppisCandidate| candidate_view(c)).push(candidate_view(c)));
        }
    }
    assert(interfaces@.take(interfaces@.len() as int) =~= interfaces@);
    let ghost expected = found@.map_values(|c: PuppisCandidate| candidate_view(c));
    let mut r: Vec<PuppisCandidate> = Vec::new();
    let mut input = found;
    while input.len() > 0
        invariant
            r@.map_values(|c: PuppisCandidate| candidate_view(c)).to_multiset()
                .add(input@.map_values(|c: PuppisCandidate| candidate_view(c)).to_multiset()) == expected.to_multiset(),
            is_interface_ordered(r@),
        decreases input@.len(),
    {
        let ghost input_before = input@;
        let x = input.remove(0);
        proof {
            let vb = input_before.map_values(|c: PuppisCandidate| candidate_view(c));
            assert(input@.map_values(|c: PuppisCandidate| candidate_view(c)) =~= vb.remove(0));
            assert(vb[0] == candidate_view(x));
            vb.to_multiset_ensures();
            assert(vb.to_multiset() =~= input@.map_values(|c: PuppisCandidate| candidate_view(c)).to_multiset().insert(candidate_view(x)));
        }
        let ghost sorted_before = r@;
        let mut i: usize = 0;
        while i < r.len()
            invariant
                r@ == sorted_before,
                i <= r@.len(),
                forall|j: int| 0 <= j < i ==> !text_less(x.interface_name@, (#[trigger] sorted_before[j]).interface_name@),
            ensures
                i <= r@.len(),
                forall|j: int| 0 <= j < i ==> !text_less(x.interface_name@, (#[trigger] sorted_before[j]).interface_name@),
                i < r@.len() ==> text_less(x.interface_name@, sorted_before[i as int].interface_name@),
            decreases r@.len() - i,
        {
            if less_than(x.interface_name.as_str(), r[i].interface_name.as_str()) {
                break;
            }
            i = i + 1;
        }
        let ghost xv = x;
        r.insert(i, x);
        proof {
            let after = r@;
            assert(after =~= sorted_before.insert(i as int, xv));
            let vs = sorted_before.map_values(|c: PuppisCandidate| candidate_view(c));
            assert(after.map_values(|c: PuppisCandidate| candidate_view(c)) =~= vs.insert(i as int, candidate_view(xv)));
            vstd::seq_lib::to_multiset_insert(vs, i as int, candidate_view(xv));
            assert forall|a: int, b: int| 0 <= a < b < after.len() implies
                !text_less(after[b].interface_name@, after[a].interface_name@) by {
                let lx = xv.interface_name@;
                if b < i {
                    assert(after[a] == sorted_before[a] && after[b] == sorted_before[b]);
                } else if b == i {
                    assert(after[a] == sorted_before[a]);
                } else if a == i {
                    assert(after[b] == sorted_before[b - 1]);
                    let li = sorted_before[i as int].interface_name@;
                    let lb = sorted_before[b - 1].interface_name@;
                    lemma_text_less_order(lb, lx, li);
                    lemma_text_less_order(lx, li, lb);
                    lemma_text_less_order(lb, li, lx);
                    if b - 1 > i {
                        assert(!text_less(lb, li));
                    }
                } else if a < i {
                    assert(after[a] == sorted_before[a] && after[b] == sorted_before[b - 1]);
                } else {
                    assert(after[a] == sorted_before[a - 1] && after[b] == sorted_before[b - 1]);
                }
            }
        }
    }
    proof {
        let vi = input@.map_values(|c: PuppisCandidate| candidate_view(c));
        assert(vi =~= Seq::empty());
        assert(vi.to_multiset() =~= vstd::multiset::Multiset::empty());
        let vr = r@.map_values(|c: PuppisCandidate| candidate_view(c));
        assert(vr.to_multiset().add(vstd::multiset::Multiset::empty()) =~= vr.to_multiset());
    }
    r
}


/// The failure for a host whose network devices cannot be listed.
pub open spec fn is_discovery_unavailable(f: OperationFailure) -> bool {
    failure_is(f, "usb_discovery_unavailable", "USB network discovery is unavailable.",
        "Check that the system device filesystem is mounted, then refresh.")
}

/// Reports a host whose network devices cannot be listed.
pub fn discovery_unavailable_failure() -> (f: OperationFailure)
    ensures
        is_discovery_unavailable(f),
{
    OperationFailure::safe("usb_discovery_unavailable", "USB network discovery is unavailable.",
        "Check that the system device filesystem is mounted, then refresh.")
}

} // verus!
