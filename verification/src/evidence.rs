//! Client evidence: raw observations from the device and the host are
//! filtered (the host, the subnet's network and broadcast addresses and every
//! hardware address of the Puppis itself are not clients), grouped by
//! hardware address, named from saved labels, and ordered for display.

use vstd::prelude::*;
use crate::model::{
    texts, ClientEvidence, ClientEvidenceKind, ClientEvidenceView, ClientNetworkObservation,
    SavedClient, SavedClientView, StatusDimension, StatusLevel, evidence_views, saved_views,
};
use crate::text::{
    ascii_lower, ascii_lowercase, decimal, decimal_text, insert_sorted_text, is_some_text,
    less_than, lemma_text_less_order, lowercase, strictly_sorted, text, text_less,
    texts_of, unicode_lowercase,
};

verus! {

/// The hardware address as it is compared: ASCII lower-case.
pub open spec fn hardware_key(h: Seq<char>) -> Seq<char> {
    h.map_values(|c: char| ascii_lower(c))
}

/// The observation is of the Puppis itself (its fixed address).
pub open spec fn is_puppis_observation(o: ClientNetworkObservation) -> bool {
    o.address matches Some(a) && a@ == "192.168.137.254"@
}

/// The address of the host, or the subnet's network or broadcast address.
pub open spec fn is_reserved_address(a: Seq<char>) -> bool {
    a == "192.168.137.0"@ || a == "192.168.137.1"@ || a == "192.168.137.255"@
}

/// Some observation shows that this hardware address belongs to the Puppis.
pub open spec fn is_puppis_hardware(all: Seq<ClientNetworkObservation>, h: Seq<char>) -> bool {
    exists|i: int| 0 <= i < all.len() && is_puppis_observation(all[i]) && hardware_key(all[i].hardware_address@) == h
}

/// The observation at index `i` describes a client.
pub open spec fn is_client_observation(all: Seq<ClientNetworkObservation>, i: int) -> bool {
    &&& !is_puppis_hardware(all, hardware_key(all[i].hardware_address@))
    &&& !(all[i].address matches Some(a) && is_reserved_address(a@))
}

/// Some client observation has this hardware key.
pub open spec fn is_client_hardware(all: Seq<ClientNetworkObservation>, h: Seq<char>) -> bool {
    exists|i: int| 0 <= i < all.len() && is_client_observation(all, i) && hardware_key(all[i].hardware_address@) == h
}

/// Some client observation with this hardware key has this address.
pub open spec fn is_client_address(all: Seq<ClientNetworkObservation>, h: Seq<char>, a: Seq<char>) -> bool {
    exists|i: int|
        0 <= i < all.len() && is_client_observation(all, i) && hardware_key(all[i].hardware_address@) == h
            && (all[i].address matches Some(x) && x@ == a)
}

/// Some client observation among the first `connected` (the device's own
/// station list) has this hardware key.
pub open spec fn is_connected_hardware(all: Seq<ClientNetworkObservation>, connected: int, h: Seq<char>) -> bool {
    exists|i: int| 0 <= i < connected && is_client_observation(all, i) && hardware_key(all[i].hardware_address@) == h
}

/// The label of the first saved client with exactly this hardware address.
pub open spec fn saved_label_for(saved: Seq<SavedClientView>, h: Seq<char>) -> Option<Seq<char>>
    decreases saved.len(),
{
    if saved.len() == 0 {
        None
    } else if saved[0].hardware_address == h {
        Some(saved[0].label)
    } else {
        saved_label_for(saved.drop_first(), h)
    }
}

/// The alias that numbers a client from one.
pub open spec fn client_alias(n: nat) -> Seq<char> {
    "client-"@ + decimal(n)
}

/// The evidence (before display ordering) that observations give: one entry
/// per client hardware key in increasing order, numbered in that order, with
/// its addresses in increasing order, connected when the device lists it,
/// and named by its saved label.
pub open spec fn is_grouped_evidence(
    all: Seq<ClientNetworkObservation>,
    connected: int,
    saved: Seq<SavedClientView>,
    e: Seq<ClientEvidenceView>,
) -> bool {
    &&& strictly_sorted(e.map_values(|x: ClientEvidenceView| x.hardware_address))
    &&& forall|h: Seq<char>| e.map_values(|x: ClientEvidenceView| x.hardware_address).contains(h) <==> is_client_hardware(all, h)
    &&& forall|k: int| 0 <= k < e.len() ==> is_grouped_entry(all, connected, saved, k, #[trigger] e[k])
}

pub open spec fn is_grouped_entry(
    all: Seq<ClientNetworkObservation>,
    connected: int,
    saved: Seq<SavedClientView>,
    k: int,
    x: ClientEvidenceView,
) -> bool {
    &&& x.alias == client_alias((k + 1) as nat)
    &&& strictly_sorted(x.addresses)
    &&& forall|a: Seq<char>| x.addresses.contains(a) <==> is_client_address(all, x.hardware_address, a)
    &&& x.kind == (if is_connected_hardware(all, connected, x.hardware_address) {
        ClientEvidenceKind::Connected
    } else {
        ClientEvidenceKind::RecentlyObserved
    })
    &&& x.saved == saved_label_for(saved, x.hardware_address) is Some
    &&& x.display_name == match saved_label_for(saved, x.hardware_address) {
        Some(l) => l,
        None => "Unlabeled client"@,
    }
}

/// Display order: saved clients first, by lower-cased name then hardware
/// address; then unsaved clients by hardware address.
pub open spec fn shown_before(a: ClientEvidenceView, b: ClientEvidenceView) -> bool {
    if a.saved && !b.saved {
        true
    } else if !a.saved && b.saved {
        false
    } else if a.saved {
        text_less(unicode_lowercase(a.display_name), unicode_lowercase(b.display_name))
            || (unicode_lowercase(a.display_name) == unicode_lowercase(b.display_name)
                && text_less(a.hardware_address, b.hardware_address))
    } else {
        text_less(a.hardware_address, b.hardware_address)
    }
}

/// No entry is shown before an earlier one.
pub open spec fn is_display_ordered(e: Seq<ClientEvidenceView>) -> bool {
    forall|i: int, j: int| 0 <= i < j < e.len() ==> !shown_before(e[j], e[i])
}

proof fn lemma_shown_before_order(a: ClientEvidenceView, b: ClientEvidenceView, c: ClientEvidenceView)
    ensures
        shown_before(a, b) ==> !shown_before(b, a),
        shown_before(a, b) && shown_before(b, c) ==> shown_before(a, c),
        a.hardware_address != b.hardware_address ==> shown_before(a, b) || shown_before(b, a),
{
    let la = unicode_lowercase(a.display_name);
    let lb = unicode_lowercase(b.display_name);
    let lc = unicode_lowercase(c.display_name);
    lemma_text_less_order(la, lb, lc);
    lemma_text_less_order(lb, la, lc);
    lemma_text_less_order(la, lc, lb);
    lemma_text_less_order(lb, lc, la);
    lemma_text_less_order(lc, la, lb);
    lemma_text_less_order(a.hardware_address, b.hardware_address, c.hardware_address);
    lemma_text_less_order(b.hardware_address, a.hardware_address, c.hardware_address);
    lemma_text_less_order(a.hardware_address, c.hardware_address, b.hardware_address);
    lemma_text_less_order(b.hardware_address, c.hardware_address, a.hardware_address);
    lemma_text_less_order(c.hardware_address, a.hardware_address, b.hardware_address);
}

/// Whether `a` is shown before `b`.
fn is_shown_before(a: &ClientEvidence, b: &ClientEvidence) -> (r: bool)
    ensures
        r == shown_before(a@, b@),
{
    if a.saved && !b.saved {
        return true;
    }
    if !a.saved && b.saved {
        return false;
    }
    if a.saved {
        let la = lowercase(a.display_name.as_str());
        let lb = lowercase(b.display_name.as_str());
        if less_than(la.as_str(), lb.as_str()) {
            return true;
        }
        if la == lb {
            return less_than(a.hardware_address.as_str(), b.hardware_address.as_str());
        }
        return false;
    }
    less_than(a.hardware_address.as_str(), b.hardware_address.as_str())
}

/// Orders evidence for display (a stable insertion sort).
pub fn sort_client_evidence(v: Vec<ClientEvidence>) -> (r: Vec<ClientEvidence>)
    ensures
        evidence_views(r@).to_multiset() == evidence_views(v@).to_multiset(),
        r@.len() == v@.len(),
        is_display_ordered(evidence_views(r@)),
{
    broadcast use vstd::seq_lib::group_to_multiset_ensures;
    let mut r: Vec<ClientEvidence> = Vec::new();
    let mut input = v;
    let ghost original = evidence_views(input@);
    while input.len() > 0
        invariant
            evidence_views(r@).to_multiset().add(evidence_views(input@).to_multiset()) == original.to_multiset(),
            is_display_ordered(evidence_views(r@)),
            r@.len() + input@.len() == original.len(),
        decreases input@.len(),
    {
        let ghost input_before = evidence_views(input@);
        let x = input.remove(0);
        proof {
            assert(evidence_views(input@) =~= input_before.remove(0));
            assert(input_before[0] == x@);
            assert(input_before.contains(x@));
            input_before.to_multiset_ensures();
            assert(input_before.to_multiset().count(x@) > 0);
            assert(input_before.to_multiset() =~= evidence_views(input@).to_multiset().insert(x@));
        }
        let ghost sorted_before = evidence_views(r@);
        // Find the first position whose entry is shown after `x`.
        let mut i: usize = 0;
        while i < r.len()
            invariant
                evidence_views(r@) == sorted_before,
                i <= r@.len(),
                forall|j: int| 0 <= j < i ==> !shown_before(x@, #[trigger] sorted_before[j]),
            ensures
                i <= r@.len(),
                forall|j: int| 0 <= j < i ==> !shown_before(x@, #[trigger] sorted_before[j]),
                i < r@.len() ==> shown_before(x@, sorted_before[i as int]),
            decreases r@.len() - i,
        {
            if is_shown_before(&x, &r[i]) {
                break;
            }
            i = i + 1;
        }
        r.insert(i, x);
        proof {
            let after = evidence_views(r@);
            assert(after =~= sorted_before.insert(i as int, x@));
            vstd::seq_lib::to_multiset_insert(sorted_before, i as int, x@);
            assert(after.to_multiset() =~= sorted_before.to_multiset().insert(x@));
            assert(after.to_multiset().add(evidence_views(input@).to_multiset())
                =~= sorted_before.to_multiset().add(input_before.to_multiset()));
            assert forall|a: int, b: int| 0 <= a < b < after.len() implies !shown_before(after[b], after[a]) by {
                if b < i {
                    assert(after[a] == sorted_before[a] && after[b] == sorted_before[b]);
                } else if b == i {
                    assert(after[a] == sorted_before[a]);
                    assert(!shown_before(x@, sorted_before[a]));
                } else if a == i {
                    assert(after[b] == sorted_before[b - 1]);
                    if i < sorted_before.len() {
                        lemma_shown_before_order(sorted_before[b - 1], x@, sorted_before[i as int]);
                        lemma_shown_before_order(x@, sorted_before[i as int], sorted_before[b - 1]);
                        lemma_shown_before_order(sorted_before[b - 1], sorted_before[i as int], x@);
                        if b - 1 > i {
                            assert(!shown_before(sorted_before[b - 1], sorted_before[i as int]));
                        }
                    }
                } else if a < i {
                    assert(after[a] == sorted_before[a] && after[b] == sorted_before[b - 1]);
                } else {
                    assert(after[a] == sorted_before[a - 1] && after[b] == sorted_before[b - 1]);
                }
            }
        }
    }
    proof {
        assert(evidence_views(input@) =~= Seq::<ClientEvidenceView>::empty());
        assert(evidence_views(input@).to_multiset() =~= vstd::multiset::Multiset::empty());
        assert(evidence_views(r@).to_multiset().add(vstd::multiset::Multiset::empty()) =~= evidence_views(r@).to_multiset());
    }
    r
}


/// The lower-cased hardware key of an observation.
fn hardware_key_of(o: &ClientNetworkObservation) -> (r: String)
    ensures
        r@ == hardware_key(o.hardware_address@),
{
    ascii_lowercase(o.hardware_address.as_str())
}

/// Whether an optional address is the host, network or broadcast address.
fn is_reserved(address: &Option<String>) -> (r: bool)
    ensures
        r == (address matches Some(a) && is_reserved_address(a@)),
{
    is_some_text(address, "192.168.137.0") || is_some_text(address, "192.168.137.1")
        || is_some_text(address, "192.168.137.255")
}

/// The hardware keys that observations show to belong to the Puppis.
fn puppis_hardware_keys(all: &Vec<ClientNetworkObservation>) -> (r: Vec<String>)
    ensures
        forall|h: Seq<char>| texts_of(r@).contains(h) <==> is_puppis_hardware(all@, h),
{
    let mut keys: Vec<String> = Vec::new();
    for i in 0..all.len()
        invariant
            forall|h: Seq<char>| texts_of(keys@).contains(h) <==>
                exists|j: int| 0 <= j < i && is_puppis_observation(all@[j]) && hardware_key(all@[j].hardware_address@) == h,
    {
        if is_some_text(&all[i].address, "192.168.137.254") {
            let key = hardware_key_of(&all[i]);
            let ghost before = texts_of(keys@);
            keys.push(key);
            proof {
                assert(texts_of(keys@) =~= before.push(hardware_key(all@[i as int].hardware_address@)));
                assert forall|h: Seq<char>| texts_of(keys@).contains(h) <==>
                    exists|j: int| 0 <= j < i + 1 && is_puppis_observation(all@[j]) && hardware_key(all@[j].hardware_address@) == h by {
                    if texts_of(keys@).contains(h) {
                        let k = choose|k: int| 0 <= k < texts_of(keys@).len() && texts_of(keys@)[k] == h;
                        if k < before.len() {
                            assert(before.contains(h));
                        }
                    }
                    if exists|j: int| 0 <= j < i + 1 && is_puppis_observation(all@[j]) && hardware_key(all@[j].hardware_address@) == h {
                        let j = choose|j: int| 0 <= j < i + 1 && is_puppis_observation(all@[j]) && hardware_key(all@[j].hardware_address@) == h;
                        if j < i {
                            assert(before.contains(h));
                            let k = choose|k: int| 0 <= k < before.len() && before[k] == h;
                            assert(texts_of(keys@)[k] == h);
                        } else {
                            assert(texts_of(keys@)[before.len() as int] == h);
                        }
                    }
                }
            }
        }
    }
    keys
}

/// Whether the observation at `i` describes a client.
fn is_client_at(all: &Vec<ClientNetworkObservation>, puppis: &Vec<String>, i: usize) -> (r: bool)
    requires
        i < all@.len(),
        forall|h: Seq<char>| texts_of(puppis@).contains(h) <==> is_puppis_hardware(all@, h),
    ensures
        r == is_client_observation(all@, i as int),
{
    let key = hardware_key_of(&all[i]);
    let mut owned_by_puppis = false;
    for j in 0..puppis.len()
        invariant
            owned_by_puppis == exists|k: int| 0 <= k < j && puppis@[k]@ == key@,
    {
        if puppis[j] == key {
            owned_by_puppis = true;
        }
    }
    proof {
        if owned_by_puppis {
            let k = choose|k: int| 0 <= k < puppis@.len() && puppis@[k]@ == key@;
            assert(texts_of(puppis@)[k] == key@);
        }
        if texts_of(puppis@).contains(key@) {
            let k = choose|k: int| 0 <= k < texts_of(puppis@).len() && texts_of(puppis@)[k] == key@;
            assert(puppis@[k]@ == key@);
        }
    }
    !owned_by_puppis && !is_reserved(&all[i].address)
}

/// The label of the first saved client with exactly this hardware address.
fn find_saved_label(saved: &Vec<SavedClient>, h: &String) -> (r: Option<String>)
    ensures
        optional_text_of(r) == saved_label_for(saved_views(saved@), h@),
{
    let mut i: usize = 0;
    assert(saved_views(saved@).skip(0) =~= saved_views(saved@));
    while i < saved.len()
        invariant
            i <= saved@.len(),
            saved_label_for(saved_views(saved@), h@) == saved_label_for(saved_views(saved@).skip(i as int), h@),
        decreases saved@.len() - i,
    {
        assert(saved_views(saved@).skip(i as int)[0] == saved@[i as int]@);
        assert(saved_views(saved@).skip(i as int).drop_first() =~= saved_views(saved@).skip(i + 1 as int));
        if saved[i].hardware_address == *h {
            return Some(saved[i].label.clone());
        }
        i = i + 1;
    }
    None
}

/// The text of an optional string.
pub open spec fn optional_text_of(s: Option<String>) -> Option<Seq<char>> {
    match s {
        Some(v) => Some(v@),
        None => None,
    }
}

/// Groups observations into evidence: the device's connected stations
/// first, then the host's recent neighbours.
pub fn group_client_observations(
    connected: &Vec<ClientNetworkObservation>,
    recent: &Vec<ClientNetworkObservation>,
    saved: &Vec<SavedClient>,
) -> (r: Vec<ClientEvidence>)
    requires
        connected@.len() + recent@.len() <= usize::MAX,
    ensures
        is_grouped_evidence(connected@ + recent@, connected@.len() as int, saved_views(saved@), evidence_views(r@)),
{
    let mut all: Vec<ClientNetworkObservation> = crate::model::copy_observations(connected);
    let mut rest = crate::model::copy_observations(recent);
    all.append(&mut rest);
    let ghost everything = connected@ + recent@;
    assert(all@ =~= everything);
    let puppis = puppis_hardware_keys(&all);

    // The distinct client hardware keys, in increasing order.
    let mut keys: Vec<String> = Vec::new();
    for i in 0..all.len()
        invariant
            all@ == everything,
            forall|h: Seq<char>| texts_of(puppis@).contains(h) <==> is_puppis_hardware(all@, h),
            strictly_sorted(texts_of(keys@)),
            forall|h: Seq<char>| texts_of(keys@).contains(h) <==>
                exists|j: int| 0 <= j < i && is_client_observation(all@, j) && hardware_key(all@[j].hardware_address@) == h,
    {
        if is_client_at(&all, &puppis, i) {
            let key = hardware_key_of(&all[i]);
            insert_sorted_text(&mut keys, key);
            proof {
                assert forall|h: Seq<char>| texts_of(keys@).contains(h) <==>
                    exists|j: int| 0 <= j < i + 1 && is_client_observation(all@, j) && hardware_key(all@[j].hardware_address@) == h by {
                    if exists|j: int| 0 <= j < i + 1 && is_client_observation(all@, j) && hardware_key(all@[j].hardware_address@) == h {
                        let j = choose|j: int| 0 <= j < i + 1 && is_client_observation(all@, j) && hardware_key(all@[j].hardware_address@) == h;
                    }
                }
            }
        } else {
            proof {
                assert forall|h: Seq<char>| texts_of(keys@).contains(h) <==>
                    exists|j: int| 0 <= j < i + 1 && is_client_observation(all@, j) && hardware_key(all@[j].hardware_address@) == h by {
                    if exists|j: int| 0 <= j < i + 1 && is_client_observation(all@, j) && hardware_key(all@[j].hardware_address@) == h {
                        let j = choose|j: int| 0 <= j < i + 1 && is_client_observation(all@, j) && hardware_key(all@[j].hardware_address@) == h;
                    }
                }
            }
        }
    }

    let mut evidence: Vec<ClientEvidence> = Vec::new();
    for k in 0..keys.len()
        invariant
            all@ == everything,
            everything == connected@ + recent@,
            all@.len() <= usize::MAX,
            forall|h: Seq<char>| texts_of(puppis@).contains(h) <==> is_puppis_hardware(all@, h),
            strictly_sorted(texts_of(keys@)),
            forall|h: Seq<char>| texts_of(keys@).contains(h) <==> is_client_hardware(all@, h),
            evidence@.len() == k,
            forall|m: int| 0 <= m < k ==> (#[trigger] evidence@[m]).hardware_address@ == keys@[m]@,
            forall|m: int| 0 <= m < k ==> is_grouped_entry(everything, connected@.len() as int, saved_views(saved@), m, #[trigger] evidence_views(evidence@)[m]),
    {
        let h = &keys[k];
        let mut addresses: Vec<String> = Vec::new();
        let mut is_connected = false;
        for i in 0..all.len()
            invariant
                all@ == everything,
                forall|h2: Seq<char>| texts_of(puppis@).contains(h2) <==> is_puppis_hardware(all@, h2),
                strictly_sorted(texts_of(addresses@)),
                forall|a: Seq<char>| texts_of(addresses@).contains(a) <==>
                    exists|j: int| 0 <= j < i && is_client_observation(all@, j) && hardware_key(all@[j].hardware_address@) == h@
                        && (all@[j].address matches Some(x) && x@ == a),
                is_connected == exists|j: int| 0 <= j < i && j < connected@.len() && is_client_observation(all@, j)
                    && hardware_key(all@[j].hardware_address@) == h@,
        {
            if is_client_at(&all, &puppis, i) {
                let key = hardware_key_of(&all[i]);
                if key == *h {
                    if i < connected.len() {
                        is_connected = true;
                    }
                    match &all[i].address {
                        Some(a) => {
                            insert_sorted_text(&mut addresses, a.clone());
                        },
                        None => {},
                    }
                }
            }
            proof {
                assert forall|a: Seq<char>| texts_of(addresses@).contains(a) <==>
                    exists|j: int| 0 <= j < i + 1 && is_client_observation(all@, j) && hardware_key(all@[j].hardware_address@) == h@
                        && (all@[j].address matches Some(x) && x@ == a) by {
                    if exists|j: int| 0 <= j < i + 1 && is_client_observation(all@, j) && hardware_key(all@[j].hardware_address@) == h@
                        && (all@[j].address matches Some(x) && x@ == a) {
                        let j = choose|j: int| 0 <= j < i + 1 && is_client_observation(all@, j) && hardware_key(all@[j].hardware_address@) == h@
                            && (all@[j].address matches Some(x) && x@ == a);
                    }
                }
            }
        }
        let label = find_saved_label(saved, h);
        let (display_name, is_saved) = match label {
            Some(l) => (l, true),
            None => (text("Unlabeled client"), false),
        };
        let number: u64 = k as u64 + 1;
        let entry = ClientEvidence {
            alias: text("client-").concat(decimal_text(number).as_str()),
            display_name,
            hardware_address: h.clone(),
            addresses,
            kind: if is_connected { ClientEvidenceKind::Connected } else { ClientEvidenceKind::RecentlyObserved },
            saved: is_saved,
        };
        let ghost evidence_before = evidence@;
        evidence.push(entry);
        proof {
            assert(is_connected == is_connected_hardware(everything, connected@.len() as int, h@)) by {
                if is_connected_hardware(everything, connected@.len() as int, h@) {
                    let j = choose|j: int| 0 <= j < connected@.len() as int && is_client_observation(everything, j)
                        && hardware_key(everything[j].hardware_address@) == h@;
                    assert(everything.len() == connected@.len() + recent@.len());
                    assert(j < all@.len());
                }
            }
            assert(evidence_views(evidence@)[k as int] == entry@);
            let x = entry@;
            assert(x.alias == client_alias((k + 1) as nat));
            assert(strictly_sorted(x.addresses));
            assert(forall|a: Seq<char>| x.addresses.contains(a) <==> is_client_address(everything, x.hardware_address, a));
            assert(x.kind == (if is_connected_hardware(everything, connected@.len() as int, x.hardware_address) {
                ClientEvidenceKind::Connected
            } else {
                ClientEvidenceKind::RecentlyObserved
            }));
            assert(x.saved == saved_label_for(saved_views(saved@), x.hardware_address) is Some);
            assert(is_grouped_entry(everything, connected@.len() as int, saved_views(saved@), k as int, entry@));
            assert forall|m: int| 0 <= m < k + 1 implies is_grouped_entry(everything, connected@.len() as int, saved_views(saved@), m, #[trigger] evidence_views(evidence@)[m]) by {
                if m < k {
                    assert(evidence@[m] == evidence_before[m]);
                    assert(evidence_views(evidence@)[m] == evidence_views(evidence_before)[m]);
                }
            }
        }
    }
    proof {
        let hs = evidence_views(evidence@).map_values(|x: ClientEvidenceView| x.hardware_address);
        assert(hs =~= texts_of(keys@));
    }
    evidence
}


/// The first evidence entry with exactly this hardware address.
pub open spec fn evidence_for(e: Seq<ClientEvidenceView>, h: Seq<char>) -> Option<ClientEvidenceView>
    decreases e.len(),
{
    if e.len() == 0 {
        None
    } else if e[0].hardware_address == h {
        Some(e[0])
    } else {
        evidence_for(e.drop_first(), h)
    }
}

/// A saved client brought up to date with current evidence: observed now,
/// at the observed addresses, when it is observed and either differs.
pub open spec fn refreshed_saved_client(c: SavedClientView, e: Seq<ClientEvidenceView>, now: u64) -> SavedClientView {
    match evidence_for(e, c.hardware_address) {
        Some(x) => if c.last_observed_at != now || c.addresses != x.addresses {
            SavedClientView { last_observed_at: now, addresses: x.addresses, ..c }
        } else {
            c
        },
        None => c,
    }
}

/// Whether refreshing changes this saved client.
pub open spec fn saved_client_changes(c: SavedClientView, e: Seq<ClientEvidenceView>, now: u64) -> bool {
    evidence_for(e, c.hardware_address) matches Some(x) && (c.last_observed_at != now || c.addresses != x.addresses)
}

/// The first evidence entry with exactly this hardware address.
fn find_evidence(e: &Vec<ClientEvidence>, h: &String) -> (r: Option<usize>)
    ensures
        match evidence_for(evidence_views(e@), h@) {
            Some(x) => r matches Some(i) && i < e@.len() && e@[i as int]@ == x,
            None => r is None,
        },
{
    let mut i: usize = 0;
    assert(evidence_views(e@).skip(0) =~= evidence_views(e@));
    while i < e.len()
        invariant
            i <= e@.len(),
            evidence_for(evidence_views(e@), h@) == evidence_for(evidence_views(e@).skip(i as int), h@),
        decreases e@.len() - i,
    {
        assert(evidence_views(e@).skip(i as int)[0] == e@[i as int]@);
        assert(evidence_views(e@).skip(i as int).drop_first() =~= evidence_views(e@).skip(i + 1 as int));
        if e[i].hardware_address == *h {
            return Some(i);
        }
        i = i + 1;
    }
    None
}

/// Brings every observed saved client up to date with the evidence, and
/// reports whether anything changed.
pub fn refresh_saved_observations(saved: &Vec<SavedClient>, evidence: &Vec<ClientEvidence>, now: u64) -> (r: (Vec<SavedClient>, bool))
    ensures
        saved_views(r.0@) == saved_views(saved@).map_values(|c: SavedClientView| refreshed_saved_client(c, evidence_views(evidence@), now)),
        r.1 == exists|i: int| 0 <= i < saved@.len() && saved_client_changes(saved@[i]@, evidence_views(evidence@), now),
{
    let ghost e = evidence_views(evidence@);
    let mut out: Vec<SavedClient> = Vec::new();
    let mut changed = false;
    for i in 0..saved.len()
        invariant
            e == evidence_views(evidence@),
            out@.len() == i,
            forall|j: int| 0 <= j < i ==> (#[trigger] out@[j])@ == refreshed_saved_client(saved@[j]@, e, now),
            changed == exists|j: int| 0 <= j < i && saved_client_changes(saved@[j]@, e, now),
    {
        let c = &saved[i];
        let mut next = c.copied();
        match find_evidence(evidence, &c.hardware_address) {
            Some(k) => {
                let observed = &evidence[k];
                if c.last_observed_at != now || !crate::text::same_texts(&c.addresses, &observed.addresses) {
                    proof {
                        if c.last_observed_at == now {
                            assert(texts(c.addresses@) != texts(observed.addresses@)) by {
                                if texts(c.addresses@) == texts(observed.addresses@) {
                                    assert(c.addresses@.len() == texts(c.addresses@).len());
                                    assert(observed.addresses@.len() == texts(observed.addresses@).len());
                                    assert forall|m: int| 0 <= m < c.addresses@.len() implies c.addresses@[m]@ == observed.addresses@[m]@ by {
                                        assert(texts(c.addresses@)[m] == c.addresses@[m]@);
                                        assert(texts(observed.addresses@)[m] == observed.addresses@[m]@);
                                    }
                                }
                            }
                        }
                    }
                    next.last_observed_at = now;
                    next.addresses = crate::text::copy_texts(&observed.addresses);
                    changed = true;
                } else {
                    proof {
                        assert(texts(c.addresses@) =~= texts(observed.addresses@));
                    }
                }
            },
            None => {},
        }
        out.push(next);
    }
    assert(saved_views(out@) =~= saved_views(saved@).map_values(|c: SavedClientView| refreshed_saved_client(c, e, now)));
    (out, changed)
}

/// "s" unless the count is one.
pub open spec fn plural(n: nat) -> Seq<char> {
    if n == 1 { ""@ } else { "s"@ }
}

/// The client status for `connected` device-listed clients and `recent`
/// clients that only the host observed.
pub open spec fn is_client_status(s: StatusDimension, connected: nat, recent: nat) -> bool {
    if connected > 0 {
        &&& s.level == StatusLevel::Healthy
        &&& s.summary@ == decimal(connected) + " connected client"@ + plural(connected)
        &&& if recent > 0 {
            s.guidance matches Some(g) && g@ == decimal(recent) + " additional client"@
                + (if recent == 1 { " was"@ } else { "s were"@ }) + " recently observed by the host."@
        } else {
            s.guidance is None
        }
    } else if recent > 0 {
        &&& s.level == StatusLevel::Unknown
        &&& s.summary@ == decimal(recent) + " recently observed client"@ + plural(recent)
        &&& s.guidance matches Some(g) && g@ == "Host evidence does not prove a current wireless connection."@
    } else {
        crate::model::status_is(s, StatusLevel::Unavailable, "No client evidence")
    }
}

/// The client status line.
pub fn client_status(connected: u64, recent: u64) -> (s: StatusDimension)
    ensures
        is_client_status(s, connected as nat, recent as nat),
{
    if connected > 0 {
        let summary = decimal_text(connected).concat(" connected client").concat(if connected == 1 { "" } else { "s" });
        let guidance = if recent > 0 {
            Some(decimal_text(recent).concat(" additional client").concat(if recent == 1 { " was" } else { "s were" }).concat(" recently observed by the host."))
        } else {
            None
        };
        StatusDimension { level: StatusLevel::Healthy, summary, guidance }
    } else if recent > 0 {
        let summary = decimal_text(recent).concat(" recently observed client").concat(if recent == 1 { "" } else { "s" });
        StatusDimension { level: StatusLevel::Unknown, summary, guidance: Some(text("Host evidence does not prove a current wireless connection.")) }
    } else {
        StatusDimension::plain(StatusLevel::Unavailable, "No client evidence")
    }
}

/// The number of entries of a kind.
pub open spec fn count_kind(e: Seq<ClientEvidenceView>, kind: ClientEvidenceKind) -> nat
    decreases e.len(),
{
    if e.len() == 0 {
        0
    } else {
        (if e.last().kind == kind { 1nat } else { 0nat }) + count_kind(e.drop_last(), kind)
    }
}

/// The number of connected entries.
pub fn count_connected(e: &Vec<ClientEvidence>) -> (n: u64)
    requires
        e@.len() <= u64::MAX,
    ensures
        n == count_kind(evidence_views(e@), ClientEvidenceKind::Connected),
        n <= e@.len(),
{
    let mut n: u64 = 0;
    for i in 0..e.len()
        invariant
            e@.len() <= u64::MAX,
            n == count_kind(evidence_views(e@).take(i as int), ClientEvidenceKind::Connected),
            n <= i,
    {
        assert(evidence_views(e@).take(i + 1 as int).drop_last() =~= evidence_views(e@).take(i as int));
        if e[i].kind == ClientEvidenceKind::Connected {
            n = n + 1;
        }
    }
    assert(evidence_views(e@).take(e@.len() as int) =~= evidence_views(e@));
    n
}

} // verus!
