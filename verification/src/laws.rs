//! Properties of the application that span operations: what every operation
//! keeps, what a sequence of operations guarantees, and what the protocol's
//! frames promise. Each is proved from the contracts of the operations.

use vstd::prelude::*;
use crate::application::{
    candidate_listed, is_baseline_outcome, is_client_evidence_outcome, is_client_refresh, is_commit,
    is_display_sorting, is_profile_change_outcome, is_radio_change_outcome, is_radio_transaction,
    is_refreshed_candidates, is_role_change_outcome, is_role_transaction, is_selection_of, stores,
};
use crate::environment::{radio_of, EnvironmentView};
use crate::failures;
use crate::evidence::{is_client_address, is_client_hardware, is_grouped_entry, is_puppis_hardware, is_puppis_observation, is_reserved_address, hardware_key};
use crate::protocol::{be_bytes, be_value, crc32_of, frame_json, framed, is_response_frame, request_frame, RESPONSE_TYPE, RESERVED};
use crate::application::{
    connected_observations, is_committed_change, is_label_sorting, is_reassociate_outcome, is_rename_outcome, is_save_outcome,
    labelled_as, reassociated, relabelled, saved_entry, upserted,
};
use crate::saved::{label_taken, labels_collide};
use crate::model::SavedClientView;
use crate::saved::{is_first_saved_index, is_saved_hardware, without_hardware, SAVED_CLIENT_LIMIT};
use crate::model::{ApplicationSnapshot, ApplicationSnapshotView, DeviceRole, OperationFailure, ProfileKind, RadioBand, RadioConfiguration, RadioUpdate};

verus! {

/// After a refresh of the candidate list, a remaining selection names a
/// listed candidate.
pub proof fn lemma_refresh_keeps_selection_listed(
    o: ApplicationSnapshotView,
    candidates: Seq<crate::model::PuppisCandidate>,
    n: ApplicationSnapshotView,
)
    requires
        is_refreshed_candidates(o, candidates, n),
    ensures
        n.selected_candidate_id matches Some(id) ==> candidate_listed(n.candidates, id@),
{
}

/// Selecting a listed candidate leaves a selection that is listed.
pub proof fn lemma_selection_is_listed(o: ApplicationSnapshotView, id: Seq<char>, n: ApplicationSnapshotView)
    requires
        candidate_listed(o.candidates, id),
        is_selection_of(o, id, n),
    ensures
        n.selected_candidate_id matches Some(x) && x@ == id && candidate_listed(n.candidates, x@),
{
}

/// Every radio settings transaction ends in one of three states: the
/// requested settings verified on the device, the original settings
/// verified on the device after a refusal, or recovery required with the
/// interrupted-transaction marker still set.
pub proof fn lemma_radio_transaction_ends_verified_restored_or_in_recovery(
    o: ApplicationSnapshotView,
    w: EnvironmentView,
    band: RadioBand,
    original: RadioConfiguration,
    d: RadioConfiguration,
    n: ApplicationSnapshotView,
    v: EnvironmentView,
    r: Result<ApplicationSnapshot, OperationFailure>,
)
    requires
        is_radio_transaction(o, w, band, original, d, n, v, r),
    ensures
        ({
            ||| (r is Ok && stores(v, band, d) && !v.interrupted && n.recovery_required == o.recovery_required)
            ||| (r is Err && stores(v, band, original) && !v.interrupted && n.recovery_required == o.recovery_required)
            ||| ((r matches Err(f) && failures::is_recovery(f)) && v.interrupted && n.recovery_required)
        }),
{
}

/// Every role transaction ends in one of three states: the requested role
/// verified, the original role verified after a refusal, or recovery
/// required with the interrupted-transaction marker still set.
pub proof fn lemma_role_transaction_ends_verified_restored_or_in_recovery(
    o: ApplicationSnapshotView,
    w: EnvironmentView,
    original: DeviceRole,
    requested: DeviceRole,
    n: ApplicationSnapshotView,
    v: EnvironmentView,
    r: Result<ApplicationSnapshot, OperationFailure>,
)
    requires
        is_role_transaction(o, w, original, requested, n, v, r),
    ensures
        ({
            ||| (r is Ok && v.role == Some(requested) && !v.interrupted && n.recovery_required == o.recovery_required)
            ||| (r is Err && v.role == Some(original) && !v.interrupted && n.recovery_required == o.recovery_required)
            ||| ((r matches Err(f) && failures::is_recovery(f)) && v.interrupted && n.recovery_required)
        }),
{
}

/// While recovery is required, a radio change is refused and changes
/// nothing; recovery is entered only when a transaction could be neither
/// verified nor restored, and then the interrupted-transaction marker is set.
pub proof fn lemma_radio_changes_respect_recovery(
    o: ApplicationSnapshotView,
    w: EnvironmentView,
    band: RadioBand,
    u: RadioUpdate,
    n: ApplicationSnapshotView,
    v: EnvironmentView,
    r: Result<ApplicationSnapshot, OperationFailure>,
)
    requires
        is_radio_change_outcome(o, w, band, u, n, v, r),
    ensures
        o.recovery_required ==> (r matches Err(f) && failures::is_recovery(f)) && n == o && v == w,
        !o.recovery_required && n.recovery_required ==> (r matches Err(f) && failures::is_recovery(f)) && v.interrupted,
        !o.mutations_qualified ==> r is Err && v.mutations == w.mutations,
{
    if !o.recovery_required && o.mutations_qualified {
        if let Some(original) = radio_of(w, band) {
            let d = choose|d: RadioConfiguration| #[trigger] crate::radio::is_updated_configuration(d, original, u)
                && (if crate::model::radio_configuration_equal(d, original) {
                    (r matches Ok(s) && s@ == n) && n == o && v == crate::application::read_once(w)
                } else {
                    is_radio_transaction(o, crate::application::read_once(w), band, original, d, n, v, r)
                });
            if !crate::model::radio_configuration_equal(d, original) {
                lemma_radio_transaction_ends_verified_restored_or_in_recovery(o, crate::application::read_once(w), band, original, d, n, v, r);
            }
        }
    }
}

/// While recovery is required, a role change is refused and changes
/// nothing; recovery is entered only when a role transaction could be
/// neither verified nor restored, and then the marker is set.
pub proof fn lemma_role_changes_respect_recovery(
    o: ApplicationSnapshotView,
    w: EnvironmentView,
    requested: DeviceRole,
    confirmed: bool,
    n: ApplicationSnapshotView,
    v: EnvironmentView,
    r: Result<ApplicationSnapshot, OperationFailure>,
)
    requires
        is_role_change_outcome(o, w, requested, confirmed, n, v, r),
    ensures
        o.recovery_required ==> r is Err && n == o && v == w,
        !o.recovery_required && n.recovery_required ==> (r matches Err(f) && failures::is_recovery(f)) && v.interrupted,
        !confirmed || !o.mutations_qualified ==> r is Err && v == w,
{
    if requested != DeviceRole::WifiAdapter && confirmed && !o.recovery_required && o.mutations_qualified {
        if let Some(original) = w.role {
            if original != requested {
                lemma_role_transaction_ends_verified_restored_or_in_recovery(o, w, original, requested, n, v, r);
            }
        }
    }
}

/// Only an accepted baseline ends a required recovery, and it clears the
/// interrupted-transaction marker.
pub proof fn lemma_baseline_ends_recovery(
    o: ApplicationSnapshotView,
    w: EnvironmentView,
    n: ApplicationSnapshotView,
    v: EnvironmentView,
    r: Result<ApplicationSnapshot, OperationFailure>,
)
    requires
        is_baseline_outcome(o, w, n, v, r),
    ensures
        r is Ok ==> o.recovery_required && !n.recovery_required && !v.interrupted,
        r is Err ==> n == o,
{
}

/// A profile that this application does not own is never changed: disabling
/// or removing sharing on it is refused and leaves the host untouched.
pub proof fn lemma_external_profiles_are_never_changed(
    o: ApplicationSnapshotView,
    w: EnvironmentView,
    changed: EnvironmentView,
    n: ApplicationSnapshotView,
    v: EnvironmentView,
    r: Result<ApplicationSnapshot, OperationFailure>,
)
    requires
        w.host_sharing matches Some(h) && h.profile_kind != ProfileKind::Managed,
        is_profile_change_outcome(o, w, changed, n, v, r),
    ensures
        (r matches Err(f) && failures::is_external_profile(f)),
        v == w,
{
}

/// While the telemetry view is hidden, refreshing client evidence reads
/// nothing and changes nothing.
pub proof fn lemma_hidden_telemetry_reads_nothing(
    o: ApplicationSnapshotView,
    w: EnvironmentView,
    n: ApplicationSnapshotView,
    v: EnvironmentView,
    r: Result<ApplicationSnapshot, OperationFailure>,
)
    requires
        is_client_evidence_outcome(o, w, false, n, v, r),
    ensures
        v == w,
        n == o,
        v.telemetry_read_count == w.telemetry_read_count,
{
}

/// Once a storage failure is recorded, no saved-client change is stored:
/// every commit reports that failure and changes nothing, neither the
/// stored clients nor the published snapshot.
pub proof fn lemma_storage_failure_blocks_saved_client_changes(
    o: ApplicationSnapshotView,
    w: EnvironmentView,
    clients: Seq<crate::model::SavedClientView>,
    n: ApplicationSnapshotView,
    v: EnvironmentView,
    res: Result<(), OperationFailure>,
)
    requires
        w.saved_clients_failure is Some,
        is_commit(o, w, clients, n, v, res),
    ensures
        res == Err::<(), OperationFailure>(w.saved_clients_failure->0),
        v == w,
        n == o,
{
}


/// Client evidence never shows the Puppis itself, the host, or the
/// subnet's network or broadcast address: after a refresh no entry has a
/// hardware address of the Puppis, and no entry lists a reserved address or
/// the Puppis's own address.
pub proof fn lemma_evidence_shows_only_clients(
    o: ApplicationSnapshotView,
    w: EnvironmentView,
    g: Seq<crate::model::ClientEvidenceView>,
    e: Seq<crate::model::ClientEvidenceView>,
    now: u64,
    n: ApplicationSnapshotView,
    v: EnvironmentView,
)
    requires
        is_client_refresh(o, w, g, e, now, n, v),
    ensures
        forall|k: int| 0 <= k < n.client_evidence.len() ==>
            !is_puppis_hardware(connected_observations(w) + w.recent_clients, #[trigger] n.client_evidence[k].hardware_address),
        forall|k: int, a: Seq<char>| 0 <= k < n.client_evidence.len() && #[trigger] n.client_evidence[k].addresses.contains(a) ==>
            !is_reserved_address(a) && a != "192.168.137.254"@,
{
    broadcast use vstd::seq_lib::group_to_multiset_ensures;
    let all = connected_observations(w) + w.recent_clients;
    let keys = g.map_values(|x: crate::model::ClientEvidenceView| x.hardware_address);
    assert forall|k: int| #![trigger n.client_evidence[k]] 0 <= k < n.client_evidence.len() implies
        !is_puppis_hardware(all, n.client_evidence[k].hardware_address)
        && (forall|a: Seq<char>| #[trigger] n.client_evidence[k].addresses.contains(a) ==> !is_reserved_address(a) && a != "192.168.137.254"@) by {
        let x = n.client_evidence[k];
        assert(e.contains(x));
        assert(g.to_multiset().count(x) > 0);
        assert(g.contains(x));
        let j = choose|j: int| 0 <= j < g.len() && g[j] == x;
        assert(keys[j] == x.hardware_address);
        assert(keys.contains(x.hardware_address));
        assert(is_client_hardware(all, x.hardware_address));
        let i = choose|i: int| 0 <= i < all.len() && crate::evidence::is_client_observation(all, i) && hardware_key(all[i].hardware_address@) == x.hardware_address;
        assert(is_grouped_entry(all, w.connected_clients.len() as int, w.saved_clients, j, g[j]));
        assert forall|a: Seq<char>| #[trigger] n.client_evidence[k].addresses.contains(a) implies !is_reserved_address(a) && a != "192.168.137.254"@ by {
            assert(is_client_address(all, x.hardware_address, a));
            let m = choose|m: int| 0 <= m < all.len() && crate::evidence::is_client_observation(all, m)
                && hardware_key(all[m].hardware_address@) == x.hardware_address && (all[m].address matches Some(y) && y@ == a);
            if a == "192.168.137.254"@ {
                assert(is_puppis_observation(all[m]));
                assert(is_puppis_hardware(all, hardware_key(all[m].hardware_address@)));
            }
        }
    }
}

/// The big-endian bytes of a number give the number back.
proof fn lemma_be_round_trip(x: u32)
    ensures
        be_value(be_bytes(x)[0], be_bytes(x)[1], be_bytes(x)[2], be_bytes(x)[3]) == x,
{
    assert(((x / 0x100_0000) as u8) as int * 0x100_0000 + ((x / 0x1_0000 % 0x100) as u8) as int * 0x1_0000
        + ((x / 0x100 % 0x100) as u8) as int * 0x100 + ((x % 0x100) as u8) as int == x) by (bit_vector);
}

/// The layout of a frame: its length byte is its length, its checksum bytes
/// hold the CRC-32 of its body, and its body follows the six header bytes.
pub proof fn lemma_frame_layout(body: Seq<u8>)
    requires
        body.len() + 6 <= 255,
    ensures
        framed(body).len() == body.len() + 6,
        framed(body)[0] == crate::protocol::MAGIC,
        framed(body)[1] == framed(body).len(),
        framed(body).subrange(6, framed(body).len() as int) == body,
        be_value(framed(body)[2], framed(body)[3], framed(body)[4], framed(body)[5]) == crc32_of(body),
{
    let f = framed(body);
    lemma_be_round_trip(crc32_of(body));
    assert(f.subrange(6, f.len() as int) =~= body);
    assert(f[2] == be_bytes(crc32_of(body))[0]);
    assert(f[3] == be_bytes(crc32_of(body))[1]);
    assert(f[4] == be_bytes(crc32_of(body))[2]);
    assert(f[5] == be_bytes(crc32_of(body))[3]);
}

/// A response frame built around a JSON object passes every frame check,
/// and its JSON bytes are exactly that object.
pub proof fn lemma_response_frames_are_accepted(json: Seq<u8>)
    requires
        json.len() + 8 <= 255,
    ensures
        is_response_frame(framed(seq![RESPONSE_TYPE, RESERVED] + json)),
        frame_json(framed(seq![RESPONSE_TYPE, RESERVED] + json)) == json,
{
    let body = seq![RESPONSE_TYPE, RESERVED] + json;
    lemma_frame_layout(body);
    let f = framed(body);
    assert(f[6] == body[0]);
    assert(f[7] == body[1]);
    assert(frame_json(f) =~= json);
}

/// A request frame is as long as its JSON object plus eight bytes, carries
/// that length, the request type and the checksum of its body.
pub proof fn lemma_request_frame_layout(json: Seq<u8>)
    requires
        json.len() + 8 <= 255,
    ensures
        request_frame(json).len() == json.len() + 8,
        request_frame(json)[1] == json.len() + 8,
        request_frame(json)[6] == crate::protocol::REQUEST_TYPE,
        request_frame(json)[7] == RESERVED,
        request_frame(json).subrange(8, json.len() + 8int) == json,
        be_value(request_frame(json)[2], request_frame(json)[3], request_frame(json)[4], request_frame(json)[5])
            == crc32_of(request_frame(json).subrange(6, json.len() + 8int)),
{
    let body = seq![crate::protocol::REQUEST_TYPE, RESERVED] + json;
    lemma_frame_layout(body);
    let f = request_frame(json);
    assert(f[6] == body[0]);
    assert(f[7] == body[1]);
    assert(f.subrange(8, json.len() + 8int) =~= json);
}


/// A saved hardware address has a first saved entry.
proof fn lemma_saved_hardware_has_first_index(saved: Seq<crate::model::SavedClientView>, h: Seq<char>)
    requires
        is_saved_hardware(saved, h),
    ensures
        exists|k: int| is_first_saved_index(saved, h, k),
    decreases saved.len(),
{
    if saved[0].hardware_address == h {
        assert(is_first_saved_index(saved, h, 0));
    } else {
        let i = choose|i: int| 0 <= i < saved.len() && saved[i].hardware_address == h;
        let rest = saved.drop_first();
        assert(rest[i - 1] == saved[i]);
        lemma_saved_hardware_has_first_index(rest, h);
        let k = choose|k: int| is_first_saved_index(rest, h, k);
        assert forall|j: int| 0 <= j < k + 1 implies saved[j].hardware_address != h by {
            if j > 0 {
                assert(saved[j] == rest[j - 1]);
            }
        }
        assert(is_first_saved_index(saved, h, k + 1));
    }
}

/// Upserting replaces the entry of a saved hardware address and adds one
/// otherwise.
proof fn lemma_upserted_len(saved: Seq<crate::model::SavedClientView>)
    ensures
        forall|c: crate::model::SavedClientView| #[trigger] upserted(saved, c).len()
            == if is_saved_hardware(saved, c.hardware_address) { saved.len() } else { saved.len() + 1 },
{
    assert forall|c: crate::model::SavedClientView| #[trigger] upserted(saved, c).len()
        == if is_saved_hardware(saved, c.hardware_address) { saved.len() } else { saved.len() + 1 } by {
        if is_saved_hardware(saved, c.hardware_address) {
            lemma_saved_hardware_has_first_index(saved, c.hardware_address);
        } else {
            assert(!exists|k: int| is_first_saved_index(saved, c.hardware_address, k));
        }
    }
}

/// At most ten clients are ever saved: saving a label keeps the stored
/// saved clients within the limit.
pub proof fn lemma_saved_clients_stay_within_limit(
    o: ApplicationSnapshotView,
    w: EnvironmentView,
    hw: Seq<char>,
    label: Seq<char>,
    n: ApplicationSnapshotView,
    v: EnvironmentView,
    r: Result<ApplicationSnapshot, OperationFailure>,
)
    requires
        w.saved_clients.len() <= SAVED_CLIENT_LIMIT,
        is_save_outcome(o, w, hw, label, n, v, r),
    ensures
        v.saved_clients.len() <= SAVED_CLIENT_LIMIT,
        r is Ok ==> n.saved_clients.len() <= SAVED_CLIENT_LIMIT,
{
    lemma_upserted_len(w.saved_clients);
}


/// No two saved clients share a hardware address or have colliding labels.
pub open spec fn is_well_labelled(saved: Seq<SavedClientView>) -> bool {
    &&& forall|i: int, j: int| 0 <= i < j < saved.len() ==> saved[i].hardware_address != saved[j].hardware_address
    &&& forall|i: int, j: int| 0 <= i < j < saved.len() ==> !labels_collide(saved[i].label, saved[j].label)
}

/// Reordering keeps saved clients well labelled.
proof fn lemma_reordering_keeps_well_labelled(before: Seq<SavedClientView>, after: Seq<SavedClientView>)
    requires
        is_well_labelled(before),
        is_label_sorting(after, before),
    ensures
        is_well_labelled(after),
{
    broadcast use vstd::seq_lib::group_to_multiset_ensures;
    assert(before.no_duplicates()) by {
        assert forall|i: int, j: int| 0 <= i < before.len() && 0 <= j < before.len() && i != j implies before[i] != before[j] by {
            if i < j {
                assert(before[i].hardware_address != before[j].hardware_address);
            } else {
                assert(before[j].hardware_address != before[i].hardware_address);
            }
        }
    }
    before.lemma_multiset_has_no_duplicates();
    after.lemma_multiset_has_no_duplicates_conv();
    assert forall|i: int, j: int| #![trigger after[i], after[j]] 0 <= i < j < after.len() implies
        after[i].hardware_address != after[j].hardware_address && !labels_collide(after[i].label, after[j].label) by {
        assert(after.contains(after[i]) && after.contains(after[j]));
        assert(before.to_multiset().count(after[i]) > 0 && before.to_multiset().count(after[j]) > 0);
        let p = choose|p: int| 0 <= p < before.len() && before[p] == after[i];
        let q = choose|q: int| 0 <= q < before.len() && before[q] == after[j];
        assert(after[i] != after[j]);
        assert(p != q);
        if p > q {
            assert(before[q].hardware_address != before[p].hardware_address);
            assert(!labels_collide(before[q].label, before[p].label));
        }
    }
}

/// Every reordering of well-labelled saved clients is well labelled.
proof fn lemma_reorderings_keep_well_labelled()
    ensures
        forall|before: Seq<SavedClientView>, after: Seq<SavedClientView>|
            #[trigger] is_label_sorting(after, before) && is_well_labelled(before) ==> is_well_labelled(after),
{
    assert forall|before: Seq<SavedClientView>, after: Seq<SavedClientView>|
        #[trigger] is_label_sorting(after, before) && is_well_labelled(before) implies is_well_labelled(after) by {
        lemma_reordering_keeps_well_labelled(before, after);
    }
}

/// Replacing or adding the entry of `key` under a label that no other
/// hardware address uses keeps saved clients well labelled.
proof fn lemma_upsert_keeps_well_labelled(saved: Seq<SavedClientView>, key: Seq<char>, name: Seq<char>)
    requires
        is_well_labelled(saved),
        !label_taken(saved, key, name),
    ensures
        forall|c: SavedClientView| c.hardware_address == key && c.label == name ==> #[trigger] is_well_labelled(upserted(saved, c)),
{
    assert forall|c: SavedClientView| c.hardware_address == key && c.label == name implies #[trigger] is_well_labelled(upserted(saved, c)) by {
        if is_saved_hardware(saved, key) {
            lemma_saved_hardware_has_first_index(saved, key);
            let k = choose|k: int| is_first_saved_index(saved, key, k);
            let u = saved.update(k, c);
            assert(upserted(saved, c) == u);
            assert forall|i: int, j: int| 0 <= i < j < u.len() implies
                u[i].hardware_address != u[j].hardware_address && !labels_collide(u[i].label, u[j].label) by {
                if i == k {
                    assert(saved[j].hardware_address != saved[k].hardware_address);
                    assert(!labels_collide(saved[j].label, name));
                } else if j == k {
                    assert(saved[i].hardware_address != saved[k].hardware_address);
                    assert(!labels_collide(saved[i].label, name));
                }
            }
        } else {
            assert(!exists|k: int| is_first_saved_index(saved, key, k));
            let u = saved.push(c);
            assert(upserted(saved, c) == u);
            assert forall|i: int, j: int| 0 <= i < j < u.len() implies
                u[i].hardware_address != u[j].hardware_address && !labels_collide(u[i].label, u[j].label) by {
                if j == saved.len() {
                    assert(saved[i].hardware_address != key);
                    assert(!labels_collide(saved[i].label, name));
                }
            }
        }
    }
}

/// Saved clients stay well labelled: saving a label never gives two saved
/// clients colliding labels (the same up to case) or the same hardware
/// address.
pub proof fn lemma_saving_keeps_labels_unique(
    o: ApplicationSnapshotView,
    w: EnvironmentView,
    hw: Seq<char>,
    label: Seq<char>,
    n: ApplicationSnapshotView,
    v: EnvironmentView,
    r: Result<ApplicationSnapshot, OperationFailure>,
)
    requires
        is_well_labelled(w.saved_clients),
        is_save_outcome(o, w, hw, label, n, v, r),
    ensures
        is_well_labelled(v.saved_clients),
{
    lemma_reorderings_keep_well_labelled();
    let name = crate::text::trimmed(label);
    let key = hardware_key(hw);
    if crate::saved::is_valid_label(name) && !label_taken(w.saved_clients, key, name) {
        lemma_upsert_keeps_well_labelled(w.saved_clients, key, name);
    }
}

/// Saved clients stay well labelled: renaming a saved client never gives
/// two saved clients colliding labels.
pub proof fn lemma_renaming_keeps_labels_unique(
    o: ApplicationSnapshotView,
    w: EnvironmentView,
    hw: Seq<char>,
    label: Seq<char>,
    n: ApplicationSnapshotView,
    v: EnvironmentView,
    r: Result<ApplicationSnapshot, OperationFailure>,
)
    requires
        is_well_labelled(w.saved_clients),
        is_rename_outcome(o, w, hw, label, n, v, r),
    ensures
        is_well_labelled(v.saved_clients),
{
    lemma_reorderings_keep_well_labelled();
    let name = crate::text::trimmed(label);
    let key = hardware_key(hw);
    let saved = w.saved_clients;
    if crate::saved::is_valid_label(name) && !label_taken(saved, key, name) && is_saved_hardware(saved, key) {
        lemma_saved_hardware_has_first_index(saved, key);
        let k = choose|k: int| is_first_saved_index(saved, key, k);
        let u = saved.update(k, labelled_as(saved[k], name));
        assert forall|i: int, j: int| 0 <= i < j < u.len() implies
            u[i].hardware_address != u[j].hardware_address && !labels_collide(u[i].label, u[j].label) by {
            if i == k {
                assert(saved[j].hardware_address != saved[k].hardware_address);
                assert(!labels_collide(saved[j].label, name));
            } else if j == k {
                assert(saved[i].hardware_address != saved[k].hardware_address);
                assert(!labels_collide(saved[i].label, name));
            }
        }
        assert(is_well_labelled(u));
    }
}


/// Dropping saved clients keeps the rest well labelled.
proof fn lemma_filter_keeps_well_labelled(saved: Seq<SavedClientView>, keep: spec_fn(SavedClientView) -> bool)
    requires
        is_well_labelled(saved),
    ensures
        is_well_labelled(saved.filter(keep)),
    decreases saved.len(),
{
    reveal(Seq::filter);
    if saved.len() > 0 {
        let rest = saved.drop_last();
        assert(is_well_labelled(rest)) by {
            assert forall|i: int, j: int| 0 <= i < j < rest.len() implies
                rest[i].hardware_address != rest[j].hardware_address && !labels_collide(rest[i].label, rest[j].label) by {
                assert(rest[i] == saved[i] && rest[j] == saved[j]);
            }
        }
        lemma_filter_keeps_well_labelled(rest, keep);
        let f = rest.filter(keep);
        if keep(saved.last()) {
            let u = f.push(saved.last());
            assert forall|i: int, j: int| #![trigger u[i], u[j]] 0 <= i < j < u.len() implies
                u[i].hardware_address != u[j].hardware_address && !labels_collide(u[i].label, u[j].label) by {
                if j == f.len() {
                    assert(f.contains(f[i]));
                    rest.lemma_filter_contains_rev(keep, f[i]);
                    let k = choose|k: int| 0 <= k < rest.len() && rest[k] == f[i];
                    assert(saved[k] == u[i] && saved[saved.len() - 1] == u[j]);
                    assert(k < saved.len() - 1);
                } else {
                    assert(u[i] == f[i] && u[j] == f[j]);
                }
            }
            assert(saved.filter(keep) == u);
            assert(is_well_labelled(u));
        } else {
            assert(saved.filter(keep) == f);
            assert(is_well_labelled(f));
        }
    } else {
        assert(saved.filter(keep) == saved);
    }
}

/// Saved clients stay well labelled: forgetting a saved client never gives
/// two saved clients colliding labels or the same hardware address.
pub proof fn lemma_forgetting_keeps_labels_unique(
    o: ApplicationSnapshotView,
    w: EnvironmentView,
    hw: Seq<char>,
    n: ApplicationSnapshotView,
    v: EnvironmentView,
    r: Result<ApplicationSnapshot, OperationFailure>,
)
    requires
        is_well_labelled(w.saved_clients),
        is_committed_change(o, w, without_hardware(w.saved_clients, hardware_key(hw)),
            relabelled(o.client_evidence, hardware_key(hw), "Unlabeled client"@, false), n, v, r),
    ensures
        is_well_labelled(v.saved_clients),
{
    let key = hardware_key(hw);
    lemma_filter_keeps_well_labelled(w.saved_clients, |c: SavedClientView| c.hardware_address != key);
}

/// Saved clients stay well labelled: moving a saved label to a new hardware
/// address never gives two saved clients colliding labels or the same
/// hardware address.
pub proof fn lemma_reassociating_keeps_labels_unique(
    o: ApplicationSnapshotView,
    w: EnvironmentView,
    previous: Seq<char>,
    new: Seq<char>,
    confirmed: bool,
    n: ApplicationSnapshotView,
    v: EnvironmentView,
    r: Result<ApplicationSnapshot, OperationFailure>,
)
    requires
        is_well_labelled(w.saved_clients),
        is_reassociate_outcome(o, w, previous, new, confirmed, n, v, r),
    ensures
        is_well_labelled(v.saved_clients),
{
    let p = hardware_key(previous);
    let q = hardware_key(new);
    let saved = w.saved_clients;
    if confirmed && crate::evidence::evidence_for(o.client_evidence, q) is Some
        && !is_saved_hardware(saved, q) && is_saved_hardware(saved, p) {
        let observed = crate::evidence::evidence_for(o.client_evidence, q)->0;
        lemma_saved_hardware_has_first_index(saved, p);
        let k = choose|k: int| is_first_saved_index(saved, p, k);
        assert forall|now: u64| #[trigger] is_well_labelled(saved.update(k, saved_entry(saved[k].label, q, now, observed.addresses))) by {
            let u = saved.update(k, saved_entry(saved[k].label, q, now, observed.addresses));
            assert forall|i: int, j: int| 0 <= i < j < u.len() implies
                u[i].hardware_address != u[j].hardware_address && !labels_collide(u[i].label, u[j].label) by {
                if i == k {
                    assert(saved[j].hardware_address != q);
                    assert(!labels_collide(saved[k].label, saved[j].label));
                } else if j == k {
                    assert(saved[i].hardware_address != q);
                    assert(!labels_collide(saved[i].label, saved[k].label));
                }
            }
        }
        let now = choose|now: u64| {
            &&& (w.current_time > 0 ==> now == w.current_time)
            &&& #[trigger] is_committed_change(o, w,
                saved.update(k, saved_entry(saved[k].label, q, now, observed.addresses)),
                reassociated(o.client_evidence, p, q, saved[k].label), n, v, r)
        };
        assert(is_well_labelled(saved.update(k, saved_entry(saved[k].label, q, now, observed.addresses))));
    }
}


/// While the telemetry view is visible on a selected interface, refreshing
/// client evidence succeeds, reads the telemetry once (the count saturates)
/// and reads no configuration; nothing outside is changed.
pub proof fn lemma_visible_telemetry_reads_once(
    o: ApplicationSnapshotView,
    w: EnvironmentView,
    n: ApplicationSnapshotView,
    v: EnvironmentView,
    r: Result<ApplicationSnapshot, OperationFailure>,
)
    requires
        is_client_evidence_outcome(o, w, true, n, v, r),
        crate::application::selected_interface_of(o) is Some,
    ensures
        r is Ok,
        v.telemetry_read_count == crate::environment::counted(w.telemetry_read_count),
        v.configuration_read_count == w.configuration_read_count,
        v.mutations == w.mutations,
        v.actions == w.actions,
        v.interrupted == w.interrupted,
{
    let (g, e, now) = choose|g: Seq<crate::model::ClientEvidenceView>, e: Seq<crate::model::ClientEvidenceView>, now: u64|
        #[trigger] is_client_refresh(o, w, g, e, now, n, v);
    let read = EnvironmentView { telemetry_read_count: crate::environment::counted(w.telemetry_read_count), ..w };
    let refreshed = crate::application::refreshed_saved_clients(w.saved_clients, e, now);
    let changed = crate::application::saved_clients_change(w.saved_clients, e, now);
    let refused = choose|refused: Option<OperationFailure>| {
        &&& #[trigger] crate::application::is_observation_store(read, refreshed, changed, v, refused)
        &&& n == ApplicationSnapshotView {
            revision: crate::application::bumped(o.revision),
            observed_status_at: Some(now),
            client_evidence: e,
            saved_clients: v.saved_clients,
            saved_clients_available: if refused is Some { false } else { o.saved_clients_available },
            saved_clients_failure: if refused is Some { refused } else { o.saved_clients_failure },
            clients: n.clients,
            ..o
        }
    };
    assert(crate::application::is_observation_store(read, refreshed, changed, v, refused));
}

/// An invalid label (empty, over forty characters, or holding a control or
/// invisible format character once trimmed) is refused and changes nothing.
pub proof fn lemma_invalid_labels_change_nothing(
    o: ApplicationSnapshotView,
    w: EnvironmentView,
    hw: Seq<char>,
    label: Seq<char>,
    n: ApplicationSnapshotView,
    v: EnvironmentView,
    r: Result<ApplicationSnapshot, OperationFailure>,
)
    requires
        is_save_outcome(o, w, hw, label, n, v, r),
        !crate::saved::is_valid_label(crate::text::trimmed(label)),
    ensures
        r matches Err(f) && failures::is_invalid_label(f),
        n == o,
        v == w,
{
}

/// Renaming the label of a hardware address that no saved client has is
/// refused as not found (once the new label is valid and free) and changes
/// nothing; a saved client need not be observed to be renamed.
pub proof fn lemma_renaming_an_unsaved_address_is_refused(
    o: ApplicationSnapshotView,
    w: EnvironmentView,
    hw: Seq<char>,
    label: Seq<char>,
    n: ApplicationSnapshotView,
    v: EnvironmentView,
    r: Result<ApplicationSnapshot, OperationFailure>,
)
    requires
        is_rename_outcome(o, w, hw, label, n, v, r),
        crate::saved::is_valid_label(crate::text::trimmed(label)),
        !label_taken(w.saved_clients, hardware_key(hw), crate::text::trimmed(label)),
    ensures
        !is_saved_hardware(w.saved_clients, hardware_key(hw)) ==> (r matches Err(f) && failures::is_saved_client_not_found(f)) && n == o && v == w,
        is_saved_hardware(w.saved_clients, hardware_key(hw)) && w.saved_clients_failure is None
            && w.saved_clients_storage != crate::environment::SavedClientStorage::Unwritable ==> r is Ok,
{
    let name = crate::text::trimmed(label);
    let key = hardware_key(hw);
    if is_saved_hardware(w.saved_clients, key) && w.saved_clients_failure is None
        && w.saved_clients_storage != crate::environment::SavedClientStorage::Unwritable {
        let k = choose|k: int| is_first_saved_index(w.saved_clients, key, k);
        let clients = choose|clients: Seq<SavedClientView>| {
            &&& #[trigger] is_label_sorting(clients, w.saved_clients.update(k, labelled_as(w.saved_clients[k], name)))
            &&& is_committed_change(o, w, clients, crate::application::renamed(o.client_evidence, key, name), n, v, r)
        };
        let (res, m) = choose|res: Result<(), OperationFailure>, m: ApplicationSnapshotView| {
            &&& #[trigger] is_commit(o, w, clients, m, v, res)
            &&& match res {
                Err(f) => r == Err::<ApplicationSnapshot, OperationFailure>(f) && n == m,
                Ok(_) => {
                    &&& r matches Ok(s) && s@ == n
                    &&& is_display_sorting(n.client_evidence, crate::application::renamed(o.client_evidence, key, name))
                    &&& n == ApplicationSnapshotView {
                        revision: crate::application::bumped(o.revision),
                        saved_clients: clients,
                        client_evidence: n.client_evidence,
                        ..o
                    }
                },
            }
        };
        assert(is_commit(o, w, clients, m, v, res));
    }
}

/// Whether every field that update `u` asks for already holds in `c`.
pub open spec fn restates(c: RadioConfiguration, u: RadioUpdate) -> bool {
    &&& (u.ssid matches Some(x) ==> x@ == c.ssid@)
    &&& (u.channel matches Some(x) ==> x@ == c.channel@)
    &&& (u.password matches Some(x) ==> x@ == c.password@)
}

/// A radio update that asks for nothing, or only restates what the device
/// holds, returns the published snapshot: nothing is written, the marker is
/// untouched and at most the one read of the radio is made.
pub proof fn lemma_restating_radio_updates_change_nothing(
    o: ApplicationSnapshotView,
    w: EnvironmentView,
    band: RadioBand,
    u: RadioUpdate,
    n: ApplicationSnapshotView,
    v: EnvironmentView,
    r: Result<ApplicationSnapshot, OperationFailure>,
)
    requires
        crate::application::is_apply_outcome(o, w, band, u, n, v, r),
        crate::application::radio_snapshot_of(o.radios, band) is Some,
        u.ssid is None && u.channel is None && u.password is None
            || (radio_of(w, band) matches Some(c) && restates(c, u)),
        r is Ok,
    ensures
        r matches Ok(s) && s@ == o,
        n == o,
        v.mutations == w.mutations,
        v.actions == w.actions,
        v.interrupted == w.interrupted,
        v.configuration_read_count == w.configuration_read_count
            || v.configuration_read_count == crate::environment::counted(w.configuration_read_count),
{
    if !(u.ssid is None && u.channel is None && u.password is None) {
        let c = radio_of(w, band)->0;
        let d = choose|d: RadioConfiguration| #[trigger] crate::radio::is_updated_configuration(d, c, u)
            && (if crate::model::radio_configuration_equal(d, c) {
                (r matches Ok(s) && s@ == n) && n == o && v == crate::application::read_once(w)
            } else {
                is_radio_transaction(o, crate::application::read_once(w), band, c, d, n, v, r)
            });
        assert(crate::model::radio_configuration_equal(d, c));
    }
}

/// The content-independent answer of the device to the `k`th role write:
/// the scripted outcome, or applying the request when none is left.
pub open spec fn role_effect_at(effects: Seq<crate::model::RoleWriteEffect>, k: int) -> crate::model::RoleWriteEffect {
    if 0 <= k < effects.len() { effects[k] } else { crate::model::RoleWriteEffect::ApplyRequested }
}

/// The role that a write of `requested` leaves, answered as `effect`, when
/// the device held `before`.
pub open spec fn role_after(effect: crate::model::RoleWriteEffect, requested: DeviceRole, before: Option<DeviceRole>) -> Option<DeviceRole> {
    match effect {
        crate::model::RoleWriteEffect::ApplyRequested => Some(requested),
        crate::model::RoleWriteEffect::Apply(x) => Some(x),
        crate::model::RoleWriteEffect::Fail => before,
        crate::model::RoleWriteEffect::Unverifiable => None,
    }
}

/// Whether a write answered as `effect` reported success.
pub open spec fn write_succeeded(effect: crate::model::RoleWriteEffect) -> bool {
    effect is ApplyRequested || effect is Apply
}

/// A confirmed, qualified role change away from the current role `r0` ends
/// in exactly one way, fixed by how the device answers the write and the
/// read-back: verified when the write succeeded and the requested role is
/// read back; not applied when `r0` is read back; otherwise `r0` is written
/// back, and it is rolled back when that succeeds and `r0` is read back,
/// or recovery is required with the marker left set. No operation stays
/// active, and every outcome but recovery clears the marker.
#[verifier::spinoff_prover]
#[verifier::rlimit(60)]
pub proof fn lemma_role_change_ends_one_way(
    o: ApplicationSnapshotView,
    w: EnvironmentView,
    requested: DeviceRole,
    n: ApplicationSnapshotView,
    v: EnvironmentView,
    r: Result<ApplicationSnapshot, OperationFailure>,
)
    requires
        is_role_change_outcome(o, w, requested, true, n, v, r),
        requested != DeviceRole::WifiAdapter,
        !o.recovery_required,
        o.mutations_qualified,
        w.role matches Some(r0) && r0 != requested,
    ensures
        n.active_operation is None,
        ({
            let r0 = w.role->0;
            let first = role_effect_at(w.role_write_effects, 0);
            let after = role_after(first, requested, Some(r0));
            let second = role_effect_at(w.role_write_effects, 1);
            if write_succeeded(first) && after == Some(requested) {
                r is Ok && n.device_role == Some(requested) && !v.interrupted
            } else if after == Some(r0) {
                (r matches Err(f) && failures::is_role_not_applied(f)) && !v.interrupted
            } else if write_succeeded(second) && role_after(second, r0, after) == Some(r0) {
                (r matches Err(f) && failures::is_role_rolled_back(f)) && !v.interrupted
            } else {
                (r matches Err(f) && failures::is_recovery(f)) && n.recovery_required && v.interrupted
            }
        }),
{
    let r0 = w.role->0;
    let m = crate::application::marked(w, true);
    let (w2, wr) = choose|w2: EnvironmentView, wr: Result<(), OperationFailure>| #[trigger] crate::environment::role_write_outcome(m, requested, w2, wr)
        && crate::application::is_role_write_settled(o, r0, requested, n, v, r, w2, wr);
    assert(crate::environment::role_write_outcome(m, requested, w2, wr));
    assert(w2.role == role_after(role_effect_at(w.role_write_effects, 0), requested, Some(r0)));
    assert(wr is Ok == write_succeeded(role_effect_at(w.role_write_effects, 0)));
    if !(wr is Ok && w2.role == Some(requested)) && w2.role != Some(r0) {
        let (w3, rr) = choose|w3: EnvironmentView, rr: Result<(), OperationFailure>|
            #[trigger] crate::environment::role_write_outcome(w2, r0, w3, rr) && crate::application::is_role_restore_settled(o, r0, n, v, r, w3, rr);
        assert(crate::environment::role_write_outcome(w2, r0, w3, rr));
        assert(w2.role_write_effects == (if w.role_write_effects.len() > 0 { w.role_write_effects.drop_first() } else { w.role_write_effects }));
        assert(role_effect_at(w2.role_write_effects, 0) == role_effect_at(w.role_write_effects, 1));
        assert(w3.role == role_after(role_effect_at(w.role_write_effects, 1), r0, w2.role));
    }
}


/// The outside actions of a settings transaction: the marker is set first,
/// then `writes` device writes follow (each `is_write`), and the marker is
/// cleared last exactly when `cleared`.
pub open spec fn is_marked_transaction(a: Seq<crate::environment::SystemAction>, writes: int, cleared: bool, radio: bool) -> bool {
    &&& a.len() == 1 + writes + (if cleared { 1int } else { 0int })
    &&& a[0] == crate::environment::SystemAction::SetMarker(true)
    &&& forall|k: int| 1 <= k <= writes ==> (if radio { #[trigger] a[k] is WriteRadio } else { a[k] is WriteRole })
    &&& cleared ==> a[a.len() - 1] == crate::environment::SystemAction::SetMarker(false)
}

/// Every radio write happens while the interrupted-transaction marker is
/// set: a radio change either changes nothing outside, or sets the marker,
/// makes one or two writes, and clears the marker afterwards unless
/// recovery is required (then the marker stays set).
#[verifier::spinoff_prover]
#[verifier::rlimit(60)]
pub proof fn lemma_radio_writes_are_marked(
    o: ApplicationSnapshotView,
    w: EnvironmentView,
    band: RadioBand,
    u: RadioUpdate,
    n: ApplicationSnapshotView,
    v: EnvironmentView,
    r: Result<ApplicationSnapshot, OperationFailure>,
)
    requires
        crate::application::is_radio_change_outcome(o, w, band, u, n, v, r),
    ensures
        v.actions.len() >= w.actions.len(),
        v.actions.subrange(0, w.actions.len() as int) == w.actions,
        ({
            let a = v.actions.subrange(w.actions.len() as int, v.actions.len() as int);
            ||| a.len() == 0 && v.interrupted == w.interrupted
            ||| is_marked_transaction(a, 1, true, true) && !v.interrupted
            ||| is_marked_transaction(a, 2, true, true) && !v.interrupted
            ||| is_marked_transaction(a, 2, false, true) && v.interrupted
        }),
{
    let k = w.actions.len() as int;
    if !o.recovery_required && o.mutations_qualified && radio_of(w, band) is Some {
        let c = radio_of(w, band)->0;
        let d = choose|d: RadioConfiguration| #[trigger] crate::radio::is_updated_configuration(d, c, u)
            && (if crate::model::radio_configuration_equal(d, c) {
                (r matches Ok(s) && s@ == n) && n == o && v == crate::application::read_once(w)
            } else {
                is_radio_transaction(o, crate::application::read_once(w), band, c, d, n, v, r)
            });
        if !crate::model::radio_configuration_equal(d, c) {
            let w1 = crate::application::read_once(w);
            let (w3, wr) = choose|w3: EnvironmentView, wr: Result<(), OperationFailure>|
                #[trigger] crate::environment::radio_write_outcome(crate::application::marked(w1, true), band, d, w3, wr)
                && crate::application::is_radio_write_settled(o, band, c, d, n, v, r, w3, wr);
            assert(crate::environment::radio_write_outcome(crate::application::marked(w1, true), band, d, w3, wr));
            assert(w3.actions == w.actions.push(crate::environment::SystemAction::SetMarker(true))
                .push(crate::environment::SystemAction::WriteRadio(band, d, radio_of(crate::application::marked(w1, true), band))));
            if wr is Ok && stores(w3, band, d) || stores(w3, band, c) {
                assert(v.actions.subrange(k, v.actions.len() as int) =~= seq![
                    crate::environment::SystemAction::SetMarker(true),
                    crate::environment::SystemAction::WriteRadio(band, d, radio_of(crate::application::marked(w1, true), band)),
                    crate::environment::SystemAction::SetMarker(false)]);
            } else {
                let w4 = crate::application::read_once(w3);
                let (w5, rr) = choose|w5: EnvironmentView, rr: Result<(), OperationFailure>|
                    #[trigger] crate::environment::radio_write_outcome(w4, band, c, w5, rr) && crate::application::is_radio_restore_settled(o, band, c, n, v, r, w5, rr);
                assert(crate::environment::radio_write_outcome(w4, band, c, w5, rr));
                let a = v.actions.subrange(k, v.actions.len() as int);
                if rr is Ok && stores(w5, band, c) {
                    assert(a =~= seq![
                        crate::environment::SystemAction::SetMarker(true),
                        crate::environment::SystemAction::WriteRadio(band, d, radio_of(crate::application::marked(w1, true), band)),
                        crate::environment::SystemAction::WriteRadio(band, c, radio_of(w4, band)),
                        crate::environment::SystemAction::SetMarker(false)]);
                } else {
                    assert(a =~= seq![
                        crate::environment::SystemAction::SetMarker(true),
                        crate::environment::SystemAction::WriteRadio(band, d, radio_of(crate::application::marked(w1, true), band)),
                        crate::environment::SystemAction::WriteRadio(band, c, radio_of(w4, band))]);
                }
            }
        } else {
            assert(v.actions.subrange(k, v.actions.len() as int) =~= Seq::<crate::environment::SystemAction>::empty());
        }
    } else {
        assert(v.actions.subrange(k, v.actions.len() as int) =~= Seq::<crate::environment::SystemAction>::empty());
    }
}


/// Every role write happens while the interrupted-transaction marker is
/// set: a role change either changes nothing outside, or sets the marker,
/// makes one or two writes, and clears the marker afterwards unless
/// recovery is required (then the marker stays set).
#[verifier::spinoff_prover]
#[verifier::rlimit(60)]
pub proof fn lemma_role_writes_are_marked(
    o: ApplicationSnapshotView,
    w: EnvironmentView,
    requested: DeviceRole,
    confirmed: bool,
    n: ApplicationSnapshotView,
    v: EnvironmentView,
    r: Result<ApplicationSnapshot, OperationFailure>,
)
    requires
        is_role_change_outcome(o, w, requested, confirmed, n, v, r),
    ensures
        v.actions.len() >= w.actions.len(),
        v.actions.subrange(0, w.actions.len() as int) == w.actions,
        ({
            let a = v.actions.subrange(w.actions.len() as int, v.actions.len() as int);
            ||| a.len() == 0 && v.interrupted == w.interrupted
            ||| is_marked_transaction(a, 1, true, false) && !v.interrupted
            ||| is_marked_transaction(a, 2, true, false) && !v.interrupted
            ||| is_marked_transaction(a, 2, false, false) && v.interrupted
        }),
{
    let k = w.actions.len() as int;
    if requested != DeviceRole::WifiAdapter && confirmed && !o.recovery_required && o.mutations_qualified
        && w.role is Some && w.role->0 != requested {
        let r0 = w.role->0;
        let m = crate::application::marked(w, true);
        let (w2, wr) = choose|w2: EnvironmentView, wr: Result<(), OperationFailure>|
            #[trigger] crate::environment::role_write_outcome(m, requested, w2, wr)
            && crate::application::is_role_write_settled(o, r0, requested, n, v, r, w2, wr);
        assert(crate::environment::role_write_outcome(m, requested, w2, wr));
        let first = seq![crate::environment::SystemAction::SetMarker(true), crate::environment::SystemAction::WriteRole(requested, w.role)];
        assert(w2.actions =~= w.actions + first);
        if wr is Ok && w2.role == Some(requested) || w2.role == Some(r0) {
            assert(v.actions.subrange(k, v.actions.len() as int) =~= first.push(crate::environment::SystemAction::SetMarker(false)));
        } else {
            let (w3, rr) = choose|w3: EnvironmentView, rr: Result<(), OperationFailure>|
                #[trigger] crate::environment::role_write_outcome(w2, r0, w3, rr) && crate::application::is_role_restore_settled(o, r0, n, v, r, w3, rr);
            assert(crate::environment::role_write_outcome(w2, r0, w3, rr));
            let both = first.push(crate::environment::SystemAction::WriteRole(r0, w2.role));
            assert(w3.actions =~= w.actions + both);
            if rr is Ok && w3.role == Some(r0) {
                assert(v.actions.subrange(k, v.actions.len() as int) =~= both.push(crate::environment::SystemAction::SetMarker(false)));
            } else {
                assert(v.actions.subrange(k, v.actions.len() as int) =~= both);
            }
        }
    } else {
        assert(v.actions.subrange(k, v.actions.len() as int) =~= Seq::<crate::environment::SystemAction>::empty());
    }
}


// No operation stays active: when none was active before, every operation,
// whatever its outcome (a refusal, a rollback or recovery included), leaves
// none active, so that an ordinary close of the window is allowed again.

/// A device or host operation (verification, managed sharing, radio settings, device role, recovery baseline) leaves no operation active.
pub proof fn lemma_commands_leave_no_operation_active(
    o: ApplicationSnapshotView,
    w: EnvironmentView,
    c: crate::driver::Command,
    n: ApplicationSnapshotView,
    v: EnvironmentView,
    r: Result<ApplicationSnapshot, OperationFailure>,
)
    requires
        crate::driver::is_command_outcome(o, w, c, n, v, r),
        o.active_operation is None,
    ensures
        n.active_operation is None,
{
}

/// Saving a client label leaves no operation active.
pub proof fn lemma_saving_leaves_no_operation_active(
    o: ApplicationSnapshotView,
    w: EnvironmentView,
    hw: Seq<char>,
    label: Seq<char>,
    n: ApplicationSnapshotView,
    v: EnvironmentView,
    r: Result<ApplicationSnapshot, OperationFailure>,
)
    requires
        is_save_outcome(o, w, hw, label, n, v, r),
        o.active_operation is None,
    ensures
        n.active_operation is None,
{
}

/// Renaming a saved client leaves no operation active.
pub proof fn lemma_renaming_leaves_no_operation_active(
    o: ApplicationSnapshotView,
    w: EnvironmentView,
    hw: Seq<char>,
    label: Seq<char>,
    n: ApplicationSnapshotView,
    v: EnvironmentView,
    r: Result<ApplicationSnapshot, OperationFailure>,
)
    requires
        is_rename_outcome(o, w, hw, label, n, v, r),
        o.active_operation is None,
    ensures
        n.active_operation is None,
{
}

/// Moving a saved label to a new hardware address leaves no operation active.
pub proof fn lemma_reassociating_leaves_no_operation_active(
    o: ApplicationSnapshotView,
    w: EnvironmentView,
    previous: Seq<char>,
    new: Seq<char>,
    confirmed: bool,
    n: ApplicationSnapshotView,
    v: EnvironmentView,
    r: Result<ApplicationSnapshot, OperationFailure>,
)
    requires
        is_reassociate_outcome(o, w, previous, new, confirmed, n, v, r),
        o.active_operation is None,
    ensures
        n.active_operation is None,
{
}

/// Forgetting, clearing or resetting saved clients (each a committed change) leaves no operation active.
pub proof fn lemma_saved_client_changes_leave_no_operation_active(
    o: ApplicationSnapshotView,
    w: EnvironmentView,
    clients: Seq<SavedClientView>,
    e: Seq<crate::model::ClientEvidenceView>,
    n: ApplicationSnapshotView,
    v: EnvironmentView,
    r: Result<ApplicationSnapshot, OperationFailure>,
)
    requires
        is_committed_change(o, w, clients, e, n, v, r),
        o.active_operation is None,
    ensures
        n.active_operation is None,
{
}

/// Refreshing client evidence leaves no operation active.
pub proof fn lemma_evidence_refresh_leaves_no_operation_active(
    o: ApplicationSnapshotView,
    w: EnvironmentView,
    visible: bool,
    n: ApplicationSnapshotView,
    v: EnvironmentView,
    r: Result<ApplicationSnapshot, OperationFailure>,
)
    requires
        is_client_evidence_outcome(o, w, visible, n, v, r),
        o.active_operation is None,
    ensures
        n.active_operation is None,
{
}

/// Reading the radio settings leaves no operation active.
pub proof fn lemma_radio_read_leaves_no_operation_active(
    o: ApplicationSnapshotView,
    w: EnvironmentView,
    n: ApplicationSnapshotView,
    v: EnvironmentView,
    r: Result<ApplicationSnapshot, OperationFailure>,
)
    requires
        crate::application::is_radio_read_outcome(o, w, n, v, r),
        o.active_operation is None,
    ensures
        n.active_operation is None,
{
}

/// Inspecting host sharing leaves no operation active.
pub proof fn lemma_inspection_leaves_no_operation_active(
    o: ApplicationSnapshotView,
    w: EnvironmentView,
    n: ApplicationSnapshotView,
    r: Result<ApplicationSnapshot, OperationFailure>,
)
    requires
        crate::application::is_inspection_outcome(o, w, n, r),
        o.active_operation is None,
    ensures
        n.active_operation is None,
{
}

/// Selecting a candidate leaves no operation active.
pub proof fn lemma_selection_leaves_no_operation_active(
    o: ApplicationSnapshotView,
    id: Seq<char>,
    n: ApplicationSnapshotView,
)
    requires
        is_selection_of(o, id, n),
        o.active_operation is None,
    ensures
        n.active_operation is None,
{
}

/// Refreshing the candidate list leaves no operation active.
pub proof fn lemma_candidate_refresh_leaves_no_operation_active(
    o: ApplicationSnapshotView,
    candidates: Seq<crate::model::PuppisCandidate>,
    n: ApplicationSnapshotView,
)
    requires
        is_refreshed_candidates(o, candidates, n),
        o.active_operation is None,
    ensures
        n.active_operation is None,
{
}

/// A label that is valid once trimmed is never refused as invalid: saving
/// it gives the invalid-label code only when a storage failure with that
/// very code was recorded before (a recorded failure is reported as it is).
pub proof fn lemma_valid_labels_are_not_refused_as_invalid(
    o: ApplicationSnapshotView,
    w: EnvironmentView,
    hw: Seq<char>,
    label: Seq<char>,
    n: ApplicationSnapshotView,
    v: EnvironmentView,
    r: Result<ApplicationSnapshot, OperationFailure>,
)
    requires
        is_save_outcome(o, w, hw, label, n, v, r),
        crate::saved::is_valid_label(crate::text::trimmed(label)),
        !(w.saved_clients_failure matches Some(f) && f.code@ == "invalid_client_label"@),
    ensures
        !(r matches Err(f) && f.code@ == "invalid_client_label"@),
{
    reveal_strlit("invalid_client_label");
    reveal_strlit("observed_client_required");
    reveal_strlit("client_label_not_unique");
    reveal_strlit("saved_client_limit_reached");
    reveal_strlit("saved_clients_storage_failed");
    assert("invalid_client_label"@.len() == 20);
    assert("observed_client_required"@.len() == 24);
    assert("client_label_not_unique"@.len() == 23);
    assert("saved_client_limit_reached"@.len() == 26);
    assert("saved_clients_storage_failed"@.len() == 28);
}


/// The network-name check accepts exactly 1 to 18 bytes that are all ASCII
/// digits (0x30-0x39), upper-case letters (0x41-0x5A) or lower-case letters
/// (0x61-0x7A); `radio::ssid_valid` answers this.
pub proof fn lemma_network_names_are_ascii_alphanumeric(name: Seq<char>)
    ensures
        crate::radio::is_valid_ssid(name) <==> {
            let b = crate::text::text_bytes(name);
            &&& 1 <= b.len() <= 18
            &&& forall|i: int| 0 <= i < b.len() ==> {
                ||| 0x30 <= #[trigger] b[i] <= 0x39
                ||| 0x41 <= b[i] <= 0x5A
                ||| 0x61 <= b[i] <= 0x7A
            }
        },
{
}

/// The password check accepts exactly 8 to 63 bytes that are all ASCII
/// digits or letters or one of the symbols ? ! @ & $ % * _ ~ ^ # - / . + : ; =
/// (byte values listed below); `radio::password_valid` answers this.
pub proof fn lemma_passwords_use_the_qualified_alphabet(password: Seq<char>)
    ensures
        crate::radio::is_valid_password(password) <==> {
            let b = crate::text::text_bytes(password);
            &&& 8 <= b.len() <= 63
            &&& forall|i: int| 0 <= i < b.len() ==> {
                ||| 0x30 <= #[trigger] b[i] <= 0x39
                ||| 0x41 <= b[i] <= 0x5A
                ||| 0x61 <= b[i] <= 0x7A
                ||| b[i] == 63 || b[i] == 33 || b[i] == 64 || b[i] == 38 || b[i] == 36 || b[i] == 37
                ||| b[i] == 42 || b[i] == 95 || b[i] == 126 || b[i] == 94 || b[i] == 35 || b[i] == 45
                ||| b[i] == 47 || b[i] == 46 || b[i] == 43 || b[i] == 58 || b[i] == 59 || b[i] == 61
            }
        },
{
}

/// A character may stand in a label exactly when it is neither a control
/// character (code points up to U+001F and U+007F to U+009F) nor an
/// invisible format character. In particular every printable ASCII
/// character (U+0020 to U+007E: the space, punctuation such as the
/// apostrophe, digits and letters) and every printable Latin-1 character
/// (U+00A0 to U+00FF but the soft hyphen U+00AD) is allowed; and a trimmed
/// label is valid exactly when it has 1 to 40 such characters.
pub proof fn lemma_label_characters(c: char, label: Seq<char>)
    ensures
        crate::saved::is_label_char(c) <==> !((c as u32) <= 0x1f || (0x7f <= (c as u32) && (c as u32) <= 0x9f))
            && !crate::saved::is_format_char(c),
        0x20 <= (c as u32) <= 0x7e ==> crate::saved::is_label_char(c),
        0xa0 <= (c as u32) <= 0xff && (c as u32) != 0xad ==> crate::saved::is_label_char(c),
        crate::saved::is_valid_label(label) <==> 1 <= label.len() <= 40
            && forall|i: int| 0 <= i < label.len() ==> #[trigger] crate::saved::is_label_char(label[i]),
{
}

/// With no subnet conflict, an active, IPv4-shared host profile is working
/// sharing, whatever its other settings (IPv6, autoconnect, upstream): the
/// application's own profile is reported healthy as "Managed host sharing
/// is active", an external one healthy as working through an external
/// profile. A subnet conflict always comes first.
pub proof fn lemma_active_shared_profiles_are_healthy(s: crate::model::StatusDimension, o: crate::model::HostSharingObservation)
    requires
        crate::sharing::is_sharing_status(s, o),
    ensures
        o.subnet_conflict ==> s.level == crate::model::StatusLevel::Attention
            && s.summary@ == "Puppis subnet conflict detected"@,
        !o.subnet_conflict && o.active && o.ipv4_shared && o.profile_kind == ProfileKind::Managed ==>
            s.level == crate::model::StatusLevel::Healthy && s.summary@ == "Managed host sharing is active"@ && s.guidance is None,
        !o.subnet_conflict && o.active && o.ipv4_shared && o.profile_kind == ProfileKind::External ==>
            s.level == crate::model::StatusLevel::Healthy && s.summary@ == "Host sharing works through an external profile"@,
        !o.subnet_conflict && !(o.active && o.ipv4_shared && o.profile_kind != ProfileKind::Absent) ==>
            s.level == crate::model::StatusLevel::Attention
            && s.summary@ == (if o.upstream_available { "Host sharing is not configured"@ } else { "No upstream internet route"@ }),
{
}

/// The protocol's role codes: "1" is the Prism Pulse role, "2" the Wi-Fi
/// hotspot, "3" the Wi-Fi adapter. Reading a role code back inverts the
/// code of every role, and only these three codes name a role.
pub proof fn lemma_role_codes_round_trip()
    ensures
        crate::environment::code_for_role(DeviceRole::PrismPulse) == "1"@,
        crate::environment::code_for_role(DeviceRole::WifiHotspot) == "2"@,
        crate::environment::code_for_role(DeviceRole::WifiAdapter) == "3"@,
        forall|r: DeviceRole| #[trigger] crate::environment::role_for_code(crate::environment::code_for_role(r)) == Some(r),
        forall|c: Seq<char>| #[trigger] crate::environment::role_for_code(c) matches Some(r)
            ==> c == crate::environment::code_for_role(r),
{
    reveal_strlit("1");
    reveal_strlit("2");
    reveal_strlit("3");
    assert("1"@ != "2"@ && "1"@ != "3"@ && "2"@ != "3"@) by {
        assert("1"@[0] != "2"@[0] && "1"@[0] != "3"@[0] && "2"@[0] != "3"@[0]);
    }
}

/// The snapshot of a radio shows its settings as the device reports them:
/// the radio is shown enabled exactly when its enable setting is "1"; the
/// network name, channel, country and bandwidth are copied; a name change
/// is offered exactly on qualified firmware, a password change only for the
/// 5 GHz radio on qualified firmware; the qualified channels are automatic
/// ("0") and 36 (5 GHz) or 6 (2.4 GHz), only in Canada on qualified firmware.
pub proof fn lemma_radio_snapshots_show_the_device_settings(
    v: crate::model::RadioSnapshotView,
    band: RadioBand,
    c: RadioConfiguration,
    qualified: bool,
)
    requires
        crate::radio::is_radio_snapshot_of(v, band, c, qualified),
    ensures
        v.enabled <==> c.enabled@ == "1"@,
        v.band == band,
        v.ssid == c.ssid@,
        v.channel == c.channel@,
        v.country == c.country@,
        v.bandwidth == c.bandwidth@,
        v.ssid_mutation == qualified,
        v.password_mutation <==> qualified && band == RadioBand::FiveGhz,
        v.password_unavailable_reason is None <==> qualified && band == RadioBand::FiveGhz,
        !(qualified && c.country@ == "CA"@) ==> v.qualified_channels.len() == 0,
        qualified && c.country@ == "CA"@ && band == RadioBand::FiveGhz ==> v.qualified_channels == seq!["0"@, "36"@],
        qualified && c.country@ == "CA"@ && band == RadioBand::TwoPointFourGhz ==> v.qualified_channels == seq!["0"@, "6"@],
{
}

/// Verifying the selected device: with no pending unreachable read and an
/// answering device, verification succeeds exactly when the device reports
/// the model "P1411"; it then records that identity, the role its code names
/// ("1" Prism Pulse, "2" Wi-Fi hotspot, "3" Wi-Fi adapter), and qualifies
/// mutations exactly on the firmware "B-MD2FP1411V1.22-250108-r0e17". Any
/// other answer leaves the snapshot as it was.
pub proof fn lemma_verification_checks_model_and_firmware(
    o: ApplicationSnapshotView,
    w: EnvironmentView,
    n: ApplicationSnapshotView,
    v: EnvironmentView,
    r: Result<ApplicationSnapshot, OperationFailure>,
)
    requires
        crate::application::is_verification_outcome(o, w, n, v, r),
        w.identity_failures_remaining == 0,
        w.identity is Some,
    ensures
        r is Ok <==> w.identity->0.model@ == "P1411"@,
        r is Err ==> n == o,
        r is Ok ==> {
            let i = w.identity->0;
            &&& n.verified_puppis == Some(i)
            &&& (n.mutations_qualified <==> i.firmware@ == "B-MD2FP1411V1.22-250108-r0e17"@)
            &&& (i.role_code@ == "1"@ ==> n.device_role == Some(DeviceRole::PrismPulse))
            &&& (i.role_code@ == "2"@ ==> n.device_role == Some(DeviceRole::WifiHotspot))
            &&& (i.role_code@ == "3"@ ==> n.device_role == Some(DeviceRole::WifiAdapter))
            &&& (!(i.role_code@ == "1"@ || i.role_code@ == "2"@ || i.role_code@ == "3"@) ==> n.device_role is None)
        },
{
    lemma_role_codes_round_trip();
    reveal_strlit("B-MD2FP1411V1.22-250108-r0e17");
}

/// Client evidence is keyed by the ASCII lower-case hardware address: each
/// upper-case letter A-Z becomes its lower-case letter and every other
/// character stays. The reserved addresses are exactly the subnet's network
/// address 192.168.137.0, the host 192.168.137.1 and the broadcast address
/// 192.168.137.255, and the Puppis is the observation at 192.168.137.254.
pub proof fn lemma_evidence_keys_and_reserved_addresses(h: Seq<char>, a: Seq<char>, o: crate::model::ClientNetworkObservation)
    ensures
        hardware_key(h).len() == h.len(),
        forall|i: int| 0 <= i < h.len() ==> #[trigger] hardware_key(h)[i] == (if 'A' <= h[i] && h[i] <= 'Z' { ((h[i] as u32) + 32) as char } else { h[i] }),
        is_reserved_address(a) <==> (a == "192.168.137.0"@ || a == "192.168.137.1"@ || a == "192.168.137.255"@),
        is_puppis_observation(o) <==> (o.address matches Some(x) && x@ == "192.168.137.254"@),
{
}

/// Only the stable identifier "14e8cce1-e96d-4d55-b014-141100000001" makes
/// a profile the application's own; any other identifier, or none, is an
/// external profile.
pub proof fn lemma_profile_ownership_is_the_stable_identifier(uuid: Option<String>)
    ensures
        crate::sharing::profile_kind_of(uuid) == ProfileKind::Managed
            <==> (uuid matches Some(u) && u@ == "14e8cce1-e96d-4d55-b014-141100000001"@),
        crate::sharing::profile_kind_of(uuid) != ProfileKind::Managed ==> crate::sharing::profile_kind_of(uuid) == ProfileKind::External,
{
}

/// Label collision is an equivalence between two labels that does not
/// depend on their order, and a label collides with itself: a label that a
/// client of another hardware address uses is taken.
pub proof fn lemma_label_collision_is_symmetric(a: Seq<char>, b: Seq<char>, saved: Seq<SavedClientView>, k: int, key: Seq<char>)
    requires
        0 <= k < saved.len(),
        saved[k].hardware_address != key,
    ensures
        labels_collide(a, a),
        labels_collide(a, b) == labels_collide(b, a),
        label_taken(saved, key, saved[k].label),
{
    assert(labels_collide(saved[k].label, saved[k].label));
}

/// The settings that a radio change writes: each field that the update asks
/// for is replaced by the requested text (network name, channel, password),
/// and every other setting is kept as the device reported it.
pub proof fn lemma_updates_replace_only_the_requested_fields(d: RadioConfiguration, c: RadioConfiguration, u: RadioUpdate)
    requires
        crate::radio::is_updated_configuration(d, c, u),
    ensures
        u.ssid matches Some(x) ==> d.ssid@ == x@,
        u.ssid is None ==> d.ssid@ == c.ssid@,
        u.channel matches Some(x) ==> d.channel@ == x@,
        u.channel is None ==> d.channel@ == c.channel@,
        u.password matches Some(x) ==> d.password@ == x@,
        u.password is None ==> d.password@ == c.password@,
        d.protection == c.protection,
        d.country == c.country,
        d.enabled == c.enabled,
        d.encryption == c.encryption,
        d.bandwidth == c.bandwidth,
{
}

} // verus!
