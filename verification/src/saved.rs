//! Saved client labels: what a valid label is, when two labels collide,
//! and how the saved list is kept (one entry per hardware address, ordered
//! by lower-cased label).

use vstd::prelude::*;
use crate::model::{SavedClient, SavedClientView, saved_views};
use crate::text::{
    less_than, lemma_text_less_order, lowercase, text_less, trimmed, unicode_lowercase,
    unicode_uppercase, uppercase,
};

verus! {

/// The most saved clients that can be kept.
pub const SAVED_CLIENT_LIMIT: usize = 10;

/// The longest label, in characters.
pub const LABEL_MAX_CHARS: usize = 40;

/// A control character (Unicode category Cc).
pub open spec fn is_control_char(c: char) -> bool {
    let u = c as u32;
    u <= 0x1f || (0x7f <= u && u <= 0x9f)
}

/// An invisible formatting character (Unicode category Cf), such as
/// bidirectional overrides and zero-width characters.
pub open spec fn is_format_char(c: char) -> bool {
    let u = c as u32;
    u == 0xad || (0x600 <= u && u <= 0x605) || u == 0x61c || u == 0x6dd || u == 0x70f
        || u == 0x890 || u == 0x891 || u == 0x8e2 || u == 0x180e || (0x200b <= u && u <= 0x200f)
        || (0x202a <= u && u <= 0x202e) || (0x2060 <= u && u <= 0x2064) || (0x2066 <= u && u <= 0x206f)
        || u == 0xfeff || (0xfff9 <= u && u <= 0xfffb) || u == 0x110bd || u == 0x110cd
        || (0x13430 <= u && u <= 0x1343f) || (0x1bca0 <= u && u <= 0x1bca3) || (0x1d173 <= u && u <= 0x1d17a)
        || u == 0xe0001 || (0xe0020 <= u && u <= 0xe007f)
}

/// A character that may appear in a label.
pub open spec fn is_label_char(c: char) -> bool {
    !is_control_char(c) && !is_format_char(c)
}

/// A trimmed label is valid: 1 to 40 printable characters.
pub open spec fn is_valid_label(label: Seq<char>) -> bool {
    &&& 0 < label.len() <= LABEL_MAX_CHARS
    &&& forall|i: int| 0 <= i < label.len() ==> is_label_char(#[trigger] label[i])
}

fn label_char_allowed(c: char) -> (r: bool)
    ensures
        r == is_label_char(c),
{
    let u = c as u32;
    let control = u <= 0x1f || (0x7f <= u && u <= 0x9f);
    let format = u == 0xad || (0x600 <= u && u <= 0x605) || u == 0x61c || u == 0x6dd || u == 0x70f
        || u == 0x890 || u == 0x891 || u == 0x8e2 || u == 0x180e || (0x200b <= u && u <= 0x200f)
        || (0x202a <= u && u <= 0x202e) || (0x2060 <= u && u <= 0x2064) || (0x2066 <= u && u <= 0x206f)
        || u == 0xfeff || (0xfff9 <= u && u <= 0xfffb) || u == 0x110bd || u == 0x110cd
        || (0x13430 <= u && u <= 0x1343f) || (0x1bca0 <= u && u <= 0x1bca3) || (0x1d173 <= u && u <= 0x1d17a)
        || u == 0xe0001 || (0xe0020 <= u && u <= 0xe007f);
    !control && !format
}

/// Whether a trimmed label is valid.
pub fn is_label_valid(label: &String) -> (r: bool)
    ensures
        r == is_valid_label(label@),
{
    let mut count: usize = 0;
    let mut printable = true;
    for c in it: label.as_str().chars()
        invariant
            it.seq() == label@,
            count == it.index(),
            count <= LABEL_MAX_CHARS,
            printable == forall|j: int| 0 <= j < count ==> is_label_char(#[trigger] label@[j]),
    {
        if count == LABEL_MAX_CHARS {
            assert(label@.len() > LABEL_MAX_CHARS);
            return false;
        }
        assert(label@[count as int] == c);
        if !label_char_allowed(c) {
            printable = false;
        }
        count = count + 1;
    }
    count > 0 && printable
}

/// Two labels are the same label: equal after lower-casing, or after
/// upper-casing (so that "Straße" and "STRASSE" collide).
pub open spec fn labels_collide(a: Seq<char>, b: Seq<char>) -> bool {
    unicode_lowercase(a) == unicode_lowercase(b) || unicode_uppercase(a) == unicode_uppercase(b)
}

/// Whether two labels collide.
pub fn labels_match(a: &String, b: &String) -> (r: bool)
    ensures
        r == labels_collide(a@, b@),
{
    let la = lowercase(a.as_str());
    let lb = lowercase(b.as_str());
    if la == lb {
        return true;
    }
    let ua = uppercase(a.as_str());
    let ub = uppercase(b.as_str());
    ua == ub
}

/// Another saved client (one with a different hardware address) already
/// uses a colliding label.
pub open spec fn label_taken(saved: Seq<SavedClientView>, hardware_address: Seq<char>, label: Seq<char>) -> bool {
    exists|i: int| 0 <= i < saved.len() && saved[i].hardware_address != hardware_address && labels_collide(saved[i].label, label)
}

/// Whether another saved client already uses a colliding label.
pub fn is_label_taken(saved: &Vec<SavedClient>, hardware_address: &String, label: &String) -> (r: bool)
    ensures
        r == label_taken(saved_views(saved@), hardware_address@, label@),
{
    for i in 0..saved.len()
        invariant
            forall|j: int| 0 <= j < i ==> !(saved@[j]@.hardware_address != hardware_address@ && labels_collide(saved@[j]@.label, label@)),
    {
        if saved[i].hardware_address != *hardware_address && labels_match(&saved[i].label, label) {
            assert(saved_views(saved@)[i as int] == saved@[i as int]@);
            return true;
        }
    }
    proof {
        if label_taken(saved_views(saved@), hardware_address@, label@) {
            let i = choose|i: int| 0 <= i < saved_views(saved@).len() && saved_views(saved@)[i].hardware_address != hardware_address@
                && labels_collide(saved_views(saved@)[i].label, label@);
            assert(saved_views(saved@)[i] == saved@[i]@);
        }
    }
    false
}

/// The index of the first saved client with exactly this hardware address.
pub open spec fn is_first_saved_index(saved: Seq<SavedClientView>, h: Seq<char>, i: int) -> bool {
    &&& 0 <= i < saved.len()
    &&& saved[i].hardware_address == h
    &&& forall|j: int| 0 <= j < i ==> saved[j].hardware_address != h
}

/// Some saved client has exactly this hardware address.
pub open spec fn is_saved_hardware(saved: Seq<SavedClientView>, h: Seq<char>) -> bool {
    exists|i: int| 0 <= i < saved.len() && saved[i].hardware_address == h
}

/// The first saved client with exactly this hardware address.
pub fn find_saved(saved: &Vec<SavedClient>, h: &String) -> (r: Option<usize>)
    ensures
        match r {
            Some(i) => is_first_saved_index(saved_views(saved@), h@, i as int),
            None => !is_saved_hardware(saved_views(saved@), h@),
        },
{
    for i in 0..saved.len()
        invariant
            forall|j: int| 0 <= j < i ==> saved_views(saved@)[j].hardware_address != h@,
    {
        if saved[i].hardware_address == *h {
            return Some(i);
        }
    }
    None
}

/// Saved clients are ordered by lower-cased label.
pub open spec fn is_label_ordered(saved: Seq<SavedClientView>) -> bool {
    forall|i: int, j: int| 0 <= i < j < saved.len() ==>
        !text_less(unicode_lowercase(saved[j].label), unicode_lowercase(saved[i].label))
}

/// Orders saved clients by lower-cased label (a stable insertion sort).
pub fn sort_saved_clients(v: Vec<SavedClient>) -> (r: Vec<SavedClient>)
    ensures
        saved_views(r@).to_multiset() == saved_views(v@).to_multiset(),
        r@.len() == v@.len(),
        is_label_ordered(saved_views(r@)),
{
    broadcast use vstd::seq_lib::group_to_multiset_ensures;
    let mut r: Vec<SavedClient> = Vec::new();
    let mut keys: Vec<String> = Vec::new();
    let mut input = v;
    let ghost original = saved_views(input@);
    while input.len() > 0
        invariant
            saved_views(r@).to_multiset().add(saved_views(input@).to_multiset()) == original.to_multiset(),
            is_label_ordered(saved_views(r@)),
            keys@.len() == r@.len(),
            forall|j: int| 0 <= j < r@.len() ==> (#[trigger] keys@[j])@ == unicode_lowercase(r@[j].label@),
            r@.len() + input@.len() == original.len(),
        decreases input@.len(),
    {
        let ghost input_before = saved_views(input@);
        let x = input.remove(0);
        proof {
            assert(saved_views(input@) =~= input_before.remove(0));
            assert(input_before[0] == x@);
            assert(input_before.contains(x@));
            input_before.to_multiset_ensures();
            assert(input_before.to_multiset() =~= saved_views(input@).to_multiset().insert(x@));
        }
        let key = lowercase(x.label.as_str());
        let ghost sorted_before = saved_views(r@);
        let ghost keys_before = keys@;
        let mut i: usize = 0;
        while i < r.len()
            invariant
                saved_views(r@) == sorted_before,
                keys@ == keys_before,
                keys@.len() == r@.len(),
                forall|j: int| 0 <= j < r@.len() ==> (#[trigger] keys@[j])@ == unicode_lowercase(r@[j].label@),
                i <= r@.len(),
                forall|j: int| 0 <= j < i ==> !text_less(key@, unicode_lowercase(#[trigger] sorted_before[j].label)),
            ensures
                i <= r@.len(),
                forall|j: int| 0 <= j < i ==> !text_less(key@, unicode_lowercase(#[trigger] sorted_before[j].label)),
                i < r@.len() ==> text_less(key@, unicode_lowercase(sorted_before[i as int].label)),
            decreases r@.len() - i,
        {
            assert(sorted_before[i as int] == r@[i as int]@);
            if less_than(key.as_str(), keys[i].as_str()) {
                break;
            }
            i = i + 1;
        }
        r.insert(i, x);
        keys.insert(i, key);
        proof {
            let after = saved_views(r@);
            assert(after =~= sorted_before.insert(i as int, x@));
            vstd::seq_lib::to_multiset_insert(sorted_before, i as int, x@);
            assert(after.to_multiset() =~= sorted_before.to_multiset().insert(x@));
            assert(after.to_multiset().add(saved_views(input@).to_multiset())
                =~= sorted_before.to_multiset().add(input_before.to_multiset()));
            assert forall|j: int| 0 <= j < r@.len() implies (#[trigger] keys@[j])@ == unicode_lowercase(r@[j].label@) by {
                if j < i {
                    assert(keys@[j] == keys_before[j]);
                } else if j > i {
                    assert(keys@[j] == keys_before[j - 1]);
                    assert(sorted_before[j - 1] == after[j]);
                }
            }
            assert forall|a: int, b: int| 0 <= a < b < after.len() implies
                !text_less(unicode_lowercase(after[b].label), unicode_lowercase(after[a].label)) by {
                let lx = unicode_lowercase(x@.label);
                if b < i {
                    assert(after[a] == sorted_before[a] && after[b] == sorted_before[b]);
                } else if b == i {
                    assert(after[a] == sorted_before[a]);
                } else if a == i {
                    assert(after[b] == sorted_before[b - 1]);
                    let li = unicode_lowercase(sorted_before[i as int].label);
                    let lb = unicode_lowercase(sorted_before[b - 1].label);
                    lemma_text_less_order(lb, lx, li);
                    lemma_text_less_order(lx, li, lb);
                    lemma_text_less_order(lb, li, lx);
                    if b - 1 > i {
                        assert(!text_less(lb, li));
                    }
                } else if a < i {
                    assert(after[a] == sorted_before[a] && after[b] == sorted_before[b - 1]);
                } else {
                    assert(after[a] == sorted_before[a - 1] && after[b] == sorted_before[b - 1]);
                }
            }
        }
    }
    proof {
        assert(saved_views(input@) =~= Seq::<SavedClientView>::empty());
        assert(saved_views(input@).to_multiset() =~= vstd::multiset::Multiset::empty());
        assert(saved_views(r@).to_multiset().add(vstd::multiset::Multiset::empty()) =~= saved_views(r@).to_multiset());
    }
    r
}

/// The saved clients without any entry for this hardware address.
pub open spec fn without_hardware(saved: Seq<SavedClientView>, h: Seq<char>) -> Seq<SavedClientView> {
    saved.filter(|c: SavedClientView| c.hardware_address != h)
}

/// Removes every saved client with exactly this hardware address.
pub fn remove_saved(saved: &Vec<SavedClient>, h: &String) -> (r: Vec<SavedClient>)
    ensures
        saved_views(r@) == without_hardware(saved_views(saved@), h@),
{
    let mut r: Vec<SavedClient> = Vec::new();
    for i in 0..saved.len()
        invariant
            saved_views(r@) == without_hardware(saved_views(saved@).take(i as int), h@),
    {
        proof {
            reveal(Seq::filter);
            assert(saved_views(saved@).take(i + 1 as int).drop_last() =~= saved_views(saved@).take(i as int));
            assert(saved_views(saved@).take(i + 1 as int).last() == saved@[i as int]@);
        }
        if saved[i].hardware_address != *h {
            let ghost before = saved_views(r@);
            r.push(saved[i].copied());
            assert(saved_views(r@) =~= before.push(saved@[i as int]@));
        }
    }
    assert(saved_views(saved@).take(saved@.len() as int) =~= saved_views(saved@));
    r
}

} // verus!
