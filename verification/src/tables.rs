//! The kernel's text tables (the routing table and the neighbour table):
//! rows of white-space separated fields, one row per line, a header first.

use vstd::prelude::*;
use vstd::string::StrSliceExecFns;
use crate::model::{texts, ClientNetworkObservation};
use crate::text::{ascii_lower, ascii_lowercase, is_text, is_white_space, lemma_text_less_order, less_than, text_less};

verus! {

/// The fields of a text: its maximal runs of characters other than white
/// space, in order (`str::split_whitespace`).
pub open spec fn split_fields(s: Seq<char>) -> Seq<Seq<char>>
    decreases s.len(),
{
    if s.len() == 0 {
        Seq::empty()
    } else {
        let prev = split_fields(s.drop_last());
        let c = s.last();
        if is_white_space(c) {
            prev
        } else if s.len() >= 2 && !is_white_space(s[s.len() - 2]) {
            prev.update(prev.len() - 1, prev.last().push(c))
        } else {
            prev.push(seq![c])
        }
    }
}

/// The pieces of a text between newline characters.
pub open spec fn split_pieces(s: Seq<char>) -> Seq<Seq<char>>
    decreases s.len(),
{
    if s.len() == 0 {
        seq![Seq::empty()]
    } else {
        let prev = split_pieces(s.drop_last());
        if s.last() == '\n' {
            prev.push(Seq::empty())
        } else {
            prev.update(prev.len() - 1, prev.last().push(s.last()))
        }
    }
}

/// The rows of a table: the fields of each line.
pub open spec fn rows_of(s: Seq<char>) -> Seq<Seq<Seq<char>>> {
    split_pieces(s).map_values(|p: Seq<char>| split_fields(p))
}

proof fn lemma_pieces_nonempty(s: Seq<char>)
    ensures
        split_pieces(s).len() >= 1,
    decreases s.len(),
{
    if s.len() > 0 {
        lemma_pieces_nonempty(s.drop_last());
    }
}

fn is_space(c: char) -> (r: bool)
    ensures
        r == is_white_space(c),
{
    let u = c as u32;
    (0x09 <= u && u <= 0x0d) || u == 0x20 || u == 0x85 || u == 0xa0 || u == 0x1680
        || (0x2000 <= u && u <= 0x200a) || u == 0x2028 || u == 0x2029 || u == 0x202f
        || u == 0x205f || u == 0x3000
}

/// The characters of a text.
fn chars_of(s: &str) -> (r: Vec<char>)
    ensures
        r@ == s@,
{
    let n = s.unicode_len();
    let mut r: Vec<char> = Vec::new();
    for i in 0..n
        invariant
            n == s@.len(),
            r@ == s@.take(i as int),
    {
        r.push(s.get_char(i));
        assert(r@ =~= s@.take(i + 1 as int));
    }
    assert(s@.take(n as int) =~= s@);
    r
}

/// The fields of the characters `a..b` of `s`.
fn fields_between(s: &str, cs: &Vec<char>, a: usize, b: usize) -> (r: Vec<String>)
    requires
        cs@ == s@,
        a <= b <= cs@.len(),
    ensures
        texts(r@) == split_fields(cs@.subrange(a as int, b as int)),
{
    let ghost t = cs@.subrange(a as int, b as int);
    let mut out: Vec<String> = Vec::new();
    let mut in_run = false;
    let mut start: usize = a;
    let mut i: usize = a;
    assert(t.take(0) =~= Seq::<char>::empty());
    while i < b
        invariant
            cs@ == s@,
            a <= i <= b <= cs@.len(),
            t == cs@.subrange(a as int, b as int),
            a <= start <= i,
            in_run ==> start < i && !is_white_space(cs@[i - 1])
                && split_fields(t.take(i - a)) == texts(out@).push(cs@.subrange(start as int, i as int)),
            !in_run ==> (i == a || is_white_space(cs@[i - 1])) && split_fields(t.take(i - a)) == texts(out@),
        decreases b - i,
    {
        let c = cs[i];
        let ghost k = i - a;
        let ghost before = texts(out@);
        proof {
            assert(t.take(k + 1).drop_last() =~= t.take(k));
            assert(t.take(k + 1).last() == c);
            if k >= 1 {
                assert(t.take(k + 1)[k - 1] == cs@[i - 1]);
            }
        }
        if is_space(c) {
            if in_run {
                let f = s.substring_char(start, i).to_owned();
                out.push(f);
                assert(texts(out@) =~= before.push(cs@.subrange(start as int, i as int)));
                in_run = false;
            }
        } else {
            if in_run {
                proof {
                    let prev = before.push(cs@.subrange(start as int, i as int));
                    assert(cs@.subrange(start as int, i as int).push(c) =~= cs@.subrange(start as int, i + 1 as int));
                    assert(prev.update(prev.len() - 1, prev.last().push(c))
                        =~= before.push(cs@.subrange(start as int, i + 1 as int)));
                }
            } else {
                assert(cs@.subrange(i as int, i + 1 as int) =~= seq![c]);
                start = i;
                in_run = true;
            }
        }
        i = i + 1;
    }
    if in_run {
        let f = s.substring_char(start, b).to_owned();
        let ghost before = texts(out@);
        out.push(f);
        assert(texts(out@) =~= before.push(cs@.subrange(start as int, b as int)));
    }
    assert(t.take(b - a) =~= t);
    out
}

/// The rows of a table.
pub fn rows(s: &str) -> (r: Vec<Vec<String>>)
    ensures
        r@.len() == rows_of(s@).len(),
        forall|k: int| 0 <= k < r@.len() ==> texts((#[trigger] r@[k])@) == rows_of(s@)[k],
{
    let cs = chars_of(s);
    let n = cs.len();
    let mut out: Vec<Vec<String>> = Vec::new();
    let ghost mut done: Seq<Seq<char>> = Seq::empty();
    let mut p: usize = 0;
    let mut i: usize = 0;
    assert(cs@.take(0) =~= Seq::<char>::empty());
    assert(cs@.subrange(0, 0) =~= Seq::<char>::empty());
    assert(split_pieces(cs@.take(0)) =~= done.push(cs@.subrange(0, 0)));
    while i < n
        invariant
            cs@ == s@,
            n == cs@.len(),
            p <= i <= n,
            split_pieces(cs@.take(i as int)) == done.push(cs@.subrange(p as int, i as int)),
            out@.len() == done.len(),
            forall|k: int| 0 <= k < out@.len() ==> texts((#[trigger] out@[k])@) == split_fields(done[k]),
        decreases n - i,
    {
        proof {
            assert(cs@.take(i + 1 as int).drop_last() =~= cs@.take(i as int));
            assert(cs@.take(i + 1 as int).last() == cs@[i as int]);
        }
        if cs[i] == '\n' {
            let row = fields_between(s, &cs, p, i);
            proof {
                assert(cs@.subrange(i + 1 as int, i + 1 as int) =~= Seq::<char>::empty());
            }
            out.push(row);
            proof {
                done = done.push(cs@.subrange(p as int, i as int));
            }
            p = i + 1;
        } else {
            proof {
                let prev = done.push(cs@.subrange(p as int, i as int));
                assert(cs@.subrange(p as int, i as int).push(cs@[i as int]) =~= cs@.subrange(p as int, i + 1 as int));
                assert(prev.update(prev.len() - 1, prev.last().push(cs@[i as int]))
                    =~= done.push(cs@.subrange(p as int, i + 1 as int)));
            }
        }
        i = i + 1;
    }
    let row = fields_between(s, &cs, p, n);
    out.push(row);
    proof {
        done = done.push(cs@.subrange(p as int, n as int));
        assert(cs@.take(n as int) =~= cs@);
        assert(split_pieces(s@) == done);
    }
    out
}

/// A route of another interface to the Puppis subnet (destination
/// 192.168.137.0, written as little-endian hexadecimal in any letter case).
pub open spec fn is_conflicting_route(row: Seq<Seq<char>>, selected_interface: Seq<char>) -> bool {
    &&& row.len() > 2
    &&& row[0] != selected_interface
    &&& row[1].map_values(|c: char| ascii_lower(c)) == "0089a8c0"@
}

/// Some route after the header row conflicts with the Puppis subnet.
pub open spec fn has_conflicting_route(routes: Seq<char>, selected_interface: Seq<char>) -> bool {
    exists|k: int| 1 <= k < rows_of(routes).len() && is_conflicting_route(#[trigger] rows_of(routes)[k], selected_interface)
}

/// Whether the routing table routes the Puppis subnet through another
/// interface than the selected one.
pub fn routes_conflict(routes: &str, selected_interface: &str) -> (r: bool)
    ensures
        r == has_conflicting_route(routes@, selected_interface@),
{
    let table = rows(routes);
    let mut k: usize = 1;
    while k < table.len()
        invariant
            1 <= k,
            table@.len() == rows_of(routes@).len(),
            forall|j: int| 0 <= j < table@.len() ==> texts((#[trigger] table@[j])@) == rows_of(routes@)[j],
            forall|j: int| 1 <= j < k && j < table@.len() ==> !is_conflicting_route(#[trigger] rows_of(routes@)[j], selected_interface@),
        decreases table@.len() - k,
    {
        let row = &table[k];
        let ghost view = texts(row@);
        assert(view == rows_of(routes@)[k as int]);
        if row.len() > 2 {
            assert(view[0] == row@[0]@ && view[1] == row@[1]@);
            let destination = ascii_lowercase(row[1].as_str());
            if !is_text(&row[0], selected_interface) && is_text(&destination, "0089a8c0") {
                return true;
            }
        }
        k = k + 1;
    }
    false
}

/// A complete neighbour entry (flags 0x2) on the interface.
pub open spec fn is_neighbour_on(row: Seq<Seq<char>>, interface_name: Seq<char>) -> bool {
    &&& row.len() >= 6
    &&& row[5] == interface_name
    &&& row[2] == "0x2"@
}

/// The hardware address (ASCII lower-case) and address of a neighbour entry.
pub open spec fn neighbour_of(row: Seq<Seq<char>>) -> (Seq<char>, Seq<char>) {
    (row[3].map_values(|c: char| ascii_lower(c)), row[0])
}

/// The order of observations: by hardware address, then by address.
pub open spec fn observation_less(a: (Seq<char>, Seq<char>), b: (Seq<char>, Seq<char>)) -> bool {
    text_less(a.0, b.0) || (a.0 == b.0 && text_less(a.1, b.1))
}

/// An observation with an address, as texts.
pub open spec fn observation_view(o: ClientNetworkObservation) -> (Seq<char>, Seq<char>) {
    (o.hardware_address@, match o.address { Some(a) => a@, None => Seq::empty() })
}

/// The observations as texts.
pub open spec fn observation_views(v: Seq<ClientNetworkObservation>) -> Seq<(Seq<char>, Seq<char>)> {
    v.map_values(|o: ClientNetworkObservation| observation_view(o))
}

/// Some row after the header is a neighbour entry on the interface that
/// gives this observation.
pub open spec fn is_neighbour_entry(table: Seq<char>, interface_name: Seq<char>, x: (Seq<char>, Seq<char>)) -> bool {
    is_neighbour_before(table, interface_name, rows_of(table).len() as int, x)
}

/// Some row after the header and before row `k` is a neighbour entry on
/// the interface that gives this observation.
pub open spec fn is_neighbour_before(table: Seq<char>, interface_name: Seq<char>, k: int, x: (Seq<char>, Seq<char>)) -> bool {
    exists|j: int| 1 <= j < k && j < rows_of(table).len() && is_neighbour_on(#[trigger] rows_of(table)[j], interface_name)
        && neighbour_of(rows_of(table)[j]) == x
}

proof fn lemma_insert_contains<A>(s: Seq<A>, i: int, v: A, x: A)
    requires
        0 <= i <= s.len(),
    ensures
        s.insert(i, v).contains(x) <==> s.contains(x) || x == v,
{
    let t = s.insert(i, v);
    if s.contains(x) {
        let j = choose|j: int| 0 <= j < s.len() && s[j] == x;
        if j < i {
            assert(t[j] == x);
        } else {
            assert(t[j + 1] == x);
        }
    }
    if x == v {
        assert(t[i] == v);
    }
    if t.contains(x) {
        let j = choose|j: int| 0 <= j < t.len() && t[j] == x;
        if j < i {
            assert(s[j] == x);
        } else if j > i {
            assert(s[j - 1] == x);
        }
    }
}

proof fn lemma_observation_order(a: (Seq<char>, Seq<char>), b: (Seq<char>, Seq<char>), c: (Seq<char>, Seq<char>))
    ensures
        !observation_less(a, a),
        observation_less(a, b) ==> !observation_less(b, a),
        observation_less(a, b) && observation_less(b, c) ==> observation_less(a, c),
        a != b ==> observation_less(a, b) || observation_less(b, a),
{
    lemma_text_less_order(a.0, b.0, c.0);
    lemma_text_less_order(a.1, b.1, c.1);
    lemma_text_less_order(b.0, a.0, c.0);
    lemma_text_less_order(a.0, c.0, b.0);
    lemma_text_less_order(b.0, c.0, a.0);
}

fn less_observation(a: &ClientNetworkObservation, b: &ClientNetworkObservation) -> (r: bool)
    requires
        a.address is Some,
        b.address is Some,
    ensures
        r == observation_less(observation_view(*a), observation_view(*b)),
{
    let x = match &a.address { Some(x) => x, None => return false };
    let y = match &b.address { Some(y) => y, None => return false };
    less_than(a.hardware_address.as_str(), b.hardware_address.as_str())
        || (a.hardware_address == b.hardware_address && less_than(x.as_str(), y.as_str()))
}

/// The observations are in strictly increasing order (so without repeats).
pub open spec fn is_strictly_ordered(v: Seq<ClientNetworkObservation>) -> bool {
    forall|i: int, j: int| 0 <= i < j < v.len() ==> observation_less(observation_view(v[i]), observation_view(v[j]))
}

/// The host's complete neighbour entries on the interface, from the
/// neighbour table: each with its hardware address in ASCII lower case and
/// its address, sorted, without repeats.
pub fn arp_clients(table: &str, interface_name: &str) -> (r: Vec<ClientNetworkObservation>)
    ensures
        is_strictly_ordered(r@),
        forall|i: int| 0 <= i < r@.len() ==> (#[trigger] r@[i]).address is Some,
        forall|x: (Seq<char>, Seq<char>)| #[trigger] observation_views(r@).contains(x)
            <==> is_neighbour_entry(table@, interface_name@, x),
{
    let rows = rows(table);
    let mut out: Vec<ClientNetworkObservation> = Vec::new();
    let mut k: usize = 1;
    while k < rows.len()
        invariant
            1 <= k,
            rows@.len() == rows_of(table@).len(),
            forall|j: int| 0 <= j < rows@.len() ==> texts((#[trigger] rows@[j])@) == rows_of(table@)[j],
            is_strictly_ordered(out@),
            forall|i: int| 0 <= i < out@.len() ==> (#[trigger] out@[i]).address is Some,
            forall|x: (Seq<char>, Seq<char>)| #[trigger] observation_views(out@).contains(x)
                <==> is_neighbour_before(table@, interface_name@, k as int, x),
        decreases rows@.len() - k,
    {
        let row = &rows[k];
        let ghost view = texts(row@);
        assert(view == rows_of(table@)[k as int]);
        let ghost views_before = observation_views(out@);
        let matched = row.len() >= 6 && is_text(&row[2], "0x2") && is_text(&row[5], interface_name);
        proof {
            if row@.len() >= 6 {
                assert(view[0] == row@[0]@ && view[2] == row@[2]@ && view[3] == row@[3]@ && view[5] == row@[5]@);
            }
            assert(matched == is_neighbour_on(view, interface_name@));
        }
        if matched {
            let o = ClientNetworkObservation { hardware_address: ascii_lowercase(row[3].as_str()), address: Some(row[0].clone()) };
            let ghost ov = observation_view(o);
            assert(ov == neighbour_of(view));
            let mut i: usize = 0;
            while i < out.len()
                invariant
                    i <= out@.len(),
                    o.address is Some,
                    ov == observation_view(o),
                    forall|m: int| 0 <= m < out@.len() ==> (#[trigger] out@[m]).address is Some,
                    forall|m: int| 0 <= m < i ==> observation_less(observation_view(#[trigger] out@[m]), ov),
                ensures
                    i <= out@.len(),
                    forall|m: int| 0 <= m < i ==> observation_less(observation_view(#[trigger] out@[m]), ov),
                    i < out@.len() ==> !observation_less(observation_view(out@[i as int]), ov),
                decreases out@.len() - i,
            {
                let lt = less_observation(&out[i], &o);
                assert(lt == observation_less(observation_view(out@[i as int]), ov));
                if !lt {
                    break;
                }
                i = i + 1;
            }
            let duplicate = i < out.len() && !less_observation(&o, &out[i]);
            if duplicate {
                proof {
                    lemma_observation_order(observation_view(out@[i as int]), ov, ov);
                    lemma_observation_order(ov, observation_view(out@[i as int]), ov);
                    assert(observation_view(out@[i as int]) == ov);
                    assert(views_before[i as int] == ov);
                    assert(views_before.contains(ov));
                    assert forall|x: (Seq<char>, Seq<char>)| views_before.contains(x) <==> views_before.contains(x) || x == ov by {}
                }
            } else {
                let ghost before = out@;
                out.insert(i, o);
                proof {
                    assert(out@ =~= before.insert(i as int, o));
                    assert(observation_views(out@) =~= views_before.insert(i as int, ov));
                    assert forall|a: int, b: int| 0 <= a < b < out@.len() implies
                        observation_less(observation_view(out@[a]), observation_view(out@[b])) by {
                        if b < i {
                            assert(out@[a] == before[a] && out@[b] == before[b]);
                        } else if b == i {
                            assert(out@[a] == before[a]);
                        } else if a == i {
                            assert(out@[b] == before[b - 1]);
                            let vb = observation_view(before[b - 1]);
                            let vi = observation_view(before[i as int]);
                            lemma_observation_order(ov, vi, vb);
                            lemma_observation_order(vi, ov, vb);
                        } else if a < i {
                            assert(out@[a] == before[a] && out@[b] == before[b - 1]);
                        } else {
                            assert(out@[a] == before[a - 1] && out@[b] == before[b - 1]);
                        }
                    }
                    assert forall|m: int| 0 <= m < out@.len() implies (#[trigger] out@[m]).address is Some by {
                        if m < i { assert(out@[m] == before[m]); } else if m > i { assert(out@[m] == before[m - 1]); }
                    }
                }
            }
            proof {
                assert forall|x: (Seq<char>, Seq<char>)| #[trigger] observation_views(out@).contains(x)
                    <==> views_before.contains(x) || x == neighbour_of(view) by {
                    if duplicate {
                        assert(observation_views(out@) == views_before);
                        if x == neighbour_of(view) {
                            assert(views_before[i as int] == x);
                        }
                    } else {
                        lemma_insert_contains(views_before, i as int, ov, x);
                    }
                }
            }
        }
        proof {
            let vs = observation_views(out@);
            if matched {
                assert(neighbour_of(rows_of(table@)[k as int]) == neighbour_of(view));
            }
            assert forall|x: (Seq<char>, Seq<char>)| #[trigger] vs.contains(x)
                <==> is_neighbour_before(table@, interface_name@, k + 1, x) by {
                if matched {
                    assert(vs.contains(x) <==> views_before.contains(x) || x == neighbour_of(view));
                    if x == neighbour_of(view) {
                        assert(is_neighbour_on(rows_of(table@)[k as int], interface_name@));
                    }
                } else {
                    assert(vs == views_before);
                }
                if is_neighbour_before(table@, interface_name@, k + 1, x) && !is_neighbour_before(table@, interface_name@, k as int, x) {
                    let j = choose|j: int| 1 <= j < k + 1 && j < rows_of(table@).len() && is_neighbour_on(#[trigger] rows_of(table@)[j], interface_name@)
                        && neighbour_of(rows_of(table@)[j]) == x;
                    assert(j == k);
                }
                if is_neighbour_before(table@, interface_name@, k as int, x) {
                    let j = choose|j: int| 1 <= j < k && j < rows_of(table@).len() && is_neighbour_on(#[trigger] rows_of(table@)[j], interface_name@)
                        && neighbour_of(rows_of(table@)[j]) == x;
                    assert(1 <= j < k + 1);
                }
            }
        }
        k = k + 1;
    }
    out
}

} // verus!
