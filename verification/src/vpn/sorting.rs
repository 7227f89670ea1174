//! Ordering the location list by ping, fastest first, locations without a
//! ping measurement last; equal pings keep their order.
use vstd::prelude::*;

use crate::vpn::location::Location;
use crate::vpn::location_parser::{location_view, location_views, LocationRow};

verus! {

/// The sort key of a ping: a negative ping (no measurement) sorts last.
pub open spec fn ping_key(ping: int) -> int {
    if ping < 0 {
        2147483647
    } else {
        ping
    }
}

pub open spec fn key_of(r: LocationRow) -> int {
    ping_key(r.3)
}

pub open spec fn sorted_by_ping(s: Seq<LocationRow>) -> bool {
    forall|i: int, j: int| 0 <= i < j < s.len() ==> key_of(s[i]) <= key_of(s[j])
}

/// The sort key of a measured ping is the ping itself, and no measured ping
/// sorts after an unmeasured one.
pub proof fn law_ping_key_is_the_ping(p: int, q: int)
    requires
        q <= 2147483647,
    ensures
        p >= 0 ==> ping_key(p) == p,
        p < 0 ==> ping_key(q) <= ping_key(p),
{
}

/// A location list sorted by ping lists the fastest first: of two measured
/// locations the earlier has the lower or equal ping, and after an
/// unmeasured location come only unmeasured ones (or the largest ping an
/// `i32` can hold, which sorts alike).
pub proof fn law_sorted_lists_fastest_first(v: Seq<Location>)
    requires
        sorted_by_ping(location_views(v)),
    ensures
        forall|i: int, j: int|
            0 <= i < j < v.len() && v[i].ping_ms >= 0 && v[j].ping_ms >= 0 ==> v[i].ping_ms
                <= v[j].ping_ms,
        forall|i: int, j: int|
            0 <= i < j < v.len() && v[i].ping_ms < 0 ==> v[j].ping_ms < 0 || v[j].ping_ms
                == i32::MAX,
{
    let s = location_views(v);
    assert forall|i: int, j: int|
        0 <= i < j < v.len() && v[i].ping_ms >= 0 && v[j].ping_ms >= 0 implies v[i].ping_ms
        <= v[j].ping_ms by {
        assert(s[i] == location_view(v[i]) && s[j] == location_view(v[j]));
        assert(key_of(s[i]) <= key_of(s[j]));
    }
    assert forall|i: int, j: int|
        0 <= i < j < v.len() && v[i].ping_ms < 0 implies v[j].ping_ms < 0 || v[j].ping_ms
        == i32::MAX by {
        assert(s[i] == location_view(v[i]) && s[j] == location_view(v[j]));
        assert(key_of(s[i]) <= key_of(s[j]));
    }
}

/// The locations of `s` whose sort key is `k`, in their order in `s`.
pub open spec fn with_key(s: Seq<LocationRow>, k: int) -> Seq<LocationRow>
    decreases s.len(),
{
    if s.len() == 0 {
        seq![]
    } else if key_of(s.last()) == k {
        with_key(s.drop_last(), k).push(s.last())
    } else {
        with_key(s.drop_last(), k)
    }
}

pub proof fn lemma_with_key_add(a: Seq<LocationRow>, b: Seq<LocationRow>, k: int)
    ensures
        with_key(a + b, k) == with_key(a, k) + with_key(b, k),
    decreases b.len(),
{
    if b.len() == 0 {
        assert(a + b == a);
        assert(with_key(a, k) + with_key(b, k) == with_key(a, k));
    } else {
        lemma_with_key_add(a, b.drop_last(), k);
        assert((a + b).drop_last() == a + b.drop_last());
        assert((a + b).last() == b.last());
        if key_of(b.last()) == k {
            assert(with_key(a, k) + with_key(b.drop_last(), k).push(b.last()) == (with_key(a, k)
                + with_key(b.drop_last(), k)).push(b.last()));
        }
    }
}

proof fn lemma_with_key_none(s: Seq<LocationRow>, k: int)
    requires
        forall|i: int| 0 <= i < s.len() ==> key_of(s[i]) != k,
    ensures
        with_key(s, k) == Seq::<LocationRow>::empty(),
    decreases s.len(),
{
    if s.len() > 0 {
        lemma_with_key_none(s.drop_last(), k);
    }
}

proof fn lemma_insert_keeps_order(out: Seq<LocationRow>, pos: int, x: LocationRow)
    requires
        0 <= pos <= out.len(),
        sorted_by_ping(out),
        forall|i: int| 0 <= i < pos ==> key_of(out[i]) <= key_of(x),
        forall|i: int| pos <= i < out.len() ==> key_of(out[i]) > key_of(x),
    ensures
        sorted_by_ping(out.insert(pos, x)),
        forall|k: int|
            with_key(out.insert(pos, x), k) == if key_of(x) == k {
                with_key(out, k).push(x)
            } else {
                with_key(out, k)
            },
{
    let ins = out.insert(pos, x);
    assert(ins == out.take(pos) + seq![x] + out.skip(pos));
    assert(out == out.take(pos) + out.skip(pos));
    assert forall|k: int|
        with_key(ins, k) == if key_of(x) == k {
            with_key(out, k).push(x)
        } else {
            with_key(out, k)
        } by {
        lemma_with_key_add(out.take(pos) + seq![x], out.skip(pos), k);
        lemma_with_key_add(out.take(pos), seq![x], k);
        lemma_with_key_add(out.take(pos), out.skip(pos), k);
        assert(seq![x].drop_last() == Seq::<LocationRow>::empty());
        assert(seq![x].last() == x);
        assert(with_key(Seq::<LocationRow>::empty(), k) == Seq::<LocationRow>::empty());
        assert(Seq::<LocationRow>::empty().push(x) == seq![x]);
        if key_of(x) == k {
            lemma_with_key_none(out.skip(pos), k);
            assert(with_key(seq![x], k) == seq![x]);
            assert(with_key(out, k) == with_key(out.take(pos), k) + Seq::<LocationRow>::empty());
            assert(with_key(out.take(pos), k) + Seq::<LocationRow>::empty() == with_key(out.take(pos), k));
        } else {
            assert(with_key(seq![x], k) == Seq::<LocationRow>::empty());
            assert(with_key(out.take(pos), k) + Seq::<LocationRow>::empty() == with_key(out.take(pos), k));
        }
    }
}

fn key(l: &Location) -> (res: i32)
    ensures
        res as int == key_of(location_view(*l)),
{
    if l.ping_ms < 0 {
        2147483647
    } else {
        l.ping_ms
    }
}

/// The locations sorted by ping, fastest first and unmeasured ones last; a
/// stable sort: locations with equal keys keep their relative order.
pub fn sort_by_ping(locs: Vec<Location>) -> (res: Vec<Location>)
    ensures
        sorted_by_ping(location_views(res@)),
        forall|k: int| with_key(location_views(res@), k) == with_key(location_views(locs@), k),
{
    let mut input = locs;
    let ghost input0 = location_views(input@);
    let total: usize = input.len();
    let mut out: Vec<Location> = Vec::new();
    let mut taken: usize = 0;
    while input.len() > 0
        invariant
            input0.len() == taken + input@.len(),
            input0.len() == total,
            location_views(input@) == input0.skip(taken as int),
            sorted_by_ping(location_views(out@)),
            forall|k: int| with_key(location_views(out@), k) == with_key(input0.take(taken as int), k),
        decreases input@.len(),
    {
        let ghost before_in = input@;
        let x = input.remove(0);
        assert(location_views(input@) == location_views(before_in).drop_first());
        assert(location_view(x) == location_views(before_in)[0]);
        let kx = key(&x);
        let mut pos: usize = 0;
        while pos < out.len() && key(&out[pos]) <= kx
            invariant
                pos <= out@.len(),
                kx as int == key_of(location_view(x)),
                forall|i: int| 0 <= i < pos ==> key_of(location_views(out@)[i]) <= key_of(location_view(x)),
            decreases out@.len() - pos,
        {
            pos = pos + 1;
        }
        proof {
            let ov = location_views(out@);
            if pos < out@.len() {
                assert forall|i: int| pos <= i < ov.len() implies key_of(ov[i]) > key_of(location_view(x)) by {
                    assert(key_of(ov[pos as int]) <= key_of(ov[i]));
                }
            }
            lemma_insert_keeps_order(ov, pos as int, location_view(x));
            assert(input0.take(taken + 1).drop_last() == input0.take(taken as int));
            assert(input0.take(taken + 1).last() == location_view(x));
            assert(input0.skip(taken + 1) == input0.skip(taken as int).drop_first());
        }
        let ghost before_out = out@;
        out.insert(pos, x);
        assert(location_views(out@) =~= location_views(before_out).insert(pos as int, location_view(x)));
        taken = taken + 1;
    }
    assert(input0.take(taken as int) == input0);
    out
}

} // verus!
