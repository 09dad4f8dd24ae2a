use vstd::prelude::*;

verus! {

/// Identity of an entity in the world.
pub type EntityId = u64;

/// Notice that the entity was party to a collision during this tick.
#[derive(Clone, Copy, Debug, PartialEq, Eq, Structural)]
pub struct HitEvent(pub EntityId);

/// The first occurrence of each element of `s`, in the order of `s`.
pub open spec fn distinct_seq(s: Seq<EntityId>) -> Seq<EntityId>
    decreases s.len(),
{
    if s.len() == 0 {
        seq![]
    } else {
        let d = distinct_seq(s.drop_last());
        if d.contains(s.last()) {
            d
        } else {
            d.push(s.last())
        }
    }
}

pub open spec fn event_ids(events: Seq<HitEvent>) -> Seq<EntityId> {
    events.map_values(|e: HitEvent| e.0)
}

proof fn lemma_push_contains(t: Seq<EntityId>, a: EntityId, x: EntityId)
    ensures
        t.push(a).contains(x) <==> (t.contains(x) || x == a),
{
    if t.push(a).contains(x) {
        let i = choose|i: int| 0 <= i < t.len() + 1 && t.push(a)[i] == x;
        if i < t.len() {
            assert(t[i] == x);
        }
    }
    if t.contains(x) {
        let i = choose|i: int| 0 <= i < t.len() && t[i] == x;
        assert(t.push(a)[i] == x);
    }
    if x == a {
        assert(t.push(a)[t.len() as int] == x);
    }
}

/// The de-duplicated batch holds no identity twice, and holds exactly the
/// identities of the batch it came from.
pub proof fn lemma_distinct_seq(s: Seq<EntityId>)
    ensures
        distinct_seq(s).no_duplicates(),
        forall|x: EntityId| distinct_seq(s).contains(x) <==> s.contains(x),
    decreases s.len(),
{
    if s.len() > 0 {
        let t = s.drop_last();
        lemma_distinct_seq(t);
        assert forall|x: EntityId| s.contains(x) <==> (t.contains(x) || x == s.last()) by {
            if s.contains(x) {
                let i = choose|i: int| 0 <= i < s.len() && s[i] == x;
                if i < s.len() - 1 {
                    assert(t[i] == x);
                }
            }
            if t.contains(x) {
                let i = choose|i: int| 0 <= i < t.len() && t[i] == x;
                assert(s[i] == x);
            }
            if x == s.last() {
                assert(s[s.len() - 1] == x);
            }
        }
        let d = distinct_seq(t);
        if !d.contains(s.last()) {
            assert forall|x: EntityId| d.push(s.last()).contains(x) <==> (d.contains(x) || x
                == s.last()) by {
                lemma_push_contains(d, s.last(), x);
            }
        }
    }
}

/// Whether `id` occurs in `ids`.
pub fn contains_id(ids: &Vec<EntityId>, id: EntityId) -> (r: bool)
    ensures
        r == ids@.contains(id),
{
    let mut seen = false;
    let mut j: usize = 0;
    while j < ids.len()
        invariant
            j <= ids.len(),
            seen <==> ids@.take(j as int).contains(id),
        decreases ids.len() - j,
    {
        proof {
            assert(ids@.take(j as int + 1) == ids@.take(j as int).push(ids@[j as int]));
            lemma_push_contains(ids@.take(j as int), ids@[j as int], id);
        }
        if ids[j] == id {
            seen = true;
        }
        j = j + 1;
    }
    proof {
        assert(ids@.take(ids.len() as int) == ids@);
    }
    seen
}

/// Keeps the first occurrence of each identity, in arrival order.
pub fn distinct_by(ids: &Vec<EntityId>) -> (r: Vec<EntityId>)
    ensures
        r@ == distinct_seq(ids@),
{
    let mut out: Vec<EntityId> = Vec::new();
    let mut i: usize = 0;
    while i < ids.len()
        invariant
            i <= ids.len(),
            out@ == distinct_seq(ids@.take(i as int)),
        decreases ids.len() - i,
    {
        let id = ids[i];
        let seen = contains_id(&out, id);
        proof {
            assert(ids@.take(i as int + 1).drop_last() == ids@.take(i as int));
        }
        if !seen {
            out.push(id);
        }
        i = i + 1;
    }
    proof {
        assert(ids@.take(ids.len() as int) == ids@);
    }
    out
}

/// The batch of hit notices with repeated identities removed: each entity's
/// first notice is kept, in arrival order.
pub fn distinct_hit_events(events: &Vec<HitEvent>) -> (r: Vec<HitEvent>)
    ensures
        event_ids(r@) == distinct_seq(event_ids(events@)),
{
    let mut ids: Vec<EntityId> = Vec::new();
    let mut i: usize = 0;
    while i < events.len()
        invariant
            i <= events.len(),
            ids@ == event_ids(events@.take(i as int)),
        decreases events.len() - i,
    {
        proof {
            assert(event_ids(events@.take(i as int + 1)) == event_ids(events@.take(i as int)).push(
                events@[i as int].0));
        }
        ids.push(events[i].0);
        i = i + 1;
    }
    proof {
        assert(events@.take(events.len() as int) == events@);
    }
    let d = distinct_by(&ids);
    let mut out: Vec<HitEvent> = Vec::new();
    let mut k: usize = 0;
    while k < d.len()
        invariant
            k <= d.len(),
            event_ids(out@) == d@.take(k as int),
        decreases d.len() - k,
    {
        proof {
            assert(d@.take(k as int + 1) == d@.take(k as int).push(d@[k as int]));
            assert(event_ids(out@.push(HitEvent(d@[k as int]))) == event_ids(out@).push(d@[k as int]));
        }
        out.push(HitEvent(d[k]));
        k = k + 1;
    }
    proof {
        assert(d@.take(d.len() as int) == d@);
    }
    out
}

} // verus!
