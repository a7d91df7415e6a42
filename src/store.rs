use vstd::prelude::*;

use crate::transform::Transform;

verus! {

/// One named frame as handed out by a snapshot.
#[derive(Debug, Clone, PartialEq, Eq)]
pub struct Frame {
    pub name: String,
    pub transform: Transform,
}

/// No two frames of `s` share a name.
pub open spec fn names_distinct(s: Seq<Frame>) -> bool {
    forall|i: int, j: int| 0 <= i < j < s.len() ==> s[i].name@ != s[j].name@
}

/// The mapping from name to transform that a list of frames describes, later
/// entries taking precedence.
pub open spec fn frames_map(s: Seq<Frame>) -> Map<Seq<char>, Transform>
    decreases s.len(),
{
    if s.len() == 0 {
        Map::empty()
    } else {
        frames_map(s.drop_last()).insert(s.last().name@, s.last().transform)
    }
}

/// `s` lists exactly the frames of `m`, each name once, each with its transform.
pub open spec fn is_snapshot_of(m: Map<Seq<char>, Transform>, s: Seq<Frame>) -> bool {
    &&& names_distinct(s)
    &&& forall|i: int|
        0 <= i < s.len() ==> #[trigger] m.contains_key(s[i].name@) && m[s[i].name@]
            == s[i].transform
    &&& forall|k: Seq<char>| #[trigger]
        m.contains_key(k) ==> exists|i: int| 0 <= i < s.len() && s[i].name@ == k
}

/// A list of distinct frames is a snapshot of the mapping it describes.
proof fn lemma_distinct_frames_snapshot(s: Seq<Frame>)
    requires
        names_distinct(s),
    ensures
        is_snapshot_of(frames_map(s), s),
    decreases s.len(),
{
    if s.len() > 0 {
        let p = s.drop_last();
        assert(names_distinct(p));
        lemma_distinct_frames_snapshot(p);
        let m = frames_map(s);
        assert forall|i: int| 0 <= i < s.len() implies #[trigger] m.contains_key(s[i].name@)
            && m[s[i].name@] == s[i].transform by {
            if i < s.len() - 1 {
                assert(p[i] == s[i]);
            }
        }
        assert forall|k: Seq<char>| #[trigger] m.contains_key(k) implies exists|i: int|
            0 <= i < s.len() && s[i].name@ == k by {
            if k != s.last().name@ {
                let i = choose|i: int| 0 <= i < p.len() && p[i].name@ == k;
                assert(s[i] == p[i]);
            } else {
                assert(s[s.len() - 1].name@ == k);
            }
        }
    }
}

/// Replacing the frame at `i` by one of the same name replaces that name's
/// transform.
proof fn lemma_frames_map_update(s: Seq<Frame>, i: int, f: Frame)
    requires
        names_distinct(s),
        0 <= i < s.len(),
        s[i].name@ == f.name@,
    ensures
        names_distinct(s.update(i, f)),
        frames_map(s.update(i, f)) == frames_map(s).insert(f.name@, f.transform),
    decreases s.len(),
{
    let u = s.update(i, f);
    assert(names_distinct(u)) by {
        assert forall|a: int, b: int| 0 <= a < b < u.len() implies u[a].name@ != u[b].name@ by {
            assert(s[a].name@ != s[b].name@);
        }
    }
    if i == s.len() - 1 {
        assert(u.drop_last() =~= s.drop_last());
        assert(frames_map(u) =~= frames_map(s).insert(f.name@, f.transform));
    } else {
        let p = s.drop_last();
        assert(names_distinct(p));
        lemma_frames_map_update(p, i, f);
        assert(u.drop_last() =~= p.update(i, f));
        assert(s.last().name@ != f.name@) by {
            assert(s[i].name@ != s[s.len() - 1].name@);
        }
        assert(frames_map(u) =~= frames_map(s).insert(f.name@, f.transform));
    }
}

/// The contents of a store that started as `start` after each `(name,
/// transform)` of `pushes` was pushed in turn.
pub open spec fn after_pushes(
    start: Map<Seq<char>, Transform>,
    pushes: Seq<(Seq<char>, Transform)>,
) -> Map<Seq<char>, Transform>
    decreases pushes.len(),
{
    if pushes.len() == 0 {
        start
    } else {
        after_pushes(start, pushes.drop_last()).insert(pushes.last().0, pushes.last().1)
    }
}

/// Push `i` is the last one made under its name.
pub open spec fn is_last_push(pushes: Seq<(Seq<char>, Transform)>, i: int) -> bool {
    forall|j: int| i < j < pushes.len() ==> pushes[j].0 != pushes[i].0
}

proof fn lemma_after_pushes(pushes: Seq<(Seq<char>, Transform)>)
    ensures
        forall|i: int|
            0 <= i < pushes.len() && is_last_push(pushes, i) ==> {
                let m = after_pushes(Map::empty(), pushes);
                m.contains_key(pushes[i].0) && m[pushes[i].0] == pushes[i].1
            },
        forall|k: Seq<char>| #[trigger]
            after_pushes(Map::empty(), pushes).contains_key(k) ==> exists|i: int|
                0 <= i < pushes.len() && pushes[i].0 == k,
    decreases pushes.len(),
{
    if pushes.len() > 0 {
        let p = pushes.drop_last();
        lemma_after_pushes(p);
        let m = after_pushes(Map::empty(), pushes);
        assert forall|i: int| 0 <= i < pushes.len() && is_last_push(pushes, i) implies m.contains_key(
            pushes[i].0,
        ) && m[pushes[i].0] == pushes[i].1 by {
            if i < pushes.len() - 1 {
                assert(pushes[pushes.len() - 1].0 != pushes[i].0);
                assert(p[i] == pushes[i]);
                assert(is_last_push(p, i)) by {
                    assert forall|j: int| i < j < p.len() implies p[j].0 != p[i].0 by {
                        assert(p[j] == pushes[j]);
                    }
                }
            }
        }
        assert forall|k: Seq<char>| #[trigger] m.contains_key(k) implies exists|i: int|
            0 <= i < pushes.len() && pushes[i].0 == k by {
            if k != pushes.last().0 {
                assert(after_pushes(Map::empty(), p).contains_key(k));
                let i = choose|i: int| 0 <= i < p.len() && p[i].0 == k;
                assert(pushes[i] == p[i]);
            } else {
                assert(pushes[pushes.len() - 1].0 == k);
            }
        }
    }
}

/// Last write wins: after any sequence of pushes into an empty store, a
/// snapshot holds, for every name pushed, the transform of the last push under
/// that name, and holds no name that was not pushed. With distinct names this
/// is every pushed frame with its own transform.
pub proof fn lemma_snapshot_after_pushes(
    pushes: Seq<(Seq<char>, Transform)>,
    snapshot: Seq<Frame>,
)
    requires
        is_snapshot_of(after_pushes(Map::empty(), pushes), snapshot),
    ensures
        forall|i: int|
            0 <= i < pushes.len() && is_last_push(pushes, i) ==> exists|s: int|
                0 <= s < snapshot.len() && snapshot[s].name@ == pushes[i].0
                    && snapshot[s].transform == pushes[i].1,
        forall|s: int|
            0 <= s < snapshot.len() ==> exists|i: int|
                0 <= i < pushes.len() && pushes[i].0 == #[trigger] snapshot[s].name@,
{
    lemma_after_pushes(pushes);
    let m = after_pushes(Map::empty(), pushes);
    assert forall|i: int| 0 <= i < pushes.len() && is_last_push(pushes, i) implies exists|s: int|
        0 <= s < snapshot.len() && snapshot[s].name@ == pushes[i].0 && snapshot[s].transform
            == pushes[i].1 by {
        assert(m.contains_key(pushes[i].0));
        let s = choose|s: int| 0 <= s < snapshot.len() && snapshot[s].name@ == pushes[i].0;
        assert(m.contains_key(snapshot[s].name@));
    }
    assert forall|s: int| 0 <= s < snapshot.len() implies exists|i: int|
        0 <= i < pushes.len() && pushes[i].0 == #[trigger] snapshot[s].name@ by {
        assert(m.contains_key(snapshot[s].name@));
    }
}

/// A snapshot of a cleared (empty) store holds no frame.
pub proof fn lemma_snapshot_after_clear(snapshot: Seq<Frame>)
    requires
        is_snapshot_of(Map::empty(), snapshot),
    ensures
        snapshot.len() == 0,
{
    if snapshot.len() > 0 {
        assert(Map::<Seq<char>, Transform>::empty().contains_key(snapshot[0].name@));
    }
}

/// A store of named frames, at most one transform per name.
pub struct FrameStore {
    frames: Vec<Frame>,
}

impl View for FrameStore {
    type V = Map<Seq<char>, Transform>;

    closed spec fn view(&self) -> Map<Seq<char>, Transform> {
        frames_map(self.frames@)
    }
}

impl FrameStore {
    #[verifier::type_invariant]
    spec fn names_unique(&self) -> bool {
        names_distinct(self.frames@)
    }

    /// An empty store.
    pub fn new() -> (r: FrameStore)
        ensures
            r@ == Map::<Seq<char>, Transform>::empty(),
    {
        FrameStore { frames: Vec::new() }
    }

    /// Inserts the frame `name`, or replaces its transform if it is stored.
    pub fn push(&mut self, name: &str, transform: Transform)
        ensures
            final(self)@ == old(self)@.insert(name@, transform),
    {
        proof {
            use_type_invariant(&*self);
        }
        let key = name.to_owned();
        let mut frames: Vec<Frame> = Vec::new();
        std::mem::swap(&mut frames, &mut self.frames);
        let ghost before = frames@;
        let mut i: usize = 0;
        let mut found = false;
        while i < frames.len()
            invariant_except_break
                !found,
            invariant
                frames@ == before,
                i <= frames.len(),
                forall|j: int| 0 <= j < i ==> frames@[j].name@ != key@,
            ensures
                found ==> i < frames.len() && frames@[i as int].name@ == key@,
                !found ==> i == frames.len(),
            decreases frames.len() - i,
        {
            if frames[i].name == key {
                found = true;
                break;
            }
            i = i + 1;
        }
        let f = Frame { name: key, transform };
        if found {
            proof {
                lemma_frames_map_update(before, i as int, f);
            }
            frames.set(i, f);
            assert(frames@ == before.update(i as int, f));
        } else {
            frames.push(f);
            assert(frames@.drop_last() =~= before);
            assert forall|a: int, b: int| 0 <= a < b < frames@.len() implies frames@[a].name@
                != frames@[b].name@ by {
                if b < before.len() {
                    assert(before[a].name@ != before[b].name@);
                }
            }
        }
        assert(names_distinct(frames@));
        std::mem::swap(&mut frames, &mut self.frames);
    }

    /// Removes every frame.
    pub fn clear(&mut self)
        ensures
            final(self)@ == Map::<Seq<char>, Transform>::empty(),
    {
        self.frames = Vec::new();
    }

    /// Copies the stored frames out, each name once with its transform, in an
    /// unspecified order.
    pub fn snapshot_for_render(&self) -> (r: Vec<Frame>)
        ensures
            is_snapshot_of(self@, r@),
    {
        proof {
            use_type_invariant(self);
        }
        let mut out: Vec<Frame> = Vec::new();
        let mut i: usize = 0;
        while i < self.frames.len()
            invariant
                i <= self.frames.len(),
                out@ == self.frames@.take(i as int),
            decreases self.frames.len() - i,
        {
            let f = &self.frames[i];
            out.push(Frame { name: f.name.clone(), transform: f.transform });
            assert(out@ =~= self.frames@.take(i + 1));
            i = i + 1;
        }
        assert(out@ =~= self.frames@);
        proof {
            lemma_distinct_frames_snapshot(self.frames@);
        }
        out
    }
}

} // verus!
