use vstd::prelude::*;

use crate::detection::Detection;

verus! {

broadcast use vstd::seq_lib::group_filter_ensures;

/// The matches that a threshold keeps: exactly the detections whose score
/// reaches the threshold, in their original order. The boundary is
/// inclusive: a score equal to the threshold survives.
pub open spec fn apply_spec(s: Seq<Detection>, threshold: u32) -> Seq<Detection> {
    s.filter(|d: Detection| d.score >= threshold)
}

/// Whether some detection in `s` carries the class id `flag_class`.
pub open spec fn flagged_spec(s: Seq<Detection>, flag_class: i32) -> bool {
    exists|i: int| 0 <= i < s.len() && s[i].class_id == flag_class
}

/// Keeps exactly the detections with `score >= threshold`, in input order.
pub fn apply(detections: &Vec<Detection>, threshold: u32) -> (r: Vec<Detection>)
    ensures
        r@ == apply_spec(detections@, threshold),
{
    let mut r: Vec<Detection> = Vec::new();
    let mut i: usize = 0;
    proof {
        reveal(Seq::filter);
        assert(detections@.subrange(0, 0) =~= Seq::<Detection>::empty());
    }
    while i < detections.len()
        invariant
            i <= detections@.len(),
            r@ == apply_spec(detections@.subrange(0, i as int), threshold),
        decreases detections@.len() - i,
    {
        let d = detections[i];
        proof {
            reveal(Seq::filter);
            let pre = detections@.subrange(0, i as int);
            let post = detections@.subrange(0, i as int + 1);
            assert(post.drop_last() =~= pre);
            assert(post.last() == detections@[i as int]);
        }
        if d.score >= threshold {
            r.push(d);
        }
        i += 1;
    }
    proof {
        assert(detections@.subrange(0, detections@.len() as int) =~= detections@);
    }
    r
}

/// True exactly when some detection in the list carries `flag_class`; in
/// particular, false on an empty list.
pub fn is_flagged(detections: &Vec<Detection>, flag_class: i32) -> (r: bool)
    ensures
        r == flagged_spec(detections@, flag_class),
{
    let mut i: usize = 0;
    while i < detections.len()
        invariant
            i <= detections@.len(),
            forall|j: int| 0 <= j < i ==> detections@[j].class_id != flag_class,
        decreases detections@.len() - i,
    {
        if detections[i].class_id == flag_class {
            proof {
                assert(0 <= i < detections@.len() && detections@[i as int].class_id
                    == flag_class);
            }
            return true;
        }
        i += 1;
    }
    false
}

/// Everything a threshold keeps was already among the detections.
pub proof fn lemma_apply_subset(s: Seq<Detection>, threshold: u32)
    ensures
        forall|d: Detection| #[trigger] apply_spec(s, threshold).contains(d) ==> s.contains(d),
    decreases s.len(),
{
    reveal(Seq::filter);
    if s.len() > 0 {
        lemma_apply_subset(s.drop_last(), threshold);
        assert forall|d: Detection| #[trigger] apply_spec(s, threshold).contains(d) implies s.contains(
            d,
        ) by {
            let f = apply_spec(s, threshold);
            let fd = apply_spec(s.drop_last(), threshold);
            let j = choose|j: int| 0 <= j < f.len() && f[j] == d;
            if s.last().score >= threshold && j == f.len() - 1 {
                assert(s[s.len() - 1] == d);
            } else {
                assert(fd[j] == d);
                assert(fd.contains(d));
                assert(s.drop_last().contains(d));
                let k = choose|k: int|
                    0 <= k < s.drop_last().len() && s.drop_last()[k] == d;
                assert(s[k] == d);
            }
        };
    }
}

/// Lowering the threshold never removes a match: every detection a higher
/// threshold keeps, a lower threshold keeps too.
pub proof fn lemma_apply_monotone(s: Seq<Detection>, t1: u32, t2: u32)
    requires
        t1 <= t2,
    ensures
        forall|d: Detection| #[trigger] apply_spec(s, t2).contains(d) ==> apply_spec(
            s,
            t1,
        ).contains(d),
{
    assert forall|d: Detection| #[trigger] apply_spec(s, t2).contains(d) implies apply_spec(
        s,
        t1,
    ).contains(d) by {
        lemma_apply_subset(s, t2);
        let f2 = apply_spec(s, t2);
        let j = choose|j: int| 0 <= j < f2.len() && f2[j] == d;
        assert(f2[j].score >= t2);
        assert(s.contains(d));
        let k = choose|k: int| 0 <= k < s.len() && s[k] == d;
        assert(apply_spec(s, t1).contains(s[k]));
    };
}

/// Filtering twice is filtering once at the stricter threshold: a higher
/// threshold applied on top of a lower one keeps exactly what it would have
/// kept from the unfiltered detections.
pub proof fn lemma_apply_twice(s: Seq<Detection>, t1: u32, t2: u32)
    requires
        t1 <= t2,
    ensures
        apply_spec(apply_spec(s, t1), t2) == apply_spec(s, t2),
    decreases s.len(),
{
    reveal(Seq::filter);
    if s.len() == 0 {
        assert(apply_spec(s, t1) =~= Seq::<Detection>::empty());
    } else {
        lemma_apply_twice(s.drop_last(), t1, t2);
        let f1 = apply_spec(s.drop_last(), t1);
        if s.last().score >= t1 {
            assert(apply_spec(s, t1) == f1.push(s.last()));
            assert(f1.push(s.last()).drop_last() =~= f1);
            assert(f1.push(s.last()).last() == s.last());
        }
    }
}

/// The boundary is inclusive: a detection whose score equals the threshold
/// is included, not excluded.
pub proof fn lemma_apply_boundary(s: Seq<Detection>, threshold: u32, i: int)
    requires
        0 <= i < s.len(),
        s[i].score == threshold,
    ensures
        apply_spec(s, threshold).contains(s[i]),
{
    assert(apply_spec(s, threshold).contains(s[i]));
}

/// A filtered match list is flagged exactly when some detection both reaches
/// the threshold and carries the flag class; an empty match list is never
/// flagged.
pub proof fn lemma_flagged_after_apply(s: Seq<Detection>, threshold: u32, flag_class: i32)
    ensures
        flagged_spec(apply_spec(s, threshold), flag_class) <==> (exists|i: int|
            0 <= i < s.len() && s[i].score >= threshold && #[trigger] s[i].class_id
                == flag_class),
        !flagged_spec(Seq::<Detection>::empty(), flag_class),
{
    let f = apply_spec(s, threshold);
    if flagged_spec(f, flag_class) {
        let j = choose|j: int| 0 <= j < f.len() && f[j].class_id == flag_class;
        assert(f[j].score >= threshold);
        assert(f.contains(f[j]));
        lemma_apply_subset(s, threshold);
        assert(s.contains(f[j]));
        let k = choose|k: int| 0 <= k < s.len() && s[k] == f[j];
        assert(0 <= k < s.len() && s[k].score >= threshold && s[k].class_id == flag_class);
    }
    if exists|i: int|
        0 <= i < s.len() && s[i].score >= threshold && #[trigger] s[i].class_id == flag_class {
        let i = choose|i: int|
            0 <= i < s.len() && s[i].score >= threshold && #[trigger] s[i].class_id
                == flag_class;
        assert(f.contains(s[i]));
        let j = choose|j: int| 0 <= j < f.len() && f[j] == s[i];
        assert(flagged_spec(f, flag_class));
    }
}

} // verus!
