//! A scene: a list of objects, hit where the nearest of them is hit.

use vstd::prelude::*;
use crate::hittable::{HitRecord, Hittable};
use crate::interval::Interval;
use crate::ray::Ray;
use crate::scalar::Scalar;

verus! {

/// The window that is left open once `best` is the nearest hit found: it
/// starts where `ray_t` starts and ends at that hit, or where `ray_t` ends
/// when nothing has been hit.
pub open spec fn window(ray_t: Interval, best: Option<HitRecord>) -> Interval {
    Interval {
        min: ray_t.min,
        max: match best {
            Some(rec) => rec.t,
            None => ray_t.max,
        },
    }
}

/// The hit that a scan ends with when its members answered `reports`, in this
/// order: the last hit reported, or none when no member reported one.
pub open spec fn nearest(reports: Seq<Option<HitRecord>>) -> Option<HitRecord>
    decreases reports.len(),
{
    if reports.len() == 0 {
        None
    } else {
        match reports.last() {
            Some(rec) => Some(rec),
            None => nearest(reports.drop_last()),
        }
    }
}

/// Every answer in `reports` is one that a member may give in its turn: a hit
/// lies strictly inside the window left open by the answers before it.
pub open spec fn admissible(ray_t: Interval, reports: Seq<Option<HitRecord>>) -> bool {
    forall|i: int|
        0 <= i < reports.len() ==> (#[trigger] reports[i] matches Some(rec) ==> window(
            ray_t,
            nearest(reports.take(i)),
        ).surrounds(rec.t))
}

/// What is admissible stays so without its last answer.
pub proof fn lemma_prefix_admissible(ray_t: Interval, reports: Seq<Option<HitRecord>>)
    requires
        admissible(ray_t, reports),
        reports.len() > 0,
    ensures
        admissible(ray_t, reports.drop_last()),
{
    let before = reports.drop_last();
    assert forall|j: int| 0 <= j < before.len() implies (#[trigger] before[j] matches Some(rec)
        ==> window(ray_t, nearest(before.take(j))).surrounds(rec.t)) by {
        assert(before.take(j) =~= reports.take(j));
        assert(before[j] == reports[j]);
    }
}

/// The hit that a scan ends with is the nearest that any member reported: it
/// lies strictly inside the window the scan started with, and no reported hit
/// has a smaller ray parameter.
pub proof fn lemma_nearest_wins(ray_t: Interval, reports: Seq<Option<HitRecord>>, i: int)
    requires
        admissible(ray_t, reports),
        0 <= i < reports.len(),
        reports[i] is Some,
    ensures
        nearest(reports) matches Some(best) && ray_t.surrounds(best.t) && best.t.le(
            reports[i]->0.t,
        ),
    decreases reports.len(),
{
    let n = reports.len() as int;
    let before = reports.drop_last();
    lemma_prefix_admissible(ray_t, reports);
    assert(before =~= reports.take(n - 1));
    match reports.last() {
        Some(rec) => {
            assert(reports[n - 1] == Some(rec));
            assert(window(ray_t, nearest(before)).surrounds(rec.t));
            if i < n - 1 {
                lemma_nearest_wins(ray_t, before, i);
            }
            lemma_first_hit(ray_t, before);
        },
        None => {
            lemma_nearest_wins(ray_t, before, i);
        },
    }
}

/// A scan ends without a hit exactly when no member reported one.
pub proof fn lemma_no_hit(reports: Seq<Option<HitRecord>>)
    ensures
        nearest(reports) is None <==> forall|i: int| 0 <= i < reports.len() ==> reports[i] is None,
    decreases reports.len(),
{
    if reports.len() > 0 {
        let before = reports.drop_last();
        lemma_no_hit(before);
        assert(reports.last() == reports[reports.len() - 1]);
        if nearest(reports) is None {
            assert forall|i: int| 0 <= i < reports.len() implies reports[i] is None by {
                if i < before.len() {
                    assert(before[i] == reports[i]);
                }
            }
        } else if reports.last() is None {
            let i = choose|i: int| 0 <= i < before.len() && !(before[i] is None);
            assert(before[i] == reports[i]);
        }
    }
}

/// The hit a scan has reached lies strictly inside the window it started with.
pub proof fn lemma_first_hit(ray_t: Interval, reports: Seq<Option<HitRecord>>)
    requires
        admissible(ray_t, reports),
    ensures
        nearest(reports) matches Some(best) ==> ray_t.surrounds(best.t),
    decreases reports.len(),
{
    if reports.len() > 0 {
        let n = reports.len() as int;
        let before = reports.drop_last();
        lemma_prefix_admissible(ray_t, reports);
        assert(before =~= reports.take(n - 1));
        lemma_first_hit(ray_t, before);
        assert(reports[n - 1] == reports.last());
    }
}

/// The answers of the members of a scene to a ray, in their order: each
/// member answers for the window that the answers before it have left open.
pub open spec fn answers(objects: Seq<Box<dyn Hittable>>, r: Ray, ray_t: Interval) -> Seq<
    Option<HitRecord>,
>
    decreases objects.len(),
{
    if objects.len() == 0 {
        Seq::empty()
    } else {
        let before = answers(objects.drop_last(), r, ray_t);
        before.push(objects.last().answer(r, window(ray_t, nearest(before))))
    }
}

/// The window `ray_t`, ended at `end`.
pub open spec fn shortened(ray_t: Interval, end: Scalar) -> Interval {
    Interval { min: ray_t.min, max: end }
}

/// The member in place `i` answers the ray steadily within `ray_t`: a hit it
/// reports lies strictly inside the window, and for a window that ends
/// earlier it reports the same hit if that lies before the new end, and none
/// otherwise. So answers an object that reports the nearest of its crossings
/// inside the window.
pub open spec fn steady(objects: Seq<Box<dyn Hittable>>, i: int, r: Ray, ray_t: Interval) -> bool {
    &&& (objects[i].answer(r, ray_t) matches Some(rec) ==> ray_t.surrounds(rec.t))
    &&& forall|end: Scalar|
        end.le(ray_t.max) ==> #[trigger] objects[i].answer(r, shortened(ray_t, end)) == match objects[i].answer(
            r,
            ray_t,
        ) {
            Some(rec) => if rec.t.lt(end) {
                Some(rec)
            } else {
                None
            },
            None => None,
        }
}

/// A scene of members that answer steadily reports a hit exactly when one of
/// its members, asked about the whole window, reports one; and the hit it
/// reports is then the record of such a member, whole, and no member reports
/// a smaller ray parameter.
pub proof fn lemma_scene_reports_nearest(objects: Seq<Box<dyn Hittable>>, r: Ray, ray_t: Interval)
    requires
        forall|i: int| 0 <= i < objects.len() ==> #[trigger] steady(objects, i, r, ray_t),
    ensures
        nearest(answers(objects, r, ray_t)) is None <==> forall|i: int|
            0 <= i < objects.len() ==> #[trigger] objects[i].answer(r, ray_t) is None,
        nearest(answers(objects, r, ray_t)) matches Some(best) ==> {
            &&& exists|i: int|
                0 <= i < objects.len() && #[trigger] objects[i].answer(r, ray_t) == Some(best)
            &&& forall|j: int|
                0 <= j < objects.len() ==> (#[trigger] objects[j].answer(r, ray_t) matches Some(
                    rec,
                ) ==> best.t.le(rec.t))
        },
    decreases objects.len(),
{
    if objects.len() > 0 {
        let n = objects.len() as int;
        let prefix = objects.drop_last();
        let last = objects.last();
        assert forall|i: int| 0 <= i < prefix.len() implies #[trigger] steady(prefix, i, r, ray_t) by {
            assert(prefix[i] == objects[i]);
            assert(steady(objects, i, r, ray_t));
        }
        lemma_scene_reports_nearest(prefix, r, ray_t);
        let before = answers(prefix, r, ray_t);
        let best = nearest(before);
        let narrow = last.answer(r, window(ray_t, best));
        let whole = last.answer(r, ray_t);
        let all = answers(objects, r, ray_t);
        assert(all == before.push(narrow));
        assert(all.drop_last() =~= before);
        assert(all.last() == narrow);
        assert(last == objects[n - 1]);
        assert(steady(objects, n - 1, r, ray_t));
        assert forall|i: int| 0 <= i < prefix.len() implies #[trigger] prefix[i].answer(r, ray_t)
            == objects[i].answer(r, ray_t) by {
            assert(prefix[i] == objects[i]);
        }
        match best {
            None => {
                assert(window(ray_t, best) == ray_t);
                assert(narrow == whole);
            },
            Some(b) => {
                let k = choose|i: int|
                    0 <= i < prefix.len() && #[trigger] prefix[i].answer(r, ray_t) == Some(b);
                assert(steady(objects, k, r, ray_t));
                assert(objects[k].answer(r, ray_t) == Some(b));
                assert(window(ray_t, best) == shortened(ray_t, b.t));
            },
        }
        let end = nearest(all);
        assert(end == match narrow {
            Some(rec) => Some(rec),
            None => best,
        });
        assert forall|j: int| 0 <= j < objects.len() && end is None implies #[trigger] objects[j].answer(
            r,
            ray_t,
        ) is None by {
            if j < n - 1 {
                assert(prefix[j].answer(r, ray_t) is None);
            }
        }
        if end is Some {
            if narrow is Some {
                assert(objects[n - 1].answer(r, ray_t) == end);
            } else {
                let k = choose|i: int|
                    0 <= i < prefix.len() && #[trigger] prefix[i].answer(r, ray_t) == best;
                assert(objects[k].answer(r, ray_t) == end);
            }
            assert forall|j: int| 0 <= j < objects.len() implies (#[trigger] objects[j].answer(
                r,
                ray_t,
            ) matches Some(rec) ==> end->0.t.le(rec.t)) by {
                if j < n - 1 {
                    assert(prefix[j].answer(r, ray_t) == objects[j].answer(r, ray_t));
                }
            }
        } else {
            assert(forall|i: int|
                0 <= i < objects.len() ==> #[trigger] objects[i].answer(r, ray_t) is None);
        }
    } else {
        assert(nearest(answers(objects, r, ray_t)) is None);
    }
}

/// An owned collection of objects.
pub struct HittableList {
    pub objects: Vec<Box<dyn Hittable>>,
}

impl HittableList {
    /// The empty scene.
    pub fn hittable_list() -> (list: HittableList)
        ensures
            list.objects@.len() == 0,
    {
        HittableList { objects: Vec::new() }
    }

    /// Puts an object behind those already in the scene.
    pub fn add(&mut self, object: Box<dyn Hittable>)
        ensures
            final(self).objects@ == old(self).objects@.push(object),
    {
        self.objects.push(object);
    }

    /// The window to ask the next member about.
    pub fn remaining(ray_t: Interval, best: &Option<HitRecord>) -> (w: Interval)
        ensures
            w == window(ray_t, *best),
    {
        match best {
            Some(rec) => Interval::interval(ray_t.min(), rec.t()),
            None => ray_t,
        }
    }

    /// The nearest hit after one more answer: the answer, if it is a hit,
    /// and else the hit there was.
    pub fn closer(best: Option<HitRecord>, report: Option<HitRecord>) -> (res: Option<HitRecord>)
        ensures
            res == match report {
                Some(rec) => Some(rec),
                None => best,
            },
    {
        match report {
            Some(rec) => Some(rec),
            None => best,
        }
    }
}

impl Hittable for HittableList {
    /// The hit that the scan of the members' answers ends with.
    open spec fn answer(&self, r: Ray, ray_t: Interval) -> Option<HitRecord> {
        nearest(answers(self.objects@, r, ray_t))
    }

    /// Asks every member in turn, each about the window that the hits so far
    /// have left open. The result is the scan of the members' answers, and
    /// these are admissible.
    fn hit(&self, r: &Ray, ray_t: Interval) -> (res: Option<HitRecord>)
        ensures
            res == nearest(answers(self.objects@, *r, ray_t)),
            admissible(ray_t, answers(self.objects@, *r, ray_t)),
    {
        let mut best: Option<HitRecord> = None;
        let mut i: usize = 0;
        while i < self.objects.len()
            invariant
                i <= self.objects@.len(),
                admissible(ray_t, answers(self.objects@.take(i as int), *r, ray_t)),
                best == nearest(answers(self.objects@.take(i as int), *r, ray_t)),
                answers(self.objects@.take(i as int), *r, ray_t).len() == i,
            decreases self.objects@.len() - i,
        {
            let ahead = HittableList::remaining(ray_t, &best);
            let report = self.objects[i].hit(r, ahead);
            proof {
                let reports = answers(self.objects@.take(i as int), *r, ray_t);
                let next = self.objects@.take(i + 1);
                assert(next.drop_last() =~= self.objects@.take(i as int));
                assert(next.last() == self.objects@[i as int]);
                let longer = answers(next, *r, ray_t);
                assert(longer == reports.push(report));
                assert(longer.drop_last() =~= reports);
                assert forall|j: int| 0 <= j < longer.len() implies (#[trigger] longer[j] matches Some(
                    rec,
                ) ==> window(ray_t, nearest(longer.take(j))).surrounds(rec.t)) by {
                    if j < reports.len() {
                        assert(longer.take(j) =~= reports.take(j));
                        assert(longer[j] == reports[j]);
                    } else {
                        assert(longer.take(j) =~= reports);
                    }
                }
            }
            best = HittableList::closer(best, report);
            i = i + 1;
        }
        proof {
            assert(self.objects@.take(i as int) =~= self.objects@);
            lemma_first_hit(ray_t, answers(self.objects@, *r, ray_t));
        }
        best
    }
}

} // verus!
