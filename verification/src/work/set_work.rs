//! A set work amount: progress as a set of distinct labelled milestones.

use crate::work::{AddError, Work};
use vstd::prelude::*;

verus! {

/// A discrete milestone label that a set work amount can hold.
///
/// Implementations supply an executable equality test that agrees with
/// structural equality, so that membership in a set of milestones can be
/// decided in verified code.
pub trait Label: Sized + Copy {
    /// Whether the two labels are the same milestone.
    fn same(&self, other: &Self) -> (r: bool)
        ensures
            r == (*self == *other),
    ;
}

/// Progress measured by a set of distinct labelled milestones.
///
/// The elements are held in a vector without duplicates; the order of the
/// elements carries no meaning, so all contracts speak about membership only.
/// The ordering of two set amounts is set inclusion, and the structural
/// minimum picks the amount with fewer elements.
#[derive(Clone, Debug)]
pub struct SetWork<T: Label>(pub Vec<T>);

impl<T: Label> SetWork<T> {
    /// The set holding exactly `value`.
    pub fn singleton(value: T) -> (r: SetWork<T>)
        ensures
            r.wf(),
            forall|x: T| r.0@.contains(x) <==> x == value,
    {
        let mut items: Vec<T> = Vec::new();
        items.push(value);
        proof {
            assert forall|x: T| items@.contains(x) <==> x == value by {
                if items@.contains(x) {
                    let j = choose|j: int| 0 <= j < items@.len() && items@[j] == x;
                    assert(j == 0);
                }
                if x == value {
                    assert(items@[0] == x);
                    assert(items@.contains(x));
                }
            }
        }
        SetWork(items)
    }

    /// The set of the distinct values among `values`.
    pub fn from_items(values: &Vec<T>) -> (r: SetWork<T>)
        ensures
            r.wf(),
            forall|x: T| r.0@.contains(x) <==> values@.contains(x),
    {
        let mut items: Vec<T> = Vec::new();
        let mut i: usize = 0;
        while i < values.len()
            invariant
                0 <= i <= values@.len(),
                items@.no_duplicates(),
                forall|x: T| items@.contains(x) <==> values@.take(i as int).contains(x),
            decreases values@.len() - i,
        {
            let v = values[i];
            let ghost prev = items@;
            let present = contains_elem(&items, &v);
            if !present {
                items.push(v);
            }
            proof {
                lemma_take_step(values@, i as int);
                if !present {
                    lemma_push_keeps_no_dup(prev, v);
                }
                assert forall|x: T|
                    items@.contains(x) <==> values@.take(i as int + 1).contains(x) by {
                    assert(prev.contains(x) <==> values@.take(i as int).contains(x));
                    assert(values@.take(i as int + 1).contains(x) <==> (values@.take(
                        i as int,
                    ).contains(x) || x == v));
                    if !present {
                        assert(items@.contains(x) <==> (prev.contains(x) || x == v));
                    }
                }
            }
            i += 1;
        }
        proof {
            assert(values@.take(values@.len() as int) =~= values@);
        }
        SetWork(items)
    }

    /// The number of distinct milestones in this amount.
    pub fn size(&self) -> (n: usize)
        ensures
            n == self.0@.len(),
    {
        self.0.len()
    }
}

/// Whether `v` holds `x`, decided with the labels' own equality test.
fn contains_elem<T: Label>(v: &Vec<T>, x: &T) -> (r: bool)
    ensures
        r == v@.contains(*x),
{
    let mut i: usize = 0;
    while i < v.len()
        invariant
            0 <= i <= v@.len(),
            forall|j: int| 0 <= j < i ==> v@[j] != *x,
        decreases v@.len() - i,
    {
        if v[i].same(x) {
            proof {
                assert(v@[i as int] == *x);
                assert(v@.contains(*x));
            }
            return true;
        }
        i += 1;
    }
    false
}

/// Taking one more element of a sequence adds exactly that element.
proof fn lemma_take_step<T>(s: Seq<T>, i: int)
    requires
        0 <= i < s.len(),
    ensures
        forall|x: T| s.take(i + 1).contains(x) <==> (s.take(i).contains(x) || x == s[i]),
{
    assert forall|x: T| s.take(i + 1).contains(x) <==> (s.take(i).contains(x) || x == s[i]) by {
        if s.take(i + 1).contains(x) {
            let j = choose|j: int|
                0 <= j < s.take(i + 1).len() && (#[trigger] s.take(i + 1)[j]) == x;
            if j < i {
                assert(s.take(i)[j] == x);
                assert(s.take(i).contains(x));
            }
        }
        if s.take(i).contains(x) {
            let j = choose|j: int| 0 <= j < s.take(i).len() && (#[trigger] s.take(i)[j]) == x;
            assert(s.take(i + 1)[j] == x);
            assert(s.take(i + 1).contains(x));
        }
        if x == s[i] {
            assert(s.take(i + 1)[i] == x);
            assert(s.take(i + 1).contains(x));
        }
    }
}

/// Pushing an element that is not yet present keeps a sequence duplicate-free,
/// and adds exactly that element.
proof fn lemma_push_keeps_no_dup<T>(s: Seq<T>, e: T)
    requires
        s.no_duplicates(),
        !s.contains(e),
    ensures
        s.push(e).no_duplicates(),
        forall|x: T| s.push(e).contains(x) <==> (s.contains(x) || x == e),
{
    assert forall|i: int, j: int|
        (0 <= i < s.push(e).len() && 0 <= j < s.push(e).len() && i != j) implies s.push(e)[i]
        != s.push(e)[j] by {
        if i < s.len() && j < s.len() {
            assert(s.push(e)[i] == s[i] && s.push(e)[j] == s[j]);
        } else if i < s.len() {
            assert(s.push(e)[j] == e && s.push(e)[i] == s[i]);
            assert(s.contains(s[i]));
        } else {
            assert(s.push(e)[i] == e && s.push(e)[j] == s[j]);
            assert(s.contains(s[j]));
        }
    }
    assert forall|x: T| s.push(e).contains(x) <==> (s.contains(x) || x == e) by {
        if s.push(e).contains(x) {
            let j = choose|j: int| 0 <= j < s.push(e).len() && (#[trigger] s.push(e)[j]) == x;
            if j < s.len() {
                assert(s[j] == x);
                assert(s.contains(x));
            }
        }
        if s.contains(x) {
            let j = choose|j: int| 0 <= j < s.len() && s[j] == x;
            assert(s.push(e)[j] == x);
            assert(s.push(e).contains(x));
        }
        if x == e {
            assert(s.push(e)[s.len() as int] == x);
            assert(s.push(e).contains(x));
        }
    }
}

impl<T: Label> Work for SetWork<T> {
    open spec fn wf(&self) -> bool {
        self.0@.no_duplicates()
    }

    open spec fn le_spec(&self, other: &SetWork<T>) -> bool {
        forall|x: T| self.0@.contains(x) ==> other.0@.contains(x)
    }

    open spec fn is_zero_spec(&self) -> bool {
        self.0@.len() == 0
    }

    open spec fn can_add_spec(&self, rhs: &SetWork<T>) -> bool {
        forall|x: T| !(self.0@.contains(x) && rhs.0@.contains(x))
    }

    open spec fn add_rel(a: SetWork<T>, b: SetWork<T>, r: SetWork<T>) -> bool {
        forall|x: T| r.0@.contains(x) <==> (a.0@.contains(x) || b.0@.contains(x))
    }

    open spec fn sub_rel(a: SetWork<T>, b: SetWork<T>, r: SetWork<T>) -> bool {
        forall|x: T| r.0@.contains(x) <==> (a.0@.contains(x) && !b.0@.contains(x))
    }

    open spec fn min_spec(a: SetWork<T>, b: SetWork<T>) -> SetWork<T> {
        if a.0@.len() < b.0@.len() {
            a
        } else {
            b
        }
    }

    open spec fn accrue_rel(
        completed: SetWork<T>,
        amount: SetWork<T>,
        total: SetWork<T>,
        r: SetWork<T>,
    ) -> bool {
        forall|x: T|
            r.0@.contains(x) <==> (completed.0@.contains(x) || (amount.0@.contains(x)
                && total.0@.contains(x)))
    }

    open spec fn proportional_rel(
        done: SetWork<T>,
        of_total_sub_work: SetWork<T>,
        of_parent_work: SetWork<T>,
        r: SetWork<T>,
    ) -> bool {
        forall|x: T| r.0@.contains(x) <==> (done.0@.contains(x) && !of_parent_work.0@.contains(x))
    }

    proof fn lemma_zero_least(x: SetWork<T>, z: SetWork<T>) {
    }

    proof fn lemma_le_trans(x: SetWork<T>, y: SetWork<T>, z: SetWork<T>) {
    }

    fn zero() -> (r: SetWork<T>) {
        SetWork(Vec::new())
    }

    fn is_zero(&self) -> (r: bool) {
        self.0.len() == 0
    }

    fn le(&self, other: &SetWork<T>) -> (r: bool) {
        let mut i: usize = 0;
        while i < self.0.len()
            invariant
                0 <= i <= self.0@.len(),
                forall|j: int| 0 <= j < i ==> other.0@.contains(self.0@[j]),
            decreases self.0@.len() - i,
        {
            if !contains_elem(&other.0, &self.0[i]) {
                proof {
                    assert(self.0@.contains(self.0@[i as int]));
                }
                return false;
            }
            i += 1;
        }
        proof {
            assert forall|x: T| self.0@.contains(x) implies other.0@.contains(x) by {
                let j = choose|j: int| 0 <= j < self.0@.len() && self.0@[j] == x;
                assert(other.0@.contains(self.0@[j]));
            }
        }
        true
    }

    fn add(self, rhs: SetWork<T>) -> (r: Result<SetWork<T>, AddError>) {
        let mut i: usize = 0;
        while i < rhs.0.len()
            invariant
                0 <= i <= rhs.0@.len(),
                forall|j: int| 0 <= j < i ==> !self.0@.contains(rhs.0@[j]),
            decreases rhs.0@.len() - i,
        {
            if contains_elem(&self.0, &rhs.0[i]) {
                proof {
                    assert(rhs.0@.contains(rhs.0@[i as int]));
                }
                return Err(AddError::overlap());
            }
            i += 1;
        }
        proof {
            assert forall|x: T| !(self.0@.contains(x) && rhs.0@.contains(x)) by {
                if rhs.0@.contains(x) {
                    let j = choose|j: int| 0 <= j < rhs.0@.len() && rhs.0@[j] == x;
                    assert(!self.0@.contains(rhs.0@[j]));
                }
            }
        }
        let ghost lhs = self;
        let mut out = self.0;
        let mut k: usize = 0;
        while k < rhs.0.len()
            invariant
                0 <= k <= rhs.0@.len(),
                lhs.0@.no_duplicates(),
                rhs.0@.no_duplicates(),
                forall|j: int| 0 <= j < rhs.0@.len() ==> !lhs.0@.contains(rhs.0@[j]),
                out@.no_duplicates(),
                forall|x: T|
                    out@.contains(x) <==> (lhs.0@.contains(x) || rhs.0@.take(k as int).contains(
                        x,
                    )),
            decreases rhs.0@.len() - k,
        {
            let v = rhs.0[k];
            let ghost prev = out@;
            proof {
                assert(!lhs.0@.contains(rhs.0@[k as int]));
                assert(!rhs.0@.take(k as int).contains(v)) by {
                    if rhs.0@.take(k as int).contains(v) {
                        let j = choose|j: int|
                            0 <= j < k && (#[trigger] rhs.0@.take(k as int)[j]) == v;
                        assert(rhs.0@[j] == rhs.0@[k as int]);
                    }
                }
                assert(!prev.contains(v));
                lemma_push_keeps_no_dup(prev, v);
                lemma_take_step(rhs.0@, k as int);
            }
            out.push(v);
            proof {
                assert forall|x: T|
                    out@.contains(x) <==> (lhs.0@.contains(x) || rhs.0@.take(
                        k as int + 1,
                    ).contains(x)) by {
                    assert(prev.contains(x) <==> (lhs.0@.contains(x) || rhs.0@.take(
                        k as int,
                    ).contains(x)));
                    assert(rhs.0@.take(k as int + 1).contains(x) <==> (rhs.0@.take(
                        k as int,
                    ).contains(x) || x == v));
                    assert(out@.contains(x) <==> (prev.contains(x) || x == v));
                }
            }
            k += 1;
        }
        proof {
            assert(rhs.0@.take(rhs.0@.len() as int) =~= rhs.0@);
        }
        Ok(SetWork(out))
    }

    fn sub(&self, rhs: &SetWork<T>) -> (r: SetWork<T>) {
        let mut out: Vec<T> = Vec::new();
        let mut i: usize = 0;
        while i < self.0.len()
            invariant
                0 <= i <= self.0@.len(),
                self.0@.no_duplicates(),
                out@.no_duplicates(),
                forall|x: T|
                    out@.contains(x) <==> (self.0@.take(i as int).contains(x)
                        && !rhs.0@.contains(x)),
            decreases self.0@.len() - i,
        {
            let v = self.0[i];
            let ghost prev = out@;
            proof {
                assert(!self.0@.take(i as int).contains(v)) by {
                    if self.0@.take(i as int).contains(v) {
                        let j = choose|j: int|
                            0 <= j < i && (#[trigger] self.0@.take(i as int)[j]) == v;
                        assert(self.0@[j] == self.0@[i as int]);
                    }
                }
                lemma_take_step(self.0@, i as int);
            }
            let keep = !contains_elem(&rhs.0, &v);
            if keep {
                proof {
                    assert(!prev.contains(v));
                    lemma_push_keeps_no_dup(prev, v);
                }
                out.push(v);
            }
            proof {
                assert forall|x: T|
                    out@.contains(x) <==> (self.0@.take(i as int + 1).contains(x)
                        && !rhs.0@.contains(x)) by {
                    assert(prev.contains(x) <==> (self.0@.take(i as int).contains(x)
                        && !rhs.0@.contains(x)));
                    assert(self.0@.take(i as int + 1).contains(x) <==> (self.0@.take(
                        i as int,
                    ).contains(x) || x == v));
                    if keep {
                        assert(out@.contains(x) <==> (prev.contains(x) || x == v));
                    }
                }
            }
            i += 1;
        }
        proof {
            assert(self.0@.take(self.0@.len() as int) =~= self.0@);
            if out@.len() == 0 {
                assert forall|x: T| self.0@.contains(x) implies rhs.0@.contains(x) by {
                    if !rhs.0@.contains(x) {
                        assert(out@.contains(x));
                    }
                }
            } else {
                assert(out@.contains(out@[0]));
            }
        }
        SetWork(out)
    }

    fn min<'a>(a: &'a SetWork<T>, b: &'a SetWork<T>) -> (r: &'a SetWork<T>) {
        if a.0.len() < b.0.len() {
            a
        } else {
            b
        }
    }

    fn accrue(&self, amount: &SetWork<T>, total: &SetWork<T>) -> (r: SetWork<T>) {
        let mut out: Vec<T> = Vec::new();
        let mut i: usize = 0;
        while i < self.0.len()
            invariant
                0 <= i <= self.0@.len(),
                out@ == self.0@.take(i as int),
            decreases self.0@.len() - i,
        {
            out.push(self.0[i]);
            proof {
                assert(out@ =~= self.0@.take(i as int + 1));
            }
            i += 1;
        }
        proof {
            assert(out@ =~= self.0@);
        }
        let mut k: usize = 0;
        while k < amount.0.len()
            invariant
                0 <= k <= amount.0@.len(),
                amount.0@.no_duplicates(),
                out@.no_duplicates(),
                forall|x: T|
                    out@.contains(x) <==> (self.0@.contains(x) || (amount.0@.take(
                        k as int,
                    ).contains(x) && total.0@.contains(x))),
            decreases amount.0@.len() - k,
        {
            let v = amount.0[k];
            let ghost prev = out@;
            proof {
                lemma_take_step(amount.0@, k as int);
            }
            let wanted = contains_elem(&total.0, &v);
            let fresh = !contains_elem(&out, &v);
            if wanted && fresh {
                proof {
                    lemma_push_keeps_no_dup(prev, v);
                }
                out.push(v);
            }
            proof {
                assert forall|x: T|
                    out@.contains(x) <==> (self.0@.contains(x) || (amount.0@.take(
                        k as int + 1,
                    ).contains(x) && total.0@.contains(x))) by {
                    assert(prev.contains(x) <==> (self.0@.contains(x) || (amount.0@.take(
                        k as int,
                    ).contains(x) && total.0@.contains(x))));
                    assert(amount.0@.take(k as int + 1).contains(x) <==> (amount.0@.take(
                        k as int,
                    ).contains(x) || x == v));
                    if wanted && fresh {
                        assert(out@.contains(x) <==> (prev.contains(x) || x == v));
                    }
                }
            }
            k += 1;
        }
        proof {
            assert(amount.0@.take(amount.0@.len() as int) =~= amount.0@);
        }
        SetWork(out)
    }

    fn parent_work_done_when(
        done: &SetWork<T>,
        of_total_sub_work: &SetWork<T>,
        of_parent_work: &SetWork<T>,
    ) -> (r: SetWork<T>) {
        let mut out: Vec<T> = Vec::new();
        let mut i: usize = 0;
        while i < done.0.len()
            invariant
                0 <= i <= done.0@.len(),
                done.0@.no_duplicates(),
                out@.no_duplicates(),
                forall|x: T|
                    out@.contains(x) <==> (done.0@.take(i as int).contains(x)
                        && !of_parent_work.0@.contains(x)),
            decreases done.0@.len() - i,
        {
            let v = done.0[i];
            let ghost prev = out@;
            proof {
                assert(!done.0@.take(i as int).contains(v)) by {
                    if done.0@.take(i as int).contains(v) {
                        let j = choose|j: int|
                            0 <= j < i && (#[trigger] done.0@.take(i as int)[j]) == v;
                        assert(done.0@[j] == done.0@[i as int]);
                    }
                }
                lemma_take_step(done.0@, i as int);
            }
            let keep = !contains_elem(&of_parent_work.0, &v);
            if keep {
                proof {
                    assert(!prev.contains(v));
                    lemma_push_keeps_no_dup(prev, v);
                }
                out.push(v);
            }
            proof {
                assert forall|x: T|
                    out@.contains(x) <==> (done.0@.take(i as int + 1).contains(x)
                        && !of_parent_work.0@.contains(x)) by {
                    assert(prev.contains(x) <==> (done.0@.take(i as int).contains(x)
                        && !of_parent_work.0@.contains(x)));
                    assert(done.0@.take(i as int + 1).contains(x) <==> (done.0@.take(
                        i as int,
                    ).contains(x) || x == v));
                    if keep {
                        assert(out@.contains(x) <==> (prev.contains(x) || x == v));
                    }
                }
            }
            i += 1;
        }
        proof {
            assert(done.0@.take(done.0@.len() as int) =~= done.0@);
        }
        SetWork(out)
    }
}

} // verus!
