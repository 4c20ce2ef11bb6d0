//! Putting things in the order of their positions.
//!
//! The order is stable: things of equal position stay in the order in which
//! they came.

use vstd::prelude::*;
use vstd::seq_lib::to_multiset_remove;

verus! {

/// Something that has a place among its likes.
pub trait Positioned {
    /// The position, as a mathematical integer.
    spec fn position_of(&self) -> int;

    /// The position.
    fn position(&self) -> (p: i32)
        ensures
            p == self.position_of(),
    ;
}

/// Where to put a thing of position `key` into a run that is in order: behind
/// the last thing whose position is not greater.
pub open spec fn insertion_point<T: Positioned>(run: Seq<T>, key: int) -> int
    decreases run.len(),
{
    if run.len() == 0 {
        0
    } else if run.last().position_of() <= key {
        run.len() as int
    } else {
        insertion_point(run.drop_last(), key)
    }
}

/// The things of `s` in the order of their positions, those of equal
/// position in the order in which they stand in `s`.
pub open spec fn in_position_order<T: Positioned>(s: Seq<T>) -> Seq<T>
    decreases s.len(),
{
    if s.len() == 0 {
        s
    } else {
        let head = in_position_order(s.drop_last());
        head.insert(insertion_point(head, s.last().position_of()), s.last())
    }
}

/// No thing stands before one of lesser position.
pub open spec fn is_ordered<T: Positioned>(s: Seq<T>) -> bool {
    forall|i: int, j: int| 0 <= i < j < s.len() ==> s[i].position_of() <= s[j].position_of()
}

/// The insertion point lies within the run, with nothing greater than the
/// key right before it and only greater things behind it.
pub proof fn lemma_insertion_point<T: Positioned>(run: Seq<T>, key: int)
    ensures
        0 <= insertion_point(run, key) <= run.len(),
        insertion_point(run, key) > 0 ==> run[insertion_point(run, key) - 1].position_of() <= key,
        forall|i: int| insertion_point(run, key) <= i < run.len() ==> run[i].position_of() > key,
    decreases run.len(),
{
    if run.len() > 0 && run.last().position_of() > key {
        lemma_insertion_point(run.drop_last(), key);
        let at = insertion_point(run.drop_last(), key);
        assert forall|i: int| at <= i < run.len() implies run[i].position_of() > key by {
            if i < run.len() - 1 {
                assert(run.drop_last()[i] == run[i]);
            }
        }
        if at > 0 {
            assert(run.drop_last()[at - 1] == run[at - 1]);
        }
    }
}

/// What comes out is in order, holds exactly what went in, and is as long.
pub proof fn lemma_position_order<T: Positioned>(s: Seq<T>)
    ensures
        is_ordered(in_position_order(s)),
        in_position_order(s).len() == s.len(),
        in_position_order(s).to_multiset() == s.to_multiset(),
    decreases s.len(),
{
    broadcast use vstd::seq_lib::group_to_multiset_ensures;

    if s.len() == 0 {
    } else {
        let head = in_position_order(s.drop_last());
        let x = s.last();
        let key = x.position_of();
        let at = insertion_point(head, key);
        lemma_position_order(s.drop_last());
        lemma_insertion_point(head, key);
        let out = head.insert(at, x);
        assert forall|i: int, j: int| 0 <= i < j < out.len() implies out[i].position_of()
            <= out[j].position_of() by {
            let before = |k: int|
                if k < at {
                    k
                } else {
                    k - 1
                };
            if i < at && at > 0 {
                assert(head[i].position_of() <= head[at - 1].position_of() || i == at - 1);
            }
            if i != at && j != at {
                assert(out[i] == head[before(i)]);
                assert(out[j] == head[before(j)]);
            } else if i == at {
                assert(out[j] == head[j - 1]);
            } else {
                assert(out[i] == head[i]);
            }
        }
        assert(out.remove(at) == head);
        to_multiset_remove(out, at);
        assert(out.to_multiset().count(x) > 0);
        assert(out.to_multiset() =~= head.to_multiset().insert(x));
        assert(s == s.drop_last().push(x));
        assert(s.to_multiset() =~= s.drop_last().to_multiset().insert(x));
    }
}

/// The things of `s` that have the position `p`, in the order in which they
/// stand in `s`.
pub open spec fn at_position<T: Positioned>(s: Seq<T>, p: int) -> Seq<T>
    decreases s.len(),
{
    if s.len() == 0 {
        Seq::empty()
    } else if s.last().position_of() == p {
        at_position(s.drop_last(), p).push(s.last())
    } else {
        at_position(s.drop_last(), p)
    }
}

/// The things at a position in two runs, one after the other, are those of
/// the first followed by those of the second.
proof fn lemma_at_position_of_two<T: Positioned>(a: Seq<T>, b: Seq<T>, p: int)
    ensures
        at_position(a + b, p) == at_position(a, p) + at_position(b, p),
    decreases b.len(),
{
    if b.len() == 0 {
        assert(a + b == a);
        assert(at_position(a, p) + Seq::<T>::empty() == at_position(a, p));
    } else {
        lemma_at_position_of_two(a, b.drop_last(), p);
        assert((a + b).drop_last() == a + b.drop_last());
        assert((a + b).last() == b.last());
        if b.last().position_of() == p {
            assert((at_position(a, p) + at_position(b.drop_last(), p)).push(b.last())
                == at_position(a, p) + at_position(b.drop_last(), p).push(b.last()));
        }
    }
}

/// A run that holds nothing of position `p` has nothing at that position.
proof fn lemma_at_position_of_none<T: Positioned>(s: Seq<T>, p: int)
    requires
        forall|i: int| 0 <= i < s.len() ==> s[i].position_of() != p,
    ensures
        at_position(s, p) == Seq::<T>::empty(),
    decreases s.len(),
{
    if s.len() > 0 {
        assert forall|i: int| 0 <= i < s.drop_last().len() implies s.drop_last()[i].position_of()
            != p by {
            assert(s.drop_last()[i] == s[i]);
        }
        lemma_at_position_of_none(s.drop_last(), p);
    }
}

/// The order is stable: the things of any one position come out in the
/// order in which they went in.
pub proof fn lemma_equal_positions_keep_their_order<T: Positioned>(s: Seq<T>, p: int)
    ensures
        at_position(in_position_order(s), p) == at_position(s, p),
    decreases s.len(),
{
    if s.len() > 0 {
        let head = in_position_order(s.drop_last());
        let x = s.last();
        let key = x.position_of();
        let at = insertion_point(head, key);
        lemma_equal_positions_keep_their_order(s.drop_last(), p);
        lemma_insertion_point(head, key);
        let front = head.take(at);
        let back = head.skip(at);
        assert(head == front + back);
        assert(head.insert(at, x) == front.push(x) + back);
        lemma_at_position_of_two(front, back, p);
        lemma_at_position_of_two(front.push(x), back, p);
        assert(front.push(x).drop_last() == front);
        if key == p {
            assert forall|i: int| 0 <= i < back.len() implies back[i].position_of() != p by {
                assert(back[i] == head[at + i]);
            }
            lemma_at_position_of_none(back, p);
            assert(at_position(front, p) + Seq::<T>::empty() == at_position(front, p));
            assert(at_position(front, p).push(x) + Seq::<T>::empty() == at_position(front, p).push(
                x,
            ));
        }
    }
}

/// Puts the things of `items` in the order of their positions, those of
/// equal position in the order in which they came.
pub fn sort_by_position<T: Positioned>(items: &mut Vec<T>)
    ensures
        final(items)@ == in_position_order(old(items)@),
{
    let ghost all = items@;
    let mut out: Vec<T> = Vec::new();
    let ghost mut done: int = 0;
    while items.len() > 0
        invariant
            0 <= done <= all.len(),
            items@ == all.skip(done),
            out@ == in_position_order(all.take(done)),
        decreases items.len(),
    {
        let x = items.remove(0);
        let key = x.position();
        proof {
            assert(x == all[done]);
            lemma_position_order(all.take(done));
        }
        let mut at: usize = out.len();
        assert(out@.take(at as int) == out@);
        while at > 0 && out[at - 1].position() > key
            invariant
                at <= out.len(),
                key == x.position_of(),
                insertion_point(out@, key as int) == insertion_point(out@.take(at as int), key as int),
            decreases at,
        {
            proof {
                assert(out@.take(at as int).drop_last() == out@.take(at - 1));
            }
            at -= 1;
        }
        proof {
            if at > 0 {
                assert(out@.take(at as int).last() == out@[at - 1]);
            }
            assert(all.take(done + 1).drop_last() == all.take(done));
            assert(all.take(done + 1).last() == x);
            assert(all.skip(done).remove(0) == all.skip(done + 1));
        }
        out.insert(at, x);
        proof {
            done = done + 1;
        }
    }
    proof {
        assert(all.take(all.len() as int) == all);
        assert(out@.take(out@.len() as int) == out@);
    }
    *items = out;
}

} // verus!
