//! The branch unifier: folds the arms of a conditional or pattern-match
//! construct into a right-nested chain of [`MyIter`] unions.
//!
//! Each builder here is one level of the recursive right-fold that the
//! rewrite performs: a construct with one more arm is built from the builder
//! for one arm fewer, wrapped one level deeper. The selection semantics —
//! first-true-wins over conditions, first-match-wins over patterns, strictly
//! left to right — are stated once, by the spec functions [`cond_select`] and
//! [`match_select`], and every builder's contract is exact against them.
//!
//! The minimum arity is enforced by construction rather than checked at run
//! time: the smallest conditional builder takes one conditioned arm plus the
//! mandatory unconditional arm, and the smallest pattern builder takes two
//! arms. A conditional site with no conditioned arm at all is just its else
//! expression and needs no unification.

use vstd::prelude::*;

use crate::producer::Producer;
use crate::sum::MyIter;

verus! {

/// First-true-wins selection over a conditional chain: `conds` and `arms`
/// pair up the conditioned arms in order (`arms[i]` is the sequence arm `i`
/// would yield), and `otherwise` is the mandatory trailing unconditional arm.
pub open spec fn cond_select<E>(conds: Seq<bool>, arms: Seq<Seq<E>>, otherwise: Seq<E>) -> Seq<E>
    recommends
        conds.len() == arms.len(),
    decreases conds.len(),
{
    if conds.len() == 0 {
        otherwise
    } else if conds[0] {
        arms[0]
    } else {
        cond_select(conds.drop_first(), arms.drop_first(), otherwise)
    }
}

/// First-match-wins selection over a pattern chain: `hits[i]` says whether
/// the scrutinee matches arm `i`'s pattern, and `arms[i]` is the sequence arm
/// `i` would yield. `None` when the scrutinee matches no declared arm: the
/// pattern set was not exhaustive after all.
pub open spec fn match_select<E>(hits: Seq<bool>, arms: Seq<Seq<E>>) -> Option<Seq<E>>
    recommends
        hits.len() == arms.len(),
    decreases hits.len(),
{
    if hits.len() == 0 {
        None
    } else if hits[0] {
        Some(arms[0])
    } else {
        match_select(hits.drop_first(), arms.drop_first())
    }
}

/// The impossible-state marker of the pattern form: a scrutinee value matched
/// none of the declared arms, so the pattern set was not jointly exhaustive.
/// This is programmer error at the unification site, not a property of the
/// data, and is therefore reported as its own explicit value, distinct from
/// normal exhaustion of a producer.
#[derive(Debug, PartialEq, Eq, Structural)]
pub struct UnmatchedScrutinee;

/// Unify one conditioned arm plus the unconditional arm: the base case of
/// the conditional fold. Emits `if cond { Left } else { Right }`.
pub fn unify_cond1<A, B>(cond: bool, arm: A, otherwise: B) -> (r: MyIter<A, B>) where
    A: Producer,
    B: Producer<Item = A::Item>,
    ensures
        cond ==> r == MyIter::<A, B>::A(arm),
        !cond ==> r == MyIter::<A, B>::B(otherwise),
        r.remaining() == cond_select(seq![cond], seq![arm.remaining()], otherwise.remaining()),
{
    proof {
        reveal_with_fuel(cond_select, 2);
        assert(seq![cond].drop_first() =~= Seq::<bool>::empty());
        assert(seq![arm.remaining()].drop_first() =~= Seq::<Seq<A::Item>>::empty());
    }
    if cond {
        MyIter::A(arm)
    } else {
        MyIter::B(otherwise)
    }
}

/// Unify two conditioned arms plus the unconditional arm: one recursive step
/// of the fold, wrapping [`unify_cond1`] of the remaining arms.
pub fn unify_cond2<A, B, C>(
    cond0: bool,
    arm0: A,
    cond1: bool,
    arm1: B,
    otherwise: C,
) -> (r: MyIter<A, MyIter<B, C>>) where
    A: Producer,
    B: Producer<Item = A::Item>,
    C: Producer<Item = A::Item>,
    ensures
        cond0 ==> r == MyIter::<A, MyIter<B, C>>::A(arm0),
        !cond0 && cond1 ==> r == MyIter::<A, MyIter<B, C>>::B(MyIter::<B, C>::A(arm1)),
        !cond0 && !cond1 ==> r == MyIter::<A, MyIter<B, C>>::B(MyIter::<B, C>::B(otherwise)),
        r.remaining() == cond_select(
            seq![cond0, cond1],
            seq![arm0.remaining(), arm1.remaining()],
            otherwise.remaining(),
        ),
{
    proof {
        assert(seq![cond0, cond1].drop_first() =~= seq![cond1]);
        assert(seq![arm0.remaining(), arm1.remaining()].drop_first() =~= seq![arm1.remaining()]);
    }
    if cond0 {
        MyIter::A(arm0)
    } else {
        MyIter::B(unify_cond1(cond1, arm1, otherwise))
    }
}

/// Unify three conditioned arms plus the unconditional arm: one more step of
/// the same fold, wrapping [`unify_cond2`].
pub fn unify_cond3<A, B, C, D>(
    cond0: bool,
    arm0: A,
    cond1: bool,
    arm1: B,
    cond2: bool,
    arm2: C,
    otherwise: D,
) -> (r: MyIter<A, MyIter<B, MyIter<C, D>>>) where
    A: Producer,
    B: Producer<Item = A::Item>,
    C: Producer<Item = A::Item>,
    D: Producer<Item = A::Item>,
    ensures
        cond0 ==> r == MyIter::<A, MyIter<B, MyIter<C, D>>>::A(arm0),
        !cond0 && cond1 ==> r == MyIter::<A, MyIter<B, MyIter<C, D>>>::B(
            MyIter::<B, MyIter<C, D>>::A(arm1),
        ),
        !cond0 && !cond1 && cond2 ==> r == MyIter::<A, MyIter<B, MyIter<C, D>>>::B(
            MyIter::<B, MyIter<C, D>>::B(MyIter::<C, D>::A(arm2)),
        ),
        !cond0 && !cond1 && !cond2 ==> r == MyIter::<A, MyIter<B, MyIter<C, D>>>::B(
            MyIter::<B, MyIter<C, D>>::B(MyIter::<C, D>::B(otherwise)),
        ),
        r.remaining() == cond_select(
            seq![cond0, cond1, cond2],
            seq![arm0.remaining(), arm1.remaining(), arm2.remaining()],
            otherwise.remaining(),
        ),
{
    proof {
        assert(seq![cond0, cond1, cond2].drop_first() =~= seq![cond1, cond2]);
        assert(seq![arm0.remaining(), arm1.remaining(), arm2.remaining()].drop_first() =~= seq![
            arm1.remaining(),
            arm2.remaining(),
        ]);
    }
    if cond0 {
        MyIter::A(arm0)
    } else {
        MyIter::B(unify_cond2(cond1, arm1, cond2, arm2, otherwise))
    }
}

/// Unify the last two arms of a pattern match: the base case of the pattern
/// fold. A scrutinee that matches neither arm is the impossible state; it is
/// reported as the explicit [`UnmatchedScrutinee`] value rather than left to
/// a silent trap.
pub fn unify_match2<A, B>(hit0: bool, arm0: A, hit1: bool, arm1: B) -> (r: Result<
    MyIter<A, B>,
    UnmatchedScrutinee,
>) where A: Producer, B: Producer<Item = A::Item>
    ensures
        hit0 ==> r == Result::<MyIter<A, B>, UnmatchedScrutinee>::Ok(MyIter::<A, B>::A(arm0)),
        !hit0 && hit1 ==> r == Result::<MyIter<A, B>, UnmatchedScrutinee>::Ok(
            MyIter::<A, B>::B(arm1),
        ),
        !hit0 && !hit1 ==> r == Result::<MyIter<A, B>, UnmatchedScrutinee>::Err(
            UnmatchedScrutinee,
        ),
        r is Ok <==> match_select(seq![hit0, hit1], seq![arm0.remaining(), arm1.remaining()])
            is Some,
        r matches Ok(u) ==> Some(u.remaining()) == match_select(
            seq![hit0, hit1],
            seq![arm0.remaining(), arm1.remaining()],
        ),
{
    proof {
        reveal_with_fuel(match_select, 3);
        assert(seq![hit0, hit1].drop_first() =~= seq![hit1]);
        assert(seq![arm0.remaining(), arm1.remaining()].drop_first() =~= seq![arm1.remaining()]);
        assert(seq![hit1].drop_first() =~= Seq::<bool>::empty());
        assert(seq![arm1.remaining()].drop_first() =~= Seq::<Seq<A::Item>>::empty());
    }
    if hit0 {
        Ok(MyIter::A(arm0))
    } else if hit1 {
        Ok(MyIter::B(arm1))
    } else {
        Err(UnmatchedScrutinee)
    }
}

/// Unify three pattern arms: one recursive step of the pattern fold, wrapping
/// [`unify_match2`] of the remaining arms under the synthesized wildcard.
pub fn unify_match3<A, B, C>(
    hit0: bool,
    arm0: A,
    hit1: bool,
    arm1: B,
    hit2: bool,
    arm2: C,
) -> (r: Result<MyIter<A, MyIter<B, C>>, UnmatchedScrutinee>) where
    A: Producer,
    B: Producer<Item = A::Item>,
    C: Producer<Item = A::Item>,
    ensures
        hit0 ==> r == Result::<MyIter<A, MyIter<B, C>>, UnmatchedScrutinee>::Ok(
            MyIter::<A, MyIter<B, C>>::A(arm0),
        ),
        !hit0 && hit1 ==> r == Result::<MyIter<A, MyIter<B, C>>, UnmatchedScrutinee>::Ok(
            MyIter::<A, MyIter<B, C>>::B(MyIter::<B, C>::A(arm1)),
        ),
        !hit0 && !hit1 && hit2 ==> r == Result::<MyIter<A, MyIter<B, C>>, UnmatchedScrutinee>::Ok(
            MyIter::<A, MyIter<B, C>>::B(MyIter::<B, C>::B(arm2)),
        ),
        !hit0 && !hit1 && !hit2 ==> r == Result::<
            MyIter<A, MyIter<B, C>>,
            UnmatchedScrutinee,
        >::Err(UnmatchedScrutinee),
        r is Ok <==> match_select(
            seq![hit0, hit1, hit2],
            seq![arm0.remaining(), arm1.remaining(), arm2.remaining()],
        ) is Some,
        r matches Ok(u) ==> Some(u.remaining()) == match_select(
            seq![hit0, hit1, hit2],
            seq![arm0.remaining(), arm1.remaining(), arm2.remaining()],
        ),
{
    proof {
        assert(seq![hit0, hit1, hit2].drop_first() =~= seq![hit1, hit2]);
        assert(seq![arm0.remaining(), arm1.remaining(), arm2.remaining()].drop_first() =~= seq![
            arm1.remaining(),
            arm2.remaining(),
        ]);
    }
    if hit0 {
        Ok(MyIter::A(arm0))
    } else {
        match unify_match2(hit1, arm1, hit2, arm2) {
            Ok(inner) => Ok(MyIter::B(inner)),
            Err(e) => Err(e),
        }
    }
}

/// Unify one conditioned arm plus the unconditional arm, with each arm's
/// expression deferred behind a closure: exactly one closure — the selected
/// arm's — is invoked per call, as in an ordinary `if`/`else` chain. Only the
/// selected arm's precondition is demanded, and only its postcondition is
/// promised of the producer inside the emitted union.
pub fn unify_cond1_deferred<A, B, FA, FB>(cond: bool, arm: FA, otherwise: FB) -> (r: MyIter<A, B>) where
    A: Producer,
    B: Producer<Item = A::Item>,
    FA: FnOnce() -> A,
    FB: FnOnce() -> B,
    requires
        cond ==> call_requires(arm, ()),
        !cond ==> call_requires(otherwise, ()),
    ensures
        cond ==> (exists|a: A| call_ensures(arm, (), a) && r == MyIter::<A, B>::A(a)),
        !cond ==> (exists|b: B| call_ensures(otherwise, (), b) && r == MyIter::<A, B>::B(b)),
{
    if cond {
        MyIter::A(arm())
    } else {
        MyIter::B(otherwise())
    }
}

/// Unify two conditioned arms plus the unconditional arm, arms deferred
/// behind closures: one recursive step of the fold over [`unify_cond1_deferred`].
/// Conditions are evaluated strictly left to right, short-circuiting at the
/// first true one, and exactly one arm's closure is invoked per call.
pub fn unify_cond2_deferred<A, B, C, FA, FB, FC>(
    cond0: bool,
    arm0: FA,
    cond1: bool,
    arm1: FB,
    otherwise: FC,
) -> (r: MyIter<A, MyIter<B, C>>) where
    A: Producer,
    B: Producer<Item = A::Item>,
    C: Producer<Item = A::Item>,
    FA: FnOnce() -> A,
    FB: FnOnce() -> B,
    FC: FnOnce() -> C,
    requires
        cond0 ==> call_requires(arm0, ()),
        !cond0 && cond1 ==> call_requires(arm1, ()),
        !cond0 && !cond1 ==> call_requires(otherwise, ()),
    ensures
        cond0 ==> (exists|a: A|
            call_ensures(arm0, (), a) && r == MyIter::<A, MyIter<B, C>>::A(a)),
        !cond0 && cond1 ==> (exists|b: B|
            call_ensures(arm1, (), b) && r == MyIter::<A, MyIter<B, C>>::B(
                MyIter::<B, C>::A(b),
            )),
        !cond0 && !cond1 ==> (exists|c: C|
            call_ensures(otherwise, (), c) && r == MyIter::<A, MyIter<B, C>>::B(
                MyIter::<B, C>::B(c),
            )),
{
    if cond0 {
        MyIter::A(arm0())
    } else {
        MyIter::B(unify_cond1_deferred(cond1, arm1, otherwise))
    }
}

/// First-true-wins, left to right: if arm `k` is the first whose condition
/// holds, the unified construct yields exactly arm `k`'s own sequence —
/// draining the nested sum gives the same elements as draining arm `k`'s
/// producer directly.
pub proof fn lemma_cond_first_true<E>(conds: Seq<bool>, arms: Seq<Seq<E>>, otherwise: Seq<E>, k: int)
    requires
        conds.len() == arms.len(),
        0 <= k < conds.len(),
        conds[k],
        forall|i: int| 0 <= i < k ==> !conds[i],
    ensures
        cond_select(conds, arms, otherwise) == arms[k],
    decreases k,
{
    if k > 0 {
        lemma_cond_first_true(conds.drop_first(), arms.drop_first(), otherwise, k - 1);
    }
}

/// When no condition holds, the unified construct yields exactly the
/// unconditional arm's sequence.
pub proof fn lemma_cond_all_false<E>(conds: Seq<bool>, arms: Seq<Seq<E>>, otherwise: Seq<E>)
    requires
        conds.len() == arms.len(),
        forall|i: int| 0 <= i < conds.len() ==> !conds[i],
    ensures
        cond_select(conds, arms, otherwise) == otherwise,
    decreases conds.len(),
{
    if conds.len() > 0 {
        lemma_cond_all_false(conds.drop_first(), arms.drop_first(), otherwise);
    }
}

/// First-match-wins, left to right: if arm `k` is the first whose pattern the
/// scrutinee matches, the unified construct yields element-for-element arm
/// `k`'s own sequence. With a genuinely exhaustive, disjoint pattern set, `k`
/// is the one matching arm, whichever arm that is.
pub proof fn lemma_match_first_hit<E>(hits: Seq<bool>, arms: Seq<Seq<E>>, k: int)
    requires
        hits.len() == arms.len(),
        0 <= k < hits.len(),
        hits[k],
        forall|i: int| 0 <= i < k ==> !hits[i],
    ensures
        match_select(hits, arms) == Some(arms[k]),
    decreases k,
{
    if k > 0 {
        lemma_match_first_hit(hits.drop_first(), arms.drop_first(), k - 1);
    }
}

/// When the scrutinee matches no declared arm, selection reaches the
/// impossible state: the pattern set was not exhaustive.
pub proof fn lemma_match_no_hit<E>(hits: Seq<bool>, arms: Seq<Seq<E>>)
    requires
        hits.len() == arms.len(),
        forall|i: int| 0 <= i < hits.len() ==> !hits[i],
    ensures
        match_select(hits, arms) is None,
    decreases hits.len(),
{
    if hits.len() > 0 {
        lemma_match_no_hit(hits.drop_first(), arms.drop_first());
    }
}

/// Determinism: two invocations of the same unification site with the same
/// condition values and arms that yield the same sequences select the same
/// sequence — identical element order and length.
pub proof fn lemma_select_deterministic<E>(
    conds0: Seq<bool>,
    arms0: Seq<Seq<E>>,
    otherwise0: Seq<E>,
    conds1: Seq<bool>,
    arms1: Seq<Seq<E>>,
    otherwise1: Seq<E>,
)
    requires
        conds0 == conds1,
        arms0 == arms1,
        otherwise0 == otherwise1,
    ensures
        cond_select(conds0, arms0, otherwise0) == cond_select(conds1, arms1, otherwise1),
        match_select(conds0, arms0) == match_select(conds1, arms1),
{
}

/// Delegation: a binary sum's remaining elements are exactly the held
/// producer's, whichever side is active. Together with the contract of
/// [`crate::producer::drain`], which holds for every producer and so for a
/// nested sum of any depth, exhaustion propagates through arbitrary nesting:
/// draining a nested sum ends after exactly the selected branch's elements.
pub proof fn lemma_sum_delegates<I, J>(s: MyIter<I, J>) where
    I: Producer,
    J: Producer<Item = I::Item>,
    ensures
        s matches MyIter::A(it) ==> s.remaining() == it.remaining(),
        s matches MyIter::B(it) ==> s.remaining() == it.remaining(),
{
}

} // verus!
