//! The presentation order of version names: semantic versions first, in
//! descending order of precedence as the `semver` crate orders them; every
//! other name after them, in descending lexicographic order.

use crate::text::{lex_lt, lex_lt_asymmetric, lex_lt_splits, lex_lt_total, sorts_before};
use crate::utils::precedence::{exceeds, parses, precedence, triple_exceeds, Precedence};
use crate::utils::{parse_semver, semver_triple};
use vstd::prelude::*;

verus! {

/// `a` must be listed before `b`: both are semantic versions and `a` has
/// the higher precedence; or `a` alone is a semantic version; or neither is
/// and `b` sorts lexicographically before `a`.
pub open spec fn outranks(a: Seq<char>, b: Seq<char>) -> bool {
    if parses(a) && parses(b) {
        exceeds(a, b)
    } else if parses(a) {
        true
    } else if parses(b) {
        false
    } else {
        lex_lt(b, a)
    }
}

/// Whether `a` must be listed before `b`, from what is known of the two:
/// whether each is a semantic version, and how the versions compare.
pub open spec fn decided(
    a: Seq<char>,
    b: Seq<char>,
    verdict: Option<Precedence>,
    a_parses: bool,
    b_parses: bool,
) -> bool {
    if a_parses && b_parses {
        verdict == Some(Precedence::Higher)
    } else if a_parses {
        true
    } else if b_parses {
        false
    } else {
        lex_lt(b, a)
    }
}

/// Neither of `a` and `b` must be listed before the other.
pub open spec fn tied(a: Seq<char>, b: Seq<char>) -> bool {
    !outranks(a, b) && !outranks(b, a)
}

/// The names that tie with `x`.
pub open spec fn tied_with(x: Seq<char>) -> spec_fn(Seq<char>) -> bool {
    |e: Seq<char>| tied(e, x)
}

/// No name of `s` must be listed before an earlier one.
pub open spec fn in_rank_order(s: Seq<Seq<char>>) -> bool {
    forall|i: int, j: int| #![trigger s[i], s[j]] 0 <= i < j < s.len() ==> !outranks(s[j], s[i])
}

/// Names that tie stand in `output` in the order they have in `input`.
pub open spec fn keeps_ties(input: Seq<Seq<char>>, output: Seq<Seq<char>>) -> bool {
    forall|x: Seq<char>| #[trigger] output.filter(tied_with(x)) == input.filter(tied_with(x))
}

/// Where `e` goes into the ordered `s`: behind the last name that it does
/// not outrank.
pub open spec fn slot(s: Seq<Seq<char>>, e: Seq<char>) -> int
    decreases s.len(),
{
    if s.len() == 0 {
        0
    } else if outranks(e, s.last()) {
        slot(s.drop_last(), e)
    } else {
        s.len() as int
    }
}

/// The ordered `s` with `e` added.
pub open spec fn insert_ranked(s: Seq<Seq<char>>, e: Seq<char>) -> Seq<Seq<char>> {
    s.insert(slot(s, e), e)
}

/// The names of `s` in presentation order, names that tie in the order of `s`.
pub open spec fn ranking(s: Seq<Seq<char>>) -> Seq<Seq<char>>
    decreases s.len(),
{
    if s.len() == 0 {
        Seq::empty()
    } else {
        insert_ranked(ranking(s.drop_last()), s.last())
    }
}

/// Names that are no semantic versions tie only where they are equal.
pub proof fn other_names_tie_only_if_equal(a: Seq<char>, b: Seq<char>)
    requires
        !parses(a),
        !parses(b),
        tied(a, b),
    ensures
        a == b,
{
    lex_lt_total(a, b, 0);
    assert(a =~= b);
}

/// The slot of `e` parts `s` into the names that `e` does not displace and
/// those that it outranks.
pub proof fn slot_parts(s: Seq<Seq<char>>, e: Seq<char>)
    ensures
        0 <= slot(s, e) <= s.len(),
        forall|k: int| slot(s, e) <= k < s.len() ==> outranks(e, s[k]),
        slot(s, e) > 0 ==> !outranks(e, s[slot(s, e) - 1]),
    decreases s.len(),
{
    if s.len() > 0 && outranks(e, s.last()) {
        let rest = s.drop_last();
        slot_parts(rest, e);
        assert forall|k: int| slot(s, e) <= k < s.len() implies outranks(e, s[k]) by {
            if k < rest.len() {
                assert(rest[k] == s[k]);
            }
        }
    }
}

/// A position behind which `e` outranks every name, and which is the start
/// or follows a name that `e` does not outrank, is the slot of `e`.
pub proof fn slot_found(s: Seq<Seq<char>>, e: Seq<char>, pos: int)
    requires
        0 <= pos <= s.len(),
        forall|k: int| pos <= k < s.len() ==> outranks(e, s[k]),
        pos > 0 ==> !outranks(e, s[pos - 1]),
    ensures
        slot(s, e) == pos,
    decreases s.len(),
{
    if s.len() > 0 && pos < s.len() {
        slot_found(s.drop_last(), e, pos);
    }
}

/// The name at index `i` of `s` with `e` put in at `pos`.
pub proof fn inserted_at(s: Seq<Seq<char>>, pos: int, e: Seq<char>, i: int)
    requires
        0 <= pos <= s.len(),
        0 <= i <= s.len(),
    ensures
        s.insert(pos, e).len() == s.len() + 1,
        s.insert(pos, e)[i] == if i < pos {
            s[i]
        } else if i == pos {
            e
        } else {
            s[i - 1]
        },
{
}

/// Adding a name keeps the order where the name outranks none of the names
/// before it and none of the names behind it outranks the name.
pub proof fn insert_keeps_order(s: Seq<Seq<char>>, e: Seq<char>, pos: int)
    requires
        in_rank_order(s),
        0 <= pos <= s.len(),
        forall|i: int| 0 <= i < pos ==> !outranks(e, s[i]),
        forall|k: int| pos <= k < s.len() ==> !outranks(s[k], e),
    ensures
        in_rank_order(s.insert(pos, e)),
{
    let t = s.insert(pos, e);
    assert forall|i: int, j: int| #![trigger t[i], t[j]] 0 <= i < j < t.len() implies !outranks(
        t[j],
        t[i],
    ) by {
        inserted_at(s, pos, e, i);
        inserted_at(s, pos, e, j);
        if j != pos && i != pos {
            let a = if i < pos { i } else { i - 1 };
            let b = if j < pos { j } else { j - 1 };
            assert(!outranks(s[b], s[a]));
        }
    }
}

/// A sequence none of whose names meets `p` has nothing left after filtering.
pub proof fn filter_none(s: Seq<Seq<char>>, p: spec_fn(Seq<char>) -> bool)
    requires
        forall|k: int| 0 <= k < s.len() ==> !p(s[k]),
    ensures
        s.filter(p) == Seq::<Seq<char>>::empty(),
    decreases s.len(),
{
    reveal(Seq::filter);
    if s.len() > 0 {
        filter_none(s.drop_last(), p);
    }
}

/// Adding `e` puts it behind the names that tie with it, where no name
/// behind it ties with them.
pub proof fn insert_keeps_ties(s: Seq<Seq<char>>, e: Seq<char>, pos: int, x: Seq<char>)
    requires
        0 <= pos <= s.len(),
        tied(e, x) ==> forall|k: int| pos <= k < s.len() ==> !tied(s[k], x),
    ensures
        s.insert(pos, e).filter(tied_with(x)) == if tied(e, x) {
            s.filter(tied_with(x)).push(e)
        } else {
            s.filter(tied_with(x))
        },
{
    let p = tied_with(x);
    let head = s.subrange(0, pos);
    let tail = s.subrange(pos, s.len() as int);
    assert(s =~= head + tail);
    assert(s.insert(pos, e) =~= head.push(e) + tail);
    Seq::filter_distributes_over_add(head, tail, p);
    Seq::filter_distributes_over_add(head.push(e), tail, p);
    head.lemma_filter_push(e, p);
    if tied(e, x) {
        assert forall|k: int| 0 <= k < tail.len() implies !p(tail[k]) by {
            assert(tail[k] == s[pos + k]);
        }
        filter_none(tail, p);
        assert(head.filter(p).push(e) + tail.filter(p) =~= head.filter(p).push(e));
        assert(head.filter(p) + tail.filter(p) =~= head.filter(p));
    }
}

/// The ranking holds each name as often as its input does.
pub proof fn ranking_permutes(s: Seq<Seq<char>>)
    ensures
        ranking(s).to_multiset() == s.to_multiset(),
        ranking(s).len() == s.len(),
    decreases s.len(),
{
    if s.len() > 0 {
        let rest = s.drop_last();
        let e = s.last();
        let prior = ranking(rest);
        let pos = slot(prior, e);
        ranking_permutes(rest);
        slot_parts(prior, e);
        let head = prior.subrange(0, pos);
        let tail = prior.subrange(pos, prior.len() as int);
        assert(prior =~= head + tail);
        assert(ranking(s) =~= head.push(e) + tail);
        assert(rest.push(e) =~= s);
        vstd::seq_lib::to_multiset_build(rest, e);
        vstd::seq_lib::to_multiset_build(head, e);
        vstd::seq_lib::lemma_multiset_commutative(head, tail);
        vstd::seq_lib::lemma_multiset_commutative(head.push(e), tail);
        assert(head.to_multiset().insert(e).add(tail.to_multiset()) =~= head.to_multiset().add(
            tail.to_multiset(),
        ).insert(e));
    } else {
        assert(s =~= Seq::<Seq<char>>::empty());
    }
}

/// Decides whether `a` must be listed before `b`, from what is known of the
/// two: `a_parses` and `b_parses` say whether each is a semantic version,
/// `verdict` how the versions compare.
pub fn decide(a: &str, b: &str, verdict: Option<Precedence>, a_parses: bool, b_parses: bool) -> (yes:
    bool)
    ensures
        yes == decided(a@, b@, verdict, a_parses, b_parses),
{
    if a_parses && b_parses {
        match verdict {
            Some(Precedence::Higher) => true,
            _ => false,
        }
    } else if a_parses {
        true
    } else if b_parses {
        false
    } else {
        sorts_before(b, a)
    }
}

/// Whether `a` must be listed before `b`. Between semantic versions that
/// differ in major, minor or patch number, these numbers decide. The order
/// in which this puts names never contradicts itself: if `a` comes before
/// `b`, then `b` does not come before `a`, and any third name comes after
/// `a` or before `b`; if `a` does not come before `b`, then whatever `a`
/// comes before, `b` comes before as well.
pub fn listed_before(a: &str, b: &str) -> (yes: bool)
    ensures
        yes == outranks(a@, b@),
        parses(a@) && parses(b@) && semver_triple(a@) != semver_triple(b@) ==> yes
            == triple_exceeds(semver_triple(a@).unwrap(), semver_triple(b@).unwrap()),
        yes ==> !outranks(b@, a@),
        forall|c: Seq<char>| #[trigger] outranks(a@, c) ==> yes || outranks(b@, c),
        forall|c: Seq<char>| yes ==> outranks(a@, c) || #[trigger] outranks(c, b@),
{
    let verdict = precedence(a, b);
    let a_parses = verdict.is_some() || parse_semver(a).is_some();
    let b_parses = verdict.is_some() || (!a_parses && parse_semver(b).is_some());
    let yes = decide(a, b, verdict, a_parses, b_parses);
    proof {
        lex_lt_asymmetric(a@, b@, 0);
        assert forall|c: Seq<char>| #[trigger] outranks(a@, c) implies yes || outranks(b@, c) by {
            if !parses(a@) && !parses(b@) && !parses(c) {
                lex_lt_splits(c, b@, a@, 0);
            }
        }
        assert forall|c: Seq<char>| yes implies outranks(a@, c) || #[trigger] outranks(c, b@) by {
            if !parses(a@) && !parses(b@) && !parses(c) {
                lex_lt_splits(b@, c, a@, 0);
            }
            if parses(a@) && parses(b@) && parses(c) {
                assert(exceeds(a@, c) || exceeds(c, b@));
            }
        }
    }
    yes
}

/// Puts `names` into presentation order: semantic versions first, those of
/// higher precedence first, as the `semver` crate orders versions; the
/// other names after them, in descending lexicographic order; names that
/// tie keep their order.
pub fn rank(names: Vec<String>) -> (out: Vec<String>)
    ensures
        out.deep_view() == ranking(names.deep_view()),
        in_rank_order(out.deep_view()),
        out.deep_view().to_multiset() == names.deep_view().to_multiset(),
        keeps_ties(names.deep_view(), out.deep_view()),
        out.len() == names.len(),
{
    let ghost all = names.deep_view();
    let ghost items = names@;
    let mut out: Vec<String> = Vec::new();
    proof {
        assert(all.take(0) =~= Seq::<Seq<char>>::empty());
        assert(out.deep_view() =~= Seq::<Seq<char>>::empty());
    }
    for e in it: names
        invariant
            it.seq() == items,
            all.len() == items.len(),
            forall|k: int| 0 <= k < items.len() ==> items[k]@ == all[k],
            out.deep_view() == ranking(all.take(it.index() as int)),
            in_rank_order(out.deep_view()),
            keeps_ties(all.take(it.index() as int), out.deep_view()),
    {
        let ghost before = out.deep_view();
        let ghost i = it.index() as int;
        let mut pos: usize = out.len();
        while pos > 0 && listed_before(e.as_str(), out[pos - 1].as_str())
            invariant
                pos <= out.len(),
                before == out.deep_view(),
                forall|k: int| pos <= k < out.len() ==> outranks(e@, before[k]),
                forall|k: int| pos <= k < out.len() ==> !outranks(before[k], e@),
                forall|k: int, c: Seq<char>|
                    pos <= k < out.len() ==> outranks(e@, c) || #[trigger] outranks(c, before[k]),
            decreases pos,
        {
            pos -= 1;
        }
        let ghost after = before.insert(pos as int, e@);
        proof {
            slot_found(before, e@, pos as int);
            assert(all.take(i + 1).drop_last() =~= all.take(i));
            assert(all.take(i + 1).last() == e@);
            assert forall|k: int| 0 <= k < pos implies !outranks(e@, before[k]) by {
                if k < pos - 1 {
                    assert(!outranks(before[pos - 1], before[k]));
                }
            }
            insert_keeps_order(before, e@, pos as int);
            assert forall|x: Seq<char>| #[trigger]
                after.filter(tied_with(x)) == all.take(i + 1).filter(tied_with(x)) by {
                if tied(e@, x) {
                    assert forall|k: int| pos <= k < before.len() implies !tied(before[k], x) by {
                        assert(outranks(e@, x) || outranks(x, before[k]));
                    }
                }
                insert_keeps_ties(before, e@, pos as int, x);
                assert(before.filter(tied_with(x)) == all.take(i).filter(tied_with(x)));
                all.take(i).lemma_filter_push(e@, tied_with(x));
                assert(all.take(i).push(e@) =~= all.take(i + 1));
            }
        }
        out.insert(pos, e);
        assert(out.deep_view() =~= after);
    }
    proof {
        assert(all.take(all.len() as int) =~= all);
        ranking_permutes(all);
    }
    out
}

} // verus!
