//! The precedence of semantic versions, as the `semver` crate orders them.

use crate::utils::semver_triple;
use std::cmp::Ordering;
use vstd::prelude::*;

verus! {

/// How one version stands to another.
#[derive(Debug, Clone, Copy, PartialEq, Eq, Structural)]
pub enum Precedence {
    /// It has the higher precedence.
    Higher,
    /// Neither has the higher precedence.
    Same,
    /// It has the lower precedence.
    Lower,
}

/// How `semver::Version::cmp` orders the version that `a` parses to against
/// the version that `b` parses to; `None` where `semver::Version::parse`
/// rejects either text.
pub uninterp spec fn semver_precedence(a: Seq<char>, b: Seq<char>) -> Option<Precedence>;

/// `text` is a semantic version.
pub open spec fn parses(text: Seq<char>) -> bool {
    semver_triple(text) is Some
}

/// The version `a` has a higher precedence than the version `b`.
pub open spec fn exceeds(a: Seq<char>, b: Seq<char>) -> bool {
    semver_precedence(a, b) == Some(Precedence::Higher)
}

/// The triple `x` of major, minor and patch number is greater than `y`:
/// greater major, else greater minor, else greater patch.
pub open spec fn triple_exceeds(x: (u64, u64, u64), y: (u64, u64, u64)) -> bool {
    x.0 > y.0 || (x.0 == y.0 && (x.1 > y.1 || (x.1 == y.1 && x.2 > y.2)))
}

/// How `a` stands to `b` by their numbers: higher where the triple of `a`
/// is the greater one, lower otherwise.
pub open spec fn by_triples(a: Seq<char>, b: Seq<char>) -> Option<Precedence> {
    if triple_exceeds(semver_triple(a).unwrap(), semver_triple(b).unwrap()) {
        Some(Precedence::Higher)
    } else {
        Some(Precedence::Lower)
    }
}

/// Where `a` is not above `b`, whatever `a` is above, `b` is above as well.
pub open spec fn passes_on(
    verdict: Option<Precedence>,
    a: Seq<char>,
    b: Seq<char>,
    c: Seq<char>,
) -> bool {
    #[trigger] exceeds(a, c) ==> verdict == Some(Precedence::Higher) || exceeds(b, c)
}

/// Where `a` is above `b`, `a` is above any third version or that one is
/// above `b`.
pub open spec fn parts(
    verdict: Option<Precedence>,
    a: Seq<char>,
    b: Seq<char>,
    c: Seq<char>,
) -> bool {
    verdict == Some(Precedence::Higher) ==> exceeds(a, c) || exceeds(c, b)
}

/// The same comparison seen from the other side.
pub open spec fn reversed(precedence: Option<Precedence>) -> Option<Precedence> {
    match precedence {
        Some(Precedence::Higher) => Some(Precedence::Lower),
        Some(Precedence::Lower) => Some(Precedence::Higher),
        other => other,
    }
}

/// Parses both texts with `semver::Version::parse` and compares the
/// versions with `semver::Version::cmp`. Trusted, of that comparison:
/// there is a result exactly where both texts parse; where the versions
/// differ in major, minor or patch number, these decide, in that order;
/// comparing the other way round gives the reverse; and the order is
/// transitive, stated in the two forms that placing a version among others
/// needs: a version that is not above `b` is above nothing that `b` is not
/// above, and a version above `b` is above any third version or that third
/// one is above `b`.
#[verifier::external_body]
pub(crate) fn precedence(a: &str, b: &str) -> (verdict: Option<Precedence>)
    ensures
        verdict == semver_precedence(a@, b@),
        (verdict is Some) == (parses(a@) && parses(b@)),
        verdict is Some && semver_triple(a@) != semver_triple(b@) ==> verdict == by_triples(a@, b@),
        reversed(verdict) == semver_precedence(b@, a@),
        forall|c: Seq<char>| verdict is Some && parses(c) ==> passes_on(verdict, a@, b@, c),
        forall|c: Seq<char>| verdict is Some && parses(c) ==> parts(verdict, a@, b@, c),
{
    match (semver::Version::parse(a), semver::Version::parse(b)) {
        (Ok(left), Ok(right)) => Some(
            match left.cmp(&right) {
                Ordering::Less => Precedence::Lower,
                Ordering::Equal => Precedence::Same,
                Ordering::Greater => Precedence::Higher,
            },
        ),
        _ => None,
    }
}

} // verus!
