//! Reading the list of globally installed packages that `npm` prints.

use crate::text::chars_of;
use vstd::prelude::*;

verus! {

broadcast use vstd::string::group_string_axioms;

/// What a line of the package list comes to.
#[derive(Debug, Clone, PartialEq, Eq)]
pub enum PackageLine {
    /// Nothing to show: an error line of `npm`, or a blank line.
    Skip,
    /// A package and its version.
    Package { name: String, version: String },
    /// Any other line, to be shown as it is.
    Plain(String),
}

/// Mathematical view of [`PackageLine`].
pub enum PackageLineView {
    Skip,
    Package { name: Seq<char>, version: Seq<char> },
    Plain(Seq<char>),
}

impl DeepView for PackageLine {
    type V = PackageLineView;

    open spec fn deep_view(&self) -> PackageLineView {
        match self {
            PackageLine::Skip => PackageLineView::Skip,
            PackageLine::Package { name, version } => PackageLineView::Package {
                name: name@,
                version: version@,
            },
            PackageLine::Plain(line) => PackageLineView::Plain(line@),
        }
    }
}

/// Whether `c` has the Unicode property `White_Space`: the controls from
/// tab to carriage return, the space, next line, the no-break space, the
/// ogham space mark, the spaces from en quad to hair space, the line and
/// the paragraph separator, the narrow no-break space, the medium
/// mathematical space and the ideographic space.
pub open spec fn is_white_space(c: char) -> bool {
    ||| '\u{9}' <= c <= '\u{d}'
    ||| c == ' '
    ||| c == '\u{85}'
    ||| c == '\u{a0}'
    ||| c == '\u{1680}'
    ||| '\u{2000}' <= c <= '\u{200a}'
    ||| c == '\u{2028}'
    ||| c == '\u{2029}'
    ||| c == '\u{202f}'
    ||| c == '\u{205f}'
    ||| c == '\u{3000}'
}

/// `pattern` stands in `s` at index `at`.
pub open spec fn stands_at(s: Seq<char>, at: int, pattern: Seq<char>) -> bool {
    0 <= at && at + pattern.len() <= s.len() && s.subrange(at, at + pattern.len()) == pattern
}

/// `pattern` stands somewhere in `s`.
pub open spec fn occurs_in(s: Seq<char>, pattern: Seq<char>) -> bool {
    exists|at: int| stands_at(s, at, pattern)
}

/// The white space flags of `s`: for each character whether it is white space.
pub open spec fn white_space_flags(s: Seq<char>) -> Seq<bool> {
    Seq::new(s.len(), |i: int| is_white_space(s[i]))
}

/// Whether the flags mark index `i`.
pub open spec fn flagged(flags: Seq<bool>, i: int) -> bool {
    0 <= i < flags.len() && flags[i]
}

/// The first index from `from` on, below `upto`, that the flags do not
/// mark; `upto` where they mark all.
pub open spec fn text_start(flags: Seq<bool>, from: int, upto: int) -> int
    decreases upto - from,
{
    if from < upto && flagged(flags, from) {
        text_start(flags, from + 1, upto)
    } else {
        from
    }
}

/// The end of the last stretch before `upto`, above `from`, that the flags
/// do not mark; `from` where they mark all.
pub open spec fn text_end(flags: Seq<bool>, from: int, upto: int) -> int
    decreases upto - from,
{
    if from < upto && flagged(flags, upto - 1) {
        text_end(flags, from, upto - 1)
    } else {
        upto
    }
}

/// The part of `s` between `from` and `upto` without the marked characters
/// at its start and at its end.
pub open spec fn trimmed(s: Seq<char>, flags: Seq<bool>, from: int, upto: int) -> Seq<char> {
    let start = text_start(flags, from, upto);
    s.subrange(start, text_end(flags, start, upto))
}

/// The index of the first `c` in `s` at or after `from`; the length of `s`
/// where there is none.
pub open spec fn first_index(s: Seq<char>, c: char, from: int) -> int
    decreases s.len() - from,
{
    if 0 <= from < s.len() && s[from] != c {
        first_index(s, c, from + 1)
    } else if from < s.len() {
        from
    } else {
        s.len() as int
    }
}

/// What `line` comes to, given for each of its characters whether it is
/// white space. A line that holds `npm ERR!` or nothing but white space is
/// skipped. A line that holds an `@` and starts neither with `+` nor with a
/// backtick names a package: what stands before the first `@` is the name,
/// what stands after it the version, both without white space around them.
/// Any other line is plain.
pub open spec fn classified(line: Seq<char>, flags: Seq<bool>) -> PackageLineView {
    let at = first_index(line, '@', 0);
    if occurs_in(line, "npm ERR!"@) || text_start(flags, 0, line.len() as int) == line.len() {
        PackageLineView::Skip
    } else if at < line.len() && line[0] != '+' && line[0] != '`' {
        PackageLineView::Package {
            name: trimmed(line, flags, 0, at),
            version: trimmed(line, flags, at + 1, line.len() as int),
        }
    } else {
        PackageLineView::Plain(line)
    }
}

/// What each line of the package list comes to, without the skipped ones.
pub open spec fn listed_packages(lines: Seq<Seq<char>>) -> Seq<PackageLineView>
    decreases lines.len(),
{
    if lines.len() == 0 {
        Seq::empty()
    } else {
        let rest = listed_packages(lines.drop_last());
        let entry = classified(lines.last(), white_space_flags(lines.last()));
        if entry is Skip {
            rest
        } else {
            rest.push(entry)
        }
    }
}

/// Calls `char::is_whitespace`, which tells whether a character has the
/// Unicode property `White_Space`. Trusted: the characters with that
/// property are the ones that [`is_white_space`] lists.
#[verifier::external_body]
fn white_space(c: char) -> (yes: bool)
    ensures
        yes == is_white_space(c),
{
    c.is_whitespace()
}

/// For each character of `chars` whether it is white space.
pub fn flags_of(chars: &Vec<char>) -> (flags: Vec<bool>)
    ensures
        flags@ == white_space_flags(chars@),
{
    let mut flags: Vec<bool> = Vec::new();
    let mut i: usize = 0;
    while i < chars.len()
        invariant
            i <= chars.len(),
            flags.len() == i,
            forall|k: int| 0 <= k < i ==> flags@[k] == is_white_space(chars@[k]),
        decreases chars.len() - i,
    {
        flags.push(white_space(chars[i]));
        i += 1;
    }
    assert(flags@ =~= white_space_flags(chars@));
    flags
}

/// Whether `pattern` stands somewhere in `s`.
pub fn contains(s: &Vec<char>, pattern: &Vec<char>) -> (yes: bool)
    ensures
        yes == occurs_in(s@, pattern@),
{
    if pattern.len() > s.len() {
        assert forall|at: int| !stands_at(s@, at, pattern@) by {}
        return false;
    }
    let last: usize = s.len() - pattern.len();
    let mut at: usize = 0;
    while at <= last
        invariant
            at <= last + 1,
            last + pattern.len() == s.len(),
            forall|k: int| 0 <= k < at ==> !stands_at(s@, k, pattern@),
        decreases last + 1 - at,
    {
        let ghost window = s@.subrange(at as int, at + pattern.len());
        let mut i: usize = 0;
        while i < pattern.len() && s[at + i] == pattern[i]
            invariant
                i <= pattern.len(),
                at + pattern.len() <= s.len(),
                window == s@.subrange(at as int, at + pattern.len()),
                forall|k: int| 0 <= k < i ==> window[k] == pattern@[k],
            decreases pattern.len() - i,
        {
            i += 1;
        }
        if i == pattern.len() {
            assert(window =~= pattern@);
            assert(stands_at(s@, at as int, pattern@));
            return true;
        }
        assert(window[i as int] != pattern@[i as int]);
        at += 1;
    }
    assert forall|k: int| !stands_at(s@, k, pattern@) by {}
    false
}

/// The part of `line` between `from` and `upto` without the marked
/// characters at its start and at its end.
fn trim(line: &str, chars: &Vec<char>, flags: &Vec<bool>, from: usize, upto: usize) -> (out:
    String)
    requires
        chars@ == line@,
        from <= upto <= chars.len(),
    ensures
        out@ == trimmed(line@, flags@, from as int, upto as int),
{
    let mut start: usize = from;
    while start < upto && start < flags.len() && flags[start]
        invariant
            from <= start <= upto,
            text_start(flags@, from as int, upto as int) == text_start(
                flags@,
                start as int,
                upto as int,
            ),
        decreases upto - start,
    {
        start += 1;
    }
    let mut end: usize = upto;
    while start < end && end - 1 < flags.len() && flags[end - 1]
        invariant
            start <= end <= upto,
            text_end(flags@, start as int, upto as int) == text_end(
                flags@,
                start as int,
                end as int,
            ),
        decreases end - start,
    {
        end -= 1;
    }
    line.substring_char(start, end).to_owned()
}

/// Reads one line of the package list, given for each of its characters
/// whether it is white space.
pub fn classify_with(line: &str, flags: &Vec<bool>) -> (entry: PackageLine)
    ensures
        entry.deep_view() == classified(line@, flags@),
{
    let chars = chars_of(line);
    let marker = chars_of("npm ERR!");
    let mut lead: usize = 0;
    while lead < chars.len() && lead < flags.len() && flags[lead]
        invariant
            lead <= chars.len(),
            text_start(flags@, 0, chars.len() as int) == text_start(
                flags@,
                lead as int,
                chars.len() as int,
            ),
        decreases chars.len() - lead,
    {
        lead += 1;
    }
    if contains(&chars, &marker) || lead == chars.len() {
        return PackageLine::Skip;
    }
    let mut at: usize = 0;
    while at < chars.len() && chars[at] != '@'
        invariant
            at <= chars.len(),
            first_index(chars@, '@', 0) == first_index(chars@, '@', at as int),
        decreases chars.len() - at,
    {
        at += 1;
    }
    if at < chars.len() && chars[0] != '+' && chars[0] != '`' {
        PackageLine::Package {
            name: trim(line, &chars, flags, 0, at),
            version: trim(line, &chars, flags, at + 1, chars.len()),
        }
    } else {
        PackageLine::Plain(line.to_owned())
    }
}

/// Reads one line of the package list.
pub fn classify(line: &str) -> (entry: PackageLine)
    ensures
        entry.deep_view() == classified(line@, white_space_flags(line@)),
{
    let chars = chars_of(line);
    let flags = flags_of(&chars);
    classify_with(line, &flags)
}

/// Reads the package list that `npm list --global --depth=0` printed, line
/// by line: what to show for each line, in order, skipped lines left out.
pub fn execute(lines: &Vec<String>) -> (entries: Vec<PackageLine>)
    ensures
        entries.deep_view() == listed_packages(lines.deep_view()),
{
    let ghost all = lines.deep_view();
    let mut entries: Vec<PackageLine> = Vec::new();
    let mut i: usize = 0;
    while i < lines.len()
        invariant
            i <= lines.len(),
            all == lines.deep_view(),
            entries.deep_view() == listed_packages(all.take(i as int)),
        decreases lines.len() - i,
    {
        let ghost before = entries.deep_view();
        proof {
            assert(all.take(i + 1).drop_last() =~= all.take(i as int));
            assert(all.take(i + 1).last() == lines[i as int]@);
        }
        let entry = classify(lines[i].as_str());
        match entry {
            PackageLine::Skip => {},
            other => {
                let ghost added = other.deep_view();
                entries.push(other);
                assert(entries.deep_view() =~= before.push(added));
            },
        }
        i += 1;
    }
    proof {
        assert(all.take(lines.len() as int) =~= all);
    }
    entries
}

} // verus!
