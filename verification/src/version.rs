//! Three-part versions: their canonical text, and how a text is read as one.

use crate::text::{
    all_digits, decimal, is_digit, lemma_decimal_digits, lemma_decimal_injective, render_decimal,
};
use core::cmp::Ordering;
use vstd::prelude::*;
use vstd::std_specs::cmp::PartialOrdSpec;

verus! {

/// A version of three numbers, ordered by major, then minor, then patch.
#[derive(Clone, Copy, Debug, PartialEq, Eq, Ord, Hash, Structural)]
pub struct Version {
    pub major: u64,
    pub minor: u64,
    pub patch: u64,
}

/// Whether `a` comes before `b`: it has the smaller major number, or the same
/// major and the smaller minor number, or the same two and the smaller patch
/// number.
pub open spec fn precedes(a: Version, b: Version) -> bool {
    a.major < b.major || (a.major == b.major && (a.minor < b.minor || (a.minor == b.minor
        && a.patch < b.patch)))
}

impl PartialOrd for Version {
    fn partial_cmp(&self, other: &Version) -> (order: Option<Ordering>) {
        if self.major < other.major {
            Some(Ordering::Less)
        } else if self.major > other.major {
            Some(Ordering::Greater)
        } else if self.minor < other.minor {
            Some(Ordering::Less)
        } else if self.minor > other.minor {
            Some(Ordering::Greater)
        } else if self.patch < other.patch {
            Some(Ordering::Less)
        } else if self.patch > other.patch {
            Some(Ordering::Greater)
        } else {
            Some(Ordering::Equal)
        }
    }
}

impl vstd::std_specs::cmp::PartialOrdSpecImpl for Version {
    open spec fn obeys_partial_cmp_spec() -> bool {
        true
    }

    open spec fn partial_cmp_spec(&self, other: &Version) -> Option<Ordering> {
        if precedes(*self, *other) {
            Some(Ordering::Less)
        } else if precedes(*other, *self) {
            Some(Ordering::Greater)
        } else {
            Some(Ordering::Equal)
        }
    }
}

/// Versions are totally ordered: of two versions exactly one comes first, unless
/// they are the same version, and the order is transitive.
pub proof fn lemma_order_total(a: Version, b: Version, c: Version)
    ensures
        a.partial_cmp_spec(&b) == Some(Ordering::Less) <==> precedes(a, b),
        a.partial_cmp_spec(&b) == Some(Ordering::Greater) <==> precedes(b, a),
        a.partial_cmp_spec(&b) == Some(Ordering::Equal) <==> a == b,
        !(precedes(a, b) && precedes(b, a)),
        precedes(a, b) || precedes(b, a) || a == b,
        precedes(a, b) && precedes(b, c) ==> precedes(a, c),
{
}

/// What a text holds when it is read as a semantic version: the three numbers,
/// and the pre-release and build parts, each empty where the text has none.
#[derive(Clone, Debug, PartialEq, Eq)]
pub struct SemverParts {
    pub major: u64,
    pub minor: u64,
    pub patch: u64,
    pub pre: String,
    pub build: String,
}

/// The mathematical content of a `SemverParts`.
pub struct SemverPartsView {
    pub major: u64,
    pub minor: u64,
    pub patch: u64,
    pub pre: Seq<char>,
    pub build: Seq<char>,
}

impl View for SemverParts {
    type V = SemverPartsView;

    open spec fn view(&self) -> SemverPartsView {
        SemverPartsView {
            major: self.major,
            minor: self.minor,
            patch: self.patch,
            pre: self.pre@,
            build: self.build@,
        }
    }
}

/// The view of an optional `SemverParts`.
pub open spec fn parts_view(parts: Option<SemverParts>) -> Option<SemverPartsView> {
    match parts {
        Some(p) => Some(p@),
        None => None,
    }
}

/// The canonical text of three numbers: their decimal renderings, joined by
/// dots.
pub open spec fn triple_text(major: u64, minor: u64, patch: u64) -> Seq<char> {
    decimal(major as nat) + seq!['.'] + decimal(minor as nat) + seq!['.'] + decimal(patch as nat)
}

/// Whether `text` is the canonical text of some three numbers.
pub open spec fn is_plain_triple(text: Seq<char>) -> bool {
    exists|t: (u64, u64, u64)| text == triple_text(t.0, t.1, t.2)
}

/// The three numbers of which `text` is the canonical text; meaningful where
/// `is_plain_triple(text)`.
pub open spec fn plain_triple_of(text: Seq<char>) -> (u64, u64, u64) {
    choose|t: (u64, u64, u64)| text == triple_text(t.0, t.1, t.2)
}

/// The parts of a version that has three numbers and nothing else.
pub open spec fn plain_parts(t: (u64, u64, u64)) -> SemverPartsView {
    SemverPartsView {
        major: t.0,
        minor: t.1,
        patch: t.2,
        pre: Seq::<char>::empty(),
        build: Seq::<char>::empty(),
    }
}

/// The three-part version in parsed parts: there is one where the text was
/// accepted and has neither a pre-release nor a build part.
pub open spec fn version_of_parts(parts: Option<SemverPartsView>) -> Option<Version> {
    match parts {
        Some(p) => if p.pre.len() == 0 && p.build.len() == 0 {
            Some(Version { major: p.major, minor: p.minor, patch: p.patch })
        } else {
            None
        },
        None => None,
    }
}

/// The three-part version that `text` denotes: the one whose canonical text it
/// is, and none where it is the canonical text of no version.
pub open spec fn parsed_version(text: Seq<char>) -> Option<Version> {
    if is_plain_triple(text) {
        let t = plain_triple_of(text);
        Some(Version { major: t.0, minor: t.1, patch: t.2 })
    } else {
        None
    }
}

/// Two texts that each start with digits, then a dot, are equal only if the
/// digits before the dot and the rest after it are equal.
pub proof fn lemma_split_at_dot(x: Seq<char>, r: Seq<char>, y: Seq<char>, s: Seq<char>)
    requires
        all_digits(x),
        all_digits(y),
        x + seq!['.'] + r == y + seq!['.'] + s,
    ensures
        x == y,
        r == s,
{
    let left = x + seq!['.'] + r;
    let right = y + seq!['.'] + s;
    assert(left.len() == x.len() + 1 + r.len());
    assert(right.len() == y.len() + 1 + s.len());
    if x.len() < y.len() {
        assert(left[x.len() as int] == '.');
        assert(right[x.len() as int] == y[x.len() as int]);
        assert(is_digit(y[x.len() as int]));
    }
    if y.len() < x.len() {
        assert(right[y.len() as int] == '.');
        assert(left[y.len() as int] == x[y.len() as int]);
        assert(is_digit(x[y.len() as int]));
    }
    assert(x.len() == y.len());
    assert forall|i: int| 0 <= i < x.len() implies x[i] == y[i] by {
        assert(left[i] == x[i]);
        assert(right[i] == y[i]);
    }
    assert(x =~= y);
    assert forall|i: int| 0 <= i < r.len() implies r[i] == s[i] by {
        assert(left[x.len() + 1 + i] == r[i]);
        assert(right[y.len() + 1 + i] == s[i]);
    }
    assert(r =~= s);
}

/// Different triples of numbers have different canonical texts.
pub proof fn lemma_triple_text_injective(a: (u64, u64, u64), b: (u64, u64, u64))
    requires
        triple_text(a.0, a.1, a.2) == triple_text(b.0, b.1, b.2),
    ensures
        a == b,
{
    let dot = seq!['.'];
    let rest_a = decimal(a.1 as nat) + dot + decimal(a.2 as nat);
    let rest_b = decimal(b.1 as nat) + dot + decimal(b.2 as nat);
    lemma_decimal_digits(a.0 as nat);
    lemma_decimal_digits(a.1 as nat);
    lemma_decimal_digits(b.0 as nat);
    lemma_decimal_digits(b.1 as nat);
    assert(triple_text(a.0, a.1, a.2) =~= decimal(a.0 as nat) + dot + rest_a);
    assert(triple_text(b.0, b.1, b.2) =~= decimal(b.0 as nat) + dot + rest_b);
    lemma_split_at_dot(decimal(a.0 as nat), rest_a, decimal(b.0 as nat), rest_b);
    lemma_split_at_dot(
        decimal(a.1 as nat),
        decimal(a.2 as nat),
        decimal(b.1 as nat),
        decimal(b.2 as nat),
    );
    lemma_decimal_injective(a.0 as nat, b.0 as nat);
    lemma_decimal_injective(a.1 as nat, b.1 as nat);
    lemma_decimal_injective(a.2 as nat, b.2 as nat);
}

/// The canonical text of a version reads back as that version.
pub proof fn lemma_parse_canonical(v: Version)
    ensures
        is_plain_triple(triple_text(v.major, v.minor, v.patch)),
        plain_triple_of(triple_text(v.major, v.minor, v.patch)) == (v.major, v.minor, v.patch),
        parsed_version(triple_text(v.major, v.minor, v.patch)) == Some(v),
{
    let text = triple_text(v.major, v.minor, v.patch);
    let t = (v.major, v.minor, v.patch);
    assert(text == triple_text(t.0, t.1, t.2));
    let found = plain_triple_of(text);
    assert(text == triple_text(found.0, found.1, found.2));
    lemma_triple_text_injective(found, t);
}

/// Reads `text` with `semver::Version::parse` and copies out what the parsed
/// version holds; `None` where that parser rejects the text.
///
/// Claimed of the parser, and not proved. The canonical text of three numbers
/// (decimal, no leading zeros, each within 64 bits, joined by dots) is accepted
/// and gives those numbers with an empty pre-release and an empty build part.
/// Any other text is either rejected or found to carry a pre-release or a build
/// part: after the patch number the parser accepts only the end of the text,
/// or `-` or `+` followed by a part that is not empty.
#[verifier::external_body]
fn parse_semver(text: &str) -> (parts: Option<SemverParts>)
    ensures
        is_plain_triple(text@) ==> parts_view(parts) == Some(plain_parts(plain_triple_of(text@))),
        !is_plain_triple(text@) ==> (parts matches Some(p) ==> p.pre@.len() > 0 || p.build@.len()
            > 0),
{
    match semver::Version::parse(text) {
        Ok(v) => {
            let (pre, build) = (v.pre.as_str().to_string(), v.build.as_str().to_string());
            Some(SemverParts { major: v.major, minor: v.minor, patch: v.patch, pre, build })
        },
        Err(_) => None,
    }
}

impl Version {
    /// The version `major.minor.patch`.
    pub fn new(major: u64, minor: u64, patch: u64) -> (v: Version)
        ensures
            v == (Version { major, minor, patch }),
    {
        Version { major, minor, patch }
    }

    /// The canonical text `major.minor.patch`.
    pub fn to_string(&self) -> (text: String)
        ensures
            text@ == triple_text(self.major, self.minor, self.patch),
    {
        proof {
            reveal_strlit(".");
        }
        let major = render_decimal(self.major);
        let minor = render_decimal(self.minor);
        let patch = render_decimal(self.patch);
        let text = major.concat(".").concat(minor.as_str()).concat(".").concat(patch.as_str());
        assert("."@ =~= seq!['.']);
        text
    }

    /// The three-part version in the outcome of a parse: `None` where the text
    /// was rejected, and where it carries a pre-release or a build part, which
    /// a three-part version cannot hold.
    pub fn from_parsed(parsed: Option<SemverParts>) -> (v: Option<Version>)
        ensures
            v == version_of_parts(parts_view(parsed)),
    {
        match parsed {
            Some(parts) => {
                if parts.pre.as_str().is_empty() && parts.build.as_str().is_empty() {
                    Some(Version { major: parts.major, minor: parts.minor, patch: parts.patch })
                } else {
                    None
                }
            },
            None => None,
        }
    }

    /// Reads `text` as a three-part version. There is one exactly where `text`
    /// is the canonical text of a version, and then it is that version.
    pub fn parse(text: &str) -> (v: Option<Version>)
        ensures
            v == parsed_version(text@),
            v is Some <==> is_plain_triple(text@),
            v matches Some(x) ==> text@ == triple_text(x.major, x.minor, x.patch),
    {
        Version::from_parsed(parse_semver(text))
    }
}

} // verus!
