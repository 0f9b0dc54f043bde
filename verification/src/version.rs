//! Package versions: a triple of numbers, ordered lexicographically.

use vstd::prelude::*;

verus! {

/// The version of a package: major, minor and patch number.
#[derive(Clone, Copy, Debug, PartialEq, Eq, Structural, PartialOrd, Ord, Hash)]
pub struct PackageVersion {
    /// The major version.
    pub major: u32,
    /// The minor version.
    pub minor: u32,
    /// The patch version.
    pub patch: u32,
}

/// What parsing `text` as a version with `typst-syntax` yields: the version,
/// or `None` where the text is rejected.
pub uninterp spec fn version_from_text(text: Seq<char>) -> Option<PackageVersion>;

/// The character of a decimal digit.
pub open spec fn digit_char(d: int) -> char {
    if d == 0 {
        '0'
    } else if d == 1 {
        '1'
    } else if d == 2 {
        '2'
    } else if d == 3 {
        '3'
    } else if d == 4 {
        '4'
    } else if d == 5 {
        '5'
    } else if d == 6 {
        '6'
    } else if d == 7 {
        '7'
    } else if d == 8 {
        '8'
    } else {
        '9'
    }
}

/// The decimal numeral of `n`, without leading zeros.
pub open spec fn decimal(n: nat) -> Seq<char>
    decreases n,
{
    if n < 10 {
        seq![digit_char(n as int)]
    } else {
        decimal(n / 10).push(digit_char((n % 10) as int))
    }
}

/// The numeral of a single digit.
fn digit_str(d: u32) -> (r: &'static str)
    requires
        d < 10,
    ensures
        r@ == seq![digit_char(d as int)],
{
    proof {
        reveal_strlit("0");
        reveal_strlit("1");
        reveal_strlit("2");
        reveal_strlit("3");
        reveal_strlit("4");
        reveal_strlit("5");
        reveal_strlit("6");
        reveal_strlit("7");
        reveal_strlit("8");
        reveal_strlit("9");
    }
    let r = if d == 0 {
        "0"
    } else if d == 1 {
        "1"
    } else if d == 2 {
        "2"
    } else if d == 3 {
        "3"
    } else if d == 4 {
        "4"
    } else if d == 5 {
        "5"
    } else if d == 6 {
        "6"
    } else if d == 7 {
        "7"
    } else if d == 8 {
        "8"
    } else {
        "9"
    };
    assert(r@ =~= seq![digit_char(d as int)]);
    r
}

/// Appends the decimal numeral of `n` to `out`.
pub fn push_decimal(out: &mut String, n: u32)
    ensures
        final(out)@ == old(out)@ + decimal(n as nat),
    decreases n,
{
    if n >= 10 {
        push_decimal(out, n / 10);
    }
    out.append(digit_str(n % 10));
    assert(out@ =~= old(out)@ + decimal(n as nat));
}

impl PackageVersion {
    /// `self` is strictly older than `other`.
    pub open spec fn precedes(self, other: Self) -> bool {
        ||| self.major < other.major
        ||| self.major == other.major && self.minor < other.minor
        ||| self.major == other.major && self.minor == other.minor && self.patch < other.patch
    }

    /// `self` is `other` or older.
    pub open spec fn at_most(self, other: Self) -> bool {
        self == other || self.precedes(other)
    }

    /// The version as it is written: the three numbers in decimal, with a
    /// dot between them.
    pub open spec fn text(self) -> Seq<char> {
        decimal(self.major as nat) + seq!['.'] + decimal(self.minor as nat) + seq!['.'] + decimal(
            self.patch as nat,
        )
    }

    /// Makes a version of its three numbers.
    pub fn new(major: u32, minor: u32, patch: u32) -> (r: Self)
        ensures
            r == (PackageVersion { major, minor, patch }),
    {
        PackageVersion { major, minor, patch }
    }

    /// Tells whether `self` is strictly older than `other`.
    pub fn is_before(&self, other: &Self) -> (r: bool)
        ensures
            r == self.precedes(*other),
    {
        if self.major != other.major {
            self.major < other.major
        } else if self.minor != other.minor {
            self.minor < other.minor
        } else {
            self.patch < other.patch
        }
    }

    /// Appends the written form of the version to `out`.
    pub fn push_text(&self, out: &mut String)
        ensures
            final(out)@ == old(out)@ + self.text(),
    {
        proof {
            reveal_strlit(".");
        }
        push_decimal(out, self.major);
        out.append(".");
        push_decimal(out, self.minor);
        out.append(".");
        push_decimal(out, self.patch);
        assert(out@ =~= old(out)@ + self.text());
    }

    /// The written form of the version, such as `0.1.0`.
    pub fn to_text(&self) -> (r: String)
        ensures
            r@ == self.text(),
    {
        let mut out = String::new();
        self.push_text(&mut out);
        assert(out@ =~= self.text());
        out
    }

    /// Reads a version from its written form. The text is judged by
    /// `typst_syntax::package::PackageVersion::from_str`: the contract names
    /// what that function returns and says nothing more of it.
    #[verifier::external_body]
    pub(crate) fn parse_text(text: &str) -> (r: Option<PackageVersion>)
        ensures
            r == version_from_text(text@),
    {
        let parsed: Result<typst_syntax::package::PackageVersion, _> = text.parse();
        parsed.ok().map(|v| PackageVersion { major: v.major, minor: v.minor, patch: v.patch })
    }

    /// Reads a version from its written form, `None` where the text is not
    /// one.
    pub fn parse(text: &str) -> (r: Option<PackageVersion>)
        ensures
            r == version_from_text(text@),
    {
        PackageVersion::parse_text(text)
    }
}

/// The order of versions is strict and total: of two different versions
/// exactly one precedes the other, and no version precedes itself.
pub proof fn law_order_total(a: PackageVersion, b: PackageVersion)
    ensures
        a.precedes(b) || b.precedes(a) || a == b,
        !(a.precedes(b) && b.precedes(a)),
        !a.precedes(a),
{
}

/// The order of versions is transitive.
pub proof fn law_order_transitive(a: PackageVersion, b: PackageVersion, c: PackageVersion)
    requires
        a.at_most(b),
        b.at_most(c),
    ensures
        a.at_most(c),
{
}

} // verus!
