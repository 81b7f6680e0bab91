use crate::text::{lemma_split_is_faithful, split};
use crate::version::{decimal_value, digit_value, is_digit, is_numeric, VersionModel};
use vstd::prelude::*;

verus! {

/// How one version stands to another.
#[derive(Clone, Copy, Debug, PartialEq, Eq, Structural)]
pub enum VersionOrder {
    /// It comes before the other.
    Older,
    /// It is the other.
    Same,
    /// It comes after the other.
    Newer,
}

impl VersionOrder {
    /// The order seen from the other side.
    pub open spec fn reversed(self) -> VersionOrder {
        match self {
            VersionOrder::Older => VersionOrder::Newer,
            VersionOrder::Same => VersionOrder::Same,
            VersionOrder::Newer => VersionOrder::Older,
        }
    }

    /// This order, or `next` where this one does not tell the two apart.
    pub open spec fn or(self, next: VersionOrder) -> VersionOrder {
        if self is Same {
            next
        } else {
            self
        }
    }
}

/// The order of two numbers.
pub open spec fn number_order(a: nat, b: nat) -> VersionOrder {
    if a < b {
        VersionOrder::Older
    } else if a == b {
        VersionOrder::Same
    } else {
        VersionOrder::Newer
    }
}

/// The order of two texts by the first character in which they differ; a
/// text comes before every text that it begins.
pub open spec fn lexical_order(a: Seq<char>, b: Seq<char>) -> VersionOrder
    decreases a.len(),
{
    if a.len() == 0 && b.len() == 0 {
        VersionOrder::Same
    } else if a.len() == 0 {
        VersionOrder::Older
    } else if b.len() == 0 {
        VersionOrder::Newer
    } else if a[0] != b[0] {
        if a[0] < b[0] {
            VersionOrder::Older
        } else {
            VersionOrder::Newer
        }
    } else {
        lexical_order(a.skip(1), b.skip(1))
    }
}

/// The order of two identifiers. Numbers go by their value, and among equal
/// values the shorter comes first; a number comes before every identifier
/// that is none; other identifiers go by their characters.
pub open spec fn identifier_order(a: Seq<char>, b: Seq<char>) -> VersionOrder {
    if is_numeric(a) && is_numeric(b) {
        number_order(decimal_value(a), decimal_value(b)).or(number_order(a.len(), b.len()))
    } else if is_numeric(a) {
        VersionOrder::Older
    } else if is_numeric(b) {
        VersionOrder::Newer
    } else {
        lexical_order(a, b)
    }
}

/// The order of two series of identifiers: by the first identifier in which
/// they differ; a series comes before every series that it begins.
pub open spec fn series_order(a: Seq<Seq<char>>, b: Seq<Seq<char>>) -> VersionOrder
    decreases a.len(),
{
    if a.len() == 0 && b.len() == 0 {
        VersionOrder::Same
    } else if a.len() == 0 {
        VersionOrder::Older
    } else if b.len() == 0 {
        VersionOrder::Newer
    } else {
        identifier_order(a[0], b[0]).or(series_order(a.skip(1), b.skip(1)))
    }
}

/// The order of two pre-releases. A version without one comes after every
/// version with one.
pub open spec fn prerelease_order(a: Seq<char>, b: Seq<char>) -> VersionOrder {
    if a.len() == 0 && b.len() == 0 {
        VersionOrder::Same
    } else if a.len() == 0 {
        VersionOrder::Newer
    } else if b.len() == 0 {
        VersionOrder::Older
    } else {
        series_order(split(a, '.'), split(b, '.'))
    }
}

/// The order of two build metadata.
pub open spec fn build_order(a: Seq<char>, b: Seq<char>) -> VersionOrder {
    series_order(split(a, '.'), split(b, '.'))
}

/// The order of two versions: by major, minor and patch number, then by
/// pre-release, then by build metadata.
pub open spec fn version_order(a: VersionModel, b: VersionModel) -> VersionOrder {
    number_order(a.major, b.major).or(number_order(a.minor, b.minor)).or(
        number_order(a.patch, b.patch),
    ).or(prerelease_order(a.pre, b.pre)).or(build_order(a.build, b.build))
}

/// What makes a comparison an order: across three values, where two of
/// them are not told apart the third stands to both alike, and two steps the
/// same way make a step that way.
pub open spec fn coherent(ab: VersionOrder, bc: VersionOrder, ac: VersionOrder) -> bool {
    &&& ab is Same ==> ac == bc
    &&& bc is Same ==> ac == ab
    &&& ab is Older && bc is Older ==> ac is Older
    &&& ab is Newer && bc is Newer ==> ac is Newer
}

/// Texts: seen from the other side the order is reversed, and only a text
/// itself is not told apart from it.
pub proof fn lemma_lexical_order_sides(a: Seq<char>, b: Seq<char>)
    ensures
        lexical_order(b, a) == lexical_order(a, b).reversed(),
        lexical_order(a, b) is Same <==> a == b,
    decreases a.len(),
{
    if a.len() > 0 && b.len() > 0 && a[0] == b[0] {
        lemma_lexical_order_sides(a.skip(1), b.skip(1));
        if a.skip(1) == b.skip(1) {
            assert(a =~= seq![a[0]] + a.skip(1));
            assert(b =~= seq![b[0]] + b.skip(1));
        }
    } else if a.len() == 0 && b.len() == 0 {
        assert(a =~= b);
    }
}

/// Texts are ordered.
pub proof fn lemma_lexical_order_coherent(a: Seq<char>, b: Seq<char>, c: Seq<char>)
    ensures
        coherent(lexical_order(a, b), lexical_order(b, c), lexical_order(a, c)),
    decreases a.len(),
{
    if a.len() > 0 && b.len() > 0 && c.len() > 0 {
        if a[0] == b[0] && b[0] == c[0] {
            lemma_lexical_order_coherent(a.skip(1), b.skip(1), c.skip(1));
        }
    }
}

/// Two numbers of as many digits that stand for one value are one.
pub proof fn lemma_digits_of_equal_value(a: Seq<char>, b: Seq<char>)
    requires
        is_numeric(a),
        is_numeric(b),
        a.len() == b.len(),
        decimal_value(a) == decimal_value(b),
    ensures
        a == b,
    decreases a.len(),
{
    if a.len() > 0 {
        assert(is_digit(a.last()) && is_digit(b.last()));
        assert(digit_value(a.last()) < 10 && digit_value(b.last()) < 10);
        lemma_digits_of_equal_value(a.drop_last(), b.drop_last());
        assert(a =~= a.drop_last().push(a.last()));
        assert(b =~= b.drop_last().push(b.last()));
    } else {
        assert(a =~= b);
    }
}

/// Identifiers: seen from the other side the order is reversed, and only an
/// identifier itself is not told apart from it.
pub proof fn lemma_identifier_order_sides(a: Seq<char>, b: Seq<char>)
    ensures
        identifier_order(b, a) == identifier_order(a, b).reversed(),
        identifier_order(a, b) is Same <==> a == b,
{
    lemma_lexical_order_sides(a, b);
    if is_numeric(a) && is_numeric(b) && identifier_order(a, b) is Same {
        lemma_digits_of_equal_value(a, b);
    }
}

/// Identifiers are ordered.
pub proof fn lemma_identifier_order_coherent(a: Seq<char>, b: Seq<char>, c: Seq<char>)
    ensures
        coherent(identifier_order(a, b), identifier_order(b, c), identifier_order(a, c)),
{
    lemma_lexical_order_coherent(a, b, c);
}

/// Series: seen from the other side the order is reversed, and only a
/// series itself is not told apart from it.
pub proof fn lemma_series_order_sides(a: Seq<Seq<char>>, b: Seq<Seq<char>>)
    ensures
        series_order(b, a) == series_order(a, b).reversed(),
        series_order(a, b) is Same <==> a == b,
    decreases a.len(),
{
    if a.len() > 0 && b.len() > 0 {
        lemma_identifier_order_sides(a[0], b[0]);
        lemma_series_order_sides(a.skip(1), b.skip(1));
        if a[0] == b[0] && a.skip(1) == b.skip(1) {
            assert(a =~= seq![a[0]] + a.skip(1));
            assert(b =~= seq![b[0]] + b.skip(1));
        }
    } else if a.len() == 0 && b.len() == 0 {
        assert(a =~= b);
    }
}

/// Series are ordered.
pub proof fn lemma_series_order_coherent(a: Seq<Seq<char>>, b: Seq<Seq<char>>, c: Seq<Seq<char>>)
    ensures
        coherent(series_order(a, b), series_order(b, c), series_order(a, c)),
    decreases a.len(),
{
    if a.len() > 0 && b.len() > 0 && c.len() > 0 {
        lemma_identifier_order_coherent(a[0], b[0], c[0]);
        lemma_series_order_coherent(a.skip(1), b.skip(1), c.skip(1));
    }
}

/// Pre-releases: seen from the other side the order is reversed, and only a
/// pre-release itself is not told apart from it.
pub proof fn lemma_prerelease_order_sides(a: Seq<char>, b: Seq<char>)
    ensures
        prerelease_order(b, a) == prerelease_order(a, b).reversed(),
        prerelease_order(a, b) is Same <==> a == b,
{
    lemma_series_order_sides(split(a, '.'), split(b, '.'));
    if a.len() == 0 && b.len() == 0 {
        assert(a =~= b);
    } else if split(a, '.') == split(b, '.') {
        lemma_split_is_faithful(a, b, '.');
    }
}

/// Pre-releases are ordered.
pub proof fn lemma_prerelease_order_coherent(a: Seq<char>, b: Seq<char>, c: Seq<char>)
    ensures
        coherent(prerelease_order(a, b), prerelease_order(b, c), prerelease_order(a, c)),
{
    lemma_series_order_coherent(split(a, '.'), split(b, '.'), split(c, '.'));
    lemma_prerelease_order_sides(a, b);
    lemma_prerelease_order_sides(b, c);
    lemma_prerelease_order_sides(a, c);
}

/// Build metadata: seen from the other side the order is reversed, and only
/// the same metadata is not told apart.
pub proof fn lemma_build_order_sides(a: Seq<char>, b: Seq<char>)
    ensures
        build_order(b, a) == build_order(a, b).reversed(),
        build_order(a, b) is Same <==> a == b,
{
    lemma_series_order_sides(split(a, '.'), split(b, '.'));
    if split(a, '.') == split(b, '.') {
        lemma_split_is_faithful(a, b, '.');
    }
}

/// Build metadata are ordered.
pub proof fn lemma_build_order_coherent(a: Seq<char>, b: Seq<char>, c: Seq<char>)
    ensures
        coherent(build_order(a, b), build_order(b, c), build_order(a, c)),
{
    lemma_series_order_coherent(split(a, '.'), split(b, '.'), split(c, '.'));
}

/// A version is not told apart from itself, and from no other version.
pub proof fn lemma_order_same_iff_equal(a: VersionModel, b: VersionModel)
    ensures
        version_order(a, a) is Same,
        version_order(a, b) is Same <==> a == b,
{
    lemma_prerelease_order_sides(a.pre, b.pre);
    lemma_build_order_sides(a.build, b.build);
    lemma_prerelease_order_sides(a.pre, a.pre);
    lemma_build_order_sides(a.build, a.build);
}

/// If one version is older than another, the other is newer than it, and the
/// other way round.
pub proof fn lemma_order_reverses(a: VersionModel, b: VersionModel)
    ensures
        version_order(b, a) == version_order(a, b).reversed(),
{
    lemma_prerelease_order_sides(a.pre, b.pre);
    lemma_build_order_sides(a.build, b.build);
}

/// The order of versions is transitive: what is older than, or the same as,
/// a version that is older than a third is older than the third, and so for
/// newer; what is the same as a version stands to every third as that does.
pub proof fn lemma_order_transitive(a: VersionModel, b: VersionModel, c: VersionModel)
    ensures
        coherent(version_order(a, b), version_order(b, c), version_order(a, c)),
        !(version_order(a, b) is Newer) && !(version_order(b, c) is Newer) ==> !(version_order(
            a,
            c,
        ) is Newer),
{
    lemma_prerelease_order_coherent(a.pre, b.pre, c.pre);
    lemma_build_order_coherent(a.build, b.build, c.build);
}

/// Any two versions are ordered: one is older than, the same as, or newer
/// than the other, and the numbers decide before anything else does.
pub proof fn lemma_order_by_numbers(a: VersionModel, b: VersionModel)
    ensures
        (a.major < b.major || (a.major == b.major && (a.minor < b.minor || (a.minor == b.minor
            && a.patch < b.patch)))) ==> version_order(a, b) is Older,
        a.major == b.major && a.minor == b.minor && a.patch == b.patch && a.pre.len() == 0
            && b.pre.len() > 0 ==> version_order(a, b) is Newer,
{
}

} // verus!
