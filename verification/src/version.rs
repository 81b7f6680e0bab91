use crate::error::{ErrorKind, UpdateError};
use crate::outside::{semver_error_text, semver_order, semver_parse};
use crate::precedence::{version_order, VersionOrder};
use crate::text::split;
use vstd::prelude::*;
use vstd::string::*;

verus! {

/// A version, as contracts see it.
pub struct VersionModel {
    pub major: nat,
    pub minor: nat,
    pub patch: nat,
    /// The pre-release identifiers, dots between them; empty if there are none.
    pub pre: Seq<char>,
    /// The build metadata, dots between its identifiers; empty if there is none.
    pub build: Seq<char>,
}

pub open spec fn is_digit(c: char) -> bool {
    '0' <= c <= '9'
}

/// The characters of an identifier: ASCII letters, digits and the hyphen.
pub open spec fn is_identifier_char(c: char) -> bool {
    is_digit(c) || ('A' <= c <= 'Z') || ('a' <= c <= 'z') || c == '-'
}

/// An identifier of digits only.
pub open spec fn is_numeric(identifier: Seq<char>) -> bool {
    forall|i: int| 0 <= i < identifier.len() ==> is_digit(#[trigger] identifier[i])
}

/// A series of identifiers with dots between them: none of them is empty,
/// none holds anything but letters, digits and hyphens and, where `strict`,
/// none is a number written with a leading zero.
pub open spec fn valid_series(series: Seq<char>, strict: bool) -> bool {
    &&& forall|i: int|
        0 <= i < series.len() ==> is_identifier_char(#[trigger] series[i]) || series[i] == '.'
    &&& forall|k: int|
        0 <= k < split(series, '.').len() ==> {
            let identifier = #[trigger] split(series, '.')[k];
            &&& identifier.len() > 0
            &&& strict && is_numeric(identifier) && identifier.len() > 1 ==> identifier[0] != '0'
        }
}

impl VersionModel {
    /// The numbers fit in 64 bits; the pre-release, if there is one, is a
    /// series of identifiers without leading zeros in its numbers; the build
    /// metadata, if there is any, is a series of identifiers.
    pub open spec fn wf(self) -> bool {
        &&& self.major <= u64::MAX
        &&& self.minor <= u64::MAX
        &&& self.patch <= u64::MAX
        &&& self.pre.len() == 0 || valid_series(self.pre, true)
        &&& self.build.len() == 0 || valid_series(self.build, false)
    }

    /// The version `major.minor.patch` without pre-release and build metadata.
    pub open spec fn release(major: nat, minor: nat, patch: nat) -> VersionModel {
        VersionModel { major, minor, patch, pre: Seq::empty(), build: Seq::empty() }
    }
}

/// The digit that stands for a number below ten.
pub open spec fn digit_char(d: nat) -> char {
    (d + 48) as char
}

/// The number that a digit stands for.
pub open spec fn digit_value(c: char) -> nat {
    (c as nat - 48) as nat
}

/// A number in base ten, without leading zeros.
pub open spec fn decimal(n: nat) -> Seq<char>
    decreases n,
{
    if n < 10 {
        seq![digit_char(n)]
    } else {
        decimal(n / 10).push(digit_char(n % 10))
    }
}

/// The number that a series of digits stands for in base ten.
pub open spec fn decimal_value(digits: Seq<char>) -> nat
    decreases digits.len(),
{
    if digits.len() == 0 {
        0
    } else {
        decimal_value(digits.drop_last()) * 10 + digit_value(digits.last())
    }
}

/// `mark` and `part`, or nothing where `part` is empty.
pub open spec fn marked(mark: char, part: Seq<char>) -> Seq<char> {
    if part.len() == 0 {
        Seq::empty()
    } else {
        seq![mark] + part
    }
}

/// The text of a version: `major.minor.patch`, then `-` and the pre-release
/// if there is one, then `+` and the build metadata if there is any.
pub open spec fn canonical(v: VersionModel) -> Seq<char> {
    decimal(v.major) + seq!['.'] + decimal(v.minor) + seq!['.'] + decimal(v.patch) + marked(
        '-',
        v.pre,
    ) + marked('+', v.build)
}

/// Whether a text is the text of a version.
pub open spec fn is_version_text(text: Seq<char>) -> bool {
    exists|v: VersionModel| v.wf() && #[trigger] canonical(v) == text
}

/// The version that a text is the text of, if it is that of any.
pub open spec fn version_of_text(text: Seq<char>) -> Option<VersionModel> {
    if is_version_text(text) {
        Some(choose|v: VersionModel| v.wf() && #[trigger] canonical(v) == text)
    } else {
        None
    }
}

/// A number in base ten is a series of digits, at least one, that stands for
/// the number.
pub proof fn lemma_decimal_is_digits(n: nat)
    ensures
        decimal(n).len() >= 1,
        is_numeric(decimal(n)),
        decimal_value(decimal(n)) == n,
    decreases n,
{
    if n < 10 {
        assert(decimal(n).drop_last() =~= Seq::<char>::empty());
        assert(decimal_value(decimal(n).drop_last()) == 0);
    } else {
        lemma_decimal_is_digits(n / 10);
        assert(decimal(n).drop_last() =~= decimal(n / 10));
    }
}

/// A text can be cut in one way only into a run of characters of a kind and a
/// rest that does not begin with a character of that kind.
pub proof fn lemma_run_is_unique(
    run_a: Seq<char>,
    rest_a: Seq<char>,
    run_b: Seq<char>,
    rest_b: Seq<char>,
    kind: spec_fn(char) -> bool,
)
    requires
        run_a + rest_a == run_b + rest_b,
        forall|i: int| 0 <= i < run_a.len() ==> kind(#[trigger] run_a[i]),
        forall|i: int| 0 <= i < run_b.len() ==> kind(#[trigger] run_b[i]),
        rest_a.len() > 0 ==> !kind(rest_a[0]),
        rest_b.len() > 0 ==> !kind(rest_b[0]),
    ensures
        run_a == run_b,
        rest_a == rest_b,
{
    let whole = run_a + rest_a;
    assert(whole.len() == run_a.len() + rest_a.len());
    assert(whole.len() == run_b.len() + rest_b.len());
    if run_a.len() < run_b.len() {
        assert(whole[run_a.len() as int] == rest_a[0]);
        assert((run_b + rest_b)[run_a.len() as int] == run_b[run_a.len() as int]);
        assert(false);
    }
    if run_b.len() < run_a.len() {
        assert((run_b + rest_b)[run_b.len() as int] == rest_b[0]);
        assert(whole[run_b.len() as int] == run_a[run_b.len() as int]);
        assert(false);
    }
    assert(run_a =~= whole.take(run_a.len() as int));
    assert(run_b =~= (run_b + rest_b).take(run_b.len() as int));
    assert(rest_a =~= whole.skip(run_a.len() as int));
    assert(rest_b =~= (run_b + rest_b).skip(run_b.len() as int));
}

/// What follows the major number in the text of a version.
pub open spec fn after_major(v: VersionModel) -> Seq<char> {
    seq!['.'] + decimal(v.minor) + after_minor(v)
}

/// What follows the minor number in the text of a version.
pub open spec fn after_minor(v: VersionModel) -> Seq<char> {
    seq!['.'] + decimal(v.patch) + after_patch(v)
}

/// What follows the patch number in the text of a version.
pub open spec fn after_patch(v: VersionModel) -> Seq<char> {
    marked('-', v.pre) + marked('+', v.build)
}

/// The text of a version, number by number.
pub proof fn lemma_canonical_parts(v: VersionModel)
    ensures
        canonical(v) == decimal(v.major) + after_major(v),
        after_major(v).skip(1) == decimal(v.minor) + after_minor(v),
        after_minor(v).skip(1) == decimal(v.patch) + after_patch(v),
        after_major(v)[0] == '.',
        after_minor(v)[0] == '.',
{
    assert(canonical(v) =~= decimal(v.major) + after_major(v));
    assert(after_major(v).skip(1) =~= decimal(v.minor) + after_minor(v));
    assert(after_minor(v).skip(1) =~= decimal(v.patch) + after_patch(v));
}

/// Two parts with the same mark are the same where they read the same once
/// marked.
pub proof fn lemma_marked_is_faithful(mark: char, a: Seq<char>, b: Seq<char>)
    requires
        marked(mark, a) == marked(mark, b),
    ensures
        a == b,
{
    if a.len() == 0 || b.len() == 0 {
        assert(marked(mark, a).len() == marked(mark, b).len());
        assert(a =~= b);
    } else {
        assert(a =~= marked(mark, a).skip(1));
        assert(b =~= marked(mark, b).skip(1));
    }
}

/// Two versions with the same text are the same version.
pub proof fn lemma_canonical_is_faithful(a: VersionModel, b: VersionModel)
    requires
        a.wf(),
        b.wf(),
        canonical(a) == canonical(b),
    ensures
        a == b,
{
    let digit = |c: char| is_digit(c);
    lemma_canonical_parts(a);
    lemma_canonical_parts(b);
    lemma_decimal_is_digits(a.major);
    lemma_decimal_is_digits(b.major);
    lemma_decimal_is_digits(a.minor);
    lemma_decimal_is_digits(b.minor);
    lemma_decimal_is_digits(a.patch);
    lemma_decimal_is_digits(b.patch);
    lemma_run_is_unique(decimal(a.major), after_major(a), decimal(b.major), after_major(b), digit);
    lemma_run_is_unique(decimal(a.minor), after_minor(a), decimal(b.minor), after_minor(b), digit);
    assert(after_patch(a).len() > 0 ==> after_patch(a)[0] == '-' || after_patch(a)[0] == '+');
    assert(after_patch(b).len() > 0 ==> after_patch(b)[0] == '-' || after_patch(b)[0] == '+');
    lemma_run_is_unique(decimal(a.patch), after_patch(a), decimal(b.patch), after_patch(b), digit);
    let plain = |c: char| c != '+';
    assert forall|i: int| 0 <= i < marked('-', a.pre).len() implies plain(
        #[trigger] marked('-', a.pre)[i],
    ) by {
        if i > 0 {
            assert(marked('-', a.pre)[i] == a.pre[i - 1]);
        }
    }
    assert forall|i: int| 0 <= i < marked('-', b.pre).len() implies plain(
        #[trigger] marked('-', b.pre)[i],
    ) by {
        if i > 0 {
            assert(marked('-', b.pre)[i] == b.pre[i - 1]);
        }
    }
    lemma_run_is_unique(
        marked('-', a.pre),
        marked('+', a.build),
        marked('-', b.pre),
        marked('+', b.build),
        plain,
    );
    lemma_marked_is_faithful('-', a.pre, b.pre);
    lemma_marked_is_faithful('+', a.build, b.build);
}

/// The text of a version is the text of that version and of no other: what
/// is written out and read again is what it was.
pub proof fn lemma_text_round_trip(v: VersionModel)
    requires
        v.wf(),
    ensures
        version_of_text(canonical(v)) == Some(v),
{
    assert(is_version_text(canonical(v)));
    lemma_canonical_is_faithful(version_of_text(canonical(v))->0, v);
}

/// A semantic version.
#[derive(Debug, PartialEq, Eq)]
pub struct Version {
    pub(crate) major: u64,
    pub(crate) minor: u64,
    pub(crate) patch: u64,
    pub(crate) pre: String,
    pub(crate) build: String,
}

impl View for Version {
    type V = VersionModel;

    closed spec fn view(&self) -> VersionModel {
        VersionModel {
            major: self.major as nat,
            minor: self.minor as nat,
            patch: self.patch as nat,
            pre: self.pre@,
            build: self.build@,
        }
    }
}

/// The text of a digit.
fn digit_text(d: u64) -> (text: &'static str)
    requires
        d < 10,
    ensures
        text@ == seq![digit_char(d as nat)],
{
    proof {
        reveal_strlit("0");
        reveal_strlit("1");
        reveal_strlit("2");
        reveal_strlit("3");
        reveal_strlit("4");
        reveal_strlit("5");
        reveal_strlit("6");
        reveal_strlit("7");
        reveal_strlit("8");
        reveal_strlit("9");
    }
    let text = if d == 0 {
        "0"
    } else if d == 1 {
        "1"
    } else if d == 2 {
        "2"
    } else if d == 3 {
        "3"
    } else if d == 4 {
        "4"
    } else if d == 5 {
        "5"
    } else if d == 6 {
        "6"
    } else if d == 7 {
        "7"
    } else if d == 8 {
        "8"
    } else {
        "9"
    };
    assert(text@ =~= seq![digit_char(d as nat)]);
    text
}

/// A number in base ten, without leading zeros.
pub fn decimal_text(n: u64) -> (text: String)
    ensures
        text@ == decimal(n as nat),
    decreases n,
{
    if n < 10 {
        String::from_str(digit_text(n))
    } else {
        let mut text = decimal_text(n / 10);
        text.append(digit_text(n % 10));
        assert(text@ =~= decimal(n as nat));
        text
    }
}

/// Appends `mark` and `part` to a text, or nothing where `part` is empty.
fn append_marked(text: &mut String, mark: &str, part: &str)
    requires
        mark@.len() == 1,
    ensures
        final(text)@ == old(text)@ + marked(mark@[0], part@),
{
    if !part.is_empty() {
        text.append(mark);
        text.append(part);
        assert(text@ =~= old(text)@ + marked(mark@[0], part@));
    } else {
        assert(text@ =~= old(text)@ + marked(mark@[0], part@));
    }
}

impl Version {
    #[verifier::type_invariant]
    closed spec fn well_formed(&self) -> bool {
        self@.wf()
    }

    /// The version `major.minor.patch` without pre-release and build metadata.
    pub fn new(major: u64, minor: u64, patch: u64) -> (v: Version)
        ensures
            v@ == VersionModel::release(major as nat, minor as nat, patch as nat),
            v@.wf(),
    {
        Version { major, minor, patch, pre: String::new(), build: String::new() }
    }

    /// The version that stands for "nothing is installed": `0.0.0`.
    pub fn none_installed() -> (v: Version)
        ensures
            v@ == VersionModel::release(0, 0, 0),
            v@.wf(),
    {
        Version::new(0, 0, 0)
    }

    /// Reads a version from its text. A text that is not the text of a
    /// version, letter for letter, is refused.
    pub fn parse(text: &str) -> (parsed: Result<Version, UpdateError>)
        ensures
            parsed is Ok <==> is_version_text(text@),
            parsed matches Ok(v) ==> Some(v@) == version_of_text(text@) && v@.wf() && canonical(v@)
                == text@,
            parsed matches Err(e) ==> e@.len() == 1 && e@[0].kind == ErrorKind::Parse,
    {
        match semver_parse(text) {
            Ok(v) => {
                proof {
                    lemma_text_round_trip(v@);
                }
                Ok(v)
            },
            Err(e) => {
                let message = semver_error_text(&e);
                Err(UpdateError::new(ErrorKind::Parse, message.as_str()))
            },
        }
    }

    pub fn major(&self) -> (n: u64)
        ensures
            n == self@.major,
    {
        self.major
    }

    pub fn minor(&self) -> (n: u64)
        ensures
            n == self@.minor,
    {
        self.minor
    }

    pub fn patch(&self) -> (n: u64)
        ensures
            n == self@.patch,
    {
        self.patch
    }

    /// The pre-release identifiers; empty if there are none.
    pub fn pre(&self) -> (text: &str)
        ensures
            text@ == self@.pre,
    {
        self.pre.as_str()
    }

    /// The build metadata; empty if there is none.
    pub fn build(&self) -> (text: &str)
        ensures
            text@ == self@.build,
    {
        self.build.as_str()
    }

    /// A version equal to this one.
    pub fn duplicate(&self) -> (v: Version)
        ensures
            v@ == self@,
    {
        proof {
            use_type_invariant(self);
        }
        Version {
            major: self.major,
            minor: self.minor,
            patch: self.patch,
            pre: self.pre.clone(),
            build: self.build.clone(),
        }
    }

    /// The text of the version, as it is recorded and shown.
    pub fn to_text(&self) -> (text: String)
        ensures
            text@ == canonical(self@),
            self@.wf(),
    {
        proof {
            use_type_invariant(self);
            reveal_strlit(".");
            reveal_strlit("-");
            reveal_strlit("+");
        }
        let mut text = decimal_text(self.major);
        text.append(".");
        text.append(decimal_text(self.minor).as_str());
        text.append(".");
        text.append(decimal_text(self.patch).as_str());
        append_marked(&mut text, "-", self.pre.as_str());
        append_marked(&mut text, "+", self.build.as_str());
        assert(text@ =~= canonical(self@));
        text
    }

    /// How this version stands to another.
    pub fn order(&self, other: &Version) -> (order: VersionOrder)
        ensures
            order == version_order(self@, other@),
            self@.wf(),
            other@.wf(),
    {
        proof {
            use_type_invariant(self);
            use_type_invariant(other);
        }
        semver_order(self, other)
    }
}

} // verus!
