use vstd::prelude::*;
use vstd::string::*;

verus! {

/// The fields of a text between occurrences of a separator. An empty text is
/// one empty field; a separator closes the last field and opens an empty one;
/// any other character extends the last field.
pub open spec fn split(text: Seq<char>, separator: char) -> Seq<Seq<char>>
    decreases text.len(),
{
    if text.len() == 0 {
        seq![Seq::empty()]
    } else {
        let before = split(text.drop_last(), separator);
        if text.last() == separator {
            before.push(Seq::empty())
        } else {
            before.drop_last().push(before.last().push(text.last()))
        }
    }
}

/// A line without the carriage return at its end, if it has one.
pub open spec fn without_carriage_return(line: Seq<char>) -> Seq<char> {
    if line.len() > 0 && line.last() == '\r' {
        line.drop_last()
    } else {
        line
    }
}

/// The lines of a text. A line ends with a line feed, or with a carriage
/// return and a line feed; neither belongs to the line. What follows the last
/// line feed is a line too, unless it is empty.
pub open spec fn lines(text: Seq<char>) -> Seq<Seq<char>> {
    let parts = split(text, '\n');
    let ended = Seq::new((parts.len() - 1) as nat, |i: int| without_carriage_return(parts[i]));
    if parts.last().len() == 0 {
        ended
    } else {
        ended.push(parts.last())
    }
}

/// A text has at least one field, and its last field is what follows the last
/// separator.
pub proof fn lemma_split_shape(text: Seq<char>, separator: char)
    ensures
        split(text, separator).len() >= 1,
        split(text, separator).last().len() <= text.len(),
        split(text, separator).last() == text.skip(
            text.len() - split(text, separator).last().len(),
        ),
        !split(text, separator).last().contains(separator),
    decreases text.len(),
{
    if text.len() > 0 {
        let shorter = text.drop_last();
        lemma_split_shape(shorter, separator);
        let before = split(shorter, separator);
        if text.last() == separator {
            assert(split(text, separator).last() =~= text.skip(text.len() as int));
        } else {
            let last = before.last().push(text.last());
            assert(split(text, separator).last() == last);
            assert(last =~= text.skip(text.len() - last.len()));
        }
    } else {
        assert(split(text, separator).last() =~= text.skip(0));
    }
}

/// The fields of the first `n` characters, but for the last of them, are
/// fields of the whole text.
pub proof fn lemma_split_prefix(text: Seq<char>, separator: char, n: int)
    requires
        0 <= n <= text.len(),
    ensures
        1 <= split(text.take(n), separator).len() <= split(text, separator).len(),
        forall|k: int|
            0 <= k < split(text.take(n), separator).len() - 1 ==> #[trigger] split(
                text,
                separator,
            )[k] == split(text.take(n), separator)[k],
    decreases text.len() - n,
{
    lemma_split_shape(text.take(n), separator);
    if n == text.len() {
        assert(text.take(n) =~= text);
    } else {
        let longer = text.take(n + 1);
        assert(longer.drop_last() =~= text.take(n));
        lemma_split_prefix(text, separator, n + 1);
    }
}

/// A field that a separator follows is a field of the whole text.
pub proof fn lemma_split_closed_field(text: Seq<char>, separator: char, n: int)
    requires
        0 <= n < text.len(),
        text[n] == separator,
    ensures
        split(text.take(n), separator).len() < split(text, separator).len(),
        split(text, separator)[split(text.take(n), separator).len() - 1] == split(
            text.take(n),
            separator,
        ).last(),
{
    let longer = text.take(n + 1);
    assert(longer.drop_last() =~= text.take(n));
    lemma_split_shape(text.take(n), separator);
    lemma_split_prefix(text, separator, n + 1);
    let k = split(text.take(n), separator).len() - 1;
    assert(split(longer, separator)[k] == split(text.take(n), separator)[k]);
}

/// Texts with the same fields are the same text.
pub proof fn lemma_split_is_faithful(a: Seq<char>, b: Seq<char>, separator: char)
    requires
        split(a, separator) == split(b, separator),
    ensures
        a == b,
    decreases a.len(),
{
    lemma_split_shape(a, separator);
    lemma_split_shape(b, separator);
    if a.len() == 0 || b.len() == 0 {
        if a.len() > 0 {
            lemma_split_shape(a.drop_last(), separator);
        }
        if b.len() > 0 {
            lemma_split_shape(b.drop_last(), separator);
        }
        assert(a =~= b);
    } else {
        let before_a = split(a.drop_last(), separator);
        let before_b = split(b.drop_last(), separator);
        lemma_split_shape(a.drop_last(), separator);
        lemma_split_shape(b.drop_last(), separator);
        if a.last() == separator {
            assert(split(a, separator).last().len() == 0);
            assert(b.last() == separator);
            assert(before_a =~= split(a, separator).drop_last());
            assert(before_b =~= split(b, separator).drop_last());
        } else {
            let last_a = before_a.last().push(a.last());
            let last_b = before_b.last().push(b.last());
            assert(split(a, separator).last() == last_a);
            assert(b.last() != separator);
            assert(split(b, separator).last() == last_b);
            assert(a.last() == last_a.last());
            assert(b.last() == last_b.last());
            assert(before_a.last() =~= last_a.drop_last());
            assert(before_b.last() =~= last_b.drop_last());
            assert(before_a.drop_last() =~= split(a, separator).drop_last());
            assert(before_b.drop_last() =~= split(b, separator).drop_last());
            assert(before_a =~= before_a.drop_last().push(before_a.last()));
            assert(before_b =~= before_b.drop_last().push(before_b.last()));
        }
        lemma_split_is_faithful(a.drop_last(), b.drop_last(), separator);
        assert(a =~= a.drop_last().push(a.last()));
        assert(b =~= b.drop_last().push(b.last()));
    }
}

/// The characters of a text, one by one.
pub fn chars_of(text: &str) -> (chars: Vec<char>)
    ensures
        chars@ == text@,
{
    let mut chars: Vec<char> = Vec::new();
    for c in it: text.chars()
        invariant
            chars@ == text@.take(it.index() as int),
            it.seq() == text@,
    {
        chars.push(c);
    }
    chars
}

/// Where field `n` of a text begins and ends, if the text has that many
/// fields.
fn field_bounds(chars: &Vec<char>, separator: char, n: usize) -> (bounds: Option<
    (usize, usize),
>)
    ensures
        bounds is Some <==> n < split(chars@, separator).len(),
        bounds matches Some((from, to)) ==> {
            &&& from <= to <= chars@.len()
            &&& split(chars@, separator)[n as int] == chars@.subrange(from as int, to as int)
            &&& to == chars@.len() <==> n == split(chars@, separator).len() - 1
        },
{
    let len = chars.len();
    let mut from: usize = 0;
    let mut field: usize = 0;
    let mut i: usize = 0;
    proof {
        assert(chars@.take(0) =~= Seq::<char>::empty());
        assert(chars@.subrange(0, 0) =~= Seq::<char>::empty());
    }
    while i < len
        invariant
            len == chars@.len(),
            from <= i <= len,
            field <= n,
            split(chars@.take(i as int), separator).len() == field + 1,
            split(chars@.take(i as int), separator).last() == chars@.subrange(
                from as int,
                i as int,
            ),
        decreases len - i,
    {
        let ghost before = split(chars@.take(i as int), separator);
        proof {
            assert(chars@.take(i + 1).drop_last() =~= chars@.take(i as int));
        }
        if chars[i] == separator {
            if field == n {
                proof {
                    lemma_split_closed_field(chars@, separator, i as int);
                }
                return Some((from, i));
            }
            field = field + 1;
            from = i + 1;
            proof {
                assert(chars@.subrange(from as int, from as int) =~= Seq::<char>::empty());
            }
        } else {
            proof {
                assert(chars@.subrange(from as int, i + 1) =~= before.last().push(chars@[i as int]));
            }
        }
        i = i + 1;
    }
    proof {
        assert(chars@.take(len as int) =~= chars@);
    }
    if field == n {
        Some((from, len))
    } else {
        None
    }
}

/// Field `n` of a text, if the text has that many fields.
pub fn nth_field<'a>(text: &'a str, separator: char, n: usize) -> (field: Option<&'a str>)
    ensures
        field is Some <==> n < split(text@, separator).len(),
        field matches Some(found) ==> found@ == split(text@, separator)[n as int],
{
    let chars = chars_of(text);
    match field_bounds(&chars, separator, n) {
        Some((from, to)) => Some(text.substring_char(from, to)),
        None => None,
    }
}

/// Line `n` of a text, if the text has that many lines.
pub fn nth_line<'a>(text: &'a str, n: usize) -> (line: Option<&'a str>)
    ensures
        line is Some <==> n < lines(text@).len(),
        line matches Some(found) ==> found@ == lines(text@)[n as int],
{
    let chars = chars_of(text);
    proof {
        lemma_split_shape(text@, '\n');
    }
    match field_bounds(&chars, '\n', n) {
        Some((from, to)) => {
            if to == chars.len() {
                if from == to {
                    None
                } else {
                    Some(text.substring_char(from, to))
                }
            } else if from < to && chars[to - 1] == '\r' {
                proof {
                    assert(text@.subrange(from as int, to - 1) =~= text@.subrange(
                        from as int,
                        to as int,
                    ).drop_last());
                }
                Some(text.substring_char(from, to - 1))
            } else {
                Some(text.substring_char(from, to))
            }
        },
        None => None,
    }
}

/// What follows `prefix`, if the text begins with it.
pub open spec fn after_prefix(text: Seq<char>, prefix: char) -> Option<Seq<char>> {
    if text.len() > 0 && text[0] == prefix {
        Some(text.skip(1))
    } else {
        None
    }
}

/// What follows `prefix`, if the text begins with it.
pub fn strip_prefix_char<'a>(text: &'a str, prefix: char) -> (rest: Option<&'a str>)
    ensures
        rest is Some <==> after_prefix(text@, prefix) is Some,
        rest matches Some(found) ==> Some(found@) == after_prefix(text@, prefix),
{
    let len = text.unicode_len();
    if len > 0 && text.get_char(0) == prefix {
        Some(text.substring_char(1, len))
    } else {
        None
    }
}

} // verus!
