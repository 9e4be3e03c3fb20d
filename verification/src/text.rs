//! String helpers shared by the other modules.
//!
//! A string is seen as the sequence of its characters.
use vstd::prelude::*;
use vstd::string::*;

verus! {

/// Unicode's `White_Space` property.
pub open spec fn is_white_space(c: char) -> bool {
    let code = c as u32;
    ||| 0x9 <= code <= 0xd
    ||| code == 0x20
    ||| code == 0x85
    ||| code == 0xa0
    ||| code == 0x1680
    ||| 0x2000 <= code <= 0x200a
    ||| code == 0x2028
    ||| code == 0x2029
    ||| code == 0x202f
    ||| code == 0x205f
    ||| code == 0x3000
}

/// `s` without its leading white space.
pub open spec fn trim_start(s: Seq<char>) -> Seq<char>
    decreases s.len(),
{
    if s.len() > 0 && is_white_space(s.first()) {
        trim_start(s.drop_first())
    } else {
        s
    }
}

/// `s` without its trailing white space.
pub open spec fn trim_end(s: Seq<char>) -> Seq<char>
    decreases s.len(),
{
    if s.len() > 0 && is_white_space(s.last()) {
        trim_end(s.drop_last())
    } else {
        s
    }
}

/// `s` without the run of `c` that it ends with.
pub open spec fn trim_end_char(s: Seq<char>, c: char) -> Seq<char>
    decreases s.len(),
{
    if s.len() > 0 && s.last() == c {
        trim_end_char(s.drop_last(), c)
    } else {
        s
    }
}

/// Tells whether `c` is white space.
pub fn white_space(c: char) -> (b: bool)
    ensures
        b == is_white_space(c),
{
    let code: u32 = c as u32;
    (0x9 <= code && code <= 0xd) || code == 0x20 || code == 0x85 || code == 0xa0 || code == 0x1680
        || (0x2000 <= code && code <= 0x200a) || code == 0x2028 || code == 0x2029 || code == 0x202f
        || code == 0x205f || code == 0x3000
}

/// Drops the white space around `s`.
pub fn trim(s: &str) -> (r: &str)
    ensures
        r@ == trim_end(trim_start(s@)),
{
    let len: usize = s.unicode_len();
    let mut start: usize = 0;
    assert(s@.skip(0) == s@);
    while start < len && white_space(s.get_char(start))
        invariant
            start <= len == s@.len(),
            trim_start(s@) == trim_start(s@.skip(start as int)),
        ensures
            start <= len == s@.len(),
            trim_start(s@) == trim_start(s@.skip(start as int)),
            start < len ==> !is_white_space(s@[start as int]),
        decreases len - start,
    {
        assert(s@.skip(start as int).drop_first() == s@.skip(start + 1));
        start += 1;
    }
    let mut end: usize = len;
    assert(s@.subrange(start as int, end as int) == s@.skip(start as int));
    while start < end && white_space(s.get_char(end - 1))
        invariant
            start <= end <= s@.len(),
            trim_end(trim_start(s@)) == trim_end(s@.subrange(start as int, end as int)),
        decreases end - start,
    {
        assert(s@.subrange(start as int, end as int).drop_last() == s@.subrange(
            start as int,
            end - 1,
        ));
        end -= 1;
    }
    s.substring_char(start, end)
}

/// Drops the run of `c` at the end of `s`.
pub fn trim_end_matches(s: &str, c: char) -> (r: &str)
    ensures
        r@ == trim_end_char(s@, c),
{
    let mut end: usize = s.unicode_len();
    assert(s@.take(end as int) == s@);
    while 0 < end && s.get_char(end - 1) == c
        invariant
            end <= s@.len(),
            trim_end_char(s@, c) == trim_end_char(s@.take(end as int), c),
        decreases end,
    {
        assert(s@.take(end as int).drop_last() == s@.take(end - 1));
        end -= 1;
    }
    s.substring_char(0, end)
}

/// Tells whether `s` begins with `prefix`.
pub fn starts_with(s: &str, prefix: &str) -> (b: bool)
    ensures
        b == prefix@.is_prefix_of(s@),
{
    let len: usize = prefix.unicode_len();
    if s.unicode_len() < len {
        return false;
    }
    let mut i: usize = 0;
    while i < len
        invariant
            i <= len == prefix@.len() <= s@.len(),
            prefix@.take(i as int) == s@.take(i as int),
        decreases len - i,
    {
        if s.get_char(i) != prefix.get_char(i) {
            assert(s@.subrange(0, len as int)[i as int] == s@[i as int]);
            return false;
        }
        assert(prefix@.take(i + 1) == prefix@.take(i as int).push(prefix@[i as int]));
        assert(s@.take(i + 1) == s@.take(i as int).push(s@[i as int]));
        i += 1;
    }
    assert(prefix@.take(len as int) == prefix@);
    true
}

/// What is left without a run of `c` at the end does not end with `c`, is what the string begins
/// with, and loses nothing when it is trimmed again.
pub proof fn law_trim_end_char(s: Seq<char>, c: char)
    ensures
        trim_end_char(s, c).len() > 0 ==> trim_end_char(s, c).last() != c,
        trim_end_char(s, c).is_prefix_of(s),
        forall|i: int| trim_end_char(s, c).len() <= i < s.len() ==> s[i] == c,
        trim_end_char(trim_end_char(s, c), c) == trim_end_char(s, c),
    decreases s.len(),
{
    if s.len() > 0 && s.last() == c {
        law_trim_end_char(s.drop_last(), c);
        let trimmed = trim_end_char(s, c);
        assert(s.subrange(0, trimmed.len() as int) =~= s.drop_last().subrange(
            0,
            trimmed.len() as int,
        ));
        assert forall|i: int| trimmed.len() <= i < s.len() implies s[i] == c by {
            if i < s.len() - 1 {
                assert(s.drop_last()[i] == s[i]);
            }
        }
    } else {
        assert(s =~= s.subrange(0, s.len() as int));
    }
}

/// What is left without white space at the beginning does not begin with white space.
proof fn lemma_trim_start(s: Seq<char>)
    ensures
        trim_start(s).len() > 0 ==> !is_white_space(trim_start(s).first()),
        trim_start(s).len() <= s.len(),
    decreases s.len(),
{
    if s.len() > 0 && is_white_space(s.first()) {
        lemma_trim_start(s.drop_first());
    }
}

/// A character that is not white space stays where the beginning is trimmed.
pub proof fn lemma_trim_start_push(s: Seq<char>, c: char)
    requires
        !is_white_space(c),
    ensures
        trim_start(s.push(c)) == trim_start(s).push(c),
    decreases s.len(),
{
    if s.len() > 0 && is_white_space(s.first()) {
        assert(s.push(c).drop_first() =~= s.drop_first().push(c));
        lemma_trim_start_push(s.drop_first(), c);
    }
}

/// The last character stays where the beginning is trimmed, unless nothing is left.
pub proof fn lemma_trim_start_keeps_last(s: Seq<char>)
    requires
        trim_start(s).len() > 0,
    ensures
        s.len() > 0,
        trim_start(s).last() == s.last(),
    decreases s.len(),
{
    if s.len() > 0 && is_white_space(s.first()) {
        lemma_trim_start_keeps_last(s.drop_first());
    }
}

/// What is left without white space at the end does not end with white space, and is what the
/// string begins with.
proof fn lemma_trim_end(s: Seq<char>)
    ensures
        trim_end(s).len() > 0 ==> !is_white_space(trim_end(s).last()),
        trim_end(s).is_prefix_of(s),
    decreases s.len(),
{
    if s.len() > 0 && is_white_space(s.last()) {
        lemma_trim_end(s.drop_last());
        let trimmed = trim_end(s);
        assert(s.subrange(0, trimmed.len() as int) =~= s.drop_last().subrange(
            0,
            trimmed.len() as int,
        ));
    } else {
        assert(s =~= s.subrange(0, s.len() as int));
    }
}

/// A trimmed string neither begins nor ends with white space, and loses nothing when it is trimmed
/// again.
pub proof fn law_trim(s: Seq<char>)
    ensures
        ({
            let trimmed = trim_end(trim_start(s));
            &&& trimmed.len() > 0 ==> !is_white_space(trimmed.first()) && !is_white_space(
                trimmed.last(),
            )
            &&& trim_end(trim_start(trimmed)) == trimmed
        }),
{
    lemma_trim_start(s);
    lemma_trim_end(trim_start(s));
}

/// Nothing is left of a string that is white space throughout.
pub proof fn law_trim_blank(s: Seq<char>)
    requires
        forall|i: int| 0 <= i < s.len() ==> is_white_space(#[trigger] s[i]),
    ensures
        trim_end(trim_start(s)) == Seq::<char>::empty(),
    decreases s.len(),
{
    if s.len() > 0 {
        assert forall|i: int| 0 <= i < s.drop_first().len() implies is_white_space(
            #[trigger] s.drop_first()[i],
        ) by {
            assert(s.drop_first()[i] == s[i + 1]);
        }
        law_trim_blank(s.drop_first());
    } else {
        assert(s =~= Seq::<char>::empty());
    }
}

/// The sequence is white space throughout.
pub open spec fn is_blank(s: Seq<char>) -> bool {
    forall|i: int| 0 <= i < s.len() ==> is_white_space(#[trigger] s[i])
}

proof fn lemma_trim_start_blank(before: Seq<char>, rest: Seq<char>)
    requires
        is_blank(before),
        rest.len() > 0 ==> !is_white_space(rest.first()),
    ensures
        trim_start(before + rest) == rest,
    decreases before.len(),
{
    if before.len() > 0 {
        assert(is_white_space(before[0]));
        assert((before + rest).first() == before[0]);
        assert((before + rest).drop_first() =~= before.drop_first() + rest);
        assert forall|i: int| 0 <= i < before.drop_first().len() implies is_white_space(
            #[trigger] before.drop_first()[i],
        ) by {
            assert(before.drop_first()[i] == before[i + 1]);
        }
        lemma_trim_start_blank(before.drop_first(), rest);
    } else {
        assert(before + rest =~= rest);
    }
}

proof fn lemma_trim_end_blank(rest: Seq<char>, after: Seq<char>)
    requires
        is_blank(after),
        rest.len() > 0 ==> !is_white_space(rest.last()),
    ensures
        trim_end(rest + after) == rest,
    decreases after.len(),
{
    if after.len() > 0 {
        assert(is_white_space(after[after.len() - 1]));
        assert((rest + after).last() == after.last());
        assert((rest + after).drop_last() =~= rest + after.drop_last());
        lemma_trim_end_blank(rest, after.drop_last());
    } else {
        assert(rest + after =~= rest);
    }
}

/// Trimming takes away exactly the white space around: whatever begins and ends without white space
/// is left whole, however long it is and whatever white space stands around it.
pub proof fn law_trim_keeps_the_middle(before: Seq<char>, middle: Seq<char>, after: Seq<char>)
    requires
        is_blank(before),
        is_blank(after),
        middle.len() > 0 ==> !is_white_space(middle.first()) && !is_white_space(middle.last()),
    ensures
        trim_end(trim_start(before + middle + after)) == middle,
{
    if middle.len() > 0 {
        assert(before + middle + after =~= before + (middle + after));
        assert((middle + after).first() == middle.first());
        lemma_trim_start_blank(before, middle + after);
        lemma_trim_end_blank(middle, after);
    } else {
        assert(before + middle + after =~= before + after);
        assert forall|i: int| 0 <= i < (before + after).len() implies is_white_space(
            #[trigger] (before + after)[i],
        ) by {
            if i < before.len() {
                assert((before + after)[i] == before[i]);
            } else {
                assert((before + after)[i] == after[i - before.len()]);
            }
        }
        law_trim_blank(before + after);
        assert(middle =~= Seq::<char>::empty());
    }
}

/// Dropping a run of `c` from the end takes away exactly that run: whatever does not end with `c` is
/// left whole, however long the run after it is.
pub proof fn law_trim_end_char_keeps_the_rest(rest: Seq<char>, run: Seq<char>, c: char)
    requires
        rest.len() > 0 ==> rest.last() != c,
        forall|i: int| 0 <= i < run.len() ==> #[trigger] run[i] == c,
    ensures
        trim_end_char(rest + run, c) == rest,
    decreases run.len(),
{
    if run.len() > 0 {
        assert(run[run.len() - 1] == c);
        assert((rest + run).last() == run.last());
        assert((rest + run).drop_last() =~= rest + run.drop_last());
        law_trim_end_char_keeps_the_rest(rest, run.drop_last(), c);
    } else {
        assert(rest + run =~= rest);
    }
}

} // verus!
