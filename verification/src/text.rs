//! Character classes and trimming, as the standard library defines them.
use vstd::prelude::*;

verus! {

/// Unicode general category `Cc`: U+0000..=U+001F and U+007F..=U+009F.
pub open spec fn is_control_spec(c: char) -> bool {
    (c as u32) <= 0x1f || (0x7f <= (c as u32) && (c as u32) <= 0x9f)
}

/// The Unicode `White_Space` property.
pub open spec fn is_whitespace_spec(c: char) -> bool {
    let u = c as u32;
    ||| 0x09 <= u && u <= 0x0d
    ||| u == 0x20
    ||| u == 0x85
    ||| u == 0xa0
    ||| u == 0x1680
    ||| 0x2000 <= u && u <= 0x200a
    ||| u == 0x2028
    ||| u == 0x2029
    ||| u == 0x202f
    ||| u == 0x205f
    ||| u == 0x3000
}

/// No character of `s` is a control character.
pub open spec fn has_no_control(s: Seq<char>) -> bool {
    forall|i: int| 0 <= i < s.len() ==> !#[trigger] is_control_spec(s[i])
}

/// `s` without its leading whitespace.
pub open spec fn trim_start_spec(s: Seq<char>) -> Seq<char>
    decreases s.len(),
{
    if s.len() > 0 && is_whitespace_spec(s[0]) {
        trim_start_spec(s.drop_first())
    } else {
        s
    }
}

/// `s` without its trailing whitespace.
pub open spec fn trim_end_spec(s: Seq<char>) -> Seq<char>
    decreases s.len(),
{
    if s.len() > 0 && is_whitespace_spec(s.last()) {
        trim_end_spec(s.drop_last())
    } else {
        s
    }
}

/// `s` without leading and trailing whitespace.
pub open spec fn trim_spec(s: Seq<char>) -> Seq<char> {
    trim_end_spec(trim_start_spec(s))
}

/// Whether `c` is a control character (general category `Cc`).
pub fn is_control(c: char) -> (r: bool)
    ensures
        r == is_control_spec(c),
{
    let u = c as u32;
    u <= 0x1f || (0x7f <= u && u <= 0x9f)
}

/// Whether `c` is white space in the Unicode sense.
pub fn is_whitespace(c: char) -> (r: bool)
    ensures
        r == is_whitespace_spec(c),
{
    let u = c as u32;
    (0x09 <= u && u <= 0x0d) || u == 0x20 || u == 0x85 || u == 0xa0 || u == 0x1680 || (0x2000
        <= u && u <= 0x200a) || u == 0x2028 || u == 0x2029 || u == 0x202f || u == 0x205f || u
        == 0x3000
}

/// Whether no character of `s` is a control character.
pub fn no_control_chars(s: &str) -> (r: bool)
    ensures
        r == has_no_control(s@),
{
    let n = s.unicode_len();
    let mut i: usize = 0;
    while i < n
        invariant
            n == s@.len(),
            i <= n,
            forall|j: int| 0 <= j < i ==> !#[trigger] is_control_spec(s@[j]),
        decreases n - i,
    {
        let c = s.get_char(i);
        if is_control(c) {
            assert(!has_no_control(s@)) by {
                assert(is_control_spec(s@[i as int]));
            }
            return false;
        }
        i = i + 1;
    }
    true
}

/// `s` with leading and trailing white space removed.
pub fn trim(s: &str) -> (r: String)
    ensures
        r@ == trim_spec(s@),
{
    let n = s.unicode_len();
    let mut start: usize = 0;
    assert(s@.subrange(0, n as int) =~= s@);
    while start < n && is_whitespace(s.get_char(start))
        invariant
            n == s@.len(),
            start <= n,
            trim_start_spec(s@) == trim_start_spec(s@.subrange(start as int, n as int)),
        decreases n - start,
    {
        assert(s@.subrange(start as int, n as int).drop_first() =~= s@.subrange(
            start + 1,
            n as int,
        ));
        start = start + 1;
    }
    assert(trim_start_spec(s@) == s@.subrange(start as int, n as int)) by {
        if start < n {
            assert(!is_whitespace_spec(s@.subrange(start as int, n as int)[0]));
        }
    }
    let mut end: usize = n;
    while end > start && is_whitespace(s.get_char(end - 1))
        invariant
            n == s@.len(),
            start <= end <= n,
            trim_end_spec(s@.subrange(start as int, n as int)) == trim_end_spec(
                s@.subrange(start as int, end as int),
            ),
        decreases end - start,
    {
        assert(s@.subrange(start as int, end as int).drop_last() =~= s@.subrange(
            start as int,
            end - 1,
        ));
        end = end - 1;
    }
    assert(trim_end_spec(s@.subrange(start as int, end as int)) == s@.subrange(
        start as int,
        end as int,
    )) by {
        if end > start {
            assert(s@.subrange(start as int, end as int).last() == s@[end - 1]);
        }
    }
    String::from_str(s.substring_char(start, end))
}

} // verus!
