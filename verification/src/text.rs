//! Whitespace and the trimming of text.

use vstd::prelude::*;

verus! {

/// Whether `c` is whitespace: one of the 25 characters to which Unicode
/// gives the property `White_Space`.
pub open spec fn is_whitespace(c: char) -> bool {
    let n = c as u32;
    ||| 0x09 <= n <= 0x0D
    ||| n == 0x20
    ||| n == 0x85
    ||| n == 0xA0
    ||| n == 0x1680
    ||| 0x2000 <= n <= 0x200A
    ||| n == 0x2028
    ||| n == 0x2029
    ||| n == 0x202F
    ||| n == 0x205F
    ||| n == 0x3000
}

/// Tests whether `c` is whitespace.
pub fn is_whitespace_char(c: char) -> (b: bool)
    ensures
        b == is_whitespace(c),
{
    let n: u32 = c as u32;
    (0x09 <= n && n <= 0x0D) || n == 0x20 || n == 0x85 || n == 0xA0 || n == 0x1680 || (0x2000 <= n
        && n <= 0x200A) || n == 0x2028 || n == 0x2029 || n == 0x202F || n == 0x205F || n == 0x3000
}

/// The lower-case form of `s`, by the Unicode rules for whole texts.
pub uninterp spec fn lowercase(s: Seq<char>) -> Seq<char>;

/// Calls `str::to_lowercase`. Trusted: the result depends on the text
/// alone.
#[verifier::external_body]
pub(crate) fn to_lowercase(s: &str) -> (lower: String)
    ensures
        lower@ == lowercase(s@),
{
    s.to_lowercase()
}

/// `s` without its leading whitespace.
pub open spec fn trim_start(s: Seq<char>) -> Seq<char>
    decreases s.len(),
{
    if s.len() > 0 && is_whitespace(s.first()) {
        trim_start(s.drop_first())
    } else {
        s
    }
}

/// `s` without its trailing whitespace.
pub open spec fn trim_end(s: Seq<char>) -> Seq<char>
    decreases s.len(),
{
    if s.len() > 0 && is_whitespace(s.last()) {
        trim_end(s.drop_last())
    } else {
        s
    }
}

/// `s` without its leading and trailing whitespace.
pub open spec fn trimmed(s: Seq<char>) -> Seq<char> {
    trim_end(trim_start(s))
}

/// Whether `s` holds nothing but whitespace.
pub open spec fn is_blank(s: Seq<char>) -> bool {
    forall|i: int| 0 <= i < s.len() ==> is_whitespace(#[trigger] s[i])
}

/// Tests whether trimming `s` would leave nothing.
pub fn trims_to_nothing(s: &str) -> (b: bool)
    ensures
        b == (trimmed(s@).len() == 0),
        b == is_blank(s@),
{
    let mut blank = true;
    for c in it: s.chars()
        invariant
            it.seq() == s@,
            blank == forall|i: int| 0 <= i < it.index() ==> is_whitespace(#[trigger] s@[i]),
    {
        if !is_whitespace_char(c) {
            blank = false;
        }
    }
    proof {
        lemma_trimmed_empty(s@);
    }
    blank
}

/// Stripping leading whitespace leaves nothing exactly when the text is blank.
pub proof fn lemma_trim_start_empty(s: Seq<char>)
    ensures
        trim_start(s).len() == 0 <==> is_blank(s),
        trim_start(s).len() <= s.len(),
    decreases s.len(),
{
    if s.len() > 0 && is_whitespace(s.first()) {
        let rest = s.drop_first();
        lemma_trim_start_empty(rest);
        if is_blank(rest) {
            assert forall|i: int| 0 <= i < s.len() implies is_whitespace(#[trigger] s[i]) by {
                if i > 0 {
                    assert(s[i] == rest[i - 1]);
                }
            }
        }
        if is_blank(s) {
            assert forall|i: int| 0 <= i < rest.len() implies is_whitespace(#[trigger] rest[i]) by {
                assert(rest[i] == s[i + 1]);
            }
        }
    } else if s.len() > 0 {
        assert(!is_whitespace(s[0]));
    }
}

/// Text trims to nothing exactly when it holds nothing but whitespace.
pub proof fn lemma_trimmed_empty(s: Seq<char>)
    ensures
        trimmed(s).len() == 0 <==> is_blank(s),
{
    lemma_trim_start_empty(s);
    let t = trim_start(s);
    if t.len() > 0 {
        lemma_trim_start_keeps_head(s);
        lemma_trim_end_keeps(t);
    }
}

/// What is left after stripping leading whitespace does not start with any.
proof fn lemma_trim_start_keeps_head(s: Seq<char>)
    ensures
        trim_start(s).len() > 0 ==> !is_whitespace(trim_start(s).first()),
    decreases s.len(),
{
    if s.len() > 0 && is_whitespace(s.first()) {
        lemma_trim_start_keeps_head(s.drop_first());
    }
}

/// Stripping trailing whitespace never removes a character that is not
/// whitespace, so text with such a character does not trim to nothing.
proof fn lemma_trim_end_keeps(s: Seq<char>)
    requires
        s.len() > 0,
        !is_whitespace(s.first()),
    ensures
        trim_end(s).len() > 0,
    decreases s.len(),
{
    if is_whitespace(s.last()) {
        let rest = s.drop_last();
        assert(rest.len() > 0);
        assert(rest.first() == s.first());
        lemma_trim_end_keeps(rest);
    }
}

} // verus!
