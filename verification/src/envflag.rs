//! Boolean switches read from the environment.

use vstd::prelude::*;
use vstd::string::*;

verus! {

/// The characters with the Unicode `White_Space` property, which is what
/// `str::trim` strips.
pub open spec fn is_unicode_whitespace(c: char) -> bool {
    let u = c as u32;
    ||| 0x09 <= u <= 0x0D
    ||| u == 0x20
    ||| u == 0x85
    ||| u == 0xA0
    ||| u == 0x1680
    ||| 0x2000 <= u <= 0x200A
    ||| u == 0x2028
    ||| u == 0x2029
    ||| u == 0x202F
    ||| u == 0x205F
    ||| u == 0x3000
}

/// `s` without its leading whitespace.
pub open spec fn trim_start(s: Seq<char>) -> Seq<char>
    decreases s.len(),
{
    if s.len() > 0 && is_unicode_whitespace(s[0]) {
        trim_start(s.drop_first())
    } else {
        s
    }
}

/// `s` without its trailing whitespace.
pub open spec fn trim_end(s: Seq<char>) -> Seq<char>
    decreases s.len(),
{
    if s.len() > 0 && is_unicode_whitespace(s.last()) {
        trim_end(s.drop_last())
    } else {
        s
    }
}

/// `s` without whitespace at either end.
pub open spec fn trim(s: Seq<char>) -> Seq<char> {
    trim_end(trim_start(s))
}

/// ASCII letters lowered; every other character kept.
pub open spec fn ascii_lower(c: char) -> char {
    if 'A' <= c <= 'Z' {
        ((c as u32) + 32) as char
    } else {
        c
    }
}

/// A switch value reads as enabled when, trimmed and with ASCII letters
/// lowered, it is one of `1`, `true`, `yes`, `on`.
pub open spec fn flag_text_enabled(s: Seq<char>) -> bool {
    let t = trim(s).map_values(|c: char| ascii_lower(c));
    ||| t == seq!['1']
    ||| t == seq!['t', 'r', 'u', 'e']
    ||| t == seq!['y', 'e', 's']
    ||| t == seq!['o', 'n']
}

fn is_whitespace_char(c: char) -> (b: bool)
    ensures
        b == is_unicode_whitespace(c),
{
    let u: u32 = c as u32;
    (0x09 <= u && u <= 0x0D) || u == 0x20 || u == 0x85 || u == 0xA0 || u == 0x1680
        || (0x2000 <= u && u <= 0x200A) || u == 0x2028 || u == 0x2029 || u == 0x202F
        || u == 0x205F || u == 0x3000
}

fn lowered_is(c: char, w: char) -> (b: bool)
    ensures
        b == (ascii_lower(c) == w),
{
    if 'A' <= c && c <= 'Z' {
        let u: u32 = (c as u32) + 32;
        proof {
            vstd::utf8::char_u32_cast(ascii_lower(c), u);
            vstd::utf8::char_u32_cast(w, w as u32);
        }
        u == (w as u32)
    } else {
        c == w
    }
}

proof fn lemma_trim_start_skip(s: Seq<char>, i: int)
    requires
        0 <= i <= s.len(),
        forall|j: int| 0 <= j < i ==> is_unicode_whitespace(#[trigger] s[j]),
    ensures
        trim_start(s) == trim_start(s.subrange(i, s.len() as int)),
    decreases i,
{
    if i > 0 {
        assert(s.drop_first() =~= s.subrange(1, s.len() as int));
        lemma_trim_start_skip(s.drop_first(), i - 1);
        assert(s.drop_first().subrange(i - 1, s.drop_first().len() as int) =~= s.subrange(i, s.len() as int));
    } else {
        assert(s.subrange(0, s.len() as int) =~= s);
    }
}

proof fn lemma_trim_end_skip(s: Seq<char>, k: int)
    requires
        0 <= k <= s.len(),
        forall|j: int| k <= j < s.len() ==> is_unicode_whitespace(#[trigger] s[j]),
    ensures
        trim_end(s) == trim_end(s.subrange(0, k)),
    decreases s.len() - k,
{
    if k < s.len() {
        assert(s.drop_last() =~= s.subrange(0, s.len() - 1));
        lemma_trim_end_skip(s.drop_last(), k);
        assert(s.drop_last().subrange(0, k) =~= s.subrange(0, k));
    } else {
        assert(s.subrange(0, s.len() as int) =~= s);
    }
}

/// Whether the characters `chars[lo..hi]`, ASCII-lowered, spell `word`.
fn lowered_range_is(chars: &Vec<char>, lo: usize, hi: usize, word: &[char]) -> (b: bool)
    requires
        lo <= hi <= chars@.len(),
    ensures
        b == (chars@.subrange(lo as int, hi as int).map_values(|c: char| ascii_lower(c)) == word@),
{
    let ghost t = chars@.subrange(lo as int, hi as int).map_values(|c: char| ascii_lower(c));
    if hi - lo != word.len() {
        assert(t.len() != word@.len());
        return false;
    }
    let mut i: usize = 0;
    while i < word.len()
        invariant
            lo <= hi <= chars@.len(),
            hi - lo == word@.len(),
            i <= word@.len(),
            t == chars@.subrange(lo as int, hi as int).map_values(|c: char| ascii_lower(c)),
            forall|j: int| 0 <= j < i ==> t[j] == word@[j],
        decreases word@.len() - i,
    {
        if !lowered_is(chars[lo + i], word[i]) {
            assert(t[i as int] != word@[i as int]);
            return false;
        }
        i = i + 1;
    }
    assert(t =~= word@);
    true
}

/// Whether a switch read from the environment is enabled; an absent (or
/// unreadable) variable is not.
pub fn environment_flag(value: Option<&str>) -> (enabled: bool)
    ensures
        enabled == (value matches Some(v) && flag_text_enabled(v@)),
        value is None ==> !enabled,
        (value is Some && trim(value->Some_0@).map_values(|c: char| ascii_lower(c)) == seq!['1']) ==> enabled,
        (value is Some && trim(value->Some_0@).map_values(|c: char| ascii_lower(c)) == seq!['t', 'r', 'u', 'e']) ==> enabled,
        (value is Some && trim(value->Some_0@).map_values(|c: char| ascii_lower(c)) == seq!['y', 'e', 's']) ==> enabled,
        (value is Some && trim(value->Some_0@).map_values(|c: char| ascii_lower(c)) == seq!['o', 'n']) ==> enabled,
        enabled ==> (1 <= trim(value->Some_0@).len() <= 4),
{
    let v = match value {
        None => return false,
        Some(v) => v,
    };
    let n = v.unicode_len();
    let mut chars: Vec<char> = Vec::new();
    let mut i: usize = 0;
    while i < n
        invariant
            n == v@.len(),
            i <= n,
            chars@ == v@.subrange(0, i as int),
        decreases n - i,
    {
        let c = v.get_char(i);
        chars.push(c);
        i = i + 1;
        assert(chars@ =~= v@.subrange(0, i as int));
    }
    assert(chars@ =~= v@);
    let mut lo: usize = 0;
    while lo < n && is_whitespace_char(chars[lo])
        invariant
            n == chars@.len(),
            lo <= n,
            forall|j: int| 0 <= j < lo ==> is_unicode_whitespace(#[trigger] chars@[j]),
        decreases n - lo,
    {
        lo = lo + 1;
    }
    let ghost rest = chars@.subrange(lo as int, n as int);
    proof {
        lemma_trim_start_skip(chars@, lo as int);
        if rest.len() > 0 {
            assert(rest[0] == chars@[lo as int]);
        }
    }
    assert(trim_start(chars@) == rest);
    let mut hi: usize = n;
    while hi > lo && is_whitespace_char(chars[hi - 1])
        invariant
            n == chars@.len(),
            lo <= hi <= n,
            rest == chars@.subrange(lo as int, n as int),
            forall|j: int| hi <= j < n ==> is_unicode_whitespace(#[trigger] chars@[j]),
        decreases hi - lo,
    {
        hi = hi - 1;
    }
    proof {
        let k = hi - lo;
        assert forall|j: int| k <= j < rest.len() implies is_unicode_whitespace(#[trigger] rest[j]) by {
            assert(rest[j] == chars@[lo + j]);
        }
        lemma_trim_end_skip(rest, k as int);
        let kept = rest.subrange(0, k as int);
        assert(kept =~= chars@.subrange(lo as int, hi as int));
        if kept.len() > 0 {
            assert(kept.last() == chars@[hi - 1]);
        }
        assert(trim_end(kept) == kept);
        assert(trim(v@) == chars@.subrange(lo as int, hi as int));
    }
    let one: [char; 1] = ['1'];
    let yes_true: [char; 4] = ['t', 'r', 'u', 'e'];
    let yes: [char; 3] = ['y', 'e', 's'];
    let on: [char; 2] = ['o', 'n'];
    assert(one@ =~= seq!['1']);
    assert(yes_true@ =~= seq!['t', 'r', 'u', 'e']);
    assert(yes@ =~= seq!['y', 'e', 's']);
    assert(on@ =~= seq!['o', 'n']);
    let enabled = lowered_range_is(&chars, lo, hi, &one) || lowered_range_is(&chars, lo, hi, &yes_true)
        || lowered_range_is(&chars, lo, hi, &yes) || lowered_range_is(&chars, lo, hi, &on);
    proof {
        let t = chars@.subrange(lo as int, hi as int);
        assert(t.map_values(|c: char| ascii_lower(c)).len() == t.len());
    }
    enabled
}

} // verus!
