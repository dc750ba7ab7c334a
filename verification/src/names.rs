//! Names patches see on the Kotlin side: property names of getters, and the
//! `configChanges` flags of manifest activities.

use vstd::prelude::*;
use crate::bundle::{after_char, before_char, split_once};
use crate::text::{chars_eq, chars_of, has_prefix, string_of, views};

verus! {

/// Whether `c` has the Unicode `Uppercase` property.
pub uninterp spec fn is_uppercase_char(c: char) -> bool;

/// The lowercase mapping of `c`, one or more characters.
pub uninterp spec fn lowercase_of(c: char) -> Seq<char>;

/// Whether `c` has the Unicode `White_Space` property.
pub uninterp spec fn is_whitespace_char(c: char) -> bool;

/// `char::is_uppercase` (std): whether `c` has the `Uppercase` property.
#[verifier::external_body]
fn char_is_uppercase(c: char) -> (r: bool)
    ensures
        r == is_uppercase_char(c),
{
    c.is_uppercase()
}

/// `char::to_lowercase` (std): the lowercase mapping of `c`, collected into
/// a string.
#[verifier::external_body]
fn char_to_lowercase(c: char) -> (r: String)
    ensures
        r@ == lowercase_of(c),
{
    c.to_lowercase().collect()
}

/// `char::is_whitespace` (std): whether `c` has the `White_Space` property.
#[verifier::external_body]
fn char_is_whitespace(c: char) -> (r: bool)
    ensures
        r == is_whitespace_char(c),
{
    c.is_whitespace()
}

/// The Kotlin property a getter stands for, given whether the character
/// after its `get` is uppercase and that character's lowercase form:
/// `getFooBar` is `fooBar`; other names stay as they are.
pub open spec fn property_text(getter: Seq<char>, first_upper: bool, first_lower: Seq<char>) -> Seq<char> {
    if has_prefix(getter, "get"@) && getter.len() > 3 && first_upper {
        first_lower + getter.skip(4)
    } else {
        getter
    }
}

/// The property name for `getter`, with what is known of the character
/// after its `get`.
pub fn property_from(getter: &str, first_upper: bool, first_lower: &str) -> (r: String)
    ensures
        r@ == property_text(getter@, first_upper, first_lower@),
{
    let g = chars_of(getter);
    let get = chars_of("get");
    proof {
        reveal_strlit("get");
    }
    if crate::text::starts_with(&g, &get) && g.len() > 3 && first_upper {
        let mut out = chars_of(first_lower);
        let mut i: usize = 4;
        let ghost start = out@;
        while i < g.len()
            invariant
                4 <= i <= g@.len(),
                out@ == start + g@.subrange(4, i as int),
            decreases g@.len() - i,
        {
            out.push(g[i]);
            assert(g@.subrange(4, i + 1) =~= g@.subrange(4, i as int).push(g@[i as int]));
            i = i + 1;
        }
        assert(g@.subrange(4, g@.len() as int) =~= getter@.skip(4));
        string_of(&out)
    } else {
        String::from_str(getter)
    }
}

/// `getFooBar` as the Kotlin property `fooBar`.
pub fn property_name(getter: &str) -> (r: String)
    ensures
        getter@.len() > 3 ==> r@ == property_text(getter@, is_uppercase_char(getter@[3]), lowercase_of(getter@[3])),
        getter@.len() <= 3 ==> r@ == getter@,
{
    let g = chars_of(getter);
    if g.len() > 3 {
        let c = g[3];
        let upper = char_is_uppercase(c);
        let lower = char_to_lowercase(c);
        property_from(getter, upper, lower.as_str())
    } else {
        String::from_str(getter)
    }
}

/// The parts of `s` between the `c`s, as `str::split` gives them: one part
/// more than `s` holds `c`s.
pub open spec fn split_parts(s: Seq<char>, c: char) -> Seq<Seq<char>>
    decreases s.len(),
{
    match after_char(s, c) {
        None => seq![s],
        Some(rest) => if rest.len() < s.len() {
            seq![before_char(s, c)] + split_parts(rest, c)
        } else {
            seq![s]
        },
    }
}

proof fn lemma_after_char_shorter(s: Seq<char>, c: char)
    ensures
        after_char(s, c) matches Some(rest) ==> rest.len() < s.len(),
    decreases s.len(),
{
    if s.len() > 0 && s[0] != c {
        lemma_after_char_shorter(s.drop_first(), c);
    }
}

/// `s` without leading whitespace.
pub open spec fn trim_start(s: Seq<char>) -> Seq<char>
    decreases s.len(),
{
    if s.len() > 0 && is_whitespace_char(s[0]) {
        trim_start(s.drop_first())
    } else {
        s
    }
}

/// `s` without trailing whitespace.
pub open spec fn trim_end(s: Seq<char>) -> Seq<char>
    decreases s.len(),
{
    if s.len() > 0 && is_whitespace_char(s.last()) {
        trim_end(s.drop_last())
    } else {
        s
    }
}

/// `s` without leading and trailing whitespace (`str::trim`).
pub open spec fn trimmed(s: Seq<char>) -> Seq<char> {
    trim_end(trim_start(s))
}

/// `str::trim`.
pub fn trim(s: &[char]) -> (r: Vec<char>)
    ensures
        r@ == trimmed(s@),
{
    let n = s.len();
    let mut i: usize = 0;
    assert(s@.skip(0) =~= s@);
    while i < n && char_is_whitespace(s[i])
        invariant
            i <= n == s@.len(),
            trim_start(s@) == trim_start(s@.skip(i as int)),
        decreases n - i,
    {
        assert(s@.skip(i as int).drop_first() =~= s@.skip(i + 1));
        i = i + 1;
    }
    assert(trim_start(s@) == s@.skip(i as int)) by {
        if i < n {
            assert(s@.skip(i as int)[0] == s@[i as int]);
        }
    }
    let mut j: usize = n;
    assert(s@.subrange(i as int, n as int) =~= s@.skip(i as int));
    while j > i && char_is_whitespace(s[j - 1])
        invariant
            i <= j <= n == s@.len(),
            trim_start(s@) == s@.skip(i as int),
            trimmed(s@) == trim_end(s@.subrange(i as int, j as int)),
        decreases j,
    {
        assert(s@.subrange(i as int, j as int).drop_last() =~= s@.subrange(i as int, j - 1));
        j = j - 1;
    }
    let mut out: Vec<char> = Vec::new();
    let mut k = i;
    while k < j
        invariant
            i <= k <= j <= n == s@.len(),
            out@ == s@.subrange(i as int, k as int),
        decreases j - k,
    {
        out.push(s[k]);
        assert(s@.subrange(i as int, k + 1) =~= s@.subrange(i as int, k as int).push(s@[k as int]));
        k = k + 1;
    }
    out
}

/// The `configChanges` flag a name stands for.
pub open spec fn config_flag(part: Seq<char>) -> Option<i32> {
    if part == "mcc"@ {
        Some(0x0001i32)
    } else if part == "mnc"@ {
        Some(0x0002i32)
    } else if part == "locale"@ {
        Some(0x0004i32)
    } else if part == "touchscreen"@ {
        Some(0x0008i32)
    } else if part == "keyboard"@ {
        Some(0x0010i32)
    } else if part == "keyboardHidden"@ {
        Some(0x0020i32)
    } else if part == "navigation"@ {
        Some(0x0040i32)
    } else if part == "orientation"@ {
        Some(0x0080i32)
    } else if part == "screenLayout"@ {
        Some(0x0100i32)
    } else if part == "uiMode"@ {
        Some(0x0200i32)
    } else if part == "screenSize"@ {
        Some(0x0400i32)
    } else if part == "smallestScreenSize"@ {
        Some(0x0800i32)
    } else if part == "density"@ {
        Some(0x1000i32)
    } else if part == "layoutDirection"@ {
        Some(0x2000i32)
    } else if part == "colorMode"@ {
        Some(0x4000i32)
    } else if part == "fontScale"@ {
        Some(0x4000_0000i32)
    } else {
        None
    }
}

fn is_name(part: &[char], name: &str) -> (r: bool)
    ensures
        r == (part@ == name@),
{
    let n = chars_of(name);
    chars_eq(part, &n)
}

fn flag_for(part: &[char]) -> (r: Option<i32>)
    ensures
        r == config_flag(part@),
{
    if is_name(part, "mcc") {
        Some(0x0001)
    } else if is_name(part, "mnc") {
        Some(0x0002)
    } else if is_name(part, "locale") {
        Some(0x0004)
    } else if is_name(part, "touchscreen") {
        Some(0x0008)
    } else if is_name(part, "keyboard") {
        Some(0x0010)
    } else if is_name(part, "keyboardHidden") {
        Some(0x0020)
    } else if is_name(part, "navigation") {
        Some(0x0040)
    } else if is_name(part, "orientation") {
        Some(0x0080)
    } else if is_name(part, "screenLayout") {
        Some(0x0100)
    } else if is_name(part, "uiMode") {
        Some(0x0200)
    } else if is_name(part, "screenSize") {
        Some(0x0400)
    } else if is_name(part, "smallestScreenSize") {
        Some(0x0800)
    } else if is_name(part, "density") {
        Some(0x1000)
    } else if is_name(part, "layoutDirection") {
        Some(0x2000)
    } else if is_name(part, "colorMode") {
        Some(0x4000)
    } else if is_name(part, "fontScale") {
        Some(0x4000_0000)
    } else {
        None
    }
}

/// The flags the named parts add up to.
pub open spec fn config_flags(parts: Seq<Seq<char>>) -> i32
    decreases parts.len(),
{
    if parts.len() == 0 {
        0i32
    } else {
        config_flags(parts.drop_last()) | match config_flag(parts.last()) {
            Some(f) => f,
            None => 0i32,
        }
    }
}

/// The parts that name no flag, in order.
pub open spec fn unknown_parts(parts: Seq<Seq<char>>) -> Seq<Seq<char>>
    decreases parts.len(),
{
    if parts.len() == 0 {
        Seq::empty()
    } else if config_flag(parts.last()) is None {
        unknown_parts(parts.drop_last()).push(parts.last())
    } else {
        unknown_parts(parts.drop_last())
    }
}

/// The trimmed parts of a `configChanges` value.
pub open spec fn config_parts(text: Seq<char>) -> Seq<Seq<char>> {
    split_parts(text, '|').map_values(|p: Seq<char>| trimmed(p))
}

/// The flags a `configChanges` value sets, and the names in it that are
/// not flags.
pub fn parse_config_changes(text: &str) -> (r: (i32, Vec<String>))
    ensures
        r.0 == config_flags(config_parts(text@)),
        crate::patch::string_views(r.1@) == unknown_parts(config_parts(text@)),
{
    let all = chars_of(text);
    let mut rest: Vec<char> = all;
    let mut parts: Vec<Vec<char>> = Vec::new();
    let mut done = false;
    while !done
        invariant
            !done ==> views(parts@) + split_parts(rest@, '|') == split_parts(text@, '|'),
            done ==> views(parts@) == split_parts(text@, '|'),
        decreases rest@.len() + if done { 0int } else { 1int },
    {
        proof {
            lemma_after_char_shorter(rest@, '|');
        }
        let (head, tail) = split_once(&rest, '|');
        match tail {
            Some(t) => {
                assert(split_parts(rest@, '|') == seq![head@] + split_parts(t@, '|'));
                assert(views(parts@.push(head)) =~= views(parts@).push(head@));
                assert(views(parts@).push(head@) + split_parts(t@, '|') =~= views(parts@) + (seq![head@] + split_parts(t@, '|')));
                parts.push(head);
                rest = t;
            },
            None => {
                assert(split_parts(rest@, '|') == seq![rest@]);
                let ghost before = views(parts@);
                let ghost last = rest@;
                parts.push(rest);
                assert(views(parts@) =~= before.push(last));
                rest = Vec::new();
                done = true;
            },
        }
    }
    let ghost pv = config_parts(text@);
    let mut flags: i32 = 0;
    let mut unknown: Vec<String> = Vec::new();
    let n = parts.len();
    for i in 0..n
        invariant
            n == parts@.len(),
            views(parts@) == split_parts(text@, '|'),
            pv == config_parts(text@),
            pv.len() == n,
            flags == config_flags(pv.take(i as int)),
            crate::patch::string_views(unknown@) == unknown_parts(pv.take(i as int)),
    {
        let part = trim(&parts[i]);
        assert(part@ == pv[i as int]);
        assert(pv.take(i + 1).drop_last() =~= pv.take(i as int));
        match flag_for(&part) {
            Some(f) => {
                flags = flags | f;
            },
            None => {
                assert(flags == (flags | 0i32)) by (bit_vector);
                let ghost before = crate::patch::string_views(unknown@);
                unknown.push(string_of(&part));
                assert(crate::patch::string_views(unknown@) =~= before.push(part@));
            },
        }
    }
    assert(pv.take(n as int) =~= pv);
    (flags, unknown)
}

} // verus!
