//! DEX type descriptors and method prototypes, as patches spell them.

use vstd::prelude::*;
use crate::text::{chars_of, has_prefix, starts_with, string_of, views};

verus! {

/// How many copies of `c` begin `s`.
pub open spec fn leading_count(s: Seq<char>, c: char) -> nat
    decreases s.len(),
{
    if s.len() > 0 && s[0] == c {
        1 + leading_count(s.drop_first(), c)
    } else {
        0
    }
}

/// The position of the first `c` in `s`.
pub open spec fn find_char(s: Seq<char>, c: char) -> Option<nat>
    decreases s.len(),
{
    if s.len() == 0 {
        None
    } else if s[0] == c {
        Some(0)
    } else {
        match find_char(s.drop_first(), c) {
            Some(i) => Some(i + 1),
            None => None,
        }
    }
}

proof fn lemma_leading_count_bound(s: Seq<char>, c: char)
    ensures
        leading_count(s, c) <= s.len(),
        forall|i: int| 0 <= i < leading_count(s, c) ==> s[i] == c,
        leading_count(s, c) < s.len() ==> s[leading_count(s, c) as int] != c,
    decreases s.len(),
{
    if s.len() > 0 && s[0] == c {
        lemma_leading_count_bound(s.drop_first(), c);
        assert forall|i: int| 0 <= i < leading_count(s, c) implies s[i] == c by {
            if i > 0 {
                assert(s[i] == s.drop_first()[i - 1]);
            }
        }
    }
}

proof fn lemma_find_char_bound(s: Seq<char>, c: char)
    ensures
        match find_char(s, c) {
            Some(i) => i < s.len() && s[i as int] == c && forall|j: int| 0 <= j < i ==> s[j] != c,
            None => forall|j: int| 0 <= j < s.len() ==> s[j] != c,
        },
    decreases s.len(),
{
    if s.len() > 0 && s[0] != c {
        lemma_find_char_bound(s.drop_first(), c);
        match find_char(s.drop_first(), c) {
            Some(i) => {
                assert forall|j: int| 0 <= j < i + 1 implies s[j] != c by {
                    if j > 0 {
                        assert(s[j] == s.drop_first()[j - 1]);
                    }
                }
            },
            None => {
                assert forall|j: int| 0 <= j < s.len() implies s[j] != c by {
                    if j > 0 {
                        assert(s[j] == s.drop_first()[j - 1]);
                    }
                }
            },
        }
    }
}

/// How many copies of `c` begin `s[from..]`.
fn count_leading(s: &Vec<char>, from: usize, c: char) -> (r: usize)
    requires
        from <= s@.len(),
    ensures
        r == leading_count(s@.skip(from as int), c),
        from + r <= s@.len(),
{
    let mut i = from;
    proof {
        lemma_leading_count_bound(s@.skip(from as int), c);
    }
    while i < s.len() && s[i] == c
        invariant
            from <= i <= s@.len(),
            leading_count(s@.skip(from as int), c) == (i - from) + leading_count(s@.skip(i as int), c),
        decreases s@.len() - i,
    {
        assert(s@.skip(i as int).drop_first() =~= s@.skip(i + 1));
        i = i + 1;
    }
    proof {
        if i < s@.len() {
            assert(s@.skip(i as int)[0] != c);
        }
    }
    i - from
}

/// The position of the first `c` in `s[from..]`, relative to `from`.
fn find_from(s: &Vec<char>, from: usize, c: char) -> (r: Option<usize>)
    requires
        from <= s@.len(),
    ensures
        match r {
            Some(i) => find_char(s@.skip(from as int), c) == Some(i as nat) && from + i < s@.len(),
            None => find_char(s@.skip(from as int), c) is None,
        },
{
    let mut i = from;
    while i < s.len()
        invariant
            from <= i <= s@.len(),
            match find_char(s@.skip(i as int), c) {
                Some(k) => find_char(s@.skip(from as int), c) == Some((k + (i - from)) as nat),
                None => find_char(s@.skip(from as int), c) is None,
            },
        decreases s@.len() - i,
    {
        assert(s@.skip(i as int).drop_first() =~= s@.skip(i + 1));
        if s[i] == c {
            return Some(i - from);
        }
        i = i + 1;
    }
    None
}

/// The characters `s[from..to]`.
fn copy_range(s: &Vec<char>, from: usize, to: usize) -> (r: Vec<char>)
    requires
        from <= to <= s@.len(),
    ensures
        r@ == s@.subrange(from as int, to as int),
{
    let mut out: Vec<char> = Vec::new();
    let mut i = from;
    while i < to
        invariant
            from <= i <= to <= s@.len(),
            out@ == s@.subrange(from as int, i as int),
        decreases to - i,
    {
        out.push(s[i]);
        assert(s@.subrange(from as int, i + 1) =~= s@.subrange(from as int, i as int).push(s@[i as int]));
        i = i + 1;
    }
    out
}

/// The length of the type descriptor `s` begins with: array brackets, then
/// a class name up to its `;` (or the end), or one character.
pub open spec fn descriptor_span(s: Seq<char>) -> nat {
    let a = leading_count(s, '[');
    let body = s.skip(a as int);
    a + if body.len() > 0 && body[0] == 'L' {
        match find_char(body, ';') {
            Some(e) => e + 1,
            None => body.len(),
        }
    } else {
        1nat
    }
}

/// The descriptors making up the rest of a prototype after its `(`s.
pub open spec fn descriptors(s: Seq<char>) -> Seq<Seq<char>>
    decreases s.len(),
{
    if s.len() == 0 {
        Seq::empty()
    } else if s[0] == ')' {
        descriptors(s.drop_first())
    } else if descriptor_span(s) == 0 || descriptor_span(s) > s.len() {
        Seq::empty()
    } else {
        seq![s.take(descriptor_span(s) as int)] + descriptors(s.skip(descriptor_span(s) as int))
    }
}

/// Every descriptor of the rest of a prototype is complete: no run of `[`
/// ends the text.
pub open spec fn descriptors_complete(s: Seq<char>) -> bool
    decreases s.len(),
{
    if s.len() == 0 {
        true
    } else if s[0] == ')' {
        descriptors_complete(s.drop_first())
    } else if descriptor_span(s) == 0 || descriptor_span(s) > s.len() {
        false
    } else {
        descriptors_complete(s.skip(descriptor_span(s) as int))
    }
}

/// A prototype without its leading `(`s.
pub open spec fn proto_body(proto: Seq<char>) -> Seq<char> {
    proto.skip(leading_count(proto, '(') as int)
}

proof fn lemma_span_positive(s: Seq<char>)
    requires
        s.len() > 0,
    ensures
        descriptor_span(s) >= 1,
{
}

/// The type descriptors making up a method prototype, return type last.
pub fn proto_types(proto: &str) -> (r: Vec<String>)
    requires
        descriptors_complete(proto_body(proto@)),
    ensures
        crate::patch::string_views(r@) == descriptors(proto_body(proto@)),
{
    let s = chars_of(proto);
    let mut pos = count_leading(&s, 0, '(');
    assert(s@.skip(0) =~= s@);
    let mut out: Vec<String> = Vec::new();
    assert(s@.skip(pos as int) == proto_body(proto@));
    while pos < s.len()
        invariant
            s@ == proto@,
            pos <= s@.len(),
            crate::patch::string_views(out@) + descriptors(s@.skip(pos as int)) == descriptors(proto_body(proto@)),
            descriptors_complete(s@.skip(pos as int)),
        decreases s@.len() - pos,
    {
        let ghost rest = s@.skip(pos as int);
        if s[pos] == ')' {
            assert(rest.drop_first() =~= s@.skip(pos + 1));
            pos = pos + 1;
        } else {
            let a = count_leading(&s, pos, '[');
            let body_start = pos + a;
            proof {
                assert(rest.skip(a as int) =~= s@.skip(body_start as int));
                lemma_leading_count_bound(rest, '[');
            }
            let len: usize = if body_start < s.len() && s[body_start] == 'L' {
                match find_from(&s, body_start, ';') {
                    Some(e) => e + 1,
                    None => s.len() - body_start,
                }
            } else {
                1
            };
            assert(a + len == descriptor_span(rest));
            proof {
                lemma_span_positive(rest);
            }
            let end = pos + a + len;
            let d = copy_range(&s, pos, end);
            assert(d@ =~= rest.take(descriptor_span(rest) as int));
            let ghost before = crate::patch::string_views(out@);
            out.push(string_of(&d));
            assert(crate::patch::string_views(out@) =~= before.push(d@));
            assert(rest.skip(descriptor_span(rest) as int) =~= s@.skip(end as int));
            assert(descriptors(rest) == seq![d@] + descriptors(s@.skip(end as int)));
            assert(crate::patch::string_views(out@) + descriptors(s@.skip(end as int)) =~= before + descriptors(rest));
            pos = end;
        }
    }
    assert(s@.skip(pos as int) =~= Seq::<char>::empty());
    assert(crate::patch::string_views(out@) + Seq::<Seq<char>>::empty() =~= crate::patch::string_views(out@));
    out
}

/// The class a type descriptor refers to: an array refers to its element
/// type, a primitive to nothing.
pub open spec fn class_of_spec(descriptor: Seq<char>) -> Option<Seq<char>> {
    let element = descriptor.skip(leading_count(descriptor, '[') as int);
    if element.len() > 0 && element[0] == 'L' {
        Some(element)
    } else {
        None
    }
}

/// The class `descriptor` refers to.
pub fn class_of(descriptor: &str) -> (r: Option<String>)
    ensures
        match r {
            Some(c) => class_of_spec(descriptor@) == Some(c@),
            None => class_of_spec(descriptor@) is None,
        },
{
    let s = chars_of(descriptor);
    let a = count_leading(&s, 0, '[');
    assert(s@.skip(0) =~= s@);
    if a < s.len() && s[a] == 'L' {
        let e = copy_range(&s, a, s.len());
        assert(e@ =~= descriptor@.skip(a as int));
        Some(string_of(&e))
    } else {
        None
    }
}

/// The package prefixes of classes the platform provides.
pub open spec fn platform_prefixes() -> Seq<Seq<char>> {
    seq![
        "Ljava/"@,
        "Ljavax/"@,
        "Landroid/"@,
        "Ldalvik/"@,
        "Llibcore/"@,
        "Lsun/"@,
        "Lorg/json/"@,
        "Lorg/xml/"@,
        "Lorg/w3c/"@,
        "Lorg/apache/http/"@,
    ]
}

/// Whether `descriptor` names a class the platform provides.
pub fn is_platform(descriptor: &str) -> (r: bool)
    ensures
        r == exists|k: int| 0 <= k < platform_prefixes().len() && has_prefix(descriptor@, #[trigger] platform_prefixes()[k]),
{
    let s = chars_of(descriptor);
    let prefixes: [&str; 10] = [
        "Ljava/",
        "Ljavax/",
        "Landroid/",
        "Ldalvik/",
        "Llibcore/",
        "Lsun/",
        "Lorg/json/",
        "Lorg/xml/",
        "Lorg/w3c/",
        "Lorg/apache/http/",
    ];
    let ghost ps = platform_prefixes();
    assert(forall|k: int| 0 <= k < 10 ==> #[trigger] prefixes@[k]@ == ps[k]);
    for k in 0..10
        invariant
            s@ == descriptor@,
            ps == platform_prefixes(),
            forall|q: int| 0 <= q < 10 ==> #[trigger] prefixes@[q]@ == ps[q],
            forall|q: int| 0 <= q < k ==> !has_prefix(descriptor@, #[trigger] ps[q]),
    {
        let p = chars_of(prefixes[k]);
        if starts_with(&s, &p) {
            return true;
        }
    }
    false
}

/// `android:name` is the name `name` in the android namespace `ns`; any
/// other name is unqualified.
pub fn split_name(ns: Option<u32>, name: &str) -> (r: (Option<u32>, String))
    ensures
        has_prefix(name@, "android:"@) ==> r.0 == ns && r.1@ == name@.skip(8),
        !has_prefix(name@, "android:"@) ==> r.0 is None && r.1@ == name@,
{
    let s = chars_of(name);
    let p = chars_of("android:");
    proof {
        reveal_strlit("android:");
    }
    if starts_with(&s, &p) {
        let local = copy_range(&s, 8, s.len());
        assert(local@ =~= name@.skip(8));
        (ns, string_of(&local))
    } else {
        (None, String::from_str(name))
    }
}

/// Where pending elements' handles begin.
pub const PENDING_OFFSET: u32 = 0x8000_0000;

/// The pending-element slot a handle names, if it names one.
pub fn pending_index(handle: u32) -> (r: Option<usize>)
    ensures
        handle >= PENDING_OFFSET ==> r == Some((handle - PENDING_OFFSET) as usize),
        handle < PENDING_OFFSET ==> r is None,
{
    match handle.checked_sub(PENDING_OFFSET) {
        Some(i) => Some(i as usize),
        None => None,
    }
}


/// How a method parameter is moved between registers.
#[derive(PartialEq, Eq, Structural, Clone, Copy, Debug)]
pub enum MoveKind {
    Narrow,
    Wide,
    Object,
}

/// The parameter descriptors of a prototype: what lies between its opening
/// `(` and the first `)`.
pub open spec fn param_list(proto: Seq<char>) -> Option<Seq<char>> {
    if proto.len() > 0 && proto[0] == '(' {
        match find_char(proto.drop_first(), ')') {
            Some(e) => Some(proto.drop_first().take(e as int)),
            None => None,
        }
    } else {
        None
    }
}

/// The first parameter of `p`: how many characters it takes, its register
/// words, and its move kind. `None` when a class name lacks its `;`.
pub open spec fn move_step(p: Seq<char>) -> Option<(nat, (nat, MoveKind))> {
    if p[0] == 'L' {
        match find_char(p, ';') {
            Some(e) => Some((e + 1, (1nat, MoveKind::Object))),
            None => None,
        }
    } else if p[0] == '[' {
        let a = leading_count(p, '[');
        let element = p.skip(a as int);
        if element.len() > 0 && element[0] == 'L' {
            match find_char(element, ';') {
                Some(e) => Some((a + e + 1, (1nat, MoveKind::Object))),
                None => None,
            }
        } else {
            Some((a + 1, (1nat, MoveKind::Object)))
        }
    } else if p[0] == 'J' || p[0] == 'D' {
        Some((1nat, (2nat, MoveKind::Wide)))
    } else {
        Some((1nat, (1nat, MoveKind::Narrow)))
    }
}

/// The first parameter ends on a character boundary inside `p`: a
/// single-character descriptor is ASCII, and a run of `[` does not end `p`.
pub open spec fn step_fits(p: Seq<char>) -> bool {
    match move_step(p) {
        None => true,
        Some((n, _)) => {
            &&& 1 <= n <= p.len()
            &&& (p[0] == 'L' || p[0] == 'J' || p[0] == 'D' || (p[0] == '[' && {
                let element = p.skip(leading_count(p, '[') as int);
                element.len() > 0 && (element[0] == 'L' || (element[0] as u32) < 128)
            }) || (p[0] as u32) < 128)
        },
    }
}

/// The register words and move kind of each parameter in `p`; `None` when
/// a class name lacks its `;`.
pub open spec fn moves_of(p: Seq<char>) -> Option<Seq<(nat, MoveKind)>>
    decreases p.len(),
{
    if p.len() == 0 {
        Some(Seq::empty())
    } else {
        match move_step(p) {
            None => None,
            Some((n, m)) => if n == 0 || n > p.len() {
                None
            } else {
                match moves_of(p.skip(n as int)) {
                    Some(rest) => Some(seq![m] + rest),
                    None => None,
                }
            },
        }
    }
}

/// Every parameter of `p` is read on character boundaries.
pub open spec fn moves_fit(p: Seq<char>) -> bool
    decreases p.len(),
{
    if p.len() == 0 {
        true
    } else {
        &&& step_fits(p)
        &&& match move_step(p) {
            None => true,
            Some((n, _)) => if n == 0 || n > p.len() {
                true
            } else {
                moves_fit(p.skip(n as int))
            },
        }
    }
}

/// The views of computed moves.
pub open spec fn move_views(v: Seq<(usize, MoveKind)>) -> Seq<(nat, MoveKind)> {
    v.map_values(|m: (usize, MoveKind)| (m.0 as nat, m.1))
}

/// How many copies of `c` begin `s[from..to]`.
fn count_leading_in(s: &Vec<char>, from: usize, to: usize, c: char) -> (r: usize)
    requires
        from <= to <= s@.len(),
    ensures
        r == leading_count(s@.subrange(from as int, to as int), c),
        from + r <= to,
{
    let mut i = from;
    proof {
        lemma_leading_count_bound(s@.subrange(from as int, to as int), c);
    }
    while i < to && s[i] == c
        invariant
            from <= i <= to <= s@.len(),
            leading_count(s@.subrange(from as int, to as int), c) == (i - from) + leading_count(
                s@.subrange(i as int, to as int),
                c,
            ),
        decreases to - i,
    {
        assert(s@.subrange(i as int, to as int).drop_first() =~= s@.subrange(i + 1, to as int));
        i = i + 1;
    }
    i - from
}

/// The position of the first `c` in `s[from..to]`, relative to `from`.
fn find_in(s: &Vec<char>, from: usize, to: usize, c: char) -> (r: Option<usize>)
    requires
        from <= to <= s@.len(),
    ensures
        match r {
            Some(i) => find_char(s@.subrange(from as int, to as int), c) == Some(i as nat) && from + i < to,
            None => find_char(s@.subrange(from as int, to as int), c) is None,
        },
{
    let mut i = from;
    while i < to
        invariant
            from <= i <= to <= s@.len(),
            match find_char(s@.subrange(i as int, to as int), c) {
                Some(k) => find_char(s@.subrange(from as int, to as int), c) == Some((k + (i - from)) as nat),
                None => find_char(s@.subrange(from as int, to as int), c) is None,
            },
        decreases to - i,
    {
        assert(s@.subrange(i as int, to as int).drop_first() =~= s@.subrange(i + 1, to as int));
        if s[i] == c {
            return Some(i - from);
        }
        i = i + 1;
    }
    None
}

/// Register words and move kind of each parameter in `proto`.
pub fn parameter_moves(proto: &str) -> (r: Option<Vec<(usize, MoveKind)>>)
    requires
        param_list(proto@) matches Some(p) ==> moves_fit(p),
    ensures
        match param_list(proto@) {
            None => r is None,
            Some(p) => match r {
                Some(v) => moves_of(p) == Some(move_views(v@)),
                None => moves_of(p) is None,
            },
        },
{
    let s = chars_of(proto);
    if s.len() == 0 || s[0] != '(' {
        return None;
    }
    assert(s@.skip(1) =~= proto@.drop_first());
    let close = match find_from(&s, 1, ')') {
        Some(e) => e,
        None => {
            return None;
        },
    };
    let end = 1 + close;
    let ghost p = proto@.drop_first().take(close as int);
    let mut pos: usize = 1;
    let mut out: Vec<(usize, MoveKind)> = Vec::new();
    assert(s@.subrange(1, end as int) =~= p);
    assert(move_views(out@) + Seq::<(nat, MoveKind)>::empty() =~= Seq::<(nat, MoveKind)>::empty());
    assert(param_list(proto@) == Some(p));
    while pos < end
        invariant
            s@ == proto@,
            1 <= pos <= end < s@.len(),
            p == s@.subrange(1, end as int),
            param_list(proto@) == Some(p),
            moves_fit(s@.subrange(pos as int, end as int)),
            match moves_of(s@.subrange(pos as int, end as int)) {
                Some(rest) => moves_of(p) == Some(move_views(out@) + rest),
                None => moves_of(p) is None,
            },
        decreases end - pos,
    {
        let ghost rest = s@.subrange(pos as int, end as int);
        let first = s[pos];
        assert(rest[0] == first);
        let step: (usize, (usize, MoveKind));
        if first == 'L' {
            match find_in(&s, pos, end, ';') {
                Some(e) => {
                    step = (e + 1, (1, MoveKind::Object));
                },
                None => {
                    assert(moves_of(rest) is None);
                    return None;
                },
            }
        } else if first == '[' {
            let a = count_leading_in(&s, pos, end, '[');
            let el = pos + a;
            assert(rest.skip(a as int) =~= s@.subrange(el as int, end as int));
            if el < end && s[el] == 'L' {
                match find_in(&s, el, end, ';') {
                    Some(e) => {
                        step = (a + e + 1, (1, MoveKind::Object));
                    },
                    None => {
                        assert(moves_of(rest) is None);
                        return None;
                    },
                }
            } else {
                step = (a + 1, (1, MoveKind::Object));
            }
        } else if first == 'J' || first == 'D' {
            step = (1, (2, MoveKind::Wide));
        } else {
            step = (1, (1, MoveKind::Narrow));
        }
        assert(move_step(rest) == Some((step.0 as nat, (step.1.0 as nat, step.1.1))));
        assert(step_fits(rest));
        let next = pos + step.0;
        assert(rest.skip(step.0 as int) =~= s@.subrange(next as int, end as int));
        let ghost before = move_views(out@);
        out.push(step.1);
        assert(move_views(out@) =~= before.push((step.1.0 as nat, step.1.1)));
        proof {
            match moves_of(s@.subrange(next as int, end as int)) {
                Some(tail) => {
                    assert(moves_of(rest) == Some(seq![(step.1.0 as nat, step.1.1)] + tail));
                    assert(move_views(out@) + tail =~= before + (seq![(step.1.0 as nat, step.1.1)] + tail));
                },
                None => {},
            }
        }
        pos = next;
    }
    assert(s@.subrange(pos as int, end as int) =~= Seq::<char>::empty());
    assert(move_views(out@) + Seq::<(nat, MoveKind)>::empty() =~= move_views(out@));
    Some(out)
}

} // verus!
