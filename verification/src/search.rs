//! Locating instructions of one method by opcode. A method's code is seen
//! as the opcode of each instruction; pseudo-instructions (data payloads)
//! have none.

use vstd::prelude::*;

verus! {

/// What one element of an opcode pattern matches.
#[derive(PartialEq, Eq, Structural, Clone, Copy, Debug)]
pub enum OpcodePattern {
    /// Any instruction.
    Any,
    /// An instruction with this opcode.
    Opcode(u16),
}

/// The pattern element an opcode number stands for: a number that is no
/// opcode (negative, or too large) matches anything.
pub open spec fn pattern_of(op: i32) -> OpcodePattern {
    if 0 <= op <= u16::MAX as i32 {
        OpcodePattern::Opcode(op as u16)
    } else {
        OpcodePattern::Any
    }
}

/// Whether an instruction with `opcode` matches `p`.
pub open spec fn pattern_matches(p: OpcodePattern, opcode: Option<u16>) -> bool {
    match p {
        OpcodePattern::Any => true,
        OpcodePattern::Opcode(v) => opcode == Some(v),
    }
}

/// The pattern an opcode list stands for.
pub open spec fn patterns_of(opcodes: Seq<i32>) -> Seq<OpcodePattern> {
    opcodes.map_values(|op: i32| pattern_of(op))
}

/// The pattern an opcode list stands for.
pub fn opcode_patterns(opcodes: &[i32]) -> (r: Vec<OpcodePattern>)
    ensures
        r@ == patterns_of(opcodes@),
{
    let mut out: Vec<OpcodePattern> = Vec::new();
    let n = opcodes.len();
    for i in 0..n
        invariant
            n == opcodes@.len(),
            out@ == opcodes@.take(i as int).map_values(|op: i32| pattern_of(op)),
    {
        let op = opcodes[i];
        let p = if 0 <= op && op <= 65535 { OpcodePattern::Opcode(op as u16) } else { OpcodePattern::Any };
        out.push(p);
        assert(opcodes@.take(i + 1).map_values(|op: i32| pattern_of(op)) =~= opcodes@.take(i as int).map_values(
            |op: i32| pattern_of(op),
        ).push(pattern_of(opcodes@[i as int])));
    }
    assert(opcodes@.take(n as int) =~= opcodes@);
    out
}

/// The instructions from `i` on match `pattern`.
pub open spec fn window_matches(code: Seq<Option<u16>>, pattern: Seq<OpcodePattern>, i: int) -> bool {
    i + pattern.len() <= code.len() && forall|k: int|
        0 <= k < pattern.len() ==> pattern_matches(pattern[k], #[trigger] code[i + k])
}

/// The first index at or after `start` where `pattern` matches.
pub open spec fn first_window(code: Seq<Option<u16>>, pattern: Seq<OpcodePattern>, start: int) -> int {
    choose|i: int| start <= i && #[trigger] window_matches(code, pattern, i) && forall|j: int|
        start <= j < i ==> !window_matches(code, pattern, j)
}

/// The first index at or after `start` where the opcodes match, in order,
/// the pattern `opcodes` stands for; never for an empty pattern.
pub open spec fn sequence_index(code: Seq<Option<u16>>, opcodes: Seq<i32>, start: int) -> Option<int> {
    let pattern = patterns_of(opcodes);
    if pattern.len() == 0 {
        None
    } else if exists|i: int| start <= i && #[trigger] window_matches(code, pattern, i) {
        Some(first_window(code, pattern, start))
    } else {
        None
    }
}

fn window_at(code: &[Option<u16>], pattern: &Vec<OpcodePattern>, i: usize) -> (r: bool)
    requires
        i + pattern@.len() <= code@.len(),
        code@.len() <= u32::MAX,
    ensures
        r == window_matches(code@, pattern@, i as int),
{
    let m = pattern.len();
    for k in 0..m
        invariant
            m == pattern@.len(),
            i + m <= code@.len(),
            code@.len() <= u32::MAX,
            forall|q: int| 0 <= q < k ==> pattern_matches(pattern@[q], #[trigger] code@[i + q]),
    {
        let ok = match pattern[k] {
            OpcodePattern::Any => true,
            OpcodePattern::Opcode(v) => match code[i + k] {
                Some(o) => o == v,
                None => false,
            },
        };
        if !ok {
            assert(!pattern_matches(pattern@[k as int], code@[i + k]));
            return false;
        }
    }
    true
}

/// Where the opcode sequence `opcodes` first occurs at or after `start`;
/// negative opcodes match anything.
pub fn index_of_opcode_sequence(code: &[Option<u16>], opcodes: &[i32], start: u32) -> (r: Option<u32>)
    requires
        code@.len() <= u32::MAX,
    ensures
        match r {
            Some(i) => sequence_index(code@, opcodes@, start as int) == Some(i as int),
            None => sequence_index(code@, opcodes@, start as int) is None,
        },
{
    let pattern = opcode_patterns(opcodes);
    let ghost pv = patterns_of(opcodes@);
    if pattern.len() == 0 || pattern.len() > code.len() {
        proof {
            if pattern@.len() > 0 {
                assert forall|i: int| start <= i implies !#[trigger] window_matches(code@, pv, i) by {}
            }
        }
        return None;
    }
    let last = code.len() - pattern.len();
    let mut i: usize = start as usize;
    while i <= last
        invariant
            pattern@ == pv,
            pv == patterns_of(opcodes@),
            pv.len() > 0,
            last + pv.len() == code@.len(),
            start <= i,
            code@.len() <= u32::MAX,
            forall|j: int| start <= j < i ==> !#[trigger] window_matches(code@, pv, j),
        decreases last + 1 - i,
    {
        if window_at(code, &pattern, i) {
            proof {
                assert(start <= i && window_matches(code@, pv, i as int) && forall|j: int|
                    start <= j < i ==> !window_matches(code@, pv, j));
                let c = first_window(code@, pv, start as int);
                if c < i {
                    assert(!window_matches(code@, pv, c));
                } else if c > i {
                    assert(!window_matches(code@, pv, i as int));
                }
            }
            return Some(i as u32);
        }
        i = i + 1;
    }
    proof {
        assert forall|j: int| start <= j implies !#[trigger] window_matches(code@, pv, j) by {
            if j >= i {
                assert(j + pv.len() > code@.len());
            }
        }
    }
    None
}

/// The first instruction at or after `start` with opcode `op`.
pub fn index_of_first(code: &[Option<u16>], start: u32, op: u16) -> (r: Option<u32>)
    requires
        code@.len() <= u32::MAX,
    ensures
        match r {
            Some(i) => start <= i < code@.len() && code@[i as int] == Some(op) && forall|j: int|
                start <= j < i ==> code@[j] != Some(op),
            None => forall|j: int| start <= j < code@.len() ==> code@[j] != Some(op),
        },
{
    let mut i: usize = start as usize;
    while i < code.len()
        invariant
            start <= i,
            code@.len() <= u32::MAX,
            forall|j: int| start <= j < i ==> code@[j] != Some(op),
        decreases code@.len() - i,
    {
        if code[i] == Some(op) {
            return Some(i as u32);
        }
        i = i + 1;
    }
    None
}

/// The last instruction before `before` with opcode `op`.
pub fn index_of_first_reversed(code: &[Option<u16>], before: u32, op: u16) -> (r: Option<u32>)
    requires
        code@.len() <= u32::MAX,
    ensures
        match r {
            Some(i) => i < before && i < code@.len() && code@[i as int] == Some(op) && forall|j: int|
                i < j < code@.len() && j < before ==> code@[j] != Some(op),
            None => forall|j: int| 0 <= j < code@.len() && j < before ==> code@[j] != Some(op),
        },
{
    let end: usize = if (before as usize) < code.len() { before as usize } else { code.len() };
    let mut i: usize = end;
    while i > 0
        invariant
            i <= end <= code@.len(),
            end <= before,
            code@.len() <= u32::MAX,
            end == code@.len() || end == before,
            forall|j: int| i <= j < end ==> code@[j] != Some(op),
        decreases i,
    {
        if code[i - 1] == Some(op) {
            return Some((i - 1) as u32);
        }
        i = i - 1;
    }
    None
}

/// Every instruction with opcode `op`, in order.
pub fn find_all_indices(code: &[Option<u16>], op: u16) -> (r: Vec<u32>)
    requires
        code@.len() <= u32::MAX,
    ensures
        forall|k: int| 0 <= k < r@.len() ==> (#[trigger] r@[k]) < code@.len() && code@[r@[k] as int] == Some(op),
        forall|k: int, q: int| 0 <= k < q < r@.len() ==> r@[k] < r@[q],
        forall|j: int| 0 <= j < code@.len() && code@[j] == Some(op) ==> r@.contains(j as u32),
{
    let mut out: Vec<u32> = Vec::new();
    let n = code.len();
    for i in 0..n
        invariant
            n == code@.len(),
            n <= u32::MAX,
            forall|k: int| 0 <= k < out@.len() ==> (#[trigger] out@[k]) < i && code@[out@[k] as int] == Some(op),
            forall|k: int, q: int| 0 <= k < q < out@.len() ==> out@[k] < out@[q],
            forall|j: int| 0 <= j < i && code@[j] == Some(op) ==> out@.contains(j as u32),
    {
        if code[i] == Some(op) {
            let ghost before = out@;
            out.push(i as u32);
            assert(out@[out@.len() - 1] == i as u32);
            assert forall|j: int| 0 <= j < i + 1 && code@[j] == Some(op) implies out@.contains(j as u32) by {
                if j < i {
                    let k = choose|k: int| 0 <= k < before.len() && before[k] == j as u32;
                    assert(out@[k] == j as u32);
                }
            }
        }
    }
    out
}

} // verus!
