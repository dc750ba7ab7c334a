//! Lowering a static call over arbitrary registers to DEX instructions.

use vstd::prelude::*;
use crate::descriptor::{move_views, moves_fit, moves_of, param_list, parameter_moves, MoveKind};

verus! {

/// The instructions a lowered call is made of.
#[derive(PartialEq, Eq, Debug)]
pub enum CallInsn {
    InvokeStatic { method: u32, args: Vec<u8> },
    InvokeStaticRange { method: u32, first_reg: u16, count: u8 },
    Move { dest: u8, src: u8 },
    MoveFrom16 { dest: u8, src: u16 },
    Move16 { dest: u16, src: u16 },
    MoveWide { dest: u8, src: u8 },
    MoveWideFrom16 { dest: u8, src: u16 },
    MoveWide16 { dest: u16, src: u16 },
    MoveObject { dest: u8, src: u8 },
    MoveObjectFrom16 { dest: u8, src: u16 },
    MoveObject16 { dest: u16, src: u16 },
    MoveResult { dest: u8 },
    MoveResultObject { dest: u8 },
}

/// What an instruction holds.
pub enum CallInsnView {
    InvokeStatic { method: u32, args: Seq<u8> },
    InvokeStaticRange { method: u32, first_reg: u16, count: u8 },
    Move { dest: u8, src: u8 },
    MoveFrom16 { dest: u8, src: u16 },
    Move16 { dest: u16, src: u16 },
    MoveWide { dest: u8, src: u8 },
    MoveWideFrom16 { dest: u8, src: u16 },
    MoveWide16 { dest: u16, src: u16 },
    MoveObject { dest: u8, src: u8 },
    MoveObjectFrom16 { dest: u8, src: u16 },
    MoveObject16 { dest: u16, src: u16 },
    MoveResult { dest: u8 },
    MoveResultObject { dest: u8 },
}

impl View for CallInsn {
    type V = CallInsnView;

    open spec fn view(&self) -> CallInsnView {
        match self {
            CallInsn::InvokeStatic { method, args } => CallInsnView::InvokeStatic { method: *method, args: args@ },
            CallInsn::InvokeStaticRange { method, first_reg, count } => CallInsnView::InvokeStaticRange {
                method: *method,
                first_reg: *first_reg,
                count: *count,
            },
            CallInsn::Move { dest, src } => CallInsnView::Move { dest: *dest, src: *src },
            CallInsn::MoveFrom16 { dest, src } => CallInsnView::MoveFrom16 { dest: *dest, src: *src },
            CallInsn::Move16 { dest, src } => CallInsnView::Move16 { dest: *dest, src: *src },
            CallInsn::MoveWide { dest, src } => CallInsnView::MoveWide { dest: *dest, src: *src },
            CallInsn::MoveWideFrom16 { dest, src } => CallInsnView::MoveWideFrom16 { dest: *dest, src: *src },
            CallInsn::MoveWide16 { dest, src } => CallInsnView::MoveWide16 { dest: *dest, src: *src },
            CallInsn::MoveObject { dest, src } => CallInsnView::MoveObject { dest: *dest, src: *src },
            CallInsn::MoveObjectFrom16 { dest, src } => CallInsnView::MoveObjectFrom16 { dest: *dest, src: *src },
            CallInsn::MoveObject16 { dest, src } => CallInsnView::MoveObject16 { dest: *dest, src: *src },
            CallInsn::MoveResult { dest } => CallInsnView::MoveResult { dest: *dest },
            CallInsn::MoveResultObject { dest } => CallInsnView::MoveResultObject { dest: *dest },
        }
    }
}

/// The views of a list of instructions.
pub open spec fn insn_views(v: Seq<CallInsn>) -> Seq<CallInsnView> {
    v.map_values(|i: CallInsn| i@)
}

/// The move of kind `kind` from `src` to `dest`, in the shortest form the
/// registers fit: 4-bit, 8-bit destination, or 16-bit.
pub open spec fn move_insn(kind: MoveKind, dest: u16, src: u16) -> CallInsnView {
    let small = dest <= 15 && src <= 15;
    let byte = dest <= 255;
    match kind {
        MoveKind::Narrow => if small {
            CallInsnView::Move { dest: dest as u8, src: src as u8 }
        } else if byte {
            CallInsnView::MoveFrom16 { dest: dest as u8, src }
        } else {
            CallInsnView::Move16 { dest, src }
        },
        MoveKind::Wide => if small {
            CallInsnView::MoveWide { dest: dest as u8, src: src as u8 }
        } else if byte {
            CallInsnView::MoveWideFrom16 { dest: dest as u8, src }
        } else {
            CallInsnView::MoveWide16 { dest, src }
        },
        MoveKind::Object => if small {
            CallInsnView::MoveObject { dest: dest as u8, src: src as u8 }
        } else if byte {
            CallInsnView::MoveObjectFrom16 { dest: dest as u8, src }
        } else {
            CallInsnView::MoveObject16 { dest, src }
        },
    }
}

/// The move instruction for one parameter.
pub fn build_move(kind: MoveKind, dest: u16, src: u16) -> (r: CallInsn)
    ensures
        r@ == move_insn(kind, dest, src),
{
    let small = dest <= 15 && src <= 15;
    let byte = dest <= 255;
    match kind {
        MoveKind::Narrow => if small {
            CallInsn::Move { dest: dest as u8, src: src as u8 }
        } else if byte {
            CallInsn::MoveFrom16 { dest: dest as u8, src }
        } else {
            CallInsn::Move16 { dest, src }
        },
        MoveKind::Wide => if small {
            CallInsn::MoveWide { dest: dest as u8, src: src as u8 }
        } else if byte {
            CallInsn::MoveWideFrom16 { dest: dest as u8, src }
        } else {
            CallInsn::MoveWide16 { dest, src }
        },
        MoveKind::Object => if small {
            CallInsn::MoveObject { dest: dest as u8, src: src as u8 }
        } else if byte {
            CallInsn::MoveObjectFrom16 { dest: dest as u8, src }
        } else {
            CallInsn::MoveObject16 { dest, src }
        },
    }
}

/// The family a move instruction belongs to: `move`, `move-wide` or
/// `move-object`, whatever its register width; `None` for other
/// instructions.
pub open spec fn move_family(i: CallInsnView) -> Option<MoveKind> {
    match i {
        CallInsnView::Move { .. } => Some(MoveKind::Narrow),
        CallInsnView::MoveFrom16 { .. } => Some(MoveKind::Narrow),
        CallInsnView::Move16 { .. } => Some(MoveKind::Narrow),
        CallInsnView::MoveWide { .. } => Some(MoveKind::Wide),
        CallInsnView::MoveWideFrom16 { .. } => Some(MoveKind::Wide),
        CallInsnView::MoveWide16 { .. } => Some(MoveKind::Wide),
        CallInsnView::MoveObject { .. } => Some(MoveKind::Object),
        CallInsnView::MoveObjectFrom16 { .. } => Some(MoveKind::Object),
        CallInsnView::MoveObject16 { .. } => Some(MoveKind::Object),
        _ => None,
    }
}

/// The destination and source registers of a move instruction.
pub open spec fn move_registers(i: CallInsnView) -> Option<(u16, u16)> {
    match i {
        CallInsnView::Move { dest, src } => Some((dest as u16, src as u16)),
        CallInsnView::MoveFrom16 { dest, src } => Some((dest as u16, src)),
        CallInsnView::Move16 { dest, src } => Some((dest, src)),
        CallInsnView::MoveWide { dest, src } => Some((dest as u16, src as u16)),
        CallInsnView::MoveWideFrom16 { dest, src } => Some((dest as u16, src)),
        CallInsnView::MoveWide16 { dest, src } => Some((dest, src)),
        CallInsnView::MoveObject { dest, src } => Some((dest as u16, src as u16)),
        CallInsnView::MoveObjectFrom16 { dest, src } => Some((dest as u16, src)),
        CallInsnView::MoveObject16 { dest, src } => Some((dest, src)),
        _ => None,
    }
}

/// The encoding a move instruction takes: 1 for the 4-bit `12x` form,
/// 2 for the `/from16` form with an 8-bit destination, 3 for the `/16`
/// form; 0 for other instructions.
pub open spec fn move_form(i: CallInsnView) -> nat {
    match i {
        CallInsnView::Move { .. } => 1,
        CallInsnView::MoveWide { .. } => 1,
        CallInsnView::MoveObject { .. } => 1,
        CallInsnView::MoveFrom16 { .. } => 2,
        CallInsnView::MoveWideFrom16 { .. } => 2,
        CallInsnView::MoveObjectFrom16 { .. } => 2,
        CallInsnView::Move16 { .. } => 3,
        CallInsnView::MoveWide16 { .. } => 3,
        CallInsnView::MoveObject16 { .. } => 3,
        _ => 0,
    }
}

/// A move takes the shortest encoding its registers fit: the 4-bit form
/// when both are below 16, else the `/from16` form when the destination is
/// below 256, else the `/16` form.
pub proof fn lemma_move_shortest_form(kind: MoveKind, dest: u16, src: u16)
    ensures
        move_form(move_insn(kind, dest, src)) == 1 <==> (dest < 16 && src < 16),
        move_form(move_insn(kind, dest, src)) == 2 <==> (!(dest < 16 && src < 16) && dest < 256),
        move_form(move_insn(kind, dest, src)) == 3 <==> dest >= 256,
{
}

/// A move of any kind stays in that kind's family and moves exactly the
/// registers asked for, whichever register width it is encoded in.
pub proof fn lemma_move_keeps_family(kind: MoveKind, dest: u16, src: u16)
    ensures
        move_family(move_insn(kind, dest, src)) == Some(kind),
        move_registers(move_insn(kind, dest, src)) == Some((dest, src)),
{
}

/// Each move placed for a parameter is in that parameter's move family and
/// copies its first register into the next scratch register.
pub proof fn lemma_placed_moves_keep_families(moves: Seq<(nat, MoveKind)>, regs: Seq<u16>, src: nat, dest: nat)
    ensures
        placed_moves(moves, regs, src, dest) matches Some(placed) ==> placed.len() == moves.len() && forall|k: int|
            0 <= k < moves.len() ==> move_family(#[trigger] placed[k]) == Some(moves[k].1),
    decreases moves.len(),
{
    if moves.len() > 0 {
        let (words, kind) = moves[0];
        lemma_placed_moves_keep_families(moves.drop_first(), regs, src + words, dest + words);
        lemma_move_keeps_family(kind, dest as u16, regs[src as int]);
        if let Some(placed) = placed_moves(moves, regs, src, dest) {
            let rest = placed_moves(moves.drop_first(), regs, src + words, dest + words)->0;
            assert(placed == seq![move_insn(kind, dest as u16, regs[src as int])] + rest);
            assert forall|k: int| 0 <= k < moves.len() implies move_family(#[trigger] placed[k]) == Some(moves[k].1) by {
                if k > 0 {
                    assert(placed[k] == rest[k - 1]);
                    assert(moves[k] == moves.drop_first()[k - 1]);
                }
            }
        }
    }
}

/// When a call is lowered through the scratch range, the instructions
/// before the call are one move per parameter, each in the family of that
/// parameter's type: `move-object` forms for objects and arrays,
/// `move-wide` forms for longs and doubles, plain `move` forms otherwise.
pub proof fn lemma_lowered_moves_follow_parameters(method: u32, proto: Seq<char>, registers: Seq<u16>, scratch: Option<u16>)
    ensures
        lowered_call(method, proto, registers, scratch) matches Some(insns) ==> (insns.len() > 1 ==> (param_list(proto) matches Some(p) && moves_of(p) matches Some(moves) && insns.len() == moves.len() + 1
            && forall|k: int| 0 <= k < moves.len() ==> move_family(#[trigger] insns[k]) == Some(moves[k].1))),
{
    reveal(lowered_call);
    if let Some(p) = param_list(proto) {
        if let Some(moves) = moves_of(p) {
            if let Some(first) = scratch {
                lemma_placed_moves_keep_families(moves, registers, 0, first as nat);
            }
        }
    }
}

/// Each register follows the one before it (saturating at the top).
pub open spec fn consecutive(regs: Seq<u16>) -> bool {
    forall|k: int| #![trigger regs[k]] 0 < k < regs.len() ==> regs[k] == if regs[k - 1] == u16::MAX {
        u16::MAX
    } else {
        (regs[k - 1] + 1) as u16
    }
}

/// The total register words of the parameters.
pub open spec fn total_words(moves: Seq<(nat, MoveKind)>) -> nat
    decreases moves.len(),
{
    if moves.len() == 0 {
        0
    } else {
        total_words(moves.drop_last()) + moves.last().0
    }
}

/// The moves placing the parameters, read from `regs` starting at `src`,
/// into consecutive registers from `dest`. `None` when a wide parameter's
/// two registers are not consecutive.
pub open spec fn placed_moves(moves: Seq<(nat, MoveKind)>, regs: Seq<u16>, src: nat, dest: nat) -> Option<Seq<CallInsnView>>
    decreases moves.len(),
{
    if moves.len() == 0 {
        Some(Seq::empty())
    } else {
        let (words, kind) = moves[0];
        if words == 2 && !(src + 1 < regs.len() && regs[(src + 1) as int] as int == regs[src as int] + 1) {
            None
        } else {
            match placed_moves(moves.drop_first(), regs, src + words, dest + words) {
                Some(rest) => Some(seq![move_insn(kind, dest as u16, regs[src as int])] + rest),
                None => None,
            }
        }
    }
}

/// No wide parameter starts in the top register, so its second register is
/// a register.
pub open spec fn wide_fits(moves: Seq<(nat, MoveKind)>, regs: Seq<u16>, src: nat) -> bool
    decreases moves.len(),
{
    if moves.len() == 0 {
        true
    } else {
        (moves[0].0 == 2 ==> regs[src as int] < u16::MAX) && wide_fits(moves.drop_first(), regs, src + moves[0].0)
    }
}

/// The instructions for `invoke-static` of `method` with `registers`:
/// direct when they fit the 4-bit form, `/range` when consecutive, else
/// moved into the scratch range at `scratch` first. `None` when the call
/// cannot be encoded.
#[verifier::opaque]
pub open spec fn lowered_call(method: u32, proto: Seq<char>, registers: Seq<u16>, scratch: Option<u16>) -> Option<Seq<CallInsnView>> {
    if registers.len() > 255 {
        None
    } else if registers.len() <= 5 && forall|k: int| 0 <= k < registers.len() ==> registers[k] <= 15 {
        Some(seq![CallInsnView::InvokeStatic { method, args: registers.map_values(|r: u16| r as u8) }])
    } else if consecutive(registers) {
        Some(seq![CallInsnView::InvokeStaticRange {
            method,
            first_reg: if registers.len() > 0 { registers[0] } else { 0 },
            count: registers.len() as u8,
        }])
    } else {
        match param_list(proto) {
            None => None,
            Some(p) => match moves_of(p) {
                None => None,
                Some(moves) => if total_words(moves) != registers.len() || scratch is None {
                    None
                } else {
                    match placed_moves(moves, registers, 0, scratch->0 as nat) {
                        None => None,
                        Some(placed) => Some(placed.push(CallInsnView::InvokeStaticRange {
                            method,
                            first_reg: scratch->0,
                            count: registers.len() as u8,
                        })),
                    }
                },
            },
        }
    }
}

/// What lowering needs to run without overflow: the prototype's parameters
/// are read on character boundaries, no wide parameter starts in the top
/// register, and the scratch range fits below it.
pub open spec fn lowering_fits(proto: Seq<char>, registers: Seq<u16>, scratch: Option<u16>) -> bool {
    &&& param_list(proto) matches Some(p) ==> moves_fit(p)
    &&& param_list(proto) matches Some(p) ==> (moves_of(p) matches Some(moves) ==> wide_fits(moves, registers, 0))
    &&& scratch matches Some(first) ==> first + registers.len() <= u16::MAX
}

/// A static call of `method` with `registers`, lowered.
pub fn lower_static_invoke(method: u32, proto: &str, registers: &[u16], scratch: Option<u16>) -> (r: Option<Vec<CallInsn>>)
    requires
        lowering_fits(proto@, registers@, scratch),
    ensures
        match r {
            Some(v) => lowered_call(method, proto@, registers@, scratch) == Some(insn_views(v@)),
            None => lowered_call(method, proto@, registers@, scratch) is None,
        },
{
    proof {
        reveal(lowered_call);
    }
    let n = registers.len();
    if n > 255 {
        return None;
    }
    let count = n as u8;
    let mut small = n <= 5;
    let mut k: usize = 0;
    while small && k < n
        invariant
            k <= n == registers@.len(),
            small ==> n <= 5,
            small ==> forall|q: int| 0 <= q < k ==> registers@[q] <= 15,
            !small ==> !(n <= 5 && forall|q: int| 0 <= q < n ==> registers@[q] <= 15),
        decreases n - k,
    {
        if registers[k] > 15 {
            small = false;
        }
        k = k + 1;
    }
    if small {
        let mut args: Vec<u8> = Vec::new();
        for q in 0..n
            invariant
                n == registers@.len(),
                args@ == registers@.take(q as int).map_values(|r: u16| r as u8),
        {
            args.push(registers[q] as u8);
            assert(registers@.take(q + 1).map_values(|r: u16| r as u8) =~= registers@.take(q as int).map_values(|r: u16| r as u8).push(registers@[q as int] as u8));
        }
        assert(registers@.take(n as int) =~= registers@);
        let mut out: Vec<CallInsn> = Vec::new();
        out.push(CallInsn::InvokeStatic { method, args });
        assert(insn_views(out@) =~= seq![CallInsnView::InvokeStatic { method, args: registers@.map_values(|r: u16| r as u8) }]);
        return Some(out);
    }
    let mut chain = true;
    let mut q: usize = 1;
    while chain && q < n
        invariant
            1 <= q,
            n == registers@.len(),
            chain ==> forall|j: int| #![trigger registers@[j]] 0 < j < q && j < n ==> registers@[j] == if registers@[j - 1] == u16::MAX {
                u16::MAX
            } else {
                (registers@[j - 1] + 1) as u16
            },
            !chain ==> !consecutive(registers@),
        decreases n - q,
    {
        if registers[q] != registers[q - 1].saturating_add(1) {
            chain = false;
        }
        q = q + 1;
    }
    if chain {
        let first_reg: u16 = if n > 0 { registers[0] } else { 0 };
        let mut out: Vec<CallInsn> = Vec::new();
        out.push(CallInsn::InvokeStaticRange { method, first_reg, count });
        assert(insn_views(out@) =~= seq![CallInsnView::InvokeStaticRange { method, first_reg, count }]);
        return Some(out);
    }
    let specs = match parameter_moves(proto) {
        Some(s) => s,
        None => return None,
    };
    let ghost p = param_list(proto@)->0;
    let ghost moves = move_views(specs@);
    assert(moves_of(p) == Some(moves));
    proof {
        lemma_moves_words(p);
    }
    let mut words: usize = 0;
    let ns = specs.len();
    assert(total_words(moves) != n ==> lowered_call(method, proto@, registers@, scratch) is None);
    for i in 0..ns
        invariant
            ns == specs@.len(),
            n == registers@.len(),
            n <= 255,
            total_words(moves) != n ==> lowered_call(method, proto@, registers@, scratch) is None,
            moves == move_views(specs@),
            words == total_words(moves.take(i as int)),
            words <= n,
            forall|j: int| 0 <= j < moves.len() ==> 1 <= (#[trigger] moves[j]).0 <= 2,
    {
        proof {
            lemma_total_words_prefix(moves, i as int);
        }
        assert(moves[i as int].0 == specs@[i as int].0);
        if words + specs[i].0 > n {
            assert(total_words(moves) != n);
            return None;
        }
        words = words + specs[i].0;
    }
    assert(moves.take(ns as int) =~= moves);
    if words != n {
        return None;
    }
    let first = match scratch {
        Some(f) => f,
        None => return None,
    };
    assert(lowered_call(method, proto@, registers@, scratch) == match placed_moves(moves, registers@, 0, first as nat) {
        None => None,
        Some(pl) => Some(pl.push(CallInsnView::InvokeStaticRange { method, first_reg: first, count })),
    });
    let mut lowered: Vec<CallInsn> = Vec::new();
    let mut src: usize = 0;
    let mut dest: usize = first as usize;
    assert(moves.skip(0) =~= moves);
    assert(insn_views(lowered@) + Seq::<CallInsnView>::empty() =~= Seq::<CallInsnView>::empty());
    for i in 0..ns
        invariant
            ns == specs@.len(),
            n == registers@.len(),
            moves == move_views(specs@),
            moves_of(p) == Some(moves),
            forall|j: int| 0 <= j < moves.len() ==> 1 <= (#[trigger] moves[j]).0 <= 2,
            total_words(moves) == n,
            src == total_words(moves.take(i as int)),
            dest == first + src,
            first + n <= u16::MAX,
            wide_fits(moves.skip(i as int), registers@, src as nat),
            count == n,
            lowered_call(method, proto@, registers@, scratch) == match placed_moves(moves, registers@, 0, first as nat) {
                None => None,
                Some(pl) => Some(pl.push(CallInsnView::InvokeStaticRange { method, first_reg: first, count })),
            },
            match placed_moves(moves.skip(i as int), registers@, src as nat, dest as nat) {
                Some(rest) => placed_moves(moves, registers@, 0, first as nat) == Some(insn_views(lowered@) + rest),
                None => placed_moves(moves, registers@, 0, first as nat) is None,
            },
    {
        proof {
            lemma_total_words_prefix(moves, i as int);
        }
        let (w, kind) = specs[i];
        assert(moves[i as int] == (w as nat, kind));
        assert(moves.skip(i as int)[0] == moves[i as int]);
        assert(moves.skip(i as int).drop_first() =~= moves.skip(i + 1));
        assert(src + w <= n);
        if w == 2 && !(src + 1 < n && registers[src + 1] as u32 == registers[src] as u32 + 1) {
            return None;
        }
        let insn = build_move(kind, dest as u16, registers[src]);
        let ghost before = insn_views(lowered@);
        lowered.push(insn);
        assert(insn_views(lowered@) =~= before.push(insn@));
        proof {
            match placed_moves(moves.skip(i + 1), registers@, (src + w) as nat, (dest + w) as nat) {
                Some(rest) => {
                    assert(before.push(insn@) + rest =~= before + (seq![insn@] + rest));
                },
                None => {},
            }
            assert(moves.take(i + 1).drop_last() =~= moves.take(i as int));
        }
        src = src + w;
        dest = dest + w;
    }
    assert(moves.skip(ns as int) =~= Seq::<(nat, MoveKind)>::empty());
    assert(insn_views(lowered@) + Seq::<CallInsnView>::empty() =~= insn_views(lowered@));
    let ghost placed = insn_views(lowered@);
    lowered.push(CallInsn::InvokeStaticRange { method, first_reg: first, count });
    assert(insn_views(lowered@) =~= placed.push(CallInsnView::InvokeStaticRange { method, first_reg: first, count }));
    Some(lowered)
}

/// Every parameter takes one or two register words.
proof fn lemma_moves_words(p: Seq<char>)
    ensures
        moves_of(p) matches Some(moves) ==> forall|j: int| 0 <= j < moves.len() ==> 1 <= (#[trigger] moves[j]).0 <= 2,
    decreases p.len(),
{
    if p.len() > 0 {
        match crate::descriptor::move_step(p) {
            None => {},
            Some((n, m)) => {
                if n > 0 && n <= p.len() {
                    lemma_moves_words(p.skip(n as int));
                    match moves_of(p.skip(n as int)) {
                        Some(rest) => {
                            let all = seq![m] + rest;
                            assert forall|j: int| 0 <= j < all.len() implies 1 <= (#[trigger] all[j]).0 <= 2 by {
                                if j > 0 {
                                    assert(all[j] == rest[j - 1]);
                                }
                            }
                        },
                        None => {},
                    }
                }
            },
        }
    }
}

/// The words of the first `i + 1` parameters stay within the total.
proof fn lemma_total_words_prefix(moves: Seq<(nat, MoveKind)>, i: int)
    requires
        0 <= i < moves.len(),
    ensures
        total_words(moves.take(i + 1)) == total_words(moves.take(i)) + moves[i].0,
        total_words(moves.take(i + 1)) <= total_words(moves),
    decreases moves.len() - i,
{
    assert(moves.take(i + 1).drop_last() =~= moves.take(i));
    if i + 1 < moves.len() {
        lemma_total_words_prefix(moves.drop_last(), i);
        assert(moves.drop_last().take(i + 1) =~= moves.take(i + 1));
        assert(moves.drop_last().take(i) =~= moves.take(i));
    } else {
        assert(moves.take(i + 1) =~= moves);
    }
}


/// The instructions `insert_invoke` splices in: the lowered call and, when
/// asked, a `move-result` into `dest`, which must be one of the first 256
/// registers.
pub open spec fn call_with_result(
    method: u32,
    proto: Seq<char>,
    registers: Seq<u16>,
    scratch: Option<u16>,
    move_result: Option<(u16, bool)>,
) -> Option<Seq<CallInsnView>> {
    match lowered_call(method, proto, registers, scratch) {
        None => None,
        Some(call) => match move_result {
            None => Some(call),
            Some((dest, is_object)) => if dest > 255 {
                None
            } else if is_object {
                Some(call.push(CallInsnView::MoveResultObject { dest: dest as u8 }))
            } else {
                Some(call.push(CallInsnView::MoveResult { dest: dest as u8 }))
            },
        },
    }
}

/// A static call, lowered, followed by the `move-result` asked for.
pub fn lower_call_with_result(
    method: u32,
    proto: &str,
    registers: &[u16],
    scratch: Option<u16>,
    move_result: Option<(u16, bool)>,
) -> (r: Option<Vec<CallInsn>>)
    requires
        lowering_fits(proto@, registers@, scratch),
    ensures
        match r {
            Some(v) => call_with_result(method, proto@, registers@, scratch, move_result) == Some(insn_views(v@)),
            None => call_with_result(method, proto@, registers@, scratch, move_result) is None,
        },
{
    let mut lowered = match lower_static_invoke(method, proto, registers, scratch) {
        Some(v) => v,
        None => return None,
    };
    match move_result {
        None => Some(lowered),
        Some((dest, is_object)) => {
            if dest > 255 {
                return None;
            }
            let ghost before = insn_views(lowered@);
            if is_object {
                lowered.push(CallInsn::MoveResultObject { dest: dest as u8 });
            } else {
                lowered.push(CallInsn::MoveResult { dest: dest as u8 });
            }
            assert(insn_views(lowered@) =~= before.push(lowered@[lowered@.len() - 1]@));
            Some(lowered)
        },
    }
}

} // verus!
