//! Stack heights of bytecode.
//!
//! Every instruction boundary of a piece of bytecode gets a height: the
//! number of values in the window of the call that executes it. The heights
//! are found by walking the instructions in order, each adding its effect.
//! A piece is well typed if every instruction finds as many values as it
//! takes, and if every jump lands on a boundary whose height is the height
//! at the jump: then the height at each boundary is the same along every
//! path that execution can take to it.

use crate::compiler::opcode::Opcode;
use crate::compiler::rules::distance_of;
use crate::compiler::value::ValueView;
use vstd::prelude::*;

verus! {

/// How an instruction changes the height on the way to the instruction
/// behind it.
///
/// For a call this is the effect of the whole call: callee and arguments
/// give way to the result. Behind an unconditional jump stands code that
/// only a taken `JumpIfFalse` reaches, which has left its condition on the
/// stack: there the height is one more than at the jump.
pub open spec fn effect(op: Opcode, operand: u8) -> int {
    match op {
        Opcode::Constant
        | Opcode::Nil
        | Opcode::GetGlobal
        | Opcode::GetLocal
        | Opcode::Closure
        | Opcode::Class
        | Opcode::Jump
        | Opcode::Loop => 1,
        Opcode::Add
        | Opcode::Subtract
        | Opcode::Multiply
        | Opcode::Divide
        | Opcode::Equal
        | Opcode::Greater
        | Opcode::Less
        | Opcode::Pop
        | Opcode::Print
        | Opcode::DefineGlobal
        | Opcode::Return
        | Opcode::IndexSubscript
        | Opcode::SetProperty => -1,
        Opcode::Not
        | Opcode::Negate
        | Opcode::SetGlobal
        | Opcode::SetLocal
        | Opcode::JumpIfFalse
        | Opcode::GetProperty => 0,
        Opcode::StoreSubscript => -2,
        Opcode::Call => -(operand as int),
        Opcode::NewArray => 1 - operand as int,
    }
}

/// How many values an instruction must find in the window: those that it
/// takes or looks at, and for a local the slot that it names.
pub open spec fn need(op: Opcode, operand: u8) -> int {
    match op {
        Opcode::Constant
        | Opcode::Nil
        | Opcode::GetGlobal
        | Opcode::Closure
        | Opcode::Class
        | Opcode::Jump
        | Opcode::Loop => 0,
        Opcode::Not
        | Opcode::Negate
        | Opcode::Pop
        | Opcode::Print
        | Opcode::DefineGlobal
        | Opcode::SetGlobal
        | Opcode::JumpIfFalse
        | Opcode::Return
        | Opcode::GetProperty => 1,
        Opcode::Add
        | Opcode::Subtract
        | Opcode::Multiply
        | Opcode::Divide
        | Opcode::Equal
        | Opcode::Greater
        | Opcode::Less
        | Opcode::IndexSubscript
        | Opcode::SetProperty => 2,
        Opcode::StoreSubscript => 3,
        Opcode::GetLocal => operand as int + 1,
        Opcode::SetLocal => operand as int + 2,
        Opcode::Call => operand as int + 1,
        Opcode::NewArray => operand as int,
    }
}

/// Whether the instruction jumps.
pub open spec fn is_jump(op: Opcode) -> bool {
    op == Opcode::JumpIfFalse || op == Opcode::Jump || op == Opcode::Loop
}

/// The opcode at offset `at`, where there is one.
pub open spec fn opcode_at(code: Seq<u8>, at: int) -> Option<Opcode> {
    if 0 <= at < code.len() {
        Opcode::decode(code[at])
    } else {
        None
    }
}

/// The offset behind the instruction at `at`.
pub open spec fn next_of(code: Seq<u8>, at: int) -> int {
    match opcode_at(code, at) {
        Some(op) => at + 1 + op.operand_width(),
        None => at + 1,
    }
}

/// The first operand byte of the instruction at `at`.
pub open spec fn operand_at(code: Seq<u8>, at: int) -> u8 {
    if 0 <= at + 1 < code.len() {
        code[at + 1]
    } else {
        0
    }
}

/// The effect of the instruction at `at`.
pub open spec fn effect_at(code: Seq<u8>, at: int) -> int {
    match opcode_at(code, at) {
        Some(op) => effect(op, operand_at(code, at)),
        None => 0,
    }
}

/// Where the jump at `at` lands: forward from behind its operand, and for
/// `Loop` backward from there.
pub open spec fn target_of(code: Seq<u8>, at: int) -> int {
    let distance = if 0 <= at && at + 2 < code.len() {
        distance_of(code[at + 1], code[at + 2])
    } else {
        0
    };
    if opcode_at(code, at) == Some(Opcode::Loop) {
        at + 3 - distance
    } else {
        at + 3 + distance
    }
}

/// Whether the bytes from `from` up to `to` are whole instructions: then
/// `to` is an instruction boundary for a walk that starts at `from`.
pub open spec fn decodes(code: Seq<u8>, from: int, to: int) -> bool
    decreases to - from,
{
    if from >= to {
        from == to
    } else {
        &&& opcode_at(code, from) is Some
        &&& from < next_of(code, from) <= to <= code.len()
        &&& decodes(code, next_of(code, from), to)
    }
}

/// The height at `to` for a walk that starts at `from` with height `h`.
pub open spec fn height_at(code: Seq<u8>, from: int, h: int, to: int) -> int
    decreases to - from,
{
    if from >= to || opcode_at(code, from) is None || next_of(code, from) > to {
        h
    } else {
        height_at(code, next_of(code, from), h + effect_at(code, from), to)
    }
}

/// Whether the operand of an instruction that names a constant names one
/// that is there, and of the kind that the instruction takes: a string
/// where it is a name, a function where a closure is made of it.
pub open spec fn constant_ok(op: Opcode, operand: u8, pool: Seq<ValueView>) -> bool {
    match op {
        Opcode::Constant => operand < pool.len(),
        Opcode::DefineGlobal
        | Opcode::GetGlobal
        | Opcode::SetGlobal
        | Opcode::Class
        | Opcode::GetProperty
        | Opcode::SetProperty => operand < pool.len() && pool[operand as int] is String,
        Opcode::Closure => operand < pool.len() && pool[operand as int] is Function,
        _ => true,
    }
}

/// Whether the constants `a` are the first of the constants `b`.
pub open spec fn prefix_of(a: Seq<ValueView>, b: Seq<ValueView>) -> bool {
    &&& a.len() <= b.len()
    &&& forall|i: int| 0 <= i < a.len() ==> b[i] == a[i]
}

/// Whether the instruction at `at`, where the height is `hat`, is sound
/// inside the piece from `lo` to `hi` that is entered with height `hlo`,
/// with the constants `pool`: it finds the values that it needs and the
/// constant that it names, and if it jumps, it lands inside the piece or at
/// its end, on an instruction boundary whose height is the height at the
/// jump.
pub open spec fn sound(
    code: Seq<u8>,
    pool: Seq<ValueView>,
    lo: int,
    hi: int,
    hlo: int,
    at: int,
    hat: int,
) -> bool {
    match opcode_at(code, at) {
        Some(op) => {
            &&& hat >= need(op, operand_at(code, at))
            &&& constant_ok(op, operand_at(code, at), pool)
            &&& is_jump(op) ==> {
                &&& lo <= target_of(code, at) <= hi
                &&& decodes(code, lo, target_of(code, at))
                &&& height_at(code, lo, hlo, target_of(code, at)) == hat
            }
        },
        None => false,
    }
}

/// Whether the instructions from `at`, where the height is `hat`, up to
/// `to` are all sound inside the piece from `lo` to `hi`.
pub open spec fn walk(
    code: Seq<u8>,
    pool: Seq<ValueView>,
    lo: int,
    hi: int,
    hlo: int,
    at: int,
    hat: int,
    to: int,
) -> bool
    decreases to - at,
{
    if at >= to {
        at == to
    } else {
        &&& sound(code, pool, lo, hi, hlo, at, hat)
        &&& at < next_of(code, at) <= to <= code.len()
        &&& walk(code, pool, lo, hi, hlo, next_of(code, at), hat + effect_at(code, at), to)
    }
}

/// Whether the piece from `lo` to `hi`, entered with height `h`, is well
/// typed.
pub open spec fn typed(code: Seq<u8>, pool: Seq<ValueView>, lo: int, hi: int, h: int) -> bool {
    &&& 0 <= lo <= hi <= code.len()
    &&& walk(code, pool, lo, hi, h, lo, h, hi)
}

/// Whether a function is well typed through and through: its code is well
/// typed when it is entered as a call enters it, with the callee and one
/// argument for each parameter in the window, and so is every function
/// among its constants.
pub open spec fn well_typed(f: crate::compiler::value::FunctionView) -> bool
    decreases f,
{
    &&& typed(f.chunk.code, f.chunk.constants, 0, f.chunk.code.len() as int, 1 + f.arity)
    &&& forall|i: int|
        0 <= i < f.chunk.constants.len() ==> (#[trigger] f.chunk.constants[i] matches ValueView::Function(
            g,
        ) ==> well_typed(g))
}

/// Whether every function among the constants is well typed through and
/// through.
pub open spec fn well_typed_pool(pool: Seq<ValueView>) -> bool {
    forall|i: int|
        0 <= i < pool.len() ==> (#[trigger] pool[i] matches ValueView::Function(g) ==> well_typed(
            g,
        ))
}

/// Whether two byte sequences hold the same bytes from `lo` up to `hi`.
pub open spec fn agree(a: Seq<u8>, b: Seq<u8>, lo: int, hi: int) -> bool {
    &&& 0 <= lo <= hi
    &&& hi <= a.len()
    &&& hi <= b.len()
    &&& forall|i: int| lo <= i < hi ==> a[i] == b[i]
}

/// A walk passes whole instructions only.
pub proof fn lemma_walk_decodes(code: Seq<u8>, pool: Seq<ValueView>, lo: int, hi: int, hlo: int, at: int, hat: int, to: int)
    requires
        walk(code, pool, lo, hi, hlo, at, hat, to),
    ensures
        decodes(code, at, to),
    decreases to - at,
{
    if at < to {
        lemma_walk_decodes(code, pool, lo, hi, hlo, next_of(code, at), hat + effect_at(code, at), to);
    }
}

/// Whole instructions behind whole instructions are whole instructions.
pub proof fn lemma_decodes_concat(code: Seq<u8>, from: int, mid: int, to: int)
    requires
        decodes(code, from, mid),
        decodes(code, mid, to),
    ensures
        decodes(code, from, to),
    decreases mid - from,
{
    if from < mid {
        lemma_decodes_concat(code, next_of(code, from), mid, to);
        lemma_decodes_bounds(code, mid, to);
    }
}

/// What decodes lies in order and inside the code.
pub proof fn lemma_decodes_bounds(code: Seq<u8>, from: int, to: int)
    requires
        decodes(code, from, to),
    ensures
        from <= to,
        from < to ==> 0 <= from && to <= code.len(),
{
}

/// The height behind two pieces is the height behind the second, entered
/// with the height behind the first.
pub proof fn lemma_height_concat(code: Seq<u8>, from: int, h: int, mid: int, to: int)
    requires
        decodes(code, from, mid),
        mid <= to,
    ensures
        height_at(code, from, h, to) == height_at(code, mid, height_at(code, from, h, mid), to),
    decreases mid - from,
{
    if from < mid {
        lemma_height_concat(code, next_of(code, from), h + effect_at(code, from), mid, to);
    }
}

/// A walk up to `mid` and a walk on from there make one walk.
pub proof fn lemma_walk_concat(
    code: Seq<u8>,
    pool: Seq<ValueView>,
    lo: int,
    hi: int,
    hlo: int,
    at: int,
    hat: int,
    mid: int,
    to: int,
)
    requires
        walk(code, pool, lo, hi, hlo, at, hat, mid),
        walk(code, pool, lo, hi, hlo, mid, height_at(code, at, hat, mid), to),
    ensures
        walk(code, pool, lo, hi, hlo, at, hat, to),
    decreases mid - at,
{
    if at < mid {
        lemma_walk_concat(
            code,
            pool,
            lo,
            hi,
            hlo,
            next_of(code, at),
            hat + effect_at(code, at),
            mid,
            to,
        );
        if mid < to {
        }
    }
}

/// A walk that is sound inside a piece is sound inside a piece around it,
/// if that piece reaches the inner one over whole instructions and with the
/// height that the inner one is entered with.
pub proof fn lemma_walk_widen(
    code: Seq<u8>,
    pool: Seq<ValueView>,
    lo: int,
    hi: int,
    hlo: int,
    at: int,
    hat: int,
    to: int,
    lo0: int,
    hi0: int,
    h0: int,
)
    requires
        walk(code, pool, lo, hi, hlo, at, hat, to),
        lo0 <= lo,
        hi <= hi0,
        decodes(code, lo0, lo),
        height_at(code, lo0, h0, lo) == hlo,
    ensures
        walk(code, pool, lo0, hi0, h0, at, hat, to),
    decreases to - at,
{
    if at < to {
        match opcode_at(code, at) {
            Some(op) => {
                if is_jump(op) {
                    let t = target_of(code, at);
                    lemma_decodes_concat(code, lo0, lo, t);
                    lemma_height_concat(code, lo0, h0, lo, t);
                }
            },
            None => {},
        }
        lemma_walk_widen(
            code,
            pool,
            lo,
            hi,
            hlo,
            next_of(code, at),
            hat + effect_at(code, at),
            to,
            lo0,
            hi0,
            h0,
        );
    }
}

/// Whether bytes decode depends on those bytes alone.
pub proof fn lemma_decodes_frame(a: Seq<u8>, b: Seq<u8>, lo: int, hi: int, from: int, to: int)
    requires
        agree(a, b, lo, hi),
        lo <= from,
        to <= hi,
        decodes(a, from, to),
    ensures
        decodes(b, from, to),
    decreases to - from,
{
    if from < to {
        assert(a[from] == b[from]);
        lemma_decodes_frame(a, b, lo, hi, next_of(a, from), to);
    }
}

/// The height behind bytes depends on those bytes alone.
pub proof fn lemma_height_frame(a: Seq<u8>, b: Seq<u8>, lo: int, hi: int, from: int, h: int, to: int)
    requires
        agree(a, b, lo, hi),
        lo <= from,
        to <= hi,
        decodes(a, from, to),
    ensures
        height_at(b, from, h, to) == height_at(a, from, h, to),
    decreases to - from,
{
    if from < to {
        assert(a[from] == b[from]);
        if from + 1 < to {
            assert(a[from + 1] == b[from + 1]);
        }
        lemma_height_frame(a, b, lo, hi, next_of(a, from), h + effect_at(a, from), to);
    }
}

/// Whether a piece is well typed depends on its bytes alone.
pub proof fn lemma_walk_frame(
    a: Seq<u8>,
    b: Seq<u8>,
    pool: Seq<ValueView>,
    lo: int,
    hi: int,
    hlo: int,
    at: int,
    hat: int,
    to: int,
)
    requires
        agree(a, b, lo, hi),
        lo <= at,
        to <= hi,
        walk(a, pool, lo, hi, hlo, at, hat, to),
    ensures
        walk(b, pool, lo, hi, hlo, at, hat, to),
    decreases to - at,
{
    if at < to {
        assert(a[at] == b[at]);
        let next = next_of(a, at);
        if at + 1 < next {
            assert(a[at + 1] == b[at + 1]);
        }
        if at + 2 < next {
            assert(a[at + 2] == b[at + 2]);
        }
        match opcode_at(a, at) {
            Some(op) => {
                if is_jump(op) {
                    let t = target_of(a, at);
                    assert(target_of(b, at) == t);
                    lemma_decodes_frame(a, b, lo, hi, lo, t);
                    lemma_height_frame(a, b, lo, hi, lo, hlo, t);
                }
            },
            None => {},
        }
        lemma_walk_frame(a, b, pool, lo, hi, hlo, next, hat + effect_at(a, at), to);
    }
}

/// A walk that is sound stays sound when constants are added.
pub proof fn lemma_walk_pool(
    code: Seq<u8>,
    pool: Seq<ValueView>,
    more: Seq<ValueView>,
    lo: int,
    hi: int,
    hlo: int,
    at: int,
    hat: int,
    to: int,
)
    requires
        prefix_of(pool, more),
        walk(code, pool, lo, hi, hlo, at, hat, to),
    ensures
        walk(code, more, lo, hi, hlo, at, hat, to),
    decreases to - at,
{
    if at < to {
        lemma_walk_pool(
            code,
            pool,
            more,
            lo,
            hi,
            hlo,
            next_of(code, at),
            hat + effect_at(code, at),
            to,
        );
    }
}

/// A well-typed piece stays well typed when bytes outside it change and
/// constants are added.
pub proof fn lemma_typed_moves(
    a: Seq<u8>,
    pool: Seq<ValueView>,
    b: Seq<u8>,
    more: Seq<ValueView>,
    lo: int,
    hi: int,
    h: int,
)
    requires
        agree(a, b, lo, hi),
        prefix_of(pool, more),
        typed(a, pool, lo, hi, h),
    ensures
        typed(b, more, lo, hi, h),
        height_at(b, lo, h, hi) == height_at(a, lo, h, hi),
        decodes(b, lo, hi),
{
    lemma_typed_frame(a, b, pool, lo, hi, h);
    lemma_walk_pool(b, pool, more, lo, hi, h, lo, h, hi);
}

/// A well-typed piece stays well typed when bytes outside it change.
pub proof fn lemma_typed_frame(a: Seq<u8>, b: Seq<u8>, pool: Seq<ValueView>, lo: int, hi: int, h: int)
    requires
        agree(a, b, lo, hi),
        typed(a, pool, lo, hi, h),
    ensures
        typed(b, pool, lo, hi, h),
        height_at(b, lo, h, hi) == height_at(a, lo, h, hi),
        decodes(b, lo, hi),
{
    lemma_walk_frame(a, b, pool, lo, hi, h, lo, h, hi);
    lemma_walk_decodes(a, pool, lo, hi, h, lo, h, hi);
    lemma_height_frame(a, b, lo, hi, lo, h, hi);
    lemma_decodes_frame(a, b, lo, hi, lo, hi);
}

/// Two well-typed pieces, the second entered with the height behind the
/// first, make one well-typed piece.
pub proof fn lemma_typed_concat(code: Seq<u8>, pool: Seq<ValueView>, lo: int, mid: int, hi: int, h: int)
    requires
        typed(code, pool, lo, mid, h),
        typed(code, pool, mid, hi, height_at(code, lo, h, mid)),
    ensures
        typed(code, pool, lo, hi, h),
        height_at(code, lo, h, hi) == height_at(code, mid, height_at(code, lo, h, mid), hi),
        decodes(code, lo, hi),
{
    let hm = height_at(code, lo, h, mid);
    lemma_walk_decodes(code, pool, lo, mid, h, lo, h, mid);
    lemma_walk_decodes(code, pool, mid, hi, hm, mid, hm, hi);
    lemma_walk_widen(code, pool, lo, mid, h, lo, h, mid, lo, hi, h);
    lemma_walk_widen(code, pool, mid, hi, hm, mid, hm, hi, lo, hi, h);
    lemma_walk_concat(code, pool, lo, hi, h, lo, h, mid, hi);
    lemma_height_concat(code, lo, h, mid, hi);
    lemma_decodes_concat(code, lo, mid, hi);
}

/// One instruction that does not jump and finds what it needs is a
/// well-typed piece.
pub proof fn lemma_typed_instruction(code: Seq<u8>, pool: Seq<ValueView>, at: int, h: int)
    requires
        opcode_at(code, at) matches Some(op) && !is_jump(op) && h >= need(op, operand_at(code, at))
            && constant_ok(op, operand_at(code, at), pool),
        next_of(code, at) <= code.len(),
    ensures
        typed(code, pool, at, next_of(code, at), h),
        height_at(code, at, h, next_of(code, at)) == h + effect_at(code, at),
        decodes(code, at, next_of(code, at)),
{
    let next = next_of(code, at);
    assert(walk(code, pool, at, next, h, next, h + effect_at(code, at), next));
    assert(height_at(code, next, h + effect_at(code, at), next) == h + effect_at(code, at));
    assert(decodes(code, next, next));
}

/// Nothing is a well-typed piece.
pub proof fn lemma_typed_empty(code: Seq<u8>, pool: Seq<ValueView>, at: int, h: int)
    requires
        0 <= at <= code.len(),
    ensures
        typed(code, pool, at, at, h),
        height_at(code, at, h, at) == h,
        decodes(code, at, at),
{
}

/// In a walk that is sound, every instruction on the way is: it finds what
/// it needs, and if it jumps, it lands on an instruction boundary of the
/// piece where the height is the height at the jump.
pub proof fn lemma_walk_sound_at(
    code: Seq<u8>,
    pool: Seq<ValueView>,
    lo: int,
    hi: int,
    hlo: int,
    from: int,
    hfrom: int,
    to: int,
    at: int,
)
    requires
        walk(code, pool, lo, hi, hlo, from, hfrom, to),
        decodes(code, from, at),
        from <= at < to,
    ensures
        sound(code, pool, lo, hi, hlo, at, height_at(code, from, hfrom, at)),
    decreases at - from,
{
    if from < at {
        lemma_walk_sound_at(
            code,
            pool,
            lo,
            hi,
            hlo,
            next_of(code, from),
            hfrom + effect_at(code, from),
            to,
            at,
        );
    }
}

/// Jumps land on instructions. In a well-typed piece, the target of every
/// jump lies inside the piece or at its end, is an instruction boundary,
/// and has the height that the stack has at the jump.
pub proof fn lemma_jumps_land_on_instructions(code: Seq<u8>, pool: Seq<ValueView>, lo: int, hi: int, h: int, at: int)
    requires
        typed(code, pool, lo, hi, h),
        decodes(code, lo, at),
        lo <= at < hi,
        opcode_at(code, at) matches Some(op) && is_jump(op),
    ensures
        lo <= target_of(code, at) <= hi,
        decodes(code, lo, target_of(code, at)),
        decodes(code, target_of(code, at), hi),
        height_at(code, lo, h, target_of(code, at)) == height_at(code, lo, h, at),
{
    lemma_walk_sound_at(code, pool, lo, hi, h, lo, h, hi, at);
    lemma_walk_decodes(code, pool, lo, hi, h, lo, h, hi);
    lemma_decodes_split(code, lo, target_of(code, at), hi);
}

/// An instruction boundary splits whole instructions into whole
/// instructions.
pub proof fn lemma_decodes_split(code: Seq<u8>, from: int, mid: int, to: int)
    requires
        decodes(code, from, to),
        decodes(code, from, mid),
        mid <= to,
    ensures
        decodes(code, mid, to),
    decreases mid - from,
{
    if from < mid {
        lemma_decodes_split(code, next_of(code, from), mid, to);
    }
}

/// Whether a walk from `lo` with height `h` reaches `at` over whole
/// instructions, and with height `hat`.
pub open spec fn reach(code: Seq<u8>, lo: int, h: int, at: int, hat: int) -> bool {
    &&& 0 <= lo <= at <= code.len()
    &&& decodes(code, lo, at)
    &&& height_at(code, lo, h, at) == hat
}

/// Whether all instructions from `lo` up to `at` are sound inside the
/// piece from `lo` to `hi`.
pub open spec fn covered(
    code: Seq<u8>,
    pool: Seq<ValueView>,
    lo: int,
    hi: int,
    h: int,
    at: int,
) -> bool {
    &&& lo <= at <= hi <= code.len()
    &&& walk(code, pool, lo, hi, h, lo, h, at)
}

/// A walk reaches behind the instruction that it has reached.
pub proof fn lemma_reach_step(code: Seq<u8>, lo: int, h: int, at: int, hat: int)
    requires
        reach(code, lo, h, at, hat),
        opcode_at(code, at) is Some,
        next_of(code, at) <= code.len(),
    ensures
        reach(code, lo, h, next_of(code, at), hat + effect_at(code, at)),
{
    let next = next_of(code, at);
    assert(decodes(code, next, next));
    assert(decodes(code, at, next));
    lemma_decodes_concat(code, lo, at, next);
    lemma_height_concat(code, lo, h, at, next);
    assert(height_at(code, next, hat + effect_at(code, at), next) == hat + effect_at(code, at));
}

/// A walk reaches behind a piece that starts where it has reached.
pub proof fn lemma_reach_piece(code: Seq<u8>, lo: int, h: int, at: int, hat: int, to: int, hto: int)
    requires
        reach(code, lo, h, at, hat),
        at <= to <= code.len(),
        decodes(code, at, to),
        height_at(code, at, hat, to) == hto,
    ensures
        reach(code, lo, h, to, hto),
{
    lemma_decodes_concat(code, lo, at, to);
    lemma_height_concat(code, lo, h, at, to);
}

/// The sound instructions grow by one that is sound.
pub proof fn lemma_covered_step(code: Seq<u8>, pool: Seq<ValueView>, lo: int, hi: int, h: int, at: int, hat: int)
    requires
        covered(code, pool, lo, hi, h, at),
        reach(code, lo, h, at, hat),
        sound(code, pool, lo, hi, h, at, hat),
        at < next_of(code, at) <= hi,
    ensures
        covered(code, pool, lo, hi, h, next_of(code, at)),
{
    let next = next_of(code, at);
    assert(walk(code, pool, lo, hi, h, next, hat + effect_at(code, at), next));
    assert(walk(code, pool, lo, hi, h, at, hat, next));
    lemma_walk_concat(code, pool, lo, hi, h, lo, h, at, next);
}

/// The sound instructions grow by a well-typed piece.
pub proof fn lemma_covered_piece(code: Seq<u8>, pool: Seq<ValueView>, lo: int, hi: int, h: int, at: int, hat: int, to: int)
    requires
        covered(code, pool, lo, hi, h, at),
        reach(code, lo, h, at, hat),
        typed(code, pool, at, to, hat),
        to <= hi,
    ensures
        covered(code, pool, lo, hi, h, to),
        reach(code, lo, h, to, height_at(code, at, hat, to)),
{
    lemma_walk_widen(code, pool, at, to, hat, at, hat, to, lo, hi, h);
    lemma_walk_concat(code, pool, lo, hi, h, lo, h, at, to);
    lemma_walk_decodes(code, pool, at, to, hat, at, hat, to);
    lemma_reach_piece(code, lo, h, at, hat, to, height_at(code, at, hat, to));
}

/// The layout of a conditional is well typed and leaves the height as it
/// was: a condition, which adds a value; at `p` a `JumpIfFalse` to `q + 3`;
/// a `Pop`; the first arm, up to `q`; at `q` a `Jump` to the end; at
/// `q + 3` a `Pop`; and the second arm, up to `b`.
pub proof fn lemma_conditional_layout(code: Seq<u8>, pool: Seq<ValueView>, a: int, p: int, q: int, b: int, h: int)
    requires
        h >= 0,
        0 <= a <= p,
        p + 4 <= q,
        q + 4 <= b <= code.len(),
        typed(code, pool, a, p, h),
        height_at(code, a, h, p) == h + 1,
        opcode_at(code, p) == Some(Opcode::JumpIfFalse),
        target_of(code, p) == q + 3,
        opcode_at(code, p + 3) == Some(Opcode::Pop),
        typed(code, pool, p + 4, q, h),
        height_at(code, p + 4, h, q) == h,
        opcode_at(code, q) == Some(Opcode::Jump),
        target_of(code, q) == b,
        opcode_at(code, q + 3) == Some(Opcode::Pop),
        typed(code, pool, q + 4, b, h),
        height_at(code, q + 4, h, b) == h,
    ensures
        typed(code, pool, a, b, h),
        height_at(code, a, h, b) == h,
{
    // what the walk reaches
    lemma_walk_decodes(code, pool, a, p, h, a, h, p);
    assert(reach(code, a, h, a, h));
    lemma_reach_piece(code, a, h, a, h, p, h + 1);
    lemma_reach_step(code, a, h, p, h + 1);
    lemma_reach_step(code, a, h, p + 3, h + 1);
    lemma_walk_decodes(code, pool, p + 4, q, h, p + 4, h, q);
    lemma_reach_piece(code, a, h, p + 4, h, q, h);
    lemma_reach_step(code, a, h, q, h);
    lemma_reach_step(code, a, h, q + 3, h + 1);
    lemma_walk_decodes(code, pool, q + 4, b, h, q + 4, h, b);
    lemma_reach_piece(code, a, h, q + 4, h, b, h);
    // every instruction on the way is sound
    assert(covered(code, pool, a, b, h, a));
    lemma_covered_piece(code, pool, a, b, h, a, h, p);
    lemma_covered_step(code, pool, a, b, h, p, h + 1);
    lemma_covered_step(code, pool, a, b, h, p + 3, h + 1);
    lemma_covered_piece(code, pool, a, b, h, p + 4, h, q);
    lemma_covered_step(code, pool, a, b, h, q, h);
    lemma_covered_step(code, pool, a, b, h, q + 3, h + 1);
    lemma_covered_piece(code, pool, a, b, h, q + 4, h, b);
}

/// The layout of a loop is well typed and leaves the height as it was: a
/// condition, which adds a value; at `p` a `JumpIfFalse` to `q + 3`; a
/// `Pop`; the body, up to `q`; at `q` a `Loop` back to the condition; and
/// at `q + 3` a `Pop`.
pub proof fn lemma_loop_layout(code: Seq<u8>, pool: Seq<ValueView>, a: int, p: int, q: int, h: int)
    requires
        h >= 0,
        0 <= a <= p,
        p + 4 <= q,
        q + 4 <= code.len(),
        typed(code, pool, a, p, h),
        height_at(code, a, h, p) == h + 1,
        opcode_at(code, p) == Some(Opcode::JumpIfFalse),
        target_of(code, p) == q + 3,
        opcode_at(code, p + 3) == Some(Opcode::Pop),
        typed(code, pool, p + 4, q, h),
        height_at(code, p + 4, h, q) == h,
        opcode_at(code, q) == Some(Opcode::Loop),
        target_of(code, q) == a,
        opcode_at(code, q + 3) == Some(Opcode::Pop),
    ensures
        typed(code, pool, a, q + 4, h),
        height_at(code, a, h, q + 4) == h,
{
    let b = q + 4;
    lemma_walk_decodes(code, pool, a, p, h, a, h, p);
    assert(reach(code, a, h, a, h));
    lemma_reach_piece(code, a, h, a, h, p, h + 1);
    lemma_reach_step(code, a, h, p, h + 1);
    lemma_reach_step(code, a, h, p + 3, h + 1);
    lemma_walk_decodes(code, pool, p + 4, q, h, p + 4, h, q);
    lemma_reach_piece(code, a, h, p + 4, h, q, h);
    lemma_reach_step(code, a, h, q, h);
    lemma_reach_step(code, a, h, q + 3, h + 1);
    assert(covered(code, pool, a, b, h, a));
    lemma_covered_piece(code, pool, a, b, h, a, h, p);
    lemma_covered_step(code, pool, a, b, h, p, h + 1);
    lemma_covered_step(code, pool, a, b, h, p + 3, h + 1);
    lemma_covered_piece(code, pool, a, b, h, p + 4, h, q);
    lemma_covered_step(code, pool, a, b, h, q, h);
    lemma_covered_step(code, pool, a, b, h, q + 3, h + 1);
}

} // verus!
