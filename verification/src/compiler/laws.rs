//! What holds of everything that the compiler emits.

use crate::compiler::instance::CompilerView;
use crate::compiler::local::LocalView;
use crate::compiler::opcode::{lemma_opcode_roundtrip, Opcode};
use crate::compiler::rules::{distance_of, high_byte, low_byte, MAX_JUMP};
use crate::compiler::typing::{
    agree, constant_ok, effect, height_at, is_jump, lemma_typed_concat, lemma_typed_empty,
    lemma_typed_instruction, lemma_typed_moves, need, opcode_at, operand_at, prefix_of,
    target_of, typed, well_typed, well_typed_pool,
};
use crate::compiler::value::ValueView;
use crate::error::CompileError;
use vstd::prelude::*;

verus! {

/// What a step of the compiler keeps of the state before it: the state is
/// well formed; the scope depth and the function's kind, name and arity are
/// the same; the locals of before are still there, in their slots, and the
/// new ones belong to the current scope; the bytes and the constants of
/// before are still there; and if the functions among the constants were
/// well typed before, they all are after.
pub open spec fn extends(before: CompilerView, after: CompilerView) -> bool {
    &&& after.wf()
    &&& after.depth == before.depth
    &&& after.kind == before.kind
    &&& after.function.arity == before.function.arity
    &&& after.function.name == before.function.name
    &&& before.locals.len() <= after.locals.len()
    &&& forall|i: int| 0 <= i < before.locals.len() ==> after.locals[i] == before.locals[i]
    &&& forall|i: int|
        before.locals.len() <= i < after.locals.len() ==> (#[trigger] after.locals[i]).depth
            == after.depth
    &&& agree(before.code(), after.code(), 0, before.code().len() as int)
    &&& prefix_of(before.constants(), after.constants())
    &&& well_typed_pool(before.constants()) ==> well_typed_pool(after.constants())
}

/// Whether the bytes that a step emitted are well typed when they are
/// entered with height `h`, and change the height by `delta`.
pub open spec fn balanced(before: CompilerView, after: CompilerView, h: int, delta: int) -> bool {
    &&& typed(
        after.code(),
        after.constants(),
        before.code().len() as int,
        after.code().len() as int,
        h,
    )
    &&& height_at(after.code(), before.code().len() as int, h, after.code().len() as int) == h
        + delta
}

/// The instruction that takes no operand.
pub open spec fn plain(op: Opcode) -> bool {
    op.operand_width() == 0
}

/// The instructions whose operand is the index of a name.
pub open spec fn names(op: Opcode) -> bool {
    op == Opcode::DefineGlobal || op == Opcode::GetGlobal || op == Opcode::SetGlobal || op
        == Opcode::GetProperty || op == Opcode::SetProperty
}

pub proof fn lemma_extends_refl(st: CompilerView)
    requires
        st.wf(),
    ensures
        extends(st, st),
{
}

pub proof fn lemma_extends_trans(a: CompilerView, b: CompilerView, c: CompilerView)
    requires
        extends(a, b),
        extends(b, c),
    ensures
        extends(a, c),
{
    assert forall|i: int| 0 <= i < a.locals.len() implies c.locals[i] == a.locals[i] by {
        assert(b.locals[i] == a.locals[i]);
    }
    assert forall|i: int| a.locals.len() <= i < c.locals.len() implies (#[trigger] c.locals[i]).depth
        == c.depth by {
        if i < b.locals.len() {
            assert(c.locals[i] == b.locals[i]);
        }
    }
    assert forall|i: int| 0 <= i < a.constants().len() implies c.constants()[i]
        == a.constants()[i] by {
        assert(b.constants()[i] == a.constants()[i]);
    }
}

/// A step that emits nothing is balanced.
pub proof fn lemma_balanced_empty(before: CompilerView, after: CompilerView, h: int)
    requires
        after.code() == before.code(),
    ensures
        balanced(before, after, h, 0),
{
    lemma_typed_empty(after.code(), after.constants(), after.code().len() as int, h);
}

/// Two balanced steps, one after the other, are a balanced step.
pub proof fn lemma_balanced_join(
    a: CompilerView,
    b: CompilerView,
    c: CompilerView,
    h: int,
    d1: int,
    d2: int,
)
    requires
        agree(a.code(), b.code(), 0, a.code().len() as int),
        agree(b.code(), c.code(), 0, b.code().len() as int),
        prefix_of(b.constants(), c.constants()),
        balanced(a, b, h, d1),
        balanced(b, c, h + d1, d2),
    ensures
        balanced(a, c, h, d1 + d2),
{
    let lo = a.code().len() as int;
    let mid = b.code().len() as int;
    let hi = c.code().len() as int;
    assert(agree(b.code(), c.code(), lo, mid));
    lemma_typed_moves(b.code(), b.constants(), c.code(), c.constants(), lo, mid, h);
    lemma_typed_concat(c.code(), c.constants(), lo, mid, hi, h);
}

/// One instruction without operand, emitted where it finds what it needs,
/// is a balanced step.
pub proof fn lemma_emit(st: CompilerView, op: Opcode, h: int)
    requires
        st.wf(),
        plain(op),
        !is_jump(op),
        h >= need(op, 0),
    ensures
        extends(st, st.emit(op)),
        st.emit(op).locals == st.locals,
        balanced(st, st.emit(op), h, effect(op, 0)),
        st.emit(op).code() == st.code().push(op.byte()),
{
    let s = st.emit(op);
    let at = st.code().len() as int;
    lemma_opcode_roundtrip(op, 0);
    assert(s.code()[at] == op.byte());
    assert(opcode_at(s.code(), at) == Some(op));
    assert(operand_at(s.code(), at) == 0);
    lemma_typed_instruction(s.code(), s.constants(), at, h);
}

/// One instruction with a one-byte operand, emitted where it finds what it
/// needs, is a balanced step.
pub proof fn lemma_emit_with(st: CompilerView, op: Opcode, operand: u8, h: int)
    requires
        st.wf(),
        op.operand_width() == 1,
        h >= need(op, operand),
        constant_ok(op, operand, st.constants()),
    ensures
        extends(st, st.emit_with(op, operand)),
        st.emit_with(op, operand).locals == st.locals,
        balanced(st, st.emit_with(op, operand), h, effect(op, operand)),
        st.emit_with(op, operand).constants() == st.constants(),
{
    let s = st.emit_with(op, operand);
    let at = st.code().len() as int;
    lemma_opcode_roundtrip(op, 0);
    assert(s.code() == st.code().push(op.byte()).push(operand));
    assert(s.code()[at] == op.byte());
    assert(s.code()[at + 1] == operand);
    assert(opcode_at(s.code(), at) == Some(op));
    assert(operand_at(s.code(), at) == operand);
    lemma_typed_instruction(s.code(), s.constants(), at, h);
}

/// A new constant leaves code and locals alone.
pub proof fn lemma_add_constant(st: CompilerView, value: ValueView)
    requires
        st.wf(),
        st.add_constant(value) is Ok,
        value matches ValueView::Function(g) ==> well_typed(g),
    ensures
        extends(st, st.add_constant(value)->Ok_0),
        st.add_constant(value)->Ok_0.locals == st.locals,
        st.add_constant(value)->Ok_0.code() == st.code(),
        st.add_constant(value)->Ok_0.constants() == st.constants().push(value),
        st.constants().len() < 256,
{
}

/// The load of a constant is a balanced step that adds one value.
pub proof fn lemma_emit_constant(st: CompilerView, value: ValueView, h: int)
    requires
        st.wf(),
        h >= 0,
        st.emit_constant(value) is Ok,
        !(value is Function),
    ensures
        extends(st, st.emit_constant(value)->Ok_0),
        st.emit_constant(value)->Ok_0.locals == st.locals,
        balanced(st, st.emit_constant(value)->Ok_0, h, 1),
{
    let s1 = st.add_constant(value)->Ok_0;
    lemma_add_constant(st, value);
    assert(st.next_constant() < s1.constants().len());
    lemma_emit_with(s1, Opcode::Constant, st.next_constant(), h);
    lemma_extends_trans(st, s1, st.emit_constant(value)->Ok_0);
}

/// The instructions whose operand is the index of a constant that is
/// added as they are emitted.
pub open spec fn indexes(op: Opcode) -> bool {
    names(op) || op == Opcode::Closure
}

/// An instruction with a new constant for its operand is a balanced step.
pub proof fn lemma_emit_indexed(st: CompilerView, op: Opcode, value: ValueView, h: int)
    requires
        st.wf(),
        indexes(op),
        h >= need(op, 0),
        st.emit_indexed(op, value) is Ok,
        names(op) ==> value is String,
        op == Opcode::Closure ==> value is Function,
        value matches ValueView::Function(g) ==> well_typed(g),
    ensures
        extends(st, st.emit_indexed(op, value)->Ok_0),
        st.emit_indexed(op, value)->Ok_0.locals == st.locals,
        balanced(st, st.emit_indexed(op, value)->Ok_0, h, effect(op, 0)),
{
    let s = st.emit_indexed(op, value)->Ok_0;
    let operand = st.next_constant();
    let at = st.code().len() as int;
    lemma_opcode_roundtrip(op, 0);
    assert(s.constants() == st.constants().push(value));
    assert(s.constants()[operand as int] == value);
    assert(s.code() == st.code().push(op.byte()).push(operand));
    assert(s.code()[at] == op.byte());
    assert(s.code()[at + 1] == operand);
    assert(opcode_at(s.code(), at) == Some(op));
    assert(operand_at(s.code(), at) == operand);
    lemma_typed_instruction(s.code(), s.constants(), at, h);
}

/// An instruction with a name for its operand is a balanced step.
pub proof fn lemma_emit_named(st: CompilerView, op: Opcode, name: Seq<char>, h: int)
    requires
        st.wf(),
        names(op),
        h >= need(op, 0),
        st.emit_named(op, name) is Ok,
    ensures
        extends(st, st.emit_named(op, name)->Ok_0),
        st.emit_named(op, name)->Ok_0.locals == st.locals,
        balanced(st, st.emit_named(op, name)->Ok_0, h, effect(op, 0)),
{
    lemma_emit_indexed(st, op, ValueView::String(name), h);
}

/// A declared local takes the next slot and leaves the code alone.
pub proof fn lemma_declare_local(st: CompilerView, name: Seq<char>)
    requires
        st.wf(),
        st.declare_local(name) is Ok,
    ensures
        extends(st, st.declare_local(name)->Ok_0),
        st.declare_local(name)->Ok_0.locals == st.locals.push(
            LocalView { name, depth: st.depth },
        ),
        st.declare_local(name)->Ok_0.code() == st.code(),
        st.declare_local(name)->Ok_0.function == st.function,
{
}

/// The variable that a value on top of the stack becomes: inside a scope
/// the value stays and is the new local; at the top level it is taken into
/// a global.
pub proof fn lemma_define_variable(st: CompilerView, name: Seq<char>, h: int)
    requires
        st.wf(),
        h >= 1,
        st.define_variable(name) is Ok,
    ensures
        extends(st, st.define_variable(name)->Ok_0),
        balanced(
            st,
            st.define_variable(name)->Ok_0,
            h,
            st.define_variable(name)->Ok_0.locals.len() - st.locals.len() - 1,
        ),
{
    if st.depth > 0 {
        lemma_declare_local(st, name);
        lemma_balanced_empty(st, st.define_variable(name)->Ok_0, h);
    } else {
        lemma_emit_named(st, Opcode::DefineGlobal, name, h);
    }
}

/// What `find_local` finds is a slot.
pub proof fn lemma_find_local(st: CompilerView, name: Seq<char>, n: int)
    requires
        0 <= n <= st.locals.len(),
    ensures
        st.find_local(name, n) matches Some(i) ==> 0 <= i < n && st.locals[i].name == name,
    decreases n,
{
    if n > 0 && st.locals[n - 1].name != name {
        lemma_find_local(st, name, n - 1);
    }
}

/// A read of a variable is a balanced step that adds one value, and a
/// local is read from its slot.
pub proof fn lemma_emit_get(st: CompilerView, name: Seq<char>, h: int)
    requires
        st.wf(),
        h >= st.locals.len(),
        st.emit_get(name) is Ok,
    ensures
        extends(st, st.emit_get(name)->Ok_0),
        st.emit_get(name)->Ok_0.locals == st.locals,
        balanced(st, st.emit_get(name)->Ok_0, h, 1),
{
    lemma_find_local(st, name, st.locals.len() as int);
    match st.resolve_local(name) {
        Ok(Some(slot)) => {
            lemma_emit_with(st, Opcode::GetLocal, slot as u8, h);
        },
        Ok(None) => {
            lemma_emit_named(st, Opcode::GetGlobal, name, h);
        },
        Err(_) => {},
    }
}

/// A write to a variable is a balanced step that leaves the value, and a
/// local is written to its slot.
pub proof fn lemma_emit_set(st: CompilerView, name: Seq<char>, h: int)
    requires
        st.wf(),
        h >= st.locals.len() + 1,
        st.emit_set(name) is Ok,
    ensures
        extends(st, st.emit_set(name)->Ok_0),
        st.emit_set(name)->Ok_0.locals == st.locals,
        balanced(st, st.emit_set(name)->Ok_0, h, 0),
{
    lemma_find_local(st, name, st.locals.len() as int);
    match st.resolve_local(name) {
        Ok(Some(slot)) => {
            lemma_emit_with(st, Opcode::SetLocal, slot as u8, h);
        },
        Ok(None) => {
            lemma_emit_named(st, Opcode::SetGlobal, name, h);
        },
        Err(_) => {},
    }
}

/// The state after the last `j` locals were dropped, with one `Pop` for
/// each.
pub open spec fn dropped(st: CompilerView, j: int) -> CompilerView
    decreases j,
{
    if j <= 0 {
        st
    } else {
        let before = dropped(st, j - 1);
        CompilerView { locals: before.locals.drop_last(), ..before.emit(Opcode::Pop) }
    }
}

/// What `dropped` drops and emits.
pub proof fn lemma_dropped(st: CompilerView, j: int, h: int)
    requires
        st.function.chunk.wf(),
        0 <= j <= st.locals.len(),
        h >= j,
    ensures
        dropped(st, j).locals == st.locals.take(st.locals.len() - j),
        dropped(st, j).code().len() == st.code().len() + j,
        agree(st.code(), dropped(st, j).code(), 0, st.code().len() as int),
        forall|i: int|
            st.code().len() <= i < st.code().len() + j ==> dropped(st, j).code()[i]
                == Opcode::Pop.byte(),
        dropped(st, j).depth == st.depth,
        dropped(st, j).kind == st.kind,
        dropped(st, j).function.chunk.wf(),
        dropped(st, j).function.name == st.function.name,
        dropped(st, j).function.arity == st.function.arity,
        dropped(st, j).constants() == st.constants(),
        balanced(st, dropped(st, j), h, -j),
    decreases j,
{
    if j > 0 {
        lemma_dropped(st, j - 1, h);
        let before = dropped(st, j - 1);
        let after = dropped(st, j);
        assert(after.locals =~= st.locals.take(st.locals.len() - j));
        let mid = CompilerView { locals: st.locals, depth: 0, ..before };
        let end = CompilerView { locals: st.locals, depth: 0, ..after };
        let at = before.code().len() as int;
        lemma_opcode_roundtrip(Opcode::Pop, 0);
        assert(after.code() == before.code().push(Opcode::Pop.byte()));
        assert(opcode_at(after.code(), at) == Some(Opcode::Pop));
        assert(operand_at(after.code(), at) == 0);
        lemma_typed_instruction(after.code(), after.constants(), at, h - (j - 1));
        assert(balanced(before, after, h - (j - 1), -1));
        lemma_balanced_join(st, before, after, h, -(j - 1), -1);
    } else {
        assert(st.locals.take(st.locals.len() as int) =~= st.locals);
        lemma_balanced_empty(st, st, h);
    }
}

/// Scopes end last in, first out. When a scope is left, the locals that
/// were declared in it, and no others, are dropped: the one declared last
/// first, with one `Pop` each, so that after `j` of the `Pop`s exactly the
/// last `j` locals are gone. No local outlives the scope that declared it,
/// and every local of an enclosing scope keeps its slot.
pub proof fn lemma_scope_exit_is_lifo(st: CompilerView, outer: int, h: int)
    requires
        st.wf(),
        st.depth > 0,
        1 <= outer <= st.locals.len(),
        h >= st.locals.len(),
        forall|i: int| 0 <= i < outer ==> (#[trigger] st.locals[i]).depth < st.depth,
        forall|i: int| outer <= i < st.locals.len() ==> (#[trigger] st.locals[i]).depth == st.depth,
    ensures
        st.end_scope() == (CompilerView {
            depth: st.depth - 1,
            ..dropped(st, st.locals.len() - outer)
        }),
        st.end_scope().locals == st.locals.take(outer),
        st.end_scope().wf(),
        forall|i: int|
            0 <= i < st.end_scope().locals.len() ==> (#[trigger] st.end_scope().locals[i]).depth
                <= st.end_scope().depth,
        balanced(st, st.end_scope(), h, outer - st.locals.len()),
        agree(st.code(), st.end_scope().code(), 0, st.code().len() as int),
        st.end_scope().constants() == st.constants(),
        st.end_scope().kind == st.kind,
        st.end_scope().function.arity == st.function.arity,
        st.end_scope().function.name == st.function.name,
{
    let lowered = CompilerView { depth: st.depth - 1, ..st };
    lemma_pop_locals(lowered, outer, st.locals.len() - outer);
    lemma_dropped(st, st.locals.len() - outer, h);
    lemma_dropped_depth(st, st.locals.len() - outer, st.depth - 1);
    let s = st.end_scope();
    assert(s.locals == st.locals.take(outer));
    assert forall|i: int| 0 <= i < s.locals.len() implies 0 <= (#[trigger] s.locals[i]).depth
        <= s.depth by {
        assert(s.locals[i] == st.locals[i]);
    }
    assert forall|i: int, j: int| 0 <= i <= j < s.locals.len() implies (#[trigger] s.locals[i]).depth
        <= (#[trigger] s.locals[j]).depth by {
        assert(s.locals[i] == st.locals[i]);
        assert(s.locals[j] == st.locals[j]);
    }
}

/// The scope depth does not matter to what `dropped` drops.
pub proof fn lemma_dropped_depth(st: CompilerView, j: int, depth: int)
    ensures
        dropped(CompilerView { depth, ..st }, j) == (CompilerView { depth, ..dropped(st, j) }),
    decreases j,
{
    if j > 0 {
        lemma_dropped_depth(st, j - 1, depth);
    }
}

/// `pop_locals` drops the locals above the first `outer`, if those are the
/// locals that are deeper than the current scope.
pub proof fn lemma_pop_locals(st: CompilerView, outer: int, j: int)
    requires
        0 <= outer,
        j == st.locals.len() - outer,
        j >= 0,
        forall|i: int| 0 <= i < outer ==> (#[trigger] st.locals[i]).depth <= st.depth,
        forall|i: int| outer <= i < st.locals.len() ==> (#[trigger] st.locals[i]).depth > st.depth,
    ensures
        st.pop_locals() == dropped(st, j),
    decreases j,
{
    if j > 0 {
        let last = st.locals.len() - 1;
        assert(st.locals.last() == st.locals[last]);
        let next = CompilerView { locals: st.locals.drop_last(), ..st.emit(Opcode::Pop) };
        assert forall|i: int| 0 <= i < outer implies (#[trigger] next.locals[i]).depth
            <= next.depth by {
            assert(next.locals[i] == st.locals[i]);
        }
        assert forall|i: int| outer <= i < next.locals.len() implies (#[trigger] next.locals[i]).depth
            > next.depth by {
            assert(next.locals[i] == st.locals[i]);
        }
        lemma_pop_locals(next, outer, j - 1);
        lemma_dropped_shift(st, j);
    } else {
        if st.locals.len() > 0 {
            assert(st.locals.last() == st.locals[st.locals.len() - 1]);
        }
    }
}

/// Dropping `j` locals is dropping one and then `j - 1`.
pub proof fn lemma_dropped_shift(st: CompilerView, j: int)
    requires
        j >= 1,
    ensures
        dropped(st, j) == dropped(
            CompilerView { locals: st.locals.drop_last(), ..st.emit(Opcode::Pop) },
            j - 1,
        ),
    decreases j,
{
    reveal_with_fuel(dropped, 3);
    if j > 1 {
        lemma_dropped_shift(st, j - 1);
    }
}

/// Two operand bytes hold a distance that fits them.
pub proof fn lemma_distance_bytes(distance: int)
    requires
        0 <= distance <= MAX_JUMP,
    ensures
        distance_of(high_byte(distance), low_byte(distance)) == distance,
{
}

/// What a value leaves: the locals as they were, and one value more on a
/// stack that the emitted bytes keep in balance.
pub open spec fn value_ok(before: CompilerView, after: CompilerView, h: int) -> bool {
    &&& extends(before, after)
    &&& after.locals == before.locals
    &&& balanced(before, after, h, 1)
}

/// What a statement leaves: the stack is as much higher as locals were
/// declared.
pub open spec fn statement_ok(before: CompilerView, after: CompilerView, h: int) -> bool {
    &&& extends(before, after)
    &&& balanced(before, after, h, after.locals.len() - before.locals.len())
}

/// What a scope leaves: the locals and the height as they were.
pub open spec fn scope_ok(before: CompilerView, after: CompilerView, h: int) -> bool {
    &&& extends(before, after)
    &&& after.locals == before.locals
    &&& balanced(before, after, h, 0)
}

/// What `n` values leave: the locals as they were, and `n` values more.
pub open spec fn values_ok(before: CompilerView, after: CompilerView, h: int, n: int) -> bool {
    &&& extends(before, after)
    &&& after.locals == before.locals
    &&& balanced(before, after, h, n)
}

/// Two balanced steps that extend, one after the other, are one.
pub proof fn lemma_join(a: CompilerView, b: CompilerView, c: CompilerView, h: int, d1: int, d2: int)
    requires
        extends(a, b),
        extends(b, c),
        balanced(a, b, h, d1),
        balanced(b, c, h + d1, d2),
    ensures
        extends(a, c),
        balanced(a, c, h, d1 + d2),
{
    lemma_extends_trans(a, b, c);
    lemma_balanced_join(a, b, c, h, d1, d2);
}

/// The bytes of a jump whose distance is still to come.
pub proof fn lemma_emit_jump(st: CompilerView, op: Opcode)
    requires
        st.wf(),
    ensures
        extends(st, st.emit_jump(op)),
        st.emit_jump(op).locals == st.locals,
        st.emit_jump(op).code().len() == st.code().len() + 3,
        st.emit_jump(op).code()[st.code().len() as int] == op.byte(),
        st.emit_jump(op).constants() == st.constants(),
{
    let s = st.emit_jump(op);
    assert(s.code() == st.code().push(op.byte()).push(0xff).push(0xff));
}

/// The bytes after a jump was patched: two bytes hold the distance to the
/// end of the code, and all others are as they were.
pub proof fn lemma_patch_jump(st: CompilerView, at: int)
    requires
        st.wf(),
        0 <= at,
        at + 2 <= st.code().len(),
        st.patch_jump(at) is Ok,
    ensures
        st.patch_jump(at)->Ok_0.wf(),
        st.patch_jump(at)->Ok_0.locals == st.locals,
        st.patch_jump(at)->Ok_0.depth == st.depth,
        st.patch_jump(at)->Ok_0.kind == st.kind,
        st.patch_jump(at)->Ok_0.function.arity == st.function.arity,
        st.patch_jump(at)->Ok_0.function.name == st.function.name,
        st.patch_jump(at)->Ok_0.code().len() == st.code().len(),
        st.patch_jump(at)->Ok_0.constants() == st.constants(),
        forall|i: int|
            0 <= i < st.code().len() && i != at && i != at + 1 ==> st.patch_jump(at)->Ok_0.code()[i]
                == st.code()[i],
        distance_of(
            st.patch_jump(at)->Ok_0.code()[at],
            st.patch_jump(at)->Ok_0.code()[at + 1],
        ) == st.code().len() - at - 2,
{
    lemma_distance_bytes(st.code().len() - at - 2);
}

/// Conditionals jump where they should. The bytes of a conditional are
/// well typed and leave locals and height as they were; the conditional
/// jump lands behind the first arm, and the jump that ends the first arm
/// lands behind the second. `s1` is the state after the condition, `s2`
/// after the first arm, `s3` after the jump over the second arm was emitted
/// and the conditional jump was patched, `s4` after the second arm.
pub proof fn lemma_conditional(
    st: CompilerView,
    s1: CompilerView,
    s2: CompilerView,
    s3: CompilerView,
    s4: CompilerView,
    h: int,
)
    requires
        st.wf(),
        h >= st.locals.len(),
        value_ok(st, s1, h),
        scope_ok(s1.emit_jump(Opcode::JumpIfFalse).emit(Opcode::Pop), s2, h),
        s2.emit_jump(Opcode::Jump).patch_jump(s1.jump_slot()) == Ok::<_, CompileError>(s3),
        scope_ok(s3.emit(Opcode::Pop), s4, h),
        s4.patch_jump(s2.jump_slot()) is Ok,
    ensures
        scope_ok(st, s4.patch_jump(s2.jump_slot())->Ok_0, h),
        ({
            let code = s4.patch_jump(s2.jump_slot())->Ok_0.code();
            let p = s1.code().len() as int;
            let q = s2.code().len() as int;
            // the conditional jump stands behind the condition and skips
            // the first arm and the jump that ends it
            &&& opcode_at(code, p) == Some(Opcode::JumpIfFalse)
            &&& target_of(code, p) == q + 3
            // the jump behind the first arm skips the second arm
            &&& opcode_at(code, q) == Some(Opcode::Jump)
            &&& target_of(code, q) == code.len()
        }),
{
    let s5 = s4.patch_jump(s2.jump_slot())->Ok_0;
    let a = st.code().len() as int;
    let p = s1.code().len() as int;
    let q = s2.code().len() as int;
    let b = s4.code().len() as int;
    let j0 = s1.emit_jump(Opcode::JumpIfFalse);
    let j1 = j0.emit(Opcode::Pop);
    let j2 = s2.emit_jump(Opcode::Jump);
    let e0 = s3.emit(Opcode::Pop);
    lemma_opcode_roundtrip(Opcode::JumpIfFalse, 0);
    lemma_opcode_roundtrip(Opcode::Jump, 0);
    lemma_opcode_roundtrip(Opcode::Pop, 0);
    lemma_emit_jump(s1, Opcode::JumpIfFalse);
    lemma_emit(j0, Opcode::Pop, h + 1);
    lemma_emit_jump(s2, Opcode::Jump);
    lemma_patch_jump(j2, p + 1);
    lemma_emit(s3, Opcode::Pop, h + 1);
    lemma_patch_jump(s4, q + 1);
    let code = s5.code();
    assert(j1.code().len() == p + 4);
    assert(q >= p + 4);
    assert(s3.code().len() == q + 3);
    assert(e0.code().len() == q + 4);
    assert(b >= q + 4);
    assert(code.len() == b);
    // the bytes of the layout
    assert(agree(s1.code(), code, 0, p)) by {
        assert forall|i: int| 0 <= i < p implies s1.code()[i] == code[i] by {
            assert(j0.code()[i] == s1.code()[i]);
            assert(j1.code()[i] == j0.code()[i]);
            assert(s2.code()[i] == j1.code()[i]);
            assert(j2.code()[i] == s2.code()[i]);
            assert(s3.code()[i] == j2.code()[i]);
            assert(e0.code()[i] == s3.code()[i]);
            assert(s4.code()[i] == e0.code()[i]);
        }
    }
    assert(code[p] == Opcode::JumpIfFalse.byte() && code[p + 3] == Opcode::Pop.byte()) by {
        assert(j1.code()[p] == j0.code()[p]);
        assert(s2.code()[p] == j1.code()[p]);
        assert(j2.code()[p] == s2.code()[p]);
        assert(s3.code()[p] == j2.code()[p]);
        assert(e0.code()[p] == s3.code()[p]);
        assert(s4.code()[p] == e0.code()[p]);
        assert(s2.code()[p + 3] == j1.code()[p + 3]);
        assert(j2.code()[p + 3] == s2.code()[p + 3]);
        assert(s3.code()[p + 3] == j2.code()[p + 3]);
        assert(e0.code()[p + 3] == s3.code()[p + 3]);
        assert(s4.code()[p + 3] == e0.code()[p + 3]);
    }
    assert(code[p + 1] == s3.code()[p + 1] && code[p + 2] == s3.code()[p + 2]) by {
        assert(e0.code()[p + 1] == s3.code()[p + 1]);
        assert(s4.code()[p + 1] == e0.code()[p + 1]);
        assert(e0.code()[p + 2] == s3.code()[p + 2]);
        assert(s4.code()[p + 2] == e0.code()[p + 2]);
    }
    assert(agree(s2.code(), code, p + 4, q)) by {
        assert forall|i: int| p + 4 <= i < q implies s2.code()[i] == code[i] by {
            assert(j2.code()[i] == s2.code()[i]);
            assert(s3.code()[i] == j2.code()[i]);
            assert(e0.code()[i] == s3.code()[i]);
            assert(s4.code()[i] == e0.code()[i]);
        }
    }
    assert(code[q] == Opcode::Jump.byte() && code[q + 3] == Opcode::Pop.byte()) by {
        assert(s3.code()[q] == j2.code()[q]);
        assert(e0.code()[q] == s3.code()[q]);
        assert(s4.code()[q] == e0.code()[q]);
        assert(s4.code()[q + 3] == e0.code()[q + 3]);
    }
    assert(agree(s4.code(), code, q + 4, b));
    assert(opcode_at(code, p) == Some(Opcode::JumpIfFalse));
    assert(opcode_at(code, p + 3) == Some(Opcode::Pop));
    assert(opcode_at(code, q) == Some(Opcode::Jump));
    assert(opcode_at(code, q + 3) == Some(Opcode::Pop));
    assert(target_of(code, p) == q + 3);
    assert(target_of(code, q) == b);
    // the pieces of the layout
    let pool = s5.constants();
    assert(prefix_of(s2.constants(), pool)) by {
        assert forall|i: int| 0 <= i < s2.constants().len() implies pool[i] == s2.constants()[i] by {
            assert(e0.constants()[i] == s2.constants()[i]);
        }
    }
    assert(prefix_of(s1.constants(), pool)) by {
        assert forall|i: int| 0 <= i < s1.constants().len() implies pool[i] == s1.constants()[i] by {
            assert(s2.constants()[i] == j1.constants()[i]);
        }
    }
    lemma_typed_moves(s1.code(), s1.constants(), code, pool, a, p, h);
    lemma_typed_moves(s2.code(), s2.constants(), code, pool, p + 4, q, h);
    lemma_typed_moves(s4.code(), s4.constants(), code, pool, q + 4, b, h);
    crate::compiler::typing::lemma_conditional_layout(code, pool, a, p, q, b, h);
    // what is kept
    assert(extends(st, s5)) by {
        assert forall|i: int| 0 <= i < a implies st.code()[i] == code[i] by {
            assert(s1.code()[i] == st.code()[i]);
        }
        assert forall|i: int| 0 <= i < st.constants().len() implies s5.constants()[i]
            == st.constants()[i] by {
            assert(s1.constants()[i] == st.constants()[i]);
        }
    }
}

/// Loops jump where they should. The bytes of a loop are well typed and
/// leave locals and height as they were; the exit jump lands behind the
/// jump back, and the jump back lands on the condition. `s1` is the state
/// after the condition, `s2` after the body, `s3` after the jump back, `s4`
/// after the exit jump was patched.
pub proof fn lemma_loop(
    st: CompilerView,
    s1: CompilerView,
    s2: CompilerView,
    s3: CompilerView,
    s4: CompilerView,
    h: int,
)
    requires
        st.wf(),
        h >= st.locals.len(),
        value_ok(st, s1, h),
        scope_ok(s1.emit_jump(Opcode::JumpIfFalse).emit(Opcode::Pop), s2, h),
        s2.emit_loop(st.code().len() as int) == Ok::<_, CompileError>(s3),
        s3.patch_jump(s1.jump_slot()) == Ok::<_, CompileError>(s4),
    ensures
        scope_ok(st, s4.emit(Opcode::Pop), h),
        ({
            let code = s4.emit(Opcode::Pop).code();
            let p = s1.code().len() as int;
            let q = s2.code().len() as int;
            // the exit jump stands behind the condition and skips the body
            // and the jump back
            &&& opcode_at(code, p) == Some(Opcode::JumpIfFalse)
            &&& target_of(code, p) == q + 3
            // the jump behind the body goes back to the condition
            &&& opcode_at(code, q) == Some(Opcode::Loop)
            &&& target_of(code, q) == st.code().len()
        }),
{
    let s5 = s4.emit(Opcode::Pop);
    let a = st.code().len() as int;
    let p = s1.code().len() as int;
    let q = s2.code().len() as int;
    let j0 = s1.emit_jump(Opcode::JumpIfFalse);
    let j1 = j0.emit(Opcode::Pop);
    lemma_opcode_roundtrip(Opcode::JumpIfFalse, 0);
    lemma_opcode_roundtrip(Opcode::Loop, 0);
    lemma_opcode_roundtrip(Opcode::Pop, 0);
    lemma_emit_jump(s1, Opcode::JumpIfFalse);
    lemma_emit(j0, Opcode::Pop, h + 1);
    let distance = q + 3 - a;
    lemma_distance_bytes(distance);
    assert(s3.code() == s2.code().push(Opcode::Loop.byte()).push(high_byte(distance)).push(
        low_byte(distance),
    ));
    assert(s3.wf());
    lemma_patch_jump(s3, p + 1);
    lemma_emit(s4, Opcode::Pop, h + 1);
    let code = s5.code();
    assert(j1.code().len() == p + 4);
    assert(q >= p + 4);
    assert(s3.code().len() == q + 3);
    assert(code.len() == q + 4);
    assert(agree(s1.code(), code, 0, p)) by {
        assert forall|i: int| 0 <= i < p implies s1.code()[i] == code[i] by {
            assert(j0.code()[i] == s1.code()[i]);
            assert(j1.code()[i] == j0.code()[i]);
            assert(s2.code()[i] == j1.code()[i]);
            assert(s3.code()[i] == s2.code()[i]);
            assert(s4.code()[i] == s3.code()[i]);
        }
    }
    assert(code[p] == Opcode::JumpIfFalse.byte() && code[p + 3] == Opcode::Pop.byte()) by {
        assert(j1.code()[p] == j0.code()[p]);
        assert(s2.code()[p] == j1.code()[p]);
        assert(s3.code()[p] == s2.code()[p]);
        assert(s4.code()[p] == s3.code()[p]);
        assert(s2.code()[p + 3] == j1.code()[p + 3]);
        assert(s3.code()[p + 3] == s2.code()[p + 3]);
        assert(s4.code()[p + 3] == s3.code()[p + 3]);
    }
    assert(agree(s2.code(), code, p + 4, q)) by {
        assert forall|i: int| p + 4 <= i < q implies s2.code()[i] == code[i] by {
            assert(s3.code()[i] == s2.code()[i]);
            assert(s4.code()[i] == s3.code()[i]);
        }
    }
    assert(code[q] == Opcode::Loop.byte() && code[q + 1] == high_byte(distance) && code[q + 2]
        == low_byte(distance) && code[q + 3] == Opcode::Pop.byte()) by {
        assert(s4.code()[q] == s3.code()[q]);
        assert(s4.code()[q + 1] == s3.code()[q + 1]);
        assert(s4.code()[q + 2] == s3.code()[q + 2]);
    }
    assert(opcode_at(code, p) == Some(Opcode::JumpIfFalse));
    assert(opcode_at(code, p + 3) == Some(Opcode::Pop));
    assert(opcode_at(code, q) == Some(Opcode::Loop));
    assert(opcode_at(code, q + 3) == Some(Opcode::Pop));
    assert(target_of(code, p) == q + 3);
    assert(target_of(code, q) == a);
    let pool = s5.constants();
    assert(prefix_of(s1.constants(), pool)) by {
        assert forall|i: int| 0 <= i < s1.constants().len() implies pool[i] == s1.constants()[i] by {
            assert(s2.constants()[i] == j1.constants()[i]);
        }
    }
    lemma_typed_moves(s1.code(), s1.constants(), code, pool, a, p, h);
    lemma_typed_moves(s2.code(), s2.constants(), code, pool, p + 4, q, h);
    crate::compiler::typing::lemma_loop_layout(code, pool, a, p, q, h);
    assert(extends(st, s5)) by {
        assert forall|i: int| 0 <= i < a implies st.code()[i] == code[i] by {
            assert(s1.code()[i] == st.code()[i]);
        }
        assert forall|i: int| 0 <= i < st.constants().len() implies s5.constants()[i]
            == st.constants()[i] by {
            assert(s1.constants()[i] == st.constants()[i]);
        }
    }
}

} // verus!
