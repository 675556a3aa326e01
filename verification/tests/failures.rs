// What a failed call leaves behind: the state in which it began.

use green::compiler::chunk::Chunk;
use green::compiler::compiler::Compiler;
use green::compiler::module_resolver::ModuleTable;
use green::compiler::object::GreenFunction;
use green::compiler::opcode::Opcode;
use green::compiler::value::Value;
use green::error::{CompileError, ParserError};
use green::parser::grammar::Failure;
use green::parser::parser::EvalParser;
use green::syntax::expr::{
    ArrayExpr, BlockExpr, CallExpr, Expr, ExprKind, ImportExpr, ReturnExpr, VarGetExpr, Variable,
};
use green::syntax::parser::GreenParser;
use green::vm::errors::RuntimeError;
use green::vm::vm::Action;
use green::vm::VM;
use std::rc::Rc;

fn bits(text: &str) -> u64 {
    text.parse::<f64>().unwrap().to_bits()
}

fn state(compiler: &mut Compiler) -> (Vec<u8>, usize, Vec<(String, i32)>, isize) {
    let code = compiler.current_chunk().code().clone();
    let constants = compiler.current_chunk().constants().len();
    let locals = compiler
        .current
        .locals
        .iter()
        .map(|l| (l.name.clone(), l.depth))
        .collect();
    (code, constants, locals, compiler.current.scope_depth)
}

fn nils(n: usize) -> Vec<Expr> {
    (0..n).map(|_| Expr::nil()).collect()
}

#[test]
fn a_duplicate_local_leaves_locals_and_code() {
    let mut compiler = Compiler::new();
    compiler.begin_scope();
    let x = Variable::new("x".to_string());
    assert_eq!(compiler.compile_declare_var(&x), Ok(()));
    let before = state(&mut compiler);
    assert_eq!(before.2.len(), 2);
    assert_eq!(
        compiler.compile_declare_var(&x),
        Err(CompileError::DuplicateLocal)
    );
    assert_eq!(state(&mut compiler), before);
    // another name is still accepted
    assert_eq!(
        compiler.compile_declare_var(&Variable::new("y".to_string())),
        Ok(())
    );
    assert_eq!(state(&mut compiler).2.len(), 3);
}

#[test]
fn a_full_set_of_locals_stays_as_it_is() {
    let mut compiler = Compiler::new();
    compiler.begin_scope();
    for i in 0..255 {
        let v = Variable::new(format!("v{}", i));
        assert_eq!(compiler.compile_declare_var(&v), Ok(()));
    }
    let before = state(&mut compiler);
    assert_eq!(
        compiler.compile_declare_var(&Variable::new("last".to_string())),
        Err(CompileError::TooManyLocals)
    );
    assert_eq!(state(&mut compiler), before);
}

#[test]
fn a_return_at_the_top_level_emits_nothing() {
    let modules = ModuleTable::new();
    let mut compiler = Compiler::new();
    let before = state(&mut compiler);
    let r = ReturnExpr::new(Some(Expr::nil()));
    assert_eq!(
        compiler.compile_return(&r, &modules, 16),
        Err(CompileError::ReturnOutsideFunction)
    );
    assert_eq!(state(&mut compiler), before);
    let node = ExprKind::Return(ReturnExpr::new(None));
    assert_eq!(
        compiler.compile_node(&node, &modules, 16),
        Err(CompileError::ReturnOutsideFunction)
    );
    assert_eq!(state(&mut compiler), before);
}

#[test]
fn too_many_operands_emit_nothing() {
    let modules = ModuleTable::new();
    let mut compiler = Compiler::new();
    let before = state(&mut compiler);
    let callee = Expr::var_get(VarGetExpr::new(Variable::new("f".to_string())));
    let call = CallExpr::new(callee, nils(256));
    assert_eq!(
        compiler.compile_call(&call, &modules, 16),
        Err(CompileError::TooManyArguments)
    );
    assert_eq!(state(&mut compiler), before);
    let array = ArrayExpr::new(Some(nils(256)));
    assert_eq!(
        compiler.compile_array(&array, &modules, 16),
        Err(CompileError::TooManyElements)
    );
    assert_eq!(state(&mut compiler), before);
}

#[test]
fn an_import_that_cannot_be_followed_emits_nothing() {
    let modules = ModuleTable::new();
    let mut compiler = Compiler::new();
    let before = state(&mut compiler);
    let node = ExprKind::Import(ImportExpr::new("missing".to_string()));
    assert_eq!(
        compiler.compile_node(&node, &modules, 16),
        Err(CompileError::UnresolvedImport)
    );
    assert_eq!(state(&mut compiler), before);
    assert_eq!(
        compiler.compile_node(&node, &modules, 0),
        Err(CompileError::ImportTooDeep)
    );
    assert_eq!(state(&mut compiler), before);
}

#[test]
fn a_statement_in_place_of_a_value_emits_nothing() {
    let modules = ModuleTable::new();
    let mut compiler = Compiler::new();
    let before = state(&mut compiler);
    let block = Expr::block(BlockExpr::new(vec![]));
    assert_eq!(
        compiler.compile_value(&block, &modules, 16),
        Err(CompileError::ExpectedExpression)
    );
    assert_eq!(state(&mut compiler), before);
}

#[test]
fn a_jump_that_is_too_long_is_not_patched() {
    let mut compiler = Compiler::new();
    let at = compiler.emit_jump(Opcode::Jump);
    for _ in 0..0x10000 {
        compiler.emit(Opcode::Nil);
    }
    let before = state(&mut compiler);
    assert_eq!(compiler.patch_jump(at), Err(CompileError::JumpTooLarge));
    assert_eq!(state(&mut compiler), before);
    assert_eq!(compiler.emit_loop(0), Err(CompileError::JumpTooLarge));
    assert_eq!(state(&mut compiler), before);
}

#[test]
fn expect_leaves_the_tokens_on_a_mismatch() {
    let mut parser = GreenParser::new("x 1", &bits).unwrap();
    let before = parser.tokens.len();
    assert_eq!(before, 2);
    let wrong = parser.expect(green::syntax::token::TokenType::Number);
    assert_eq!(
        wrong.unwrap_err(),
        ParserError::Expect(
            green::syntax::token::TokenType::Number,
            green::syntax::token::TokenType::Identifier
        )
    );
    assert_eq!(parser.tokens.len(), before);
    // the token is still the next one
    let token = parser
        .expect(green::syntax::token::TokenType::Identifier)
        .unwrap();
    assert_eq!(token.source, "x");
    assert_eq!(parser.tokens.len(), 1);
    assert_eq!(parser.consume().unwrap().source, "1");
    // nothing is left: consume fails and nothing changes
    assert_eq!(parser.consume().unwrap_err(), ParserError::UnexpectedEOF);
    assert_eq!(parser.tokens.len(), 0);
    assert!(parser.expect(green::syntax::token::TokenType::Number).is_err());
    assert_eq!(parser.tokens.len(), 0);
}

#[test]
fn the_first_parser_leaves_the_tokens_on_a_mismatch() {
    let mut parser = EvalParser::new("x", &bits).unwrap();
    let before = parser.tokens.len();
    let wrong = parser.expect(green::scanner::token::TokenType::Number);
    assert!(matches!(wrong, Err(Failure::Expect(_, _))));
    assert_eq!(parser.tokens.len(), before);
    let token = parser
        .expect(green::scanner::token::TokenType::Identifier)
        .unwrap();
    assert_eq!(token.source, "x");
    assert_eq!(parser.tokens.len(), before - 1);
}

fn function_of(build: impl FnOnce(&mut Chunk)) -> GreenFunction {
    let mut function = GreenFunction::new();
    build(function.chunk_mut());
    function
}

fn emit(chunk: &mut Chunk, opcode: Opcode, operands: &[u8]) {
    chunk.write(opcode, 1);
    for byte in operands {
        chunk.write_byte(*byte);
    }
}

fn picture(vm: &VM) -> (usize, Vec<(usize, usize)>, usize, usize) {
    (
        vm.stack.len(),
        vm.frames.iter().map(|f| (f.ip, f.stack_start)).collect(),
        vm.globals.len(),
        vm.heap.len(),
    )
}

// Steps until an instruction fails, and says what the machine looked like
// before that instruction.
fn failing_step(vm: &mut VM) -> (RuntimeError, (usize, Vec<(usize, usize)>, usize, usize)) {
    for _ in 0..100 {
        let before = picture(vm);
        match vm.step() {
            Ok(Action::Continue) => {}
            Ok(other) => panic!("{:?}", other),
            Err(e) => return (e, before),
        }
    }
    panic!("no instruction failed")
}

#[test]
fn a_type_error_leaves_the_operands() {
    let function = function_of(|c| {
        let yes = c.add_constant(Value::True).unwrap();
        let one = c.add_constant(Value::Number(bits("1"))).unwrap();
        emit(c, Opcode::Constant, &[yes]);
        emit(c, Opcode::Constant, &[one]);
        emit(c, Opcode::Add, &[]);
    });
    let mut vm = VM::new();
    vm.load(function);
    let (error, before) = failing_step(&mut vm);
    assert!(matches!(error, RuntimeError::ArgumentTypes));
    assert_eq!(before.0, 3);
    assert_eq!(picture(&vm), before);
    assert!(matches!(vm.stack[1], Value::True));
    assert!(matches!(vm.stack[2], Value::Number(_)));
}

#[test]
fn assigning_an_undefined_global_defines_nothing() {
    let function = function_of(|c| {
        let one = c.add_constant(Value::Number(bits("1"))).unwrap();
        let name = c.add_constant(Value::String("y".to_string())).unwrap();
        emit(c, Opcode::Constant, &[one]);
        emit(c, Opcode::SetGlobal, &[name]);
    });
    let mut vm = VM::new();
    vm.load(function);
    let (error, before) = failing_step(&mut vm);
    assert!(matches!(error, RuntimeError::UndefinedGlobal(name) if name == "y"));
    assert_eq!(before.2, 0);
    assert_eq!(picture(&vm), before);
}

#[test]
fn a_call_that_fails_opens_no_window() {
    let callee = function_of(|c| emit(c, Opcode::Print, &[]));
    let mut callee = callee;
    callee.arity = 2;
    let function = function_of(|c| {
        let index = c.add_constant(Value::Function(Rc::new(callee))).unwrap();
        emit(c, Opcode::Closure, &[index]);
        emit(c, Opcode::Nil, &[]);
        emit(c, Opcode::Call, &[1]);
    });
    let mut vm = VM::new();
    vm.load(function);
    let (error, before) = failing_step(&mut vm);
    assert!(matches!(error, RuntimeError::ArityMismatch(2, 1)));
    assert_eq!(before.1.len(), 1);
    assert_eq!(picture(&vm), before);

    // what is no closure cannot be called, and stays where it was
    let function = function_of(|c| {
        emit(c, Opcode::Nil, &[]);
        emit(c, Opcode::Call, &[0]);
    });
    let mut vm = VM::new();
    vm.load(function);
    let (error, before) = failing_step(&mut vm);
    assert!(matches!(error, RuntimeError::ArgumentTypes));
    assert_eq!(picture(&vm), before);
    assert!(matches!(vm.stack[1], Value::Nil));
}

#[test]
fn a_return_without_a_call_changes_nothing() {
    let mut vm = VM::new();
    vm.push(Value::True);
    let before = picture(&vm);
    assert!(matches!(vm.ret(), Err(RuntimeError::ReturnFromTopLevel)));
    assert_eq!(picture(&vm), before);
    assert!(matches!(vm.stack[0], Value::True));
}

#[test]
fn a_run_that_fails_stops_before_the_failing_instruction() {
    let function = function_of(|c| {
        emit(c, Opcode::Nil, &[]);
        emit(c, Opcode::Nil, &[]);
        emit(c, Opcode::GetLocal, &[9]);
    });
    let mut vm = VM::new();
    let r = vm.interpret(function, 100);
    assert!(matches!(r, Err(RuntimeError::BadStackIndex(9, 3))));
    // the two instructions before it have run
    assert_eq!(vm.stack.len(), 3);
    assert_eq!(vm.frames[0].ip, 2);
    // tried again from there, the instruction fails in the same way
    assert!(matches!(vm.step(), Err(RuntimeError::BadStackIndex(9, 3))));
    assert!(matches!(vm.run(5), Err(RuntimeError::BadStackIndex(9, 3))));
    assert_eq!(vm.stack.len(), 3);
    assert_eq!(vm.frames[0].ip, 2);
}
