use green::compiler::chunk::Chunk;
use green::compiler::compiler::Compiler;
use green::compiler::disassembler::{disassemble, disassemble_instruction, Instruction, Operand};
use green::compiler::instance::CompilerInstance;
use green::compiler::local::Local;
use green::compiler::module_resolver::{get_module_ast, ImportModuleError, ModuleTable};
use green::compiler::object::{GreenFunction, GreenFunctionType};
use green::compiler::opcode::Opcode;
use green::compiler::value::Value;
use green::error::CompileError;
use green::syntax::expr::{
    ArrayExpr, BinaryExpr, BinaryOperator, BlockExpr, CallExpr, ClassExpr, Expr, ExprKind,
    FunctionDeclaration, FunctionExpr, LiteralExpr, VarAssignExpr, VarGetExpr, Variable,
};
use green::syntax::parser::{GreenParser, ModuleAst};

fn bits(text: &str) -> u64 {
    text.parse::<f64>().unwrap().to_bits()
}

fn compile(source: &str) -> GreenFunction {
    let module = GreenParser::parse(source, &bits).unwrap();
    Compiler::compile_module(module, &ModuleTable::new()).unwrap()
}

fn number(x: f64) -> Expr {
    Expr::literal(LiteralExpr::Number(x.to_bits()))
}

const RETURN: u8 = 0;
const CONSTANT: u8 = 1;
const ADD: u8 = 2;
const PRINT: u8 = 6;
const LESS: u8 = 9;
const DEFINE_GLOBAL: u8 = 12;
const GET_GLOBAL: u8 = 13;
const SET_GLOBAL: u8 = 14;
const JUMP_IF_FALSE: u8 = 15;
const JUMP: u8 = 16;
const POP: u8 = 17;
const GET_LOCAL: u8 = 18;
const SET_LOCAL: u8 = 19;
const NIL: u8 = 20;
const CALL: u8 = 21;
const CLOSURE: u8 = 22;
const LOOP: u8 = 23;

#[test]
fn compile_for() {
    let input = r#"
        for x in 1 to 5 do
        end
        "#;
    let module = GreenParser::parse(input, &bits).unwrap();
    let function = Compiler::compile_module(module, &ModuleTable::new()).unwrap();
    let expect = vec![
        CONSTANT, 0, DEFINE_GLOBAL, 1,    // var x = 1
        GET_GLOBAL, 2, CONSTANT, 3, LESS, // x < 5
        JUMP_IF_FALSE, 0, 12, POP,
        GET_GLOBAL, 4, CONSTANT, 5, ADD,  // x + 1
        SET_GLOBAL, 6, POP,               // x = ..., as a statement
        LOOP, 0, 20,
        POP,
        NIL, RETURN,
    ];
    assert_eq!(function.chunk.code, expect);
    assert_eq!(*function.arity(), 0);
}

#[test]
fn opcodes_have_the_bytes_of_the_format() {
    let all = [
        Opcode::Return,
        Opcode::Constant,
        Opcode::Add,
        Opcode::Subtract,
        Opcode::Multiply,
        Opcode::Divide,
        Opcode::Print,
        Opcode::Equal,
        Opcode::Greater,
        Opcode::Less,
        Opcode::Not,
        Opcode::Negate,
        Opcode::DefineGlobal,
        Opcode::GetGlobal,
        Opcode::SetGlobal,
        Opcode::JumpIfFalse,
        Opcode::Jump,
        Opcode::Pop,
        Opcode::GetLocal,
        Opcode::SetLocal,
        Opcode::Nil,
        Opcode::Call,
        Opcode::Closure,
        Opcode::Loop,
        Opcode::NewArray,
        Opcode::IndexSubscript,
        Opcode::StoreSubscript,
        Opcode::Class,
        Opcode::GetProperty,
        Opcode::SetProperty,
    ];
    for (byte, opcode) in all.iter().enumerate() {
        assert_eq!(opcode.to_byte() as usize, byte);
        assert_eq!(Opcode::from_byte(byte as u8), Some(*opcode));
    }
    for byte in 30..=255u8 {
        assert_eq!(Opcode::from_byte(byte), None);
    }
    assert_eq!(Opcode::Add.width(), 0);
    assert_eq!(Opcode::Constant.width(), 1);
    assert_eq!(Opcode::Call.width(), 1);
    assert_eq!(Opcode::Jump.width(), 2);
    assert_eq!(Opcode::JumpIfFalse.width(), 2);
    assert_eq!(Opcode::Loop.width(), 2);
}

#[test]
fn global_definition_and_use() {
    let function = compile("var x = 5\nprint(x)\n");
    assert_eq!(
        function.chunk.code,
        vec![CONSTANT, 0, DEFINE_GLOBAL, 1, GET_GLOBAL, 2, PRINT, NIL, RETURN]
    );
    let constants = function.chunk.constants();
    assert!(matches!(constants[0], Value::Number(n) if n == 5.0f64.to_bits()));
    assert!(matches!(&constants[1], Value::String(s) if s == "x"));
    assert!(matches!(&constants[2], Value::String(s) if s == "x"));
    // one line for each byte
    assert_eq!(function.chunk.lines.len(), function.chunk.code.len());
}

#[test]
fn locals_are_slots_and_scopes_pop_them() {
    // slot 0 is the script itself: a is slot 1, b is slot 2
    let function = compile("do\n var a = 1\n var b = 2\n print(a)\n b = a\nend\n");
    let expect = vec![
        CONSTANT, 0,           // a
        CONSTANT, 1,           // b
        GET_LOCAL, 1, PRINT,
        GET_LOCAL, 1, SET_LOCAL, 2, POP,
        POP, POP,              // b, then a
        NIL, RETURN,
    ];
    assert_eq!(function.chunk.code, expect);
}

#[test]
fn scope_exit_pops_in_reverse_and_restores_the_locals() {
    let mut compiler = Compiler::new();
    let modules = ModuleTable::new();
    compiler.begin_scope();
    compiler.compile_declare_var(&Variable::new("outer".to_string())).unwrap();
    let before = compiler.current.locals.len();
    compiler.begin_scope();
    for name in ["a", "b", "c"] {
        compiler.emit(Opcode::Nil);
        compiler.compile_declare_var(&Variable::new(name.to_string())).unwrap();
    }
    let names: Vec<&str> = compiler.current.locals.iter().map(|l| l.name.as_str()).collect();
    assert_eq!(names, vec!["", "outer", "a", "b", "c"]);
    let code_before = compiler.current.function.chunk.code.len();
    compiler.end_scope();
    // three locals were declared in the scope: three pops, and what is left
    // are the locals of before, none of them deeper than the scope around
    assert_eq!(
        compiler.current.function.chunk.code[code_before..],
        [POP, POP, POP]
    );
    assert_eq!(compiler.current.locals.len(), before);
    assert!(compiler
        .current
        .locals
        .iter()
        .all(|l| l.depth as isize <= compiler.current.scope_depth));
    let _ = modules;
}

#[test]
fn conditional_jumps_are_patched() {
    let function = compile("if x do\n print(1)\nelse\n print(2)\nend\n");
    let expect = vec![
        GET_GLOBAL, 0,
        JUMP_IF_FALSE, 0, 7, POP,  // to the pop before the second arm
        CONSTANT, 1, PRINT,
        JUMP, 0, 4,                // behind the second arm
        POP,
        CONSTANT, 2, PRINT,
        NIL, RETURN,
    ];
    assert_eq!(function.chunk.code, expect);
}

// The offsets at which instructions start, found by reading the code from
// its start.
fn boundaries(chunk: &Chunk) -> Vec<usize> {
    let instructions = disassemble(chunk);
    let mut starts: Vec<usize> = instructions.iter().map(|i| i.offset).collect();
    if let Some(last) = instructions.last() {
        starts.push(last.next);
    }
    starts
}

fn check_jumps(function: &GreenFunction) {
    let starts = boundaries(&function.chunk);
    // the whole code decodes
    assert_eq!(*starts.last().unwrap(), function.chunk.code.len());
    for instruction in disassemble(&function.chunk) {
        if let Operand::Jump(_, target) = instruction.operand {
            let target = target.unwrap();
            assert!(starts.contains(&target), "jump into an instruction");
        }
    }
    for constant in function.chunk.constants() {
        if let Value::Function(inner) = constant {
            check_jumps(inner);
        }
    }
}

#[test]
fn every_jump_lands_on_an_instruction() {
    let source = "\
var i = 0
while i < 10 do
 if i < 5 do
  print(i)
 else
  if i == 7 do
   print(0)
  end
 end
 i = i + 1
end
def f(n)
 while n > 0 do
  n = n - 1
 end
 return n
end
for k in 1 to 3 do
 print(f(k))
end
";
    check_jumps(&compile(source));
}

// The height of the stack behind each instruction, by the effect of each
// instruction on a machine that runs it.
fn height_after(function: &GreenFunction, start: i64) -> i64 {
    let mut height = start;
    for i in disassemble(&function.chunk) {
        let n = match i.operand {
            Operand::Byte(n) => n as i64,
            _ => 0,
        };
        height += match i.opcode {
            Opcode::Constant
            | Opcode::Nil
            | Opcode::GetGlobal
            | Opcode::GetLocal
            | Opcode::Closure
            | Opcode::Class => 1,
            Opcode::Add
            | Opcode::Subtract
            | Opcode::Multiply
            | Opcode::Divide
            | Opcode::Equal
            | Opcode::Greater
            | Opcode::Less
            | Opcode::Pop
            | Opcode::Print
            | Opcode::DefineGlobal
            | Opcode::Return
            | Opcode::IndexSubscript
            | Opcode::SetProperty => -1,
            Opcode::StoreSubscript => -2,
            Opcode::Call => -n,
            Opcode::NewArray => 1 - n,
            _ => 0,
        };
        assert!(height >= 0);
    }
    height
}

#[test]
fn straight_line_code_is_balanced() {
    // statements leave the height as it was: behind the implicit return
    // the script has nothing but itself (which the return took)
    let function = compile("var a = 1\nprint(a + 2 * 3)\na = [1, 2][0]\nf(1, 2, 3)\n");
    assert_eq!(height_after(&function, 1), 1);
    // an expression alone adds one value
    let mut compiler = Compiler::new();
    let expr = Expr::binary(BinaryExpr::new(number(1.0), number(2.0), BinaryOperator::Add));
    compiler.compile_value(&expr, &ModuleTable::new(), 0).unwrap();
    assert_eq!(height_after(&compiler.current.function, 1), 2);
    // and popped as a statement it adds none
    let mut compiler = Compiler::new();
    compiler.compile_expr(&expr, &ModuleTable::new(), 0).unwrap();
    assert_eq!(height_after(&compiler.current.function, 1), 1);
}

#[test]
fn functions_are_constants_of_the_enclosing_chunk() {
    let function = compile("def f(a, b)\n return a + b\nend\n");
    assert_eq!(
        function.chunk.code,
        vec![CLOSURE, 0, DEFINE_GLOBAL, 1, NIL, RETURN]
    );
    let Value::Function(f) = &function.chunk.constants()[0] else {
        panic!("the function is the first constant");
    };
    assert_eq!(*f.arity(), 2);
    assert_eq!(f.name, "f");
    // a is slot 1, b is slot 2; the body ends in a return of its own
    assert_eq!(f.chunk.code, vec![GET_LOCAL, 1, GET_LOCAL, 2, ADD, RETURN]);
    // a body that does not gets the implicit one
    let function = compile("def g()\n print(1)\nend\n");
    let Value::Function(g) = &function.chunk.constants()[0] else {
        panic!("the function is the first constant");
    };
    assert_eq!(g.chunk.code, vec![CONSTANT, 0, PRINT, NIL, RETURN]);
}

#[test]
fn calls_push_callee_then_arguments() {
    let function = compile("f(1, 2)\n");
    assert_eq!(
        function.chunk.code,
        vec![GET_GLOBAL, 0, CONSTANT, 1, CONSTANT, 2, CALL, 2, POP, NIL, RETURN]
    );
}

#[test]
fn while_loops_jump_back_to_the_condition() {
    let function = compile("while x do\nend\n");
    let expect = vec![
        GET_GLOBAL, 0,
        JUMP_IF_FALSE, 0, 4, POP,
        LOOP, 0, 9,
        POP,
        NIL, RETURN,
    ];
    assert_eq!(function.chunk.code, expect);
    let looping = disassemble_instruction(&function.chunk, 6).unwrap();
    assert_eq!(
        looping,
        Instruction {
            offset: 6,
            opcode: Opcode::Loop,
            operand: Operand::Jump(9, Some(0)),
            next: 9
        }
    );
}

#[test]
fn disassembler_stops_at_what_is_no_instruction() {
    let mut chunk = Chunk::new();
    chunk.write(Opcode::Nil, 1);
    chunk.write_byte(200);
    chunk.write(Opcode::Pop, 1);
    let instructions = disassemble(&chunk);
    assert_eq!(instructions.len(), 1);
    assert_eq!(instructions[0].opcode, Opcode::Nil);
    assert_eq!(disassemble_instruction(&chunk, 1), None);
    // an operand cut short
    let mut chunk = Chunk::new();
    chunk.write(Opcode::Jump, 1);
    chunk.write_byte(0);
    assert_eq!(disassemble_instruction(&chunk, 0), None);
    assert_eq!(disassemble_instruction(&chunk, 7), None);
}

fn block_of(exprs: Vec<Expr>) -> ModuleAst {
    ModuleAst::new(vec![Expr::block(BlockExpr::new(exprs))])
}

fn compile_ast(module: ModuleAst) -> Result<GreenFunction, CompileError> {
    Compiler::compile_module(module, &ModuleTable::new())
}

#[test]
fn too_many_constants() {
    // 256 literals fit, the 257th does not
    let literals = |n: usize| -> ModuleAst {
        ModuleAst::new((0..n).map(|_| Expr::literal(LiteralExpr::True)).collect())
    };
    assert!(compile_ast(literals(256)).is_ok());
    assert_eq!(
        compile_ast(literals(257)).unwrap_err(),
        CompileError::TooManyConstants
    );
}

#[test]
fn too_many_locals() {
    let declare = |n: usize| -> ModuleAst {
        block_of(
            (0..n)
                .map(|i| {
                    Expr::var_assign(VarAssignExpr::new(
                        Variable::new(format!("v{}", i)),
                        Expr::nil(),
                    ))
                })
                .collect(),
        )
    };
    // slot 0 is taken: 255 locals fit, the 256th does not
    assert!(compile_ast(declare(255)).is_ok());
    assert_eq!(
        compile_ast(declare(256)).unwrap_err(),
        CompileError::TooManyLocals
    );
}

#[test]
fn too_many_arguments_parameters_and_elements() {
    let f = || Expr::var_get(VarGetExpr::new(Variable::new("f".to_string())));
    let nils = |n: usize| -> Vec<Expr> { (0..n).map(|_| Expr::nil()).collect() };
    let call = |n: usize| ModuleAst::new(vec![Expr::new(ExprKind::Call(CallExpr::new(f(), nils(n))))]);
    assert!(compile_ast(call(255)).is_ok());
    assert_eq!(
        compile_ast(call(256)).unwrap_err(),
        CompileError::TooManyArguments
    );
    let array =
        |n: usize| ModuleAst::new(vec![Expr::new(ExprKind::Array(ArrayExpr::new(Some(nils(n)))))]);
    assert!(compile_ast(array(255)).is_ok());
    assert_eq!(
        compile_ast(array(256)).unwrap_err(),
        CompileError::TooManyElements
    );
    let declare = |n: usize| {
        ModuleAst::new(vec![Expr::new(ExprKind::Function(FunctionExpr::new(
            Variable::new("f".to_string()),
            FunctionDeclaration::new(
                (0..n).map(|i| Variable::new(format!("p{}", i))).collect(),
                BlockExpr::new(vec![]),
            ),
        )))])
    };
    assert!(compile_ast(declare(255)).is_ok());
    assert_eq!(
        compile_ast(declare(256)).unwrap_err(),
        CompileError::TooManyParameters
    );
    // the same parameter twice is a duplicate local
    let twice = ModuleAst::new(vec![Expr::new(ExprKind::Function(FunctionExpr::new(
        Variable::new("f".to_string()),
        FunctionDeclaration::new(
            vec![Variable::new("p".to_string()), Variable::new("p".to_string())],
            BlockExpr::new(vec![]),
        ),
    )))]);
    assert_eq!(compile_ast(twice).unwrap_err(), CompileError::DuplicateLocal);
}

#[test]
fn jump_too_large() {
    // each statement takes three bytes and its own constant: blocks of 200
    // statements in functions would need constants, so use nil, which
    // takes two bytes as a statement
    let body = |n: usize| -> Vec<Expr> { (0..n).map(|_| Expr::nil()).collect() };
    let conditional = |n: usize| {
        ModuleAst::new(vec![Expr::new(ExprKind::If(green::syntax::expr::IfExpr::new(
            Expr::nil(),
            Expr::sequence(green::syntax::expr::SequenceExpr::new(body(n))),
        )))])
    };
    // the jump spans the pop, the arm and the jump behind it: 2n + 4 bytes
    assert!(compile_ast(conditional(32765)).is_ok());
    assert_eq!(
        compile_ast(conditional(32766)).unwrap_err(),
        CompileError::JumpTooLarge
    );
}

#[test]
fn own_initializer() {
    let mut compiler = Compiler::new();
    compiler
        .current
        .locals_mut()
        .push(Local::new("x".to_string(), -1));
    assert_eq!(
        compiler.resolve_local(&"x".to_string()),
        Err(CompileError::OwnInitializer)
    );
    assert_eq!(compiler.resolve_local(&"y".to_string()), Ok(None));
    assert_eq!(compiler.resolve_local(&"".to_string()), Ok(Some(0)));
}

#[test]
fn resolve_finds_the_local_declared_last() {
    let mut compiler = Compiler::new();
    compiler.begin_scope();
    compiler.compile_declare_var(&Variable::new("x".to_string())).unwrap();
    compiler.begin_scope();
    compiler.compile_declare_var(&Variable::new("x".to_string())).unwrap();
    assert_eq!(compiler.resolve_local(&"x".to_string()), Ok(Some(2)));
    assert!(compiler.is_declared_in_scope(&"x".to_string()));
    compiler.end_scope();
    assert_eq!(compiler.resolve_local(&"x".to_string()), Ok(Some(1)));
}

#[test]
fn classes_are_declared() {
    let module = ModuleAst::new(vec![Expr::class(ClassExpr::new(Variable::new(
        "Point".to_string(),
    )))]);
    let function = compile_ast(module).unwrap();
    assert_eq!(
        function.chunk.code,
        vec![27, 0, DEFINE_GLOBAL, 1, NIL, RETURN]
    );
}

#[test]
fn chunk_appends_and_counts() {
    let mut chunk = Chunk::new();
    assert!(chunk.code().is_empty());
    chunk.write(Opcode::Constant, 7);
    chunk.write_byte(0);
    chunk.write(Opcode::Return, 9);
    assert_eq!(*chunk.code(), vec![CONSTANT, 0, RETURN]);
    // an operand belongs to the line of its opcode
    assert_eq!(chunk.lines, vec![7, 7, 9]);
    assert_eq!(chunk.add_constant(Value::Nil), Some(0));
    assert_eq!(chunk.add_constant(Value::True), Some(1));
    for _ in 2..256 {
        assert!(chunk.add_constant(Value::Nil).is_some());
    }
    assert_eq!(chunk.add_constant(Value::Nil), None);
    assert_eq!(chunk.constants().len(), 256);
    assert!(matches!(chunk.read_constant(1), Value::True));
    chunk.code_mut()[1] = 5;
    assert_eq!(chunk.code()[1], 5);
    *chunk.name_mut() = Some("main".to_string());
    assert_eq!(chunk.name.as_deref(), Some("main"));
}

#[test]
fn compiler_instance_starts_with_slot_zero() {
    let mut instance = CompilerInstance::new(GreenFunctionType::Function);
    assert_eq!(*instance.function_type(), GreenFunctionType::Function);
    assert_eq!(instance.locals().len(), 1);
    assert_eq!(instance.locals()[0].name(), "");
    assert_eq!(*instance.locals()[0].depth(), 0);
    assert_eq!(*instance.scope_depth(), 0);
    *instance.scope_depth_mut() += 1;
    assert_eq!(*instance.scope_depth(), 1);
    *instance.function_mut().arity_mut() = 3;
    assert_eq!(*instance.function().arity(), 3);
    *instance.function_mut().name_mut() = "f".to_string();
    assert_eq!(instance.function().name, "f");
    let mut local = Local::new("x".to_string(), 2);
    *local.depth_mut() = 5;
    assert_eq!(*local.depth(), 5);
    assert!(instance.function().chunk().code().is_empty());
}

#[test]
fn module_table_finds_the_first_of_a_name() {
    let mut table = ModuleTable::new();
    assert_eq!(
        get_module_ast(&table, &"a".to_string()).unwrap_err(),
        ImportModuleError::FailedImport
    );
    table.insert("a".to_string(), ModuleAst::new(vec![Expr::nil()]));
    table.insert("b".to_string(), ModuleAst::new(vec![]));
    table.insert("a".to_string(), ModuleAst::new(vec![]));
    assert_eq!(get_module_ast(&table, &"a".to_string()).unwrap().exprs().len(), 1);
    assert_eq!(get_module_ast(&table, &"b".to_string()).unwrap().exprs().len(), 0);
    assert!(get_module_ast(&table, &"c".to_string()).is_err());
}

#[test]
fn value_kinds() {
    assert!(Value::Number(0).is_truthy());
    assert!(Value::string(String::new()).is_truthy());
    assert!(!Value::Nil.is_truthy());
    assert!(!Value::False.is_truthy());
    assert!(Value::True.is_truthy());
    assert!(matches!(Value::from_bool(true), Value::True));
    assert!(matches!(Value::from_bool(false), Value::False));
    assert_eq!(Value::string("a".to_string()).as_string(), "a");
    assert_eq!(Value::Number(7).as_number(), 7);
    assert!(Value::Instance(3).is_instance());
    assert!(!Value::Nil.is_instance());
    assert!(Value::Number(1).is_number());
    assert_eq!(Value::Instance(3).as_instance().unwrap(), 3);
    assert!(Value::Nil.as_instance().is_err());
    let array = Value::Array(vec![Value::Number(1), Value::Array(vec![Value::True])]);
    let copy = array.duplicate();
    let items = copy.as_array();
    assert_eq!(items.len(), 2);
    assert!(matches!(items[0], Value::Number(1)));
    assert!(matches!(&items[1], Value::Array(inner) if matches!(inner[0], Value::True)));
}
