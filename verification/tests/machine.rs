use green::compiler::chunk::Chunk;
use green::compiler::object::{Class, GreenClosure, GreenFunction, Instance};
use green::compiler::opcode::Opcode;
use green::compiler::value::Value;
use green::syntax::lexer::Lexer;
use green::syntax::peek::PeekWithNext;
use green::syntax::token::TokenType;
use green::text::{classify, is_digit, str_eq, CharClass, Cursor};
use green::type_system::ast::Syntax;
use green::type_system::repl::trim_newline;
use green::vm::callframe::CallFrame;
use green::vm::errors::RuntimeError;
use green::vm::vm::Action;
use green::vm::VM;
use std::rc::Rc;

fn function_of(build: impl FnOnce(&mut Chunk)) -> GreenFunction {
    let mut function = GreenFunction::new();
    build(function.chunk_mut());
    function
}

fn emit(chunk: &mut Chunk, opcode: Opcode, operands: &[u8]) {
    chunk.write(opcode, 1);
    for byte in operands {
        chunk.write_byte(*byte);
    }
}

#[test]
fn pop_on_an_empty_window_is_stack_empty() {
    let mut vm = VM::new();
    // the script itself is the one value of the window: the second pop
    // finds none
    let function = function_of(|c| {
        emit(c, Opcode::Pop, &[]);
        emit(c, Opcode::Pop, &[]);
    });
    assert!(matches!(
        vm.interpret(function, 10),
        Err(RuntimeError::StackEmpty)
    ));
    assert!(matches!(VM::new().pop(), Err(RuntimeError::StackEmpty)));
    assert!(matches!(VM::new().peek(), Err(RuntimeError::StackEmpty)));
}

#[test]
fn a_call_cannot_pop_its_callers_values() {
    // the callee pops twice: its window holds only itself
    let callee = function_of(|c| {
        emit(c, Opcode::Pop, &[]);
        emit(c, Opcode::Pop, &[]);
    });
    let function = function_of(|c| {
        let index = c.add_constant(Value::Function(Rc::new(callee))).unwrap();
        emit(c, Opcode::Nil, &[]);
        emit(c, Opcode::Closure, &[index]);
        emit(c, Opcode::Call, &[0]);
    });
    let mut vm = VM::new();
    assert!(matches!(
        vm.interpret(function, 10),
        Err(RuntimeError::StackEmpty)
    ));
    // the caller's values are still there
    assert_eq!(vm.stack.len(), 2);
}

#[test]
fn a_slot_beyond_the_stack_is_a_bad_index() {
    let function = function_of(|c| emit(c, Opcode::GetLocal, &[3]));
    assert!(matches!(
        VM::new().interpret(function, 10),
        Err(RuntimeError::BadStackIndex(3, 1))
    ));
    let function = function_of(|c| emit(c, Opcode::SetLocal, &[9]));
    assert!(matches!(
        VM::new().interpret(function, 10),
        Err(RuntimeError::BadStackIndex(9, 1))
    ));
}

#[test]
fn what_is_no_instruction_is_invalid_bytecode() {
    let function = function_of(|c| {
        emit(c, Opcode::Nil, &[]);
        c.write_byte(99);
    });
    assert!(matches!(
        VM::new().interpret(function, 10),
        Err(RuntimeError::InvalidBytecode(1))
    ));
    // an operand cut short
    let function = function_of(|c| emit(c, Opcode::Constant, &[]));
    assert!(matches!(
        VM::new().interpret(function, 10),
        Err(RuntimeError::InvalidBytecode(0))
    ));
    // a constant that is not there
    let function = function_of(|c| emit(c, Opcode::Constant, &[4]));
    assert!(matches!(
        VM::new().interpret(function, 10),
        Err(RuntimeError::InvalidBytecode(0))
    ));
    // running off the end
    let function = function_of(|c| emit(c, Opcode::Nil, &[]));
    assert!(matches!(
        VM::new().interpret(function, 10),
        Err(RuntimeError::InvalidBytecode(1))
    ));
    // a jump that leaves the code
    let function = function_of(|c| emit(c, Opcode::Jump, &[0, 1]));
    assert!(matches!(
        VM::new().interpret(function, 10),
        Err(RuntimeError::InvalidBytecode(0))
    ));
    let function = function_of(|c| emit(c, Opcode::Loop, &[0, 4]));
    assert!(matches!(
        VM::new().interpret(function, 10),
        Err(RuntimeError::InvalidBytecode(0))
    ));
}

#[test]
fn return_without_a_call_is_return_from_top_level() {
    let mut vm = VM::new();
    assert!(matches!(vm.ret(), Err(RuntimeError::ReturnFromTopLevel)));
    // a machine without a call has nothing to do
    assert!(matches!(vm.step(), Ok(Action::Halt)));
    assert!(matches!(vm.run(5), Ok(Action::Halt)));
}

#[test]
fn answers_must_fit_the_question() {
    let arithmetic = || {
        function_of(|c| {
            let one = c.add_constant(Value::Number(1)).unwrap();
            emit(c, Opcode::Constant, &[one]);
            emit(c, Opcode::Constant, &[one]);
            emit(c, Opcode::Add, &[]);
        })
    };
    let mut vm = VM::new();
    assert!(matches!(
        vm.interpret(arithmetic(), 10),
        Ok(Action::Binary(Opcode::Add, 1, 1))
    ));
    // asking again changes nothing
    assert!(matches!(vm.step(), Ok(Action::Binary(Opcode::Add, 1, 1))));
    assert_eq!(vm.stack.len(), 3);
    // a boolean is no answer to an addition
    assert!(matches!(
        vm.resume(Value::True),
        Err(RuntimeError::ArgumentTypes)
    ));
    let mut vm = VM::new();
    vm.interpret(arithmetic(), 10).unwrap();
    assert!(matches!(vm.resume(Value::Number(2)), Ok(Action::Continue)));
    assert_eq!(vm.stack.len(), 2);
    assert!(matches!(vm.stack[1], Value::Number(2)));
    // nothing is asked now
    assert!(matches!(
        vm.resume(Value::Number(2)),
        Err(RuntimeError::InvalidBytecode(5))
    ));
    assert!(matches!(
        vm.resume_index(0),
        Err(RuntimeError::InvalidBytecode(5))
    ));
    // a number is no answer to a comparison
    let comparison = function_of(|c| {
        let one = c.add_constant(Value::Number(1)).unwrap();
        emit(c, Opcode::Constant, &[one]);
        emit(c, Opcode::Constant, &[one]);
        emit(c, Opcode::Less, &[]);
    });
    let mut vm = VM::new();
    vm.interpret(comparison, 10).unwrap();
    assert!(matches!(
        vm.resume(Value::Number(0)),
        Err(RuntimeError::ArgumentTypes)
    ));
}

#[test]
fn instances_have_fields() {
    let function = function_of(|c| {
        let point = c.add_constant(Value::String("Point".to_string())).unwrap();
        let x = c.add_constant(Value::String("x".to_string())).unwrap();
        let seven = c.add_constant(Value::Number(7)).unwrap();
        emit(c, Opcode::Class, &[point]);
        emit(c, Opcode::Call, &[0]);
        emit(c, Opcode::DefineGlobal, &[point]);
        emit(c, Opcode::GetGlobal, &[point]);
        emit(c, Opcode::Constant, &[seven]);
        emit(c, Opcode::SetProperty, &[x]);
        emit(c, Opcode::Print, &[]);
        emit(c, Opcode::GetGlobal, &[point]);
        emit(c, Opcode::GetProperty, &[x]);
        emit(c, Opcode::Print, &[]);
        emit(c, Opcode::GetGlobal, &[point]);
        emit(c, Opcode::GetProperty, &[point]);
    });
    let mut vm = VM::new();
    assert!(matches!(
        vm.interpret(function, 100),
        Ok(Action::Print(Value::Number(7)))
    ));
    assert!(matches!(vm.run(100), Ok(Action::Print(Value::Number(7)))));
    match vm.run(100) {
        Err(RuntimeError::UndefinedProperty(name)) => assert_eq!(name, "Point"),
        other => panic!("{:?}", other),
    }
    assert_eq!(vm.heap.len(), 1);
    assert_eq!(vm.heap[0].class.name, "Point");
}

#[test]
fn instance_properties() {
    let mut instance = Instance::new(Rc::new(Class::new("A".to_string())));
    assert!(instance.get_property("x").is_none());
    instance.set_property("x", Value::Number(1));
    instance.set_property("x", Value::Number(2));
    assert!(matches!(instance.get_property("x"), Some(Value::Number(2))));
    let mut vm = VM::new();
    assert_eq!(vm.allocate(instance), 0);
    assert_eq!(
        vm.allocate(Instance::new(Rc::new(Class::new("B".to_string())))),
        1
    );
}

#[test]
fn call_frames() {
    let closure = Rc::new(GreenClosure::new(Rc::new(GreenFunction::new())));
    let mut frame = CallFrame::new(closure, 4);
    assert_eq!(*frame.ip(), 0);
    assert_eq!(*frame.stack_start(), 4);
    *frame.ip_mut() += 3;
    assert_eq!(*frame.ip(), 3);
    assert_eq!(*frame.closure().function.arity(), 0);
    let other = Rc::new(GreenClosure::new(Rc::new(function_of(|c| {
        emit(c, Opcode::Nil, &[])
    }))));
    *frame.closure_mut() = other;
    assert_eq!(frame.closure().function.chunk.code.len(), 1);
}

#[test]
fn values_are_shared_not_copied() {
    // a function value that is read twice is one function
    let inner = Rc::new(GreenFunction::new());
    let value = Value::Function(inner.clone());
    let copy = value.duplicate();
    let Value::Function(shared) = copy else {
        panic!("a function stays a function");
    };
    assert!(Rc::ptr_eq(&inner, &shared));
    let class = Value::Class(Rc::new(Class::new("C".to_string())));
    let (Value::Class(a), Value::Class(b)) = (class.duplicate(), class) else {
        panic!("a class stays a class");
    };
    assert!(Rc::ptr_eq(&a, &b));
    let closure = Value::Closure(Rc::new(GreenClosure::new(inner)));
    let (Value::Closure(a), Value::Closure(b)) = (closure.duplicate(), closure) else {
        panic!("a closure stays a closure");
    };
    assert!(Rc::ptr_eq(&a, &b));
}

#[test]
fn peek_with_next() {
    let mut p = PeekWithNext::new(vec![1, 2, 3]);
    assert_eq!(p.peek(), Some(&1));
    assert_eq!(p.peek_next(), Some(&2));
    assert_eq!(p.next(), Some(1));
    assert_eq!(p.next(), Some(2));
    assert_eq!(p.peek(), Some(&3));
    assert_eq!(p.peek_next(), None);
    assert_eq!(p.next(), Some(3));
    assert_eq!(p.peek(), None);
    assert_eq!(p.next(), None);
}

#[test]
fn cursor_reads_characters_and_counts_lines() {
    let mut cursor = Cursor::new("ab \n cd");
    assert_eq!(cursor.peek(), Some('a'));
    assert_eq!(cursor.peek_next(), Some('b'));
    assert!(cursor.match_next('a'));
    assert!(!cursor.match_next('b'));
    assert_eq!(cursor.advance_while(CharClass::Alphanumeric), 2);
    assert_eq!(cursor.token_contents(0), "ab");
    assert_eq!(cursor.advance_while(CharClass::Whitespace), 3);
    assert_eq!(cursor.line, 2);
    // the text between, without the whitespace at its end
    assert_eq!(cursor.token_contents(0), "ab");
    assert_eq!(cursor.advance(), Some((5, 'c')));
    assert_eq!(cursor.advance_while(CharClass::Not('x')), 1);
    assert!(cursor.is_at_end());
    assert_eq!(cursor.advance(), None);
    assert!(!cursor.match_next('a'));
    assert_eq!(cursor.token_contents(5), "cd");
    let cursor = {
        let mut c = Cursor::new("\"\"a\"");
        c.advance_while(CharClass::Not(' '));
        c
    };
    assert_eq!(cursor.token_contents_without(0, '"'), "a");
}

#[test]
fn character_classes_follow_unicode() {
    // letters of any script are letters: an identifier may be written in
    // Greek, and a digit of another script continues it
    let tokens = Lexer::parse("λx٣ \u{2003}y").unwrap();
    assert_eq!(tokens.len(), 2);
    assert_eq!(tokens[0].source, "λx٣");
    assert_eq!(tokens[0].token_type, TokenType::Identifier);
    // the em space between is whitespace
    assert_eq!(tokens[1].source, "y");
    // a digit of another script starts no number and no word
    assert!(Lexer::parse("٣").is_err());
    assert!(CharClass::Whitespace.test('\t', classify('\t')));
    assert!(!CharClass::Whitespace.test('a', classify('a')));
    assert!(CharClass::Alphanumeric.test('é', classify('é')));
    assert!(!CharClass::Alphanumeric.test('-', classify('-')));
    assert!(CharClass::Blank.test(' ', classify(' ')));
    assert!(!CharClass::Blank.test('\n', classify('\n')));
    assert!(CharClass::Digit.test('7', classify('7')));
    assert!(!CharClass::Digit.test('a', classify('a')));
    assert!(is_digit('0') && is_digit('9') && !is_digit('/') && !is_digit(':'));
    assert!(str_eq("abc", "abc") && !str_eq("abc", "abd") && !str_eq("ab", "abc"));
}

#[test]
fn trim_newline_takes_one_line_break() {
    assert_eq!(trim_newline("abc\n"), "abc");
    assert_eq!(trim_newline("abc\r\n"), "abc");
    assert_eq!(trim_newline("abc"), "abc");
    assert_eq!(trim_newline("abc\n\n"), "abc\n");
    assert_eq!(trim_newline("abc\r"), "abc\r");
    assert_eq!(trim_newline("\n"), "");
    assert_eq!(trim_newline(""), "");
    assert_eq!(trim_newline("\r\r\n"), "\r");
}

#[test]
fn lambda_terms_compare() {
    let id = |v: &str| Syntax::Lambda {
        v: v.to_string(),
        body: Box::new(Syntax::Identifier {
            name: v.to_string(),
        }),
    };
    assert_eq!(id("x"), id("x"));
    assert_ne!(id("x"), id("y"));
}
