use green::compiler::compiler::Compiler;
use green::compiler::module_resolver::ModuleTable;
use green::compiler::opcode::Opcode;
use green::compiler::value::Value;
use green::error::CompileError;
use green::syntax::parser::GreenParser;
use green::vm::errors::RuntimeError;
use green::vm::vm::Action;
use green::vm::VM;

fn bits(text: &str) -> u64 {
    text.parse::<f64>().unwrap().to_bits()
}

// What the embedding program does for the machine: the arithmetic.
fn compute(op: Opcode, a: u64, b: u64) -> Value {
    let (x, y) = (f64::from_bits(a), f64::from_bits(b));
    match op {
        Opcode::Add => Value::Number((x + y).to_bits()),
        Opcode::Subtract => Value::Number((x - y).to_bits()),
        Opcode::Multiply => Value::Number((x * y).to_bits()),
        Opcode::Divide => Value::Number((x / y).to_bits()),
        Opcode::Equal => Value::from_bool(x == y),
        Opcode::Greater => Value::from_bool(x > y),
        Opcode::Less => Value::from_bool(x < y),
        _ => unreachable!(),
    }
}

fn show(value: &Value) -> String {
    match value {
        Value::Number(n) => format!("{}", f64::from_bits(*n)),
        Value::True => "true".to_string(),
        Value::False => "false".to_string(),
        Value::Nil => "nil".to_string(),
        Value::String(s) => s.clone(),
        Value::Array(a) => format!("{:?}", a.iter().map(show).collect::<Vec<_>>()),
        Value::Instance(_) => "instance".to_string(),
        _ => "object".to_string(),
    }
}

// Runs the machine to the end and returns what it printed.
fn drive(vm: &mut VM, first: Result<Action, RuntimeError>) -> Result<Vec<String>, RuntimeError> {
    let mut printed = vec![];
    let mut action = first?;
    loop {
        action = match action {
            Action::Halt => return Ok(printed),
            Action::Continue => vm.run(1000)?,
            Action::Print(value) => {
                printed.push(show(&value));
                vm.run(1000)?
            }
            Action::Binary(op, a, b) => vm.resume(compute(op, a, b))?,
            Action::Negate(a) => vm.resume(Value::Number((-f64::from_bits(a)).to_bits()))?,
            Action::Index(i) => vm.resume_index(f64::from_bits(i) as usize)?,
        };
    }
}

fn run(source: &str) -> Result<Vec<String>, RuntimeError> {
    let module = GreenParser::parse(source, &bits).unwrap();
    let function = Compiler::compile_module(module, &ModuleTable::new()).unwrap();
    let mut vm = VM::new();
    let first = vm.interpret(function, 1000);
    let printed = drive(&mut vm, first)?;
    // the script has returned: its window is gone but for the result
    assert_eq!(vm.stack.len(), 1);
    assert!(vm.frames.is_empty());
    Ok(printed)
}

fn rejection(source: &str) -> CompileError {
    let module = GreenParser::parse(source, &bits).unwrap();
    Compiler::compile_module(module, &ModuleTable::new()).unwrap_err()
}

#[test]
fn round_trip_prints_the_variable() {
    assert_eq!(run("var x = 5\nprint(x)\n").unwrap(), vec!["5"]);
}

#[test]
fn arithmetic_on_a_boolean_is_a_type_error() {
    let error = run("true + 1\n").unwrap_err();
    assert!(matches!(error, RuntimeError::ArgumentTypes));
    // whichever operand is no number, and whatever the operator
    for source in ["1 + true\n", "\"a\" * 2\n", "1 < \"b\"\n", "true == true\n", "-true\n"] {
        assert!(matches!(
            run(source).unwrap_err(),
            RuntimeError::ArgumentTypes
        ));
    }
}

#[test]
fn call_adds_its_arguments() {
    let source = "def f(a, b)\n return a + b\nend\nprint(f(2, 3))\n";
    assert_eq!(run(source).unwrap(), vec!["5"]);
}

#[test]
fn call_with_wrong_argument_count_fails_before_the_body_runs() {
    // the body would print: nothing is printed, the call fails
    let source = "def f(a, b)\n print(a)\n return a + b\nend\nprint(f(2))\n";
    let module = GreenParser::parse(source, &bits).unwrap();
    let function = Compiler::compile_module(module, &ModuleTable::new()).unwrap();
    let mut vm = VM::new();
    let mut printed = vec![];
    let mut action = vm.interpret(function, 1000);
    let error = loop {
        match action {
            Ok(Action::Print(v)) => {
                printed.push(show(&v));
                action = vm.run(1000);
            }
            Ok(Action::Continue) => action = vm.run(1000),
            Ok(Action::Halt) => panic!("the call must fail"),
            Ok(_) => panic!("no arithmetic is reached"),
            Err(e) => break e,
        }
    };
    assert!(matches!(error, RuntimeError::ArityMismatch(2, 1)));
    assert!(printed.is_empty());
    // no frame was pushed for the callee
    assert_eq!(vm.frames.len(), 1);
}

#[test]
fn global_is_reassigned() {
    assert_eq!(run("var x = 1\nx = 2\nprint(x)\n").unwrap(), vec!["2"]);
}

#[test]
fn assigning_an_undeclared_global_is_an_error() {
    let error = run("y = 1\n").unwrap_err();
    match error {
        RuntimeError::UndefinedGlobal(name) => assert_eq!(name, "y"),
        other => panic!("{:?}", other),
    }
}

#[test]
fn reading_an_undeclared_global_is_an_error() {
    let error = run("print(z)\n").unwrap_err();
    match error {
        RuntimeError::UndefinedGlobal(name) => assert_eq!(name, "z"),
        other => panic!("{:?}", other),
    }
}

#[test]
fn calls_have_windows_of_their_own() {
    // each call of `bump` sets its own local; the caller's local, and the
    // locals of the call that is still active, stay as they are
    let source = "\
def bump(n)
 var mine = n
 mine = mine + 1
 return mine
end
def twice(n)
 var first = bump(n)
 var second = bump(first)
 print(first)
 print(second)
 return n
end
print(twice(1))
";
    assert_eq!(run(source).unwrap(), vec!["2", "3", "1"]);
}

#[test]
fn recursion_keeps_each_calls_locals() {
    let source = "\
def count(n)
 var here = n
 if n > 0 do
  count(n - 1)
 end
 print(here)
 return here
end
count(2)
";
    assert_eq!(run(source).unwrap(), vec!["0", "1", "2"]);
}

#[test]
fn conditionals_take_the_arm_that_the_condition_names() {
    let source = "\
if 1 < 2 do
 print(1)
else
 print(2)
end
if 2 < 1 do
 print(3)
else
 print(4)
end
if 2 < 1 do
 print(5)
end
print(6)
";
    assert_eq!(run(source).unwrap(), vec!["1", "4", "6"]);
}

#[test]
fn false_and_nil_are_falsy_and_nothing_else_is() {
    let source = "\
var n
if n do
 print(1)
else
 print(2)
end
if false do
 print(3)
else
 print(4)
end
if 0 do
 print(5)
end
if \"\" do
 print(6)
end
";
    assert_eq!(run(source).unwrap(), vec!["2", "4", "5", "6"]);
}

#[test]
fn loops_run_while_the_condition_holds() {
    let source = "var x = 0\nwhile x < 3 do\n print(x)\n x = x + 1\nend\nprint(x)\n";
    assert_eq!(run(source).unwrap(), vec!["0", "1", "2", "3"]);
}

#[test]
fn for_loops_count() {
    assert_eq!(
        run("for i in 1 to 4 do\n print(i)\nend\n").unwrap(),
        vec!["1", "2", "3"]
    );
    assert_eq!(
        run("for i in 9 downTo 1 step 4 do\n print(i)\nend\n").unwrap(),
        vec!["9", "5"]
    );
}

#[test]
fn block_locals_shadow_and_end_with_their_block() {
    let source = "\
var x = 1
do
 var x = 2
 print(x)
 do
  var x = 3
  print(x)
 end
 print(x)
end
print(x)
";
    assert_eq!(run(source).unwrap(), vec!["2", "3", "2", "1"]);
}

#[test]
fn comparison_operators() {
    let source = "\
print(1 <= 1)
print(1 >= 2)
print(1 != 2)
print(2 == 2)
print(!(1 < 2))
print(-(1 + 2))
print(7 / 2)
print(2 * 3 - 1)
";
    assert_eq!(
        run(source).unwrap(),
        vec!["true", "false", "true", "true", "false", "-3", "3.5", "5"]
    );
}

#[test]
fn arrays_are_built_read_and_written() {
    let source = "\
var a = [1, 2, 3]
print(a[1])
print(a[0] = 9)
print([])
";
    assert_eq!(
        run(source).unwrap(),
        vec!["2", "[\"9\", \"2\", \"3\"]", "[]"]
    );
}

#[test]
fn array_index_beyond_the_end_is_an_error() {
    let error = run("var a = [1]\nprint(a[1])\n").unwrap_err();
    assert!(matches!(error, RuntimeError::BadStackIndex(1, 1)));
    let error = run("print(1[0])\n").unwrap_err();
    assert!(matches!(error, RuntimeError::ArgumentTypes));
}

#[test]
fn calling_what_is_no_function_is_a_type_error() {
    let error = run("var x = 1\nx()\n").unwrap_err();
    assert!(matches!(error, RuntimeError::ArgumentTypes));
}

#[test]
fn property_of_what_is_no_instance_is_a_type_error() {
    let error = run("var x = 1\nprint(x.y)\n").unwrap_err();
    assert!(matches!(error, RuntimeError::ArgumentTypes));
}

#[test]
fn strings_are_values() {
    assert_eq!(
        run("var s = \"hello\"\nprint(s)\n").unwrap(),
        vec!["hello"]
    );
}

#[test]
fn return_outside_a_function_is_a_rejection() {
    assert_eq!(
        rejection("return 1\n"),
        CompileError::ReturnOutsideFunction
    );
}

#[test]
fn duplicate_local_is_a_rejection() {
    assert_eq!(
        rejection("do\n var x = 1\n var x = 2\nend\n"),
        CompileError::DuplicateLocal
    );
    // the same name in an inner scope is another variable
    assert_eq!(
        run("do\n var x = 1\n do\n  var x = 2\n end\nend\n").unwrap(),
        Vec::<String>::new()
    );
    // and so is the same name twice at the top level: a global is redefined
    assert_eq!(
        run("var x = 1\nvar x = 2\nprint(x)\n").unwrap(),
        vec!["2"]
    );
}

#[test]
fn statement_in_place_of_a_value_is_a_rejection() {
    assert_eq!(
        rejection("def f()\n return print(1)\nend\n"),
        CompileError::ExpectedExpression
    );
}

#[test]
fn unresolved_import_is_a_rejection() {
    assert_eq!(rejection("import util\n"), CompileError::UnresolvedImport);
}

#[test]
fn imports_are_compiled_in_place() {
    let util = GreenParser::parse("var shared = 7\n", &bits).unwrap();
    let mut modules = ModuleTable::new();
    modules.insert("util".to_string(), util);
    let module = GreenParser::parse("import util\nprint(shared)\n", &bits).unwrap();
    let function = Compiler::compile_module(module, &modules).unwrap();
    let mut vm = VM::new();
    let first = vm.interpret(function, 1000);
    assert_eq!(drive(&mut vm, first).unwrap(), vec!["7"]);
}

#[test]
fn import_cycles_are_cut() {
    let looping = GreenParser::parse("import me\n", &bits).unwrap();
    let mut modules = ModuleTable::new();
    modules.insert("me".to_string(), looping);
    let module = GreenParser::parse("import me\n", &bits).unwrap();
    assert_eq!(
        Compiler::compile_module(module, &modules).unwrap_err(),
        CompileError::ImportTooDeep
    );
}

#[test]
fn the_budget_bounds_a_run() {
    let module = GreenParser::parse("while true do\nend\n", &bits).unwrap();
    let function = Compiler::compile_module(module, &ModuleTable::new()).unwrap();
    let mut vm = VM::new();
    // an endless loop: every budget runs out, and the machine can go on
    assert!(matches!(vm.interpret(function, 500), Ok(Action::Continue)));
    assert!(matches!(vm.run(500), Ok(Action::Continue)));
    assert_eq!(vm.frames.len(), 1);
}

#[test]
fn what_is_declared_is_what_is_printed() {
    for (name, number) in [("x", "5"), ("total", "0.25"), ("λ", "1000")] {
        let source = format!("var {} = {}\nprint({})\n", name, number, name);
        let module = GreenParser::parse(&source, &bits).unwrap();
        let function = Compiler::compile_module(module, &ModuleTable::new()).unwrap();
        let mut vm = VM::new();
        // four instructions: the constant, the definition, the read, the
        // request
        match vm.interpret(function, 4) {
            Ok(Action::Print(Value::Number(n))) => assert_eq!(n, bits(number)),
            other => panic!("{:?}", other),
        }
        assert_eq!(vm.stack.len(), 1);
        assert_eq!(vm.frames.len(), 1);
        assert_eq!(vm.frames[0].ip, 7);
        assert_eq!(vm.globals.len(), 1);
        // with a smaller budget the machine has not come that far
        let module = GreenParser::parse(&source, &bits).unwrap();
        let function = Compiler::compile_module(module, &ModuleTable::new()).unwrap();
        let mut vm = VM::new();
        assert!(matches!(vm.interpret(function, 3), Ok(Action::Continue)));
        assert_eq!(vm.frames[0].ip, 6);
    }
}
