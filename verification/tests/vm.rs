use green::compiler::object::GreenFunction;
use green::compiler::opcode::Opcode;
use green::compiler::value::Value;
use green::vm::vm::Action;
use green::vm::VM;

#[test]
fn vm_it_works() {
    let mut vm = VM::new();

    let mut function = GreenFunction::new();
    let chunk = function.chunk_mut();

    let name = chunk.add_constant(Value::String("Point".to_string())).unwrap();
    chunk.write(Opcode::Class, 0);
    chunk.write_byte(name);
    let name = chunk.add_constant(Value::String("Point".to_string())).unwrap();
    chunk.write(Opcode::DefineGlobal, 0);
    chunk.write_byte(name);
    chunk.write(Opcode::Nil, 0);
    chunk.write(Opcode::Return, 0);

    let action = vm.interpret(function, 1000).unwrap();
    assert!(matches!(action, Action::Halt));
    assert!(vm.frames.is_empty());
    assert!(vm.globals.contains_key("Point"));
}
