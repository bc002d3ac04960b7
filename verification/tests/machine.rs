use fvm::bytecode::{get_bytecode, Bytecode};
use fvm::components::bytecode::get_bytecode as get_component_bytecode;
use fvm::components::bytecode::Bytecode as ComponentBytecode;
use fvm::components::error::Error as ComponentsError;
use fvm::error::Error;
use fvm::stack::{Stack, StackItem};
use fvm::string_pool::StringPool;
use fvm::virtual_machine::{IP, VM};
use fvm::vm::VM as CompactVM;

#[test]
fn stack_push_pop() {
    let mut s = Stack::new();
    assert_eq!(s.get_size(), 0);
    s.push(StackItem::I32(-7));
    s.push(StackItem::String(3));
    assert_eq!(s.get_size(), 2);
    assert_eq!(s.pop(), Some(StackItem::String(3)));
    assert_eq!(s.pop(), Some(StackItem::I32(-7)));
    assert_eq!(s.pop(), None);
}

#[test]
fn stack_clear() {
    let mut s = Stack::new();
    s.push(StackItem::I32(1));
    s.push(StackItem::I32(2));
    s.clear();
    assert_eq!(s.get_size(), 0);
    assert_eq!(s.pop(), None);
}

#[test]
fn string_pool_interns_each_string_once() {
    let mut p = StringPool::new();
    let a = p.intern("alpha");
    let b = p.intern("beta");
    let a2 = p.intern("alpha");
    assert_eq!(a, 0);
    assert_eq!(b, 1);
    assert_eq!(a2, a);
    assert_eq!(p.get_string(a), "alpha");
    assert_eq!(p.get_string(b), "beta");
}

#[test]
fn string_pool_clear() {
    let mut p = StringPool::new();
    p.intern("alpha");
    p.clear();
    assert_eq!(p.intern("beta"), 0);
}

#[test]
fn bytecode_decoding() {
    assert_eq!(get_bytecode(0x00), Ok(Bytecode::exit));
    assert_eq!(get_bytecode(0x03), Ok(Bytecode::ldd));
    assert_eq!(get_bytecode(0xFE), Ok(Bytecode::nop));
    assert_eq!(get_bytecode(0x06), Err(Error::InvalidBytecode));
}

#[test]
fn component_bytecode_decoding() {
    assert_eq!(get_component_bytecode(0x04), Ok(ComponentBytecode::pushs));
    assert_eq!(
        get_component_bytecode(0x01),
        Err(ComponentsError::InvalidBytecode)
    );
}

#[test]
fn compact_vm_registers() {
    let mut vm = CompactVM::new();
    assert_eq!(vm.get_register(0), 0);
    vm.set_register(2, -99);
    assert_eq!(vm.get_register(2), -99);
    assert_eq!(vm.get_register(1), 0);
}

#[test]
fn vm_registers_and_arithmetic() {
    let program = [0x00u8];
    let mut vm = VM::new(&program);
    assert_eq!(vm.get_register(IP), 0);
    vm.set_register(4, 10);
    vm.add_i64_to_register(4, -3);
    assert_eq!(vm.get_register(4), 7);
    vm.clear_registers();
    assert_eq!(vm.get_register(4), 0);
}

#[test]
fn vm_reads_program_bytes() {
    let program = [0x05u8, 0x11, 0x22, 0x33, 0x44];
    let mut vm = VM::new(&program);
    assert_eq!(vm.get_bytecode().unwrap(), Bytecode::print);
    assert_eq!(vm.next_byte(), 0x11);
    assert_eq!(vm.next_n_bytes(3), vec![0x22, 0x33, 0x44]);
    assert_eq!(vm.get_register(IP), 4);
}

#[test]
fn vm_rejects_invalid_bytecode() {
    let program = [0x6Au8];
    let mut vm = VM::new(&program);
    assert_eq!(vm.get_bytecode(), Err(Error::InvalidBytecode));
}

#[test]
fn vm_stack_and_strings() {
    let program = [0x00u8];
    let mut vm = VM::new(&program);
    vm.push(StackItem::I32(5));
    vm.push_string("hello");
    match vm.pop() {
        Some(StackItem::String(i)) => {
            assert_eq!(vm.get_string(i), "hello");
        }
        other => panic!("expected a string index, got {:?}", other),
    }
    assert_eq!(vm.pop(), Some(StackItem::I32(5)));
}

#[test]
fn vm_panic_resets_the_machine() {
    let program = [0x00u8];
    let mut vm = VM::new(&program);
    vm.set_register(3, 42);
    vm.push(StackItem::I32(1));
    let (err, msg) = vm.vm_panic(Error::InvalidBytecode, format!("bad byte"));
    assert_eq!(err, Error::InvalidBytecode);
    assert_eq!(msg, "bad byte");
    assert_eq!(vm.get_register(3), 0);
    assert_eq!(vm.pop(), None);
}
