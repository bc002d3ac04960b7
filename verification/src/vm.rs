use vstd::prelude::*;

verus! {

/// Number of registers the compact machine has.
pub const REGISTER_NUMBER: usize = 4;

/// Capacity reserved up front for the stack.
pub const STACK_SIZE: usize = 255;

/// Capacity reserved up front for the string pool.
pub const STRING_POOL_SIZE: usize = 255;

/// A compact virtual machine: a fixed file of 64-bit registers, a stack of
/// items, and a pool of interned strings.
#[derive(Debug)]
pub struct VM {
    registers: [i64; REGISTER_NUMBER],
    stack: Vec<Item>,
    string_pool: Vec<String>,
}

/// One value on the compact machine's stack: an immediate 32-bit integer,
/// the index of an interned string, or nothing.
#[derive(Debug, Clone, Copy, PartialEq, Eq, Structural)]
pub enum Item {
    Numberi32(i32),
    String(u32),
    Empty,
}

impl VM {
    /// The machine's registers, as a sequence of `REGISTER_NUMBER` values.
    pub closed spec fn spec_registers(&self) -> Seq<i64> {
        self.registers@
    }

    /// The machine's stack, bottom first.
    pub closed spec fn spec_stack(&self) -> Seq<Item> {
        self.stack@
    }

    /// The machine's interned strings, in interning order.
    pub closed spec fn spec_string_pool(&self) -> Seq<String> {
        self.string_pool@
    }

    /// A fresh machine: every register zero, nothing on the stack, nothing
    /// interned.
    pub fn new() -> (vm: Self)
        ensures
            vm.spec_registers() =~= Seq::new(REGISTER_NUMBER as nat, |i: int| 0i64),
            vm.spec_stack() == Seq::<Item>::empty(),
            vm.spec_string_pool() == Seq::<String>::empty(),
    {
        Self {
            registers: [0; REGISTER_NUMBER],
            stack: Vec::with_capacity(STACK_SIZE),
            string_pool: Vec::with_capacity(STRING_POOL_SIZE),
        }
    }

    /// Reads register `register`.
    #[inline]
    pub fn get_register(&self, register: usize) -> (value: i64)
        requires
            register < REGISTER_NUMBER,
        ensures
            value == self.spec_registers()[register as int],
    {
        self.registers[register]
    }

    /// Writes `value` into register `register`; every other part of the
    /// machine is untouched.
    #[inline]
    pub fn set_register(&mut self, register: usize, value: i64)
        requires
            register < REGISTER_NUMBER,
        ensures
            final(self).spec_registers() == old(self).spec_registers().update(
                register as int,
                value,
            ),
            final(self).spec_stack() == old(self).spec_stack(),
            final(self).spec_string_pool() == old(self).spec_string_pool(),
    {
        self.registers[register] = value;
    }
}

} // verus!
