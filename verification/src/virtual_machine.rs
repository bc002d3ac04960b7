use crate::bytecode::{get_bytecode, spec_get_bytecode, Bytecode};
use crate::error::Error;
use crate::stack::{Stack, StackItem};
use crate::string_pool::{spec_distinct, StringPool};
use vstd::prelude::*;

verus! {

/// Registers the machine has: the instruction pointer plus eight general-
/// purpose ones.
pub const NUMBER_OF_REGISTERS: usize = 9;

/// Index of the instruction-pointer register.
pub const IP: usize = 0;

/// The byte-code virtual machine: a borrowed program, a register file whose
/// slot `IP` is the instruction pointer, a stack, and a string pool.
#[derive(Debug)]
pub struct VM<'a> {
    program: &'a [u8],
    registers: [i64; NUMBER_OF_REGISTERS],
    stack: Stack,
    string_pool: StringPool,
}

impl<'a> VM<'a> {
    /// The program the machine executes.
    pub closed spec fn spec_program(&self) -> Seq<u8> {
        self.program@
    }

    /// The machine's registers; index `IP` is the instruction pointer.
    pub closed spec fn spec_registers(&self) -> Seq<i64> {
        self.registers@
    }

    /// The machine's stack, bottom first.
    pub closed spec fn spec_stack(&self) -> Seq<StackItem> {
        self.stack@
    }

    /// The machine's interned strings, in interning order.
    pub closed spec fn spec_string_pool(&self) -> Seq<Seq<char>> {
        self.string_pool@
    }

    /// The machine's invariant: its string pool holds no duplicates, so a
    /// stack item's string index names one string.
    pub open spec fn wf(&self) -> bool {
        spec_distinct(self.spec_string_pool())
    }

    /// A fresh machine over `program`: every register zero, nothing on the
    /// stack, nothing interned.
    pub fn new(program: &'a [u8]) -> (vm: Self)
        ensures
            vm.wf(),
            vm.spec_program() == program@,
            vm.spec_registers() =~= Seq::new(NUMBER_OF_REGISTERS as nat, |i: int| 0i64),
            vm.spec_stack() == Seq::<StackItem>::empty(),
            vm.spec_string_pool() == Seq::<Seq<char>>::empty(),
    {
        Self {
            program,
            registers: [0; NUMBER_OF_REGISTERS],
            stack: Stack::new(),
            string_pool: StringPool::new(),
        }
    }

    /// Resets the whole machine — registers, stack, and string pool — and
    /// hands the failure report back for the caller to raise; the verified
    /// core itself never aborts the process.
    pub fn vm_panic(&mut self, err: Error, msg: String) -> (r: (Error, String))
        ensures
            final(self).wf(),
            final(self).spec_program() == old(self).spec_program(),
            final(self).spec_registers() =~= Seq::new(NUMBER_OF_REGISTERS as nat, |i: int| 0i64),
            final(self).spec_stack() == Seq::<StackItem>::empty(),
            final(self).spec_string_pool() == Seq::<Seq<char>>::empty(),
            r == (err, msg),
    {
        self.clear_registers();
        self.stack.clear();
        self.string_pool.clear();

        (err, msg)
    }

    /// Reads register `register`.
    pub fn get_register(&self, register: usize) -> (value: i64)
        requires
            register < NUMBER_OF_REGISTERS,
        ensures
            value == self.spec_registers()[register as int],
    {
        self.registers[register]
    }

    /// Writes `value` into register `register`; the rest of the machine is
    /// untouched.
    pub fn set_register(&mut self, register: usize, value: i64)
        requires
            register < NUMBER_OF_REGISTERS,
        ensures
            final(self).spec_registers() == old(self).spec_registers().update(
                register as int,
                value,
            ),
            final(self).spec_program() == old(self).spec_program(),
            final(self).spec_stack() == old(self).spec_stack(),
            final(self).spec_string_pool() == old(self).spec_string_pool(),
    {
        self.registers[register] = value;
    }

    /// Adds `value` to register `register`; the sum must fit the register.
    pub fn add_i64_to_register(&mut self, register: usize, value: i64)
        requires
            register < NUMBER_OF_REGISTERS,
            i64::MIN <= old(self).spec_registers()[register as int] + value <= i64::MAX,
        ensures
            final(self).spec_registers() == old(self).spec_registers().update(
                register as int,
                (old(self).spec_registers()[register as int] + value) as i64,
            ),
            final(self).spec_program() == old(self).spec_program(),
            final(self).spec_stack() == old(self).spec_stack(),
            final(self).spec_string_pool() == old(self).spec_string_pool(),
    {
        self.registers[register] = self.registers[register] + value;
    }

    /// Decodes the instruction the instruction pointer rests on. A byte
    /// outside the instruction set is reported as `Error::InvalidBytecode`;
    /// the machine itself is left as it is either way.
    pub fn get_bytecode(&mut self) -> (r: Result<Bytecode, Error>)
        requires
            0 <= old(self).spec_registers()[IP as int] < old(self).spec_program().len(),
        ensures
            *final(self) == *old(self),
            match r {
                Ok(bc) => spec_get_bytecode(
                    old(self).spec_program()[old(self).spec_registers()[IP as int] as int],
                ) == Some(bc),
                Err(e) => spec_get_bytecode(
                    old(self).spec_program()[old(self).spec_registers()[IP as int] as int],
                ) is None && e == Error::InvalidBytecode,
            },
    {
        let bytecode = self.program[self.get_register(IP) as usize];
        get_bytecode(bytecode)
    }

    /// Advances the instruction pointer by one and reads the byte it lands
    /// on.
    pub fn next_byte(&mut self) -> (b: u8)
        requires
            0 <= old(self).spec_registers()[IP as int] + 1 < old(self).spec_program().len(),
            old(self).spec_registers()[IP as int] + 1 <= i64::MAX,
        ensures
            final(self).spec_registers() == old(self).spec_registers().update(
                IP as int,
                (old(self).spec_registers()[IP as int] + 1) as i64,
            ),
            b == old(self).spec_program()[old(self).spec_registers()[IP as int] + 1],
            final(self).spec_program() == old(self).spec_program(),
            final(self).spec_stack() == old(self).spec_stack(),
            final(self).spec_string_pool() == old(self).spec_string_pool(),
    {
        self.add_i64_to_register(IP, 1);
        self.program[self.get_register(IP) as usize]
    }

    /// Reads the `n` bytes after the instruction pointer and leaves the
    /// pointer on the last of them.
    pub fn next_n_bytes(&mut self, n: usize) -> (bytes: Vec<u8>)
        requires
            n >= 1,
            0 <= old(self).spec_registers()[IP as int] + 1,
            old(self).spec_registers()[IP as int] + 1 + n <= old(self).spec_program().len(),
            old(self).spec_registers()[IP as int] + n <= i64::MAX,
        ensures
            bytes@ == old(self).spec_program().subrange(
                old(self).spec_registers()[IP as int] + 1,
                old(self).spec_registers()[IP as int] + 1 + n,
            ),
            final(self).spec_registers() == old(self).spec_registers().update(
                IP as int,
                (old(self).spec_registers()[IP as int] + n) as i64,
            ),
            final(self).spec_program() == old(self).spec_program(),
            final(self).spec_stack() == old(self).spec_stack(),
            final(self).spec_string_pool() == old(self).spec_string_pool(),
    {
        self.add_i64_to_register(IP, 1);
        let plen = self.program.len();
        let ip = self.get_register(IP) as usize;
        let ghost ip0: int = old(self).spec_registers()[IP as int] + 1;
        proof {
            assert(ip == ip0);
            assert(ip0 + n <= plen);
        }

        let mut bytes: Vec<u8> = Vec::new();
        let mut k: usize = 0;
        while k < n
            invariant
                k <= n,
                ip == ip0,
                0 <= ip0,
                ip0 + n <= plen,
                plen == self.spec_program().len(),
                plen <= usize::MAX,
                bytes@ == self.spec_program().subrange(ip0, ip0 + k),
                self.spec_program() == old(self).spec_program(),
                self.spec_registers() == old(self).spec_registers().update(
                    IP as int,
                    (old(self).spec_registers()[IP as int] + 1) as i64,
                ),
                self.spec_stack() == old(self).spec_stack(),
                self.spec_string_pool() == old(self).spec_string_pool(),
            decreases n - k,
        {
            bytes.push(self.program[ip + k]);
            assert(self.spec_program().subrange(ip0, ip0 + k + 1) =~= self.spec_program()
                .subrange(ip0, ip0 + k).push(self.spec_program()[ip0 + k]));
            k = k + 1;
        }

        self.add_i64_to_register(IP, (n - 1) as i64);
        bytes
    }

    /// Zeroes every register.
    pub fn clear_registers(&mut self)
        ensures
            final(self).spec_registers() =~= Seq::new(NUMBER_OF_REGISTERS as nat, |i: int| 0i64),
            final(self).spec_program() == old(self).spec_program(),
            final(self).spec_stack() == old(self).spec_stack(),
            final(self).spec_string_pool() == old(self).spec_string_pool(),
    {
        let mut r: usize = 0;
        while r < NUMBER_OF_REGISTERS
            invariant
                r <= NUMBER_OF_REGISTERS,
                self.spec_registers().len() == NUMBER_OF_REGISTERS,
                forall|i: int| 0 <= i < r ==> self.spec_registers()[i] == 0i64,
                self.spec_program() == old(self).spec_program(),
                self.spec_stack() == old(self).spec_stack(),
                self.spec_string_pool() == old(self).spec_string_pool(),
            decreases NUMBER_OF_REGISTERS - r,
        {
            self.registers[r] = 0;
            r = r + 1;
        }
    }

    /// Pushes `value` on the machine's stack.
    pub fn push(&mut self, value: StackItem)
        ensures
            final(self).spec_stack() == old(self).spec_stack().push(value),
            final(self).spec_program() == old(self).spec_program(),
            final(self).spec_registers() == old(self).spec_registers(),
            final(self).spec_string_pool() == old(self).spec_string_pool(),
    {
        self.stack.push(value);
    }

    /// Interns `string` and pushes its index on the stack: the index of the
    /// copy the pool already holds, or the fresh index it is appended at.
    pub fn push_string(&mut self, string: &str)
        requires
            old(self).wf(),
            old(self).spec_string_pool().len() < 0x1_0000_0000,
        ensures
            final(self).wf(),
            final(self).spec_program() == old(self).spec_program(),
            final(self).spec_registers() == old(self).spec_registers(),
            ({
                let pool0 = old(self).spec_string_pool();
                if pool0.contains(string@) {
                    final(self).spec_string_pool() == pool0 && exists|i: int|
                        0 <= i < pool0.len() && pool0[i] == string@ && final(self).spec_stack()
                            == old(self).spec_stack().push(StackItem::String(i as u32))
                } else {
                    final(self).spec_string_pool() == pool0.push(string@)
                        && final(self).spec_stack() == old(self).spec_stack().push(
                        StackItem::String(pool0.len() as u32),
                    )
                }
            }),
    {
        let index = self.string_pool.intern(&string);
        self.stack.push(StackItem::String(index));
    }

    /// Removes and returns the top of the stack, or `None` when the stack
    /// is empty.
    pub fn pop(&mut self) -> (item: Option<StackItem>)
        ensures
            old(self).spec_stack().len() == 0 ==> item is None && final(self).spec_stack()
                == old(self).spec_stack(),
            old(self).spec_stack().len() > 0 ==> item == Some(old(self).spec_stack().last())
                && final(self).spec_stack() == old(self).spec_stack().drop_last(),
            final(self).spec_program() == old(self).spec_program(),
            final(self).spec_registers() == old(self).spec_registers(),
            final(self).spec_string_pool() == old(self).spec_string_pool(),
    {
        self.stack.pop()
    }

    /// The string interned at `index`.
    pub fn get_string(&self, index: u32) -> (s: &str)
        requires
            index < self.spec_string_pool().len(),
        ensures
            s@ == self.spec_string_pool()[index as int],
    {
        self.string_pool.get_string(index)
    }
}

} // verus!
