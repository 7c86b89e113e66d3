//! The machine state: addressable memory, the sixteen general registers,
//! the delay and sound timers, the program counter, the index register and
//! the call stack, together with its one stateful operation in scope:
//! constructing a state from a program image loaded at the fixed load
//! address `0x200`.

use vstd::prelude::*;

verus! {

/// The size of the addressable memory in bytes.
pub const MEMORY_SIZE: usize = 4096;

/// The fixed address at which a program image is loaded; memory below it
/// is reserved for the interpreter and font area.
pub const LOAD_ADDRESS: usize = 0x200;

/// The largest program image that fits between the load address and the
/// end of memory.
pub const MAX_IMAGE_SIZE: usize = 4096 - 0x200;

/// The number of general-purpose registers.
pub const REGISTER_COUNT: usize = 16;

/// The capacity of the call stack, in return addresses.
pub const STACK_SIZE: usize = 12;

/// Why a machine state could not be constructed.
#[derive(Debug, PartialEq, Eq, Structural)]
pub enum LoadError {
    /// The program image is longer than the memory that lies at and above
    /// the load address, so copying it would write past the end of memory.
    ImageTooLarge,
}

/// The state of the virtual machine. Constructed once per session from a
/// program image; thereafter exclusively owned and mutated by the
/// fetch-decode-execute loop that drives it.
pub struct Processor {
    memory: Vec<u8>,
    registers: Vec<u16>,
    delay_timer: u16,
    sound_timer: u16,
    program_counter: u16,
    i_register: u16,
    stack: Vec<u16>,
}

impl Processor {
    /// The memory contents, as a sequence of 4096 bytes.
    pub closed spec fn spec_memory(self) -> Seq<u8> {
        self.memory@
    }

    /// The sixteen general registers.
    pub closed spec fn spec_registers(self) -> Seq<u16> {
        self.registers@
    }

    /// The delay timer, logically an 8-bit counter.
    pub closed spec fn spec_delay_timer(self) -> u16 {
        self.delay_timer
    }

    /// The sound timer, logically an 8-bit counter.
    pub closed spec fn spec_sound_timer(self) -> u16 {
        self.sound_timer
    }

    /// The address of the next instruction word to fetch.
    pub closed spec fn spec_program_counter(self) -> u16 {
        self.program_counter
    }

    /// The index register, logically a 12-bit address.
    pub closed spec fn spec_i_register(self) -> u16 {
        self.i_register
    }

    /// The call stack of return addresses.
    pub closed spec fn spec_stack(self) -> Seq<u16> {
        self.stack@
    }

    /// The fixed layout of the record: memory, register file and call
    /// stack have their architectural sizes.
    pub open spec fn wf(self) -> bool {
        &&& self.spec_memory().len() == MEMORY_SIZE
        &&& self.spec_registers().len() == REGISTER_COUNT
        &&& self.spec_stack().len() == STACK_SIZE
    }

    /// The state a freshly loaded machine is in: the program counter at
    /// the load address; registers, timers, index register and stack all
    /// zero; the image copied verbatim at the load address; every other
    /// memory byte zero.
    pub open spec fn freshly_loaded(self, image: Seq<u8>) -> bool {
        &&& self.wf()
        &&& self.spec_program_counter() == LOAD_ADDRESS
        &&& self.spec_i_register() == 0
        &&& self.spec_delay_timer() == 0
        &&& self.spec_sound_timer() == 0
        &&& forall|i: int| 0 <= i < REGISTER_COUNT ==> self.spec_registers()[i] == 0
        &&& forall|i: int| 0 <= i < STACK_SIZE ==> self.spec_stack()[i] == 0
        &&& forall|i: int| 0 <= i < LOAD_ADDRESS ==> self.spec_memory()[i] == 0
        &&& forall|i: int|
            0 <= i < image.len() ==> self.spec_memory()[LOAD_ADDRESS + i] == image[i]
        &&& forall|i: int|
            LOAD_ADDRESS + image.len() <= i < MEMORY_SIZE ==> self.spec_memory()[i] == 0
    }

    /// Constructs a machine state from a program image: zeroed memory with
    /// the image copied in starting at the load address, zeroed registers,
    /// timers and stack, and the program counter at the load address. An
    /// image longer than the memory at and above the load address is
    /// rejected rather than written past the end of memory.
    pub fn load(image: &Vec<u8>) -> (r: Result<Processor, LoadError>)
        ensures
            r is Ok <==> image@.len() <= MAX_IMAGE_SIZE,
            r matches Ok(p) ==> p.freshly_loaded(image@),
            r is Err ==> r == Err::<Processor, LoadError>(LoadError::ImageTooLarge),
    {
        if image.len() > MAX_IMAGE_SIZE {
            return Err(LoadError::ImageTooLarge);
        }

        let mut memory: Vec<u8> = Vec::new();
        let mut reserved: usize = 0;
        while reserved < LOAD_ADDRESS
            invariant
                reserved <= LOAD_ADDRESS,
                memory@.len() == reserved,
                forall|i: int| 0 <= i < reserved ==> memory@[i] == 0,
            decreases LOAD_ADDRESS - reserved,
        {
            memory.push(0);
            reserved += 1;
        }

        let mut copied: usize = 0;
        while copied < image.len()
            invariant
                image@.len() <= MAX_IMAGE_SIZE,
                copied <= image@.len(),
                memory@.len() == LOAD_ADDRESS + copied,
                forall|i: int| 0 <= i < LOAD_ADDRESS ==> memory@[i] == 0,
                forall|i: int| 0 <= i < copied ==> memory@[LOAD_ADDRESS + i] == image@[i],
            decreases image@.len() - copied,
        {
            memory.push(image[copied]);
            copied += 1;
        }

        while memory.len() < MEMORY_SIZE
            invariant
                image@.len() <= MAX_IMAGE_SIZE,
                LOAD_ADDRESS + image@.len() <= memory@.len() <= MEMORY_SIZE,
                forall|i: int| 0 <= i < LOAD_ADDRESS ==> memory@[i] == 0,
                forall|i: int| 0 <= i < image@.len() ==> memory@[LOAD_ADDRESS + i] == image@[i],
                forall|i: int|
                    LOAD_ADDRESS + image@.len() <= i < memory@.len() ==> memory@[i] == 0,
            decreases MEMORY_SIZE - memory@.len(),
        {
            memory.push(0);
        }

        let mut registers: Vec<u16> = Vec::new();
        let mut filled: usize = 0;
        while filled < REGISTER_COUNT
            invariant
                filled <= REGISTER_COUNT,
                registers@.len() == filled,
                forall|i: int| 0 <= i < filled ==> registers@[i] == 0,
            decreases REGISTER_COUNT - filled,
        {
            registers.push(0);
            filled += 1;
        }

        let mut stack: Vec<u16> = Vec::new();
        let mut frames: usize = 0;
        while frames < STACK_SIZE
            invariant
                frames <= STACK_SIZE,
                stack@.len() == frames,
                forall|i: int| 0 <= i < frames ==> stack@[i] == 0,
            decreases STACK_SIZE - frames,
        {
            stack.push(0);
            frames += 1;
        }

        Ok(
            Processor {
                memory,
                registers,
                delay_timer: 0,
                sound_timer: 0,
                program_counter: 0x200,
                i_register: 0,
                stack,
            },
        )
    }

    /// Reads the memory byte at the given address.
    pub fn memory_byte(&self, address: usize) -> (r: u8)
        requires
            self.wf(),
            address < MEMORY_SIZE,
        ensures
            r == self.spec_memory()[address as int],
    {
        self.memory[address]
    }

    /// Reads the given general register.
    pub fn register(&self, index: usize) -> (r: u16)
        requires
            self.wf(),
            index < REGISTER_COUNT,
        ensures
            r == self.spec_registers()[index as int],
    {
        self.registers[index]
    }

    /// The delay timer's current value.
    pub fn delay_timer(&self) -> (r: u16)
        ensures
            r == self.spec_delay_timer(),
    {
        self.delay_timer
    }

    /// The sound timer's current value.
    pub fn sound_timer(&self) -> (r: u16)
        ensures
            r == self.spec_sound_timer(),
    {
        self.sound_timer
    }

    /// The program counter's current value.
    pub fn program_counter(&self) -> (r: u16)
        ensures
            r == self.spec_program_counter(),
    {
        self.program_counter
    }

    /// The index register's current value.
    pub fn i_register(&self) -> (r: u16)
        ensures
            r == self.spec_i_register(),
    {
        self.i_register
    }

    /// Reads the call-stack slot at the given depth.
    pub fn stack_slot(&self, depth: usize) -> (r: u16)
        requires
            self.wf(),
            depth < STACK_SIZE,
        ensures
            r == self.spec_stack()[depth as int],
    {
        self.stack[depth]
    }
}

} // verus!
