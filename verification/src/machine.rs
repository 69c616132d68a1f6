use vstd::prelude::*;
use vstd::slice::slice_subrange;
use crate::cartridge::le_u16;
use crate::cartridge::le_u32;
use crate::cartridge::CH16Header;
use crate::cartridge::LoadFault;
use crate::cartridge::HEADER_LEN;
use crate::color::Color;
use crate::flags::Flags;
use crate::instruction::Instruction;

verus! {

/// Number of bytes of memory.
pub const MEMORY: usize = 0xFFFF;

/// Where the stack pointer starts.
pub const STACK_START: u16 = 0xFDF0;

/// First address of the memory-mapped I/O ports.
pub const IO_ADDR: u16 = 0xFFF0;

/// Number of registers.
pub const REGISTERS: usize = 16;

/// Number of bytes of an instruction.
pub const INSTRUCTION_LEN: u16 = 4;

/// The memory cell that address `addr` names. An address past the 16-bit
/// space wraps into it, and the one 16-bit address past the end of memory
/// wraps to cell 0.
pub open spec fn cell_of(addr: int) -> int {
    (addr % 0x1_0000) % (MEMORY as int)
}

/// The address `n` bytes after `pc`, wrapped into the 16-bit space.
pub open spec fn advance(pc: u16, n: int) -> u16 {
    ((pc + n) % 0x1_0000) as u16
}

/// The state of the machine as a mathematical value.
pub struct Machine {
    pub memory: Seq<u8>,
    pub pc: u16,
    pub sp: u16,
    pub regs: Seq<i16>,
    pub flags: Flags,
    pub bg: Color,
    pub fg: Color,
    pub spritew: u8,
    pub spriteh: u8,
    pub vblank: bool,
}

impl Machine {
    /// Memory and register file have their fixed sizes.
    pub open spec fn wf(self) -> bool {
        &&& self.memory.len() == MEMORY
        &&& self.regs.len() == REGISTERS
    }

    /// The byte that address `addr` names.
    pub open spec fn byte_at(self, addr: int) -> u8 {
        self.memory[cell_of(addr)]
    }

    /// The instruction that the program counter points at.
    pub open spec fn fetch(self) -> Instruction {
        Instruction {
            opcode: self.byte_at(self.pc as int),
            operand: self.byte_at(self.pc + 1),
            ll: self.byte_at(self.pc + 2),
            hh: self.byte_at(self.pc + 3),
        }
    }

    /// The state right after loading: `payload` at the bottom of an
    /// otherwise zeroed memory, the program counter at `start`, the stack
    /// pointer at its fixed start, everything else cleared.
    pub open spec fn initial(start: u16, payload: Seq<u8>) -> Machine {
        Machine {
            memory: Seq::new(
                MEMORY as nat,
                |i: int|
                    if i < payload.len() {
                        payload[i]
                    } else {
                        0u8
                    },
            ),
            pc: start,
            sp: STACK_START,
            regs: Seq::new(REGISTERS as nat, |i: int| 0i16),
            flags: Flags::clear_spec(),
            bg: Color::Transparent,
            fg: Color::Transparent,
            spritew: 0,
            spriteh: 0,
            vblank: false,
        }
    }
}

/// What loading `image` reports when it fails, or `None` when it succeeds:
/// the header's own faults first, then a payload shorter than the header
/// declares, then one larger than memory.
pub open spec fn load_fault(image: Seq<u8>) -> Option<LoadFault> {
    match CH16Header::fault_of(image) {
        Some(fault) => Some(fault),
        None => {
            let size = le_u32(image.subrange(6, 10));
            if size > image.len() - HEADER_LEN {
                Some(LoadFault::PayloadTruncated)
            } else if size > MEMORY {
                Some(LoadFault::PayloadTooLarge)
            } else {
                None
            }
        },
    }
}

/// The state that loading `image` produces when it succeeds.
pub open spec fn loaded(image: Seq<u8>) -> Machine {
    let size = le_u32(image.subrange(6, 10));
    Machine::initial(
        le_u16(image.subrange(10, 12)),
        image.subrange(HEADER_LEN as int, HEADER_LEN + size),
    )
}

/// The machine.
pub struct CHIP16 {
    pub(crate) memory: [u8; MEMORY],
    pub(crate) pc: u16,
    pub(crate) sp: u16,
    pub(crate) regs: [i16; REGISTERS],
    pub(crate) flags: Flags,
    pub(crate) bg: Color,
    pub(crate) fg: Color,
    pub(crate) spritew: u8,
    pub(crate) spriteh: u8,
    pub(crate) vblank: bool,
}

impl View for CHIP16 {
    type V = Machine;

    open(crate) spec fn view(&self) -> Machine {
        Machine {
            memory: self.memory@,
            pc: self.pc,
            sp: self.sp,
            regs: self.regs@,
            flags: self.flags,
            bg: self.bg,
            fg: self.fg,
            spritew: self.spritew,
            spriteh: self.spriteh,
            vblank: self.vblank,
        }
    }
}

impl CHIP16 {
    /// The state of every machine is well formed.
    pub proof fn lemma_wf(&self)
        ensures
            self@.wf(),
    {
    }

    /// A machine in its initial state, with the first `header.size` bytes
    /// of `cart` as payload and the program counter at `header.start`.
    pub fn new(header: &CH16Header, cart: &[u8]) -> (ret: CHIP16)
        requires
            header.size <= cart@.len(),
            header.size <= MEMORY,
        ensures
            ret@ == Machine::initial(header.start, cart@.take(header.size as int)),
    {
        let mut ret = CHIP16 {
            memory: [0; MEMORY],
            pc: header.start,
            sp: STACK_START,
            regs: [0; REGISTERS],
            flags: Flags::clear(),
            bg: Color::Transparent,
            fg: Color::Transparent,
            spritew: 0,
            spriteh: 0,
            vblank: false,
        };
        let mut i: u32 = 0;
        while i < header.size
            invariant
                i <= header.size,
                header.size <= cart@.len(),
                header.size <= MEMORY,
                forall|k: int| 0 <= k < i ==> ret.memory@[k] == cart@[k],
                forall|k: int| i <= k < MEMORY ==> ret.memory@[k] == 0,
                forall|k: int| 0 <= k < REGISTERS ==> ret.regs@[k] == 0,
                ret.pc == header.start,
                ret.sp == STACK_START,
                ret.flags == Flags::clear_spec(),
                ret.bg == Color::Transparent,
                ret.fg == Color::Transparent,
                ret.spritew == 0,
                ret.spriteh == 0,
                !ret.vblank,
            decreases header.size - i,
        {
            ret.memory[i as usize] = cart[i as usize];
            i = i + 1;
        }
        proof {
            let want = Machine::initial(header.start, cart@.take(header.size as int));
            assert(ret@.memory =~= want.memory);
            assert(ret@.regs =~= want.regs);
        }
        ret
    }

    /// Loads a cartridge image: a header followed by the payload.
    pub fn load(image: &[u8]) -> (r: Result<CHIP16, LoadFault>)
        ensures
            match r {
                Ok(machine) => load_fault(image@) is None && machine@ == loaded(image@),
                Err(fault) => load_fault(image@) == Some(fault),
            },
    {
        let header = match CH16Header::parse(image) {
            Ok(header) => header,
            Err(fault) => {
                return Err(fault);
            },
        };
        let cart = slice_subrange(image, HEADER_LEN, image.len());
        if header.size as usize > cart.len() {
            return Err(LoadFault::PayloadTruncated);
        }
        if header.size as usize > MEMORY {
            return Err(LoadFault::PayloadTooLarge);
        }
        let machine = CHIP16::new(&header, cart);
        proof {
            assert(cart@.take(header.size as int) =~= image@.subrange(
                HEADER_LEN as int,
                HEADER_LEN + header.size,
            ));
        }
        Ok(machine)
    }

    /// The address of the next instruction.
    pub fn pc(&self) -> (pc: u16)
        ensures
            pc == self@.pc,
    {
        self.pc
    }

    /// The stack pointer.
    pub fn sp(&self) -> (sp: u16)
        ensures
            sp == self@.sp,
    {
        self.sp
    }

    /// The register file.
    pub fn regs(&self) -> (regs: &[i16; REGISTERS])
        ensures
            regs@ == self@.regs,
    {
        &self.regs
    }

    /// The whole memory.
    pub fn memory(&self) -> (memory: &[u8; MEMORY])
        ensures
            memory@ == self@.memory,
    {
        &self.memory
    }

    /// The condition flags.
    pub fn flags(&self) -> (flags: Flags)
        ensures
            flags == self@.flags,
    {
        self.flags
    }

    /// The background colour.
    pub fn bg(&self) -> (bg: Color)
        ensures
            bg == self@.bg,
    {
        self.bg
    }

    /// The foreground colour.
    pub fn fg(&self) -> (fg: Color)
        ensures
            fg == self@.fg,
    {
        self.fg
    }

    /// Sprite width, in bytes per row.
    pub fn spritew(&self) -> (w: u8)
        ensures
            w == self@.spritew,
    {
        self.spritew
    }

    /// Sprite height, in rows.
    pub fn spriteh(&self) -> (h: u8)
        ensures
            h == self@.spriteh,
    {
        self.spriteh
    }

    /// Whether the vertical-blank latch is set.
    pub fn vblank(&self) -> (vblank: bool)
        ensures
            vblank == self@.vblank,
    {
        self.vblank
    }

    /// Sets the vertical-blank latch, as the display does after each
    /// frame, and changes nothing else.
    pub fn raise_vblank(&mut self)
        ensures
            final(self)@ == (Machine { vblank: true, ..old(self)@ }),
    {
        self.vblank = true;
    }

    /// The byte that address `addr` names.
    pub fn peek(&self, addr: u16) -> (byte: u8)
        ensures
            byte == self@.byte_at(addr as int),
    {
        self.memory[addr as usize % MEMORY]
    }

    /// The instruction that the program counter points at.
    pub fn fetch(&self) -> (instr: Instruction)
        ensures
            instr == self@.fetch(),
    {
        Instruction {
            opcode: self.peek(self.pc),
            operand: self.peek(self.pc.wrapping_add(1)),
            ll: self.peek(self.pc.wrapping_add(2)),
            hh: self.peek(self.pc.wrapping_add(3)),
        }
    }
}

} // verus!
