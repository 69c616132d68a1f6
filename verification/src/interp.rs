use vstd::prelude::*;
use crate::alu::alu_add;
use crate::alu::alu_sub;
use crate::alu::add_spec;
use crate::alu::as_signed;
use crate::alu::reinterpret;
use crate::alu::sub_spec;
use crate::alu::Arith;
use crate::color::Color;
use crate::flags::Flags;
use crate::instruction::Fault;
use crate::instruction::Instruction;
use crate::instruction::ADD;
use crate::instruction::BGC;
use crate::instruction::CLS;
use crate::instruction::COND_CARRY;
use crate::instruction::COND_ZERO;
use crate::instruction::DRW;
use crate::instruction::JCC;
use crate::instruction::JME;
use crate::instruction::JMP;
use crate::instruction::LDI;
use crate::instruction::MOV;
use crate::instruction::SPR;
use crate::instruction::SUB_IMM;
use crate::instruction::SUB_REG;
use crate::instruction::SUB_TO;
use crate::instruction::VBLNK;
use crate::machine::advance;
use crate::machine::Machine;
use crate::machine::CHIP16;
use crate::machine::INSTRUCTION_LEN;
use crate::schedule::State;
use crate::screen::Framebuffer;
use crate::sprite::draw_sprite;
use crate::sprite::Sprite;

verus! {

/// Machine and display after one instruction.
pub struct Outcome {
    pub machine: Machine,
    pub screen: Seq<u32>,
}

impl Machine {
    /// This state with the program counter on the following instruction.
    pub open spec fn next(self) -> Machine {
        Machine { pc: advance(self.pc, INSTRUCTION_LEN as int), ..self }
    }

    /// This state after a jump to `target` that is taken when `taken`
    /// holds; otherwise execution falls through.
    pub open spec fn jump(self, taken: bool, target: u16) -> Machine {
        if taken {
            Machine { pc: target, ..self }
        } else {
            self.next()
        }
    }

    /// This state after `value` is written to register `r`.
    pub open spec fn load_reg(self, r: int, value: i16) -> Machine {
        Machine { regs: self.regs.update(r, value), ..self.next() }
    }

    /// This state after an arithmetic result is written to register `r`
    /// and the flags are replaced by those of the result.
    pub open spec fn arith(self, r: int, result: Arith) -> Machine {
        Machine { regs: self.regs.update(r, result.value), flags: result.flags, ..self.next() }
    }

    /// The sprite that a DRW instruction `instr` draws in this state.
    pub open spec fn sprite(self, instr: Instruction) -> Sprite {
        Sprite {
            addr: instr.hhll_spec(),
            width: self.spritew,
            height: self.spriteh,
            x: self.regs[instr.x_spec() as int],
            y: self.regs[instr.y_spec() as int],
        }
    }
}

/// What one instruction does. It is fetched at the program counter, its
/// operand registers are read, and the program counter moves on by one
/// instruction before the operation takes effect. An instruction that
/// names no operation leaves a fault and no effect.
pub open spec fn step(m: Machine, screen: Seq<u32>) -> Result<Outcome, Fault> {
    let instr = m.fetch();
    let x = instr.x_spec() as int;
    let y = instr.y_spec() as int;
    let z = instr.z_spec() as int;
    let rx = m.regs[x];
    let ry = m.regs[y];
    let hhll = instr.hhll_spec();
    if instr.opcode == CLS {
        Ok(
            Outcome {
                machine: Machine { fg: Color::Transparent, bg: Color::Transparent, ..m.next() },
                screen: Seq::new(screen.len(), |k: int| Color::Transparent.packed()),
            },
        )
    } else if instr.opcode == VBLNK {
        if m.vblank {
            Ok(Outcome { machine: Machine { vblank: false, ..m.next() }, screen })
        } else {
            Ok(Outcome { machine: m, screen })
        }
    } else if instr.opcode == BGC {
        Ok(Outcome { machine: Machine { bg: Color::of_index(instr.z_spec()), ..m.next() }, screen })
    } else if instr.opcode == SPR {
        Ok(Outcome { machine: Machine { spritew: instr.ll, spriteh: instr.hh, ..m.next() }, screen })
    } else if instr.opcode == DRW {
        let sprite = m.sprite(instr);
        let carry = sprite.collides(m.memory, screen, m.bg.packed());
        Ok(
            Outcome {
                machine: Machine { flags: Flags { carry, ..m.flags }, ..m.next() },
                screen: sprite.draw(m.memory, screen),
            },
        )
    } else if instr.opcode == JMP {
        Ok(Outcome { machine: m.jump(true, hhll), screen })
    } else if instr.opcode == JCC {
        if instr.x_spec() == COND_ZERO {
            Ok(Outcome { machine: m.jump(m.flags.zero, hhll), screen })
        } else if instr.x_spec() == COND_CARRY {
            Ok(Outcome { machine: m.jump(m.flags.carry, hhll), screen })
        } else {
            Err(Fault::UnknownCondition(instr))
        }
    } else if instr.opcode == JME {
        Ok(Outcome { machine: m.jump(rx == ry, hhll), screen })
    } else if instr.opcode == LDI {
        Ok(Outcome { machine: m.load_reg(x, as_signed(hhll)), screen })
    } else if instr.opcode == MOV {
        Ok(Outcome { machine: m.load_reg(x, ry), screen })
    } else if instr.opcode == ADD {
        Ok(Outcome { machine: m.arith(x, add_spec(rx, ry)), screen })
    } else if instr.opcode == SUB_IMM {
        Ok(Outcome { machine: m.arith(x, sub_spec(rx, as_signed(hhll))), screen })
    } else if instr.opcode == SUB_REG {
        Ok(Outcome { machine: m.arith(x, sub_spec(rx, ry)), screen })
    } else if instr.opcode == SUB_TO {
        Ok(Outcome { machine: m.arith(z, sub_spec(rx, ry)), screen })
    } else {
        Err(Fault::UnknownOpcode(instr))
    }
}

impl CHIP16 {
    /// Moves the program counter to the following instruction.
    fn skip(&mut self)
        ensures
            final(self)@ == old(self)@.next(),
    {
        self.pc = self.pc.wrapping_add(INSTRUCTION_LEN);
    }

    /// Jumps to `target` when `taken` holds, and falls through otherwise.
    fn branch(&mut self, taken: bool, target: u16)
        ensures
            final(self)@ == old(self)@.jump(taken, target),
    {
        if taken {
            self.pc = target;
        } else {
            self.skip();
        }
    }

    /// Writes an arithmetic result to register `r`, replaces the flags and
    /// moves on.
    fn retire(&mut self, r: usize, result: Arith)
        requires
            r < 16,
        ensures
            final(self)@ == old(self)@.arith(r as int, result),
    {
        self.regs[r] = result.value;
        self.flags = result.flags;
        self.skip();
    }

    /// Writes `value` to register `r` and moves on.
    fn store(&mut self, r: usize, value: i16)
        requires
            r < 16,
        ensures
            final(self)@ == old(self)@.load_reg(r as int, value),
    {
        self.regs[r] = value;
        self.skip();
    }

    /// Executes the instruction at the program counter. On success the
    /// machine and the display are those that `step` gives and the result
    /// is `Continue`; on a fault both are left as they were.
    pub fn cycle(&mut self, screen: &mut Framebuffer) -> (r: Result<State, Fault>)
        ensures
            match step(old(self)@, old(screen)@) {
                Ok(out) => {
                    &&& r == Ok::<State, Fault>(State::Continue)
                    &&& final(self)@ == out.machine
                    &&& final(screen)@ == out.screen
                },
                Err(fault) => {
                    &&& r == Err::<State, Fault>(fault)
                    &&& final(self)@ == old(self)@
                    &&& final(screen)@ == old(screen)@
                },
            },
    {
        let instr = self.fetch();
        let opcode: u8 = instr.opcode;
        let hhll: u16 = instr.hhll();
        let x: usize = instr.x() as usize;
        let y: usize = instr.y() as usize;
        let z: usize = instr.z() as usize;
        let rx: i16 = self.regs[x];
        let ry: i16 = self.regs[y];

        if opcode == CLS {
            self.fg = Color::Transparent;
            self.bg = Color::Transparent;
            screen.fill(u32::from(self.bg));
            self.skip();
        } else if opcode == VBLNK {
            if self.vblank {
                self.vblank = false;
                self.skip();
            }
        } else if opcode == BGC {
            self.bg = Color::from(instr.z());
            self.skip();
        } else if opcode == SPR {
            self.spritew = instr.ll;
            self.spriteh = instr.hh;
            self.skip();
        } else if opcode == DRW {
            let sprite = Sprite {
                addr: hhll,
                width: self.spritew,
                height: self.spriteh,
                x: rx,
                y: ry,
            };
            let hit = draw_sprite(&self.memory, sprite, u32::from(self.bg), screen);
            self.flags.carry = hit;
            self.skip();
        } else if opcode == JMP {
            self.branch(true, hhll);
        } else if opcode == JCC {
            if instr.x() == COND_ZERO {
                self.branch(self.flags.zero, hhll);
            } else if instr.x() == COND_CARRY {
                self.branch(self.flags.carry, hhll);
            } else {
                return Err(Fault::UnknownCondition(instr));
            }
        } else if opcode == JME {
            self.branch(rx == ry, hhll);
        } else if opcode == LDI {
            self.store(x, reinterpret(hhll));
        } else if opcode == MOV {
            self.store(x, ry);
        } else if opcode == ADD {
            self.retire(x, alu_add(rx, ry));
        } else if opcode == SUB_IMM {
            self.retire(x, alu_sub(rx, reinterpret(hhll)));
        } else if opcode == SUB_REG {
            self.retire(x, alu_sub(rx, ry));
        } else if opcode == SUB_TO {
            self.retire(z, alu_sub(rx, ry));
        } else {
            return Err(Fault::UnknownOpcode(instr));
        }
        Ok(State::Continue)
    }
}

} // verus!
