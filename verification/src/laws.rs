use vstd::prelude::*;
use crate::alu::as_signed;
use crate::alu::wrap_i16;
use crate::color::Color;
use crate::instruction::Instruction;
use crate::instruction::ADD;
use crate::instruction::BGC;
use crate::instruction::CLS;
use crate::instruction::DRW;
use crate::instruction::COND_CARRY;
use crate::instruction::COND_ZERO;
use crate::instruction::JCC;
use crate::instruction::JME;
use crate::instruction::JMP;
use crate::instruction::LDI;
use crate::instruction::MOV;
use crate::instruction::SPR;
use crate::instruction::SUB_IMM;
use crate::instruction::SUB_REG;
use crate::instruction::SUB_TO;
use crate::instruction::VBLNK;
use crate::interp::step;
use crate::interp::Outcome;
use crate::machine::advance;
use crate::machine::Machine;
use crate::machine::INSTRUCTION_LEN;
use crate::screen::CELLS;
use crate::screen::WIDTH;
use crate::sprite::on_grid;
use crate::sprite::Sprite;

verus! {

/// Whether `opcode` names an operation.
pub open spec fn is_operation(opcode: u8) -> bool {
    ||| opcode == CLS
    ||| opcode == VBLNK
    ||| opcode == BGC
    ||| opcode == SPR
    ||| opcode == DRW
    ||| opcode == JMP
    ||| opcode == JCC
    ||| opcode == JME
    ||| opcode == LDI
    ||| opcode == MOV
    ||| opcode == ADD
    ||| opcode == SUB_IMM
    ||| opcode == SUB_REG
    ||| opcode == SUB_TO
}

/// Whether `opcode` is one of the arithmetic instructions.
pub open spec fn is_arithmetic(opcode: u8) -> bool {
    opcode == ADD || opcode == SUB_IMM || opcode == SUB_REG || opcode == SUB_TO
}

/// The register that an arithmetic instruction writes its result to.
pub open spec fn destination(instr: Instruction) -> int {
    if instr.opcode == SUB_TO {
        instr.z_spec() as int
    } else {
        instr.x_spec() as int
    }
}

/// After every arithmetic instruction the zero flag is raised exactly
/// when the result written to the destination register is 0, and the
/// negative flag exactly when that result is below 0.
pub proof fn law_zero_negative(m: Machine, screen: Seq<u32>)
    requires
        m.wf(),
        is_arithmetic(m.fetch().opcode),
    ensures
        step(m, screen) is Ok,
        ({
            let after = step(m, screen)->Ok_0.machine;
            let result = after.regs[destination(m.fetch())];
            &&& after.flags.zero <==> result == 0
            &&& after.flags.negative <==> result < 0
        }),
{
}

/// ADD writes the wrapped sum to register `x`, raises carry, and raises
/// overflow exactly when both operands have the same sign and the sign of
/// the result differs from it.
pub proof fn law_add_overflow(m: Machine, screen: Seq<u32>)
    requires
        m.wf(),
        m.fetch().opcode == ADD,
    ensures
        step(m, screen) is Ok,
        ({
            let after = step(m, screen)->Ok_0.machine;
            let rx = m.regs[m.fetch().x_spec() as int];
            let ry = m.regs[m.fetch().y_spec() as int];
            let result = after.regs[m.fetch().x_spec() as int];
            &&& result == wrap_i16(rx + ry)
            &&& after.flags.carry
            &&& after.flags.overflow <==> ((rx < 0) == (ry < 0) && (result < 0) != (rx < 0))
        }),
{
}

/// SUB with an immediate writes the wrapped difference to register `x`
/// and raises carry exactly when the register was below the immediate,
/// both read as signed numbers.
pub proof fn law_sub_immediate_carry(m: Machine, screen: Seq<u32>)
    requires
        m.wf(),
        m.fetch().opcode == SUB_IMM,
    ensures
        step(m, screen) is Ok,
        ({
            let after = step(m, screen)->Ok_0.machine;
            let rx = m.regs[m.fetch().x_spec() as int];
            let immediate = as_signed(m.fetch().hhll_spec());
            &&& after.regs[m.fetch().x_spec() as int] == wrap_i16(rx - immediate)
            &&& after.flags.carry <==> rx < immediate
        }),
{
}

/// The two register forms of SUB agree on identical operands: they leave
/// the same flags and write the same result, the first to register `x`,
/// the second to register `z`. The second changes no register but `z`.
pub proof fn law_sub_variants(a: Machine, b: Machine, screen: Seq<u32>)
    requires
        a.wf(),
        b.wf(),
        a.fetch().opcode == SUB_REG,
        b.fetch().opcode == SUB_TO,
        a.regs[a.fetch().x_spec() as int] == b.regs[b.fetch().x_spec() as int],
        a.regs[a.fetch().y_spec() as int] == b.regs[b.fetch().y_spec() as int],
    ensures
        step(a, screen) is Ok,
        step(b, screen) is Ok,
        ({
            let after_a = step(a, screen)->Ok_0.machine;
            let after_b = step(b, screen)->Ok_0.machine;
            &&& after_a.flags == after_b.flags
            &&& after_a.regs[a.fetch().x_spec() as int] == after_b.regs[b.fetch().z_spec() as int]
            &&& forall|r: int|
                0 <= r < 16 && r != b.fetch().z_spec() ==> after_b.regs[r] == b.regs[r]
            &&& forall|r: int|
                0 <= r < 16 && r != a.fetch().x_spec() ==> after_a.regs[r] == a.regs[r]
        }),
{
}

/// JMP changes the program counter to its literal target and nothing
/// else, so the next instruction is the one that memory holds there.
pub proof fn law_jmp(m: Machine, screen: Seq<u32>)
    requires
        m.fetch().opcode == JMP,
    ensures
        step(m, screen) == Ok::<Outcome, crate::instruction::Fault>(
            Outcome { machine: Machine { pc: m.fetch().hhll_spec(), ..m }, screen },
        ),
        ({
            let target = m.fetch().hhll_spec();
            let next = step(m, screen)->Ok_0.machine.fetch();
            &&& next.opcode == m.byte_at(target as int)
            &&& next.operand == m.byte_at(target + 1)
            &&& next.ll == m.byte_at(target + 2)
            &&& next.hh == m.byte_at(target + 3)
        }),
{
}

/// VBLNK with the latch clear changes nothing, so the same instruction is
/// executed again on the next tick. With the latch set, also when it was
/// set after any number of such ticks, it clears the latch and moves the
/// program counter on by one instruction.
pub proof fn law_vblnk(m: Machine, screen: Seq<u32>)
    requires
        m.fetch().opcode == VBLNK,
    ensures
        !m.vblank ==> step(m, screen) == Ok::<Outcome, crate::instruction::Fault>(
            Outcome { machine: m, screen },
        ),
        step(Machine { vblank: true, ..m }, screen) == Ok::<Outcome, crate::instruction::Fault>(
            Outcome {
                machine: Machine {
                    vblank: false,
                    pc: advance(m.pc, INSTRUCTION_LEN as int),
                    ..m
                },
                screen,
            },
        ),
{
    let raised = Machine { vblank: true, ..m };
    assert(raised.fetch() == m.fetch());
}

/// CLS leaves every cell of the display at the packed value of the
/// background colour that the machine then has, which is the transparent
/// one whatever the background was before.
pub proof fn law_cls(m: Machine, screen: Seq<u32>)
    requires
        m.fetch().opcode == CLS,
    ensures
        step(m, screen) is Ok,
        ({
            let out = step(m, screen)->Ok_0;
            &&& out.machine.bg == Color::Transparent
            &&& out.machine.fg == Color::Transparent
            &&& out.screen.len() == screen.len()
            &&& forall|k: int|
                0 <= k < screen.len() ==> out.screen[k] == out.machine.bg.packed()
        }),
{
}

/// The same holds when the instruction right before CLS was a BGC that
/// changed the background.
pub proof fn law_bgc_then_cls(m: Machine, screen: Seq<u32>)
    requires
        m.fetch().opcode == BGC,
        m.next().fetch().opcode == CLS,
    ensures
        step(m, screen) is Ok,
        step(m, screen)->Ok_0.machine.bg == Color::of_index(m.fetch().z_spec()),
        step(step(m, screen)->Ok_0.machine, step(m, screen)->Ok_0.screen) is Ok,
        ({
            let first = step(m, screen)->Ok_0;
            let out = step(first.machine, first.screen)->Ok_0;
            &&& out.screen.len() == screen.len()
            &&& forall|k: int|
                0 <= k < screen.len() ==> out.screen[k] == out.machine.bg.packed()
        }),
{
    let first = step(m, screen)->Ok_0;
    assert(first.machine.fetch() == m.next().fetch());
}

/// A sprite whose pixels are all transparent leaves the display as it
/// was and collides with nothing.
pub proof fn law_transparent_sprite(s: Sprite, memory: Seq<u8>, screen: Seq<u32>, background: u32)
    requires
        forall|c: int, r: int|
            0 <= c < 2 * s.width && 0 <= r < s.height ==> #[trigger] s.pixel(memory, c, r) == 0,
    ensures
        s.draw(memory, screen) == screen,
        !s.collides(memory, screen, background),
{
    assert forall|col: int, row: int| #[trigger] s.index_at(memory, col, row) == 0 by {
        if s.covers(col, row) {
            assert(s.pixel(memory, col - s.x, row - s.y) == 0);
        }
    }
    assert(s.draw(memory, screen) =~= screen);
}

/// Clipping drops only what is off the display. Each opaque pixel of the
/// sprite that falls on the display is shown in its cell; each cell on
/// which the sprite puts no opaque pixel keeps its value; and the display
/// keeps its size.
pub proof fn law_sprite_clipping(s: Sprite, memory: Seq<u8>, screen: Seq<u32>)
    requires
        screen.len() == CELLS,
    ensures
        s.draw(memory, screen).len() == screen.len(),
        forall|c: int, r: int|
            0 <= c < 2 * s.width && 0 <= r < s.height && on_grid(s.x + c, s.y + r) && #[trigger] s.pixel(
                memory,
                c,
                r,
            ) != 0 ==> s.draw(memory, screen)[(s.y + r) * WIDTH + (s.x + c)] == Color::of_index(
                s.pixel(memory, c, r),
            ).packed(),
        forall|k: int|
            0 <= k < CELLS && s.index_at(memory, k % (WIDTH as int), k / (WIDTH as int)) == 0
                ==> #[trigger] s.draw(memory, screen)[k] == screen[k],
{
    assert forall|c: int, r: int|
        0 <= c < 2 * s.width && 0 <= r < s.height && on_grid(s.x + c, s.y + r) && #[trigger] s.pixel(
            memory,
            c,
            r,
        ) != 0 implies s.draw(memory, screen)[(s.y + r) * WIDTH + (s.x + c)] == Color::of_index(
        s.pixel(memory, c, r),
    ).packed() by {
        let col = s.x + c;
        let row = s.y + r;
        let k = row * WIDTH + col;
        assert(k % (WIDTH as int) == col && k / (WIDTH as int) == row);
        assert(s.covers(col, row));
        assert(s.draw(memory, screen)[k] == s.drawn_cell(memory, screen, k));
    }
}

/// DRW draws the sprite that the instruction and the machine describe,
/// reports its collision in the carry flag, and changes nothing else but
/// the program counter.
pub proof fn law_drw(m: Machine, screen: Seq<u32>)
    requires
        m.fetch().opcode == DRW,
    ensures
        step(m, screen) is Ok,
        ({
            let out = step(m, screen)->Ok_0;
            let sprite = m.sprite(m.fetch());
            &&& out.screen == sprite.draw(m.memory, screen)
            &&& out.machine.flags.carry == sprite.collides(m.memory, screen, m.bg.packed())
            &&& out.machine.flags.zero == m.flags.zero
            &&& out.machine.flags.overflow == m.flags.overflow
            &&& out.machine.flags.negative == m.flags.negative
            &&& out.machine.regs == m.regs
            &&& out.machine.memory == m.memory
        }),
{
}

/// SPR sets the size that the next DRW draws with: the width is the third
/// byte of the instruction and the height the fourth.
pub proof fn law_spr(m: Machine, screen: Seq<u32>, drw: Instruction)
    requires
        m.fetch().opcode == SPR,
    ensures
        step(m, screen) is Ok,
        step(m, screen)->Ok_0.screen == screen,
        step(m, screen)->Ok_0.machine.sprite(drw).width == m.fetch().ll,
        step(m, screen)->Ok_0.machine.sprite(drw).height == m.fetch().hh,
{
}

/// No instruction writes memory or moves the stack pointer, and every
/// instruction keeps memory and register file at their sizes.
pub proof fn law_step_keeps(m: Machine, screen: Seq<u32>)
    requires
        m.wf(),
        step(m, screen) is Ok,
    ensures
        step(m, screen)->Ok_0.machine.wf(),
        step(m, screen)->Ok_0.machine.memory == m.memory,
        step(m, screen)->Ok_0.machine.sp == m.sp,
        step(m, screen)->Ok_0.screen.len() == screen.len(),
{
}

/// No instruction sets the vertical-blank latch, and only VBLNK clears
/// it.
pub proof fn law_latch(m: Machine, screen: Seq<u32>)
    requires
        step(m, screen) is Ok,
    ensures
        step(m, screen)->Ok_0.machine.vblank ==> m.vblank,
        m.vblank && !step(m, screen)->Ok_0.machine.vblank ==> m.fetch().opcode == VBLNK,
{
}

/// An instruction faults exactly when its opcode names no operation, or
/// when it is a Jcc whose selector names no condition.
pub proof fn law_faults(m: Machine, screen: Seq<u32>)
    ensures
        step(m, screen) is Err <==> (!is_operation(m.fetch().opcode) || (m.fetch().opcode == JCC
            && m.fetch().x_spec() != COND_ZERO && m.fetch().x_spec() != COND_CARRY)),
{
}

} // verus!
