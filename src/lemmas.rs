//! Facts about the engine that follow from its step and execute semantics.
use vstd::prelude::*;

use crate::instructions::{decoded, DecodeError, Instruction};
use crate::interpreter::{
    collides, executes, is_blank, next_pc, opcode_at, sprite_covers, sprite_x, sprite_y, steps,
    Display, VirtualMachine, DISPLAY_HEIGHT, DISPLAY_WIDTH, FLAG_REG, MEM_SIZE, NUM_REG,
};

verus! {

/// A step whose word decodes to NOP changes nothing but the program counter,
/// which moves two bytes on (wrapping at the end of memory), and reports no
/// display update.
pub proof fn lemma_nop_only_advances_pc(
    pre: VirtualMachine,
    post: VirtualMachine,
    r: Result<Option<Display>, DecodeError>,
)
    requires
        steps(pre, post, r),
        decoded(opcode_at(pre.memory, pre.pc).msb, opcode_at(pre.memory, pre.pc).lsb)
            == Ok::<Instruction, DecodeError>(Instruction::NOP),
    ensures
        post == (VirtualMachine { pc: next_pc(pre.pc), ..pre }),
        pre.pc + 2 < MEM_SIZE ==> post.pc == pre.pc + 2,
        r == Ok::<Option<Display>, DecodeError>(None),
{
}

/// Clearing the screen turns every pixel off, whatever was shown before, and
/// reports the cleared display.
pub proof fn lemma_cls_blanks_display(
    pre: VirtualMachine,
    post: VirtualMachine,
    out: Option<Display>,
)
    requires
        executes(pre, Instruction::CLS, post, out),
    ensures
        is_blank(post.display),
        forall|r: int, c: int|
            0 <= r < DISPLAY_HEIGHT && 0 <= c < DISPLAY_WIDTH ==> !#[trigger] post.display[r][c],
        out == Some(post.display),
{
}

/// A step that runs a jump leaves the program counter at the jump's address
/// exactly, not at an offset from the counter it started with.
pub proof fn lemma_jump_is_absolute(
    pre: VirtualMachine,
    post: VirtualMachine,
    r: Result<Option<Display>, DecodeError>,
    addr: u16,
)
    requires
        steps(pre, post, r),
        decoded(opcode_at(pre.memory, pre.pc).msb, opcode_at(pre.memory, pre.pc).lsb)
            == Ok::<Instruction, DecodeError>(Instruction::JP(addr)),
    ensures
        post.pc == addr,
        r == Ok::<Option<Display>, DecodeError>(None),
{
}

/// Loading an immediate into a register and then adding another leaves the
/// register at the first value after the load, and at the sum modulo 256
/// after the add; no other register changes, the flag register included.
pub proof fn lemma_load_then_add_wraps(
    s0: VirtualMachine,
    s1: VirtualMachine,
    s2: VirtualMachine,
    o1: Option<Display>,
    o2: Option<Display>,
    x: u8,
    k1: u8,
    k2: u8,
)
    requires
        x < NUM_REG,
        executes(s0, Instruction::LD(x, k1), s1, o1),
        executes(s1, Instruction::ADD(x, k2), s2, o2),
    ensures
        s1.registers[x as int] == k1,
        s2.registers[x as int] == (k1 + k2) % 256,
        forall|j: int| 0 <= j < NUM_REG && j != x ==> #[trigger] s2.registers[j] == s0.registers[j],
        o1 is None,
        o2 is None,
{
    assert(s1.registers[x as int] == s1.registers@[x as int]);
    assert(s2.registers[x as int] == s2.registers@[x as int]);
    assert forall|j: int| 0 <= j < NUM_REG && j != x implies #[trigger] s2.registers[j]
        == s0.registers[j] by {
        assert(s2.registers[j] == s2.registers@[j]);
        assert(s1.registers[j] == s1.registers@[j]);
        assert(s0.registers[j] == s0.registers@[j]);
    }
}

/// Drawing the same sprite twice at the same place, with nothing in between,
/// gives back the display it started from. The second draw sets the flag
/// exactly when the sprite has a set bit over a pixel that was off before the
/// first draw (the first draw lit it, the second turns it off). The position
/// registers must not be the flag register, which the first draw rewrites.
pub proof fn lemma_draw_twice_restores(
    s0: VirtualMachine,
    s1: VirtualMachine,
    s2: VirtualMachine,
    o1: Option<Display>,
    o2: Option<Display>,
    x: u8,
    y: u8,
    n: u8,
)
    requires
        x < NUM_REG,
        y < NUM_REG,
        x != FLAG_REG,
        y != FLAG_REG,
        executes(s0, Instruction::DRW(x, y, n), s1, o1),
        executes(s1, Instruction::DRW(x, y, n), s2, o2),
    ensures
        s2.display == s0.display,
        s2 == (VirtualMachine { registers: s2.registers, ..s0 }),
        s2.registers[FLAG_REG as int] == (if exists|r: int, c: int|
            0 <= r < DISPLAY_HEIGHT && 0 <= c < DISPLAY_WIDTH && !#[trigger] s0.display[r][c]
                && sprite_covers(
                s0.memory,
                s0.mar,
                sprite_x(s0, x),
                sprite_y(s0, y),
                n as int,
                r,
                c,
            ) {
            1u8
        } else {
            0u8
        }),
        forall|j: int|
            0 <= j < NUM_REG && j != FLAG_REG ==> #[trigger] s2.registers[j] == s0.registers[j],
{
    assert(s1.registers[x as int] == s1.registers@[x as int]);
    assert(s0.registers[x as int] == s0.registers@[x as int]);
    assert(s1.registers[y as int] == s1.registers@[y as int]);
    assert(s0.registers[y as int] == s0.registers@[y as int]);
    assert(sprite_x(s1, x) == sprite_x(s0, x));
    assert(sprite_y(s1, y) == sprite_y(s0, y));
    let x0 = sprite_x(s0, x);
    let y0 = sprite_y(s0, y);
    assert forall|r: int| 0 <= r < DISPLAY_HEIGHT implies s2.display[r] == s0.display[r] by {
        assert(s2.display[r] =~= s0.display[r]);
    }
    assert(s2.display =~= s0.display);
    if collides(s1.display, s1.memory, s1.mar, x0, y0, n as int) {
        let (r, c) = choose|r: int, c: int|
            0 <= r < DISPLAY_HEIGHT && 0 <= c < DISPLAY_WIDTH && #[trigger] s1.display[r][c]
                && sprite_covers(s1.memory, s1.mar, x0, y0, n as int, r, c);
        assert(!s0.display[r][c]);
    } else {
        assert forall|r: int, c: int|
            0 <= r < DISPLAY_HEIGHT && 0 <= c < DISPLAY_WIDTH && sprite_covers(
                s0.memory,
                s0.mar,
                x0,
                y0,
                n as int,
                r,
                c,
            ) implies #[trigger] s0.display[r][c] by {
            assert(!s1.display[r][c]);
        }
    }
    assert(s2.registers[FLAG_REG as int] == s2.registers@[FLAG_REG as int]);
    assert forall|j: int| 0 <= j < NUM_REG && j != FLAG_REG implies #[trigger] s2.registers[j]
        == s0.registers[j] by {
        assert(s2.registers[j] == s2.registers@[j]);
        assert(s1.registers[j] == s1.registers@[j]);
        assert(s0.registers[j] == s0.registers@[j]);
    }
}

} // verus!
