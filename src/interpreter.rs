//! The virtual machine engine: its state, and one fetch-decode-execute step.
use vstd::prelude::*;

use crate::instructions::{decoded, lemma_decode_total, DecodeError, Instruction, Opcode};
use crate::{Addr, Cell};

verus! {

/// Bytes of addressable memory.
pub const MEM_SIZE: usize = 4096;

/// Return addresses the call stack can hold.
pub const STACK_LIMIT: usize = 16;

/// General-purpose registers.
pub const NUM_REG: usize = 16;

/// Where program images are loaded, and where execution starts.
pub const PROGRAM_START: u16 = 0x200;

/// Nanoseconds in a second.
pub const NANOS_PER_SECOND: u64 = 1_000_000_000;

/// Columns of the display.
pub const DISPLAY_WIDTH: usize = 64;

/// Rows of the display.
pub const DISPLAY_HEIGHT: usize = 32;

/// The register that the draw instruction uses as its collision flag.
pub const FLAG_REG: usize = 0xF;

/// The monochrome display, addressed `[row][column]`, row 0 at the top;
/// `true` is a lit pixel.
pub type Display = [[bool; 64]; 32];

/// Which of the sixteen keys are held down.
pub type Keys = [bool; 16];

/// All state of the emulated machine.
#[derive(Debug, Clone, Copy)]
pub struct VirtualMachine {
    /// Addressable memory.
    pub memory: [Cell; MEM_SIZE],
    /// Program counter.
    pub pc: Addr,
    /// The registers V0 to VF.
    pub registers: [Cell; NUM_REG],
    /// The index register I, a base address for sprite reads.
    pub mar: Addr,
    /// Return addresses, reserved for call instructions.
    pub stack: [Addr; STACK_LIMIT],
    /// Depth of the call stack.
    pub stack_pointer: Cell,
    /// Delay timer.
    pub delay_timer: Cell,
    /// Sound timer.
    pub sound_timer: Cell,
    /// Display output.
    pub display: Display,
    /// Clock period, in nanoseconds.
    pub speed: u64,
}

/// Why a program image could not be loaded.
#[derive(Debug, Clone, Copy, PartialEq, Eq, Structural)]
pub enum LoadError {
    /// The image is longer than the memory above the load offset.
    TooLarge { len: usize, capacity: usize },
}

/// The memory above the load offset.
pub open spec fn program_capacity() -> int {
    MEM_SIZE - PROGRAM_START
}

/// The byte at address `a` after loading `program`: the image from the load
/// offset on, zero elsewhere.
pub open spec fn loaded_byte(program: Seq<u8>, a: int) -> u8 {
    if PROGRAM_START <= a < PROGRAM_START + program.len() {
        program[a - PROGRAM_START]
    } else {
        0
    }
}

/// Whether no pixel of `d` is lit.
pub open spec fn is_blank(d: Display) -> bool {
    forall|r: int, c: int| 0 <= r < DISPLAY_HEIGHT && 0 <= c < DISPLAY_WIDTH ==> !#[trigger] d[r][c]
}

/// The program counter two bytes on, wrapping at the end of memory.
pub open spec fn next_pc(pc: u16) -> u16 {
    ((pc as int + 2) % MEM_SIZE as int) as u16
}

/// The address `a` brought into memory.
pub open spec fn mem_addr(a: int) -> int {
    a % MEM_SIZE as int
}

/// The opcode stored at `pc`, most significant byte first.
pub open spec fn opcode_at(mem: [Cell; MEM_SIZE], pc: u16) -> Opcode {
    Opcode { msb: mem[mem_addr(pc as int)], lsb: mem[mem_addr(pc + 1)] }
}

/// Whether bit `k` of a sprite row is set, bit 0 being the leftmost.
pub open spec fn sprite_bit(row: u8, k: int) -> bool {
    row & (0x80u8 >> (k as u8)) != 0
}

/// Whether a sprite of height `n` read from `mar`, placed at column `x0` and
/// row `y0`, has a set bit over the screen cell (`r`, `c`).
pub open spec fn sprite_covers(
    mem: [Cell; MEM_SIZE],
    mar: Addr,
    x0: int,
    y0: int,
    n: int,
    r: int,
    c: int,
) -> bool {
    &&& y0 <= r < y0 + n
    &&& x0 <= c < x0 + 8
    &&& sprite_bit(mem[mem_addr(mar + r - y0)], c - x0)
}

/// The display after drawing: each covered cell of the screen is toggled,
/// the rest is kept. Cells off the screen do not exist, so the sprite clips.
pub open spec fn drawn(
    pre: Display,
    post: Display,
    mem: [Cell; MEM_SIZE],
    mar: Addr,
    x0: int,
    y0: int,
    n: int,
) -> bool {
    forall|r: int, c: int|
        0 <= r < DISPLAY_HEIGHT && 0 <= c < DISPLAY_WIDTH ==> #[trigger] post[r][c] == (pre[r][c]
            != sprite_covers(mem, mar, x0, y0, n, r, c))
}

/// Whether drawing turns off a pixel that was lit.
pub open spec fn collides(
    pre: Display,
    mem: [Cell; MEM_SIZE],
    mar: Addr,
    x0: int,
    y0: int,
    n: int,
) -> bool {
    exists|r: int, c: int|
        0 <= r < DISPLAY_HEIGHT && 0 <= c < DISPLAY_WIDTH && #[trigger] pre[r][c]
            && sprite_covers(mem, mar, x0, y0, n, r, c)
}

/// The top-left column of a sprite drawn from register `x`.
pub open spec fn sprite_x(vm: VirtualMachine, x: u8) -> int {
    vm.registers[x as int] as int % DISPLAY_WIDTH as int
}

/// The top-left row of a sprite drawn from register `y`.
pub open spec fn sprite_y(vm: VirtualMachine, y: u8) -> int {
    vm.registers[y as int] as int % DISPLAY_HEIGHT as int
}

/// Executing `i` on `pre` gives the state `post` and the display output `out`.
pub open spec fn executes(
    pre: VirtualMachine,
    i: Instruction,
    post: VirtualMachine,
    out: Option<Display>,
) -> bool {
    match i {
        Instruction::NOP => post == pre && out is None,
        Instruction::CLS => {
            &&& post == VirtualMachine { display: post.display, ..pre }
            &&& is_blank(post.display)
            &&& out == Some(post.display)
        },
        Instruction::JP(a) => post == VirtualMachine { pc: a, ..pre } && out is None,
        Instruction::LD(x, k) => {
            &&& post == VirtualMachine { registers: post.registers, ..pre }
            &&& post.registers@ == pre.registers@.update(x as int, k)
            &&& out is None
        },
        Instruction::ADD(x, k) => {
            &&& post == VirtualMachine { registers: post.registers, ..pre }
            &&& post.registers@ == pre.registers@.update(
                x as int,
                ((pre.registers[x as int] + k) % 256) as u8,
            )
            &&& out is None
        },
        Instruction::LDI(a) => post == VirtualMachine { mar: a, ..pre } && out is None,
        Instruction::DRW(x, y, n) => {
            let x0 = sprite_x(pre, x);
            let y0 = sprite_y(pre, y);
            &&& post == VirtualMachine { registers: post.registers, display: post.display, ..pre }
            &&& drawn(pre.display, post.display, pre.memory, pre.mar, x0, y0, n as int)
            &&& post.registers@ == pre.registers@.update(
                FLAG_REG as int,
                if collides(pre.display, pre.memory, pre.mar, x0, y0, n as int) {
                    1u8
                } else {
                    0u8
                },
            )
            &&& out == Some(post.display)
        },
    }
}

/// One step from `pre`: fetch the word at the program counter, advance the
/// counter, decode and execute. A word that does not decode leaves the state
/// as it was and is reported.
pub open spec fn steps(
    pre: VirtualMachine,
    post: VirtualMachine,
    r: Result<Option<Display>, DecodeError>,
) -> bool {
    let op = opcode_at(pre.memory, pre.pc);
    match decoded(op.msb, op.lsb) {
        Ok(i) => r matches Ok(out) && executes(
            VirtualMachine { pc: next_pc(pre.pc), ..pre },
            i,
            post,
            out,
        ),
        Err(e) => r == Err::<Option<Display>, DecodeError>(e) && post == pre,
    }
}

/// A display with no pixel lit.
pub fn empty_display() -> (d: Display)
    ensures
        is_blank(d),
{
    [[false; 64]; 32]
}

/// The clock period, in nanoseconds, of a clock that ticks `frequency` times a second.
pub fn speed_from_frequency(frequency: u32) -> (r: u64)
    requires
        frequency > 0,
    ensures
        r == NANOS_PER_SECOND / frequency as u64,
{
    NANOS_PER_SECOND / frequency as u64
}

impl VirtualMachine {
    /// Whether the state keeps the bounds its fields stand for.
    pub open spec fn wf(self) -> bool {
        &&& self.pc < MEM_SIZE
        &&& self.stack_pointer <= STACK_LIMIT
    }

    /// A machine with the given clock frequency, all memory, registers,
    /// timers and display cleared, and the program counter at the load offset.
    pub fn new(frequency: u32) -> (r: Self)
        requires
            frequency > 0,
        ensures
            r.wf(),
            forall|a: int| 0 <= a < MEM_SIZE ==> #[trigger] r.memory[a] == 0,
            forall|i: int| 0 <= i < NUM_REG ==> #[trigger] r.registers[i] == 0,
            forall|i: int| 0 <= i < STACK_LIMIT ==> #[trigger] r.stack[i] == 0,
            r.pc == PROGRAM_START,
            r.mar == 0,
            r.stack_pointer == 0,
            r.delay_timer == 0,
            r.sound_timer == 0,
            is_blank(r.display),
            r.speed == NANOS_PER_SECOND / frequency as u64,
    {
        Self {
            memory: [0; MEM_SIZE],
            mar: 0,
            pc: PROGRAM_START,
            registers: [0; NUM_REG],
            stack: [0; STACK_LIMIT],
            stack_pointer: 0,
            delay_timer: 0,
            sound_timer: 0,
            display: empty_display(),
            speed: speed_from_frequency(frequency),
        }
    }

    /// The clock period, in nanoseconds.
    pub fn speed(&self) -> (r: u64)
        ensures
            r == self.speed,
    {
        self.speed
    }

    /// Whether the buzzer sounds; no implemented instruction starts it.
    pub fn buzzer_active(&self) -> (r: bool)
        ensures
            !r,
    {
        false
    }

    /// Executes one decoded instruction; returns the display when the
    /// instruction is one that can change it (CLS and DRW), nothing otherwise.
    pub fn execute(&mut self, instruction: Instruction) -> (r: Option<Display>)
        requires
            instruction.wf(),
        ensures
            executes(*old(self), instruction, *final(self), r),
            old(self).wf() ==> final(self).wf(),
    {
        match instruction {
            Instruction::NOP => {},
            Instruction::CLS => {
                self.display = empty_display();
                return Some(self.display);
            },
            Instruction::JP(addr) => {
                self.pc = addr;
            },
            Instruction::LD(reg, data) => {
                self.registers[reg as usize] = data;
            },
            Instruction::ADD(reg, data) => {
                self.registers[reg as usize] = self.registers[reg as usize].wrapping_add(data);
            },
            Instruction::LDI(addr) => {
                self.mar = addr;
            },
            Instruction::DRW(x, y, n) => {
                self.draw(x, y, n);
                return Some(self.display);
            },
        }
        None
    }

    /// Runs one clock tick: fetches the word at the program counter, advances
    /// the counter, decodes the word and executes it. A word that does not
    /// decode is reported before anything changes. The keys are accepted for
    /// instructions that read them; none of the implemented ones does.
    pub fn step(&mut self, keys: &Keys) -> (r: Result<Option<Display>, DecodeError>)
        ensures
            steps(*old(self), *final(self), r),
            old(self).wf() ==> final(self).wf(),
    {
        let opcode = self.fetch();
        let instruction = match opcode.decode() {
            Ok(i) => i,
            Err(e) => return Err(e),
        };
        proof {
            lemma_decode_total(opcode.msb, opcode.lsb);
        }
        self.increment_pc();
        Ok(self.execute(instruction))
    }

    /// Copies a program image into memory at the load offset, clears the
    /// rest of memory and sets the program counter to the load offset. An
    /// image longer than the memory above the load offset is refused.
    pub fn load(self, program: &[u8]) -> (r: Result<Self, LoadError>)
        ensures
            program@.len() > program_capacity() <==> r is Err,
            r matches Err(e) ==> e == (LoadError::TooLarge {
                len: program@.len() as usize,
                capacity: program_capacity() as usize,
            }),
            r matches Ok(vm) ==> {
                &&& self.wf() ==> vm.wf()
                &&& vm == (VirtualMachine { memory: vm.memory, pc: PROGRAM_START, ..self })
                &&& forall|a: int|
                    0 <= a < MEM_SIZE ==> #[trigger] vm.memory[a] == loaded_byte(program@, a)
            },
    {
        let capacity = MEM_SIZE - PROGRAM_START as usize;
        if program.len() > capacity {
            return Err(LoadError::TooLarge { len: program.len(), capacity });
        }
        let mut memory = [0u8; MEM_SIZE];
        let mut i: usize = 0;
        while i < program.len()
            invariant
                program@.len() <= capacity,
                capacity == program_capacity(),
                i <= program@.len(),
                forall|a: int|
                    0 <= a < MEM_SIZE ==> #[trigger] memory[a] == (if a < PROGRAM_START + i {
                        loaded_byte(program@, a)
                    } else {
                        0
                    }),
            decreases program@.len() - i,
        {
            memory[PROGRAM_START as usize + i] = program[i];
            i += 1;
        }
        let mut vm = self;
        vm.memory = memory;
        vm.pc = PROGRAM_START;
        Ok(vm)
    }

    /// Advances the program counter by one instruction, wrapping at the end of memory.
    fn increment_pc(&mut self)
        ensures
            *final(self) == (VirtualMachine { pc: next_pc(old(self).pc), ..*old(self) }),
    {
        self.pc = ((self.pc as u32 + 2) % MEM_SIZE as u32) as u16;
    }

    /// Draws the `n`-byte sprite at the index register with its top-left corner
    /// at (`registers[x]` mod 64, `registers[y]` mod 32), toggling each pixel
    /// under a set bit and clipping at the screen edges; the flag register
    /// becomes 1 if a lit pixel was turned off, 0 otherwise.
    fn draw(&mut self, x: u8, y: u8, n: u8)
        requires
            x < NUM_REG,
            y < NUM_REG,
        ensures
            *final(self) == (VirtualMachine {
                registers: final(self).registers,
                display: final(self).display,
                ..*old(self)
            }),
            drawn(
                old(self).display,
                final(self).display,
                old(self).memory,
                old(self).mar,
                sprite_x(*old(self), x),
                sprite_y(*old(self), y),
                n as int,
            ),
            final(self).registers@ == old(self).registers@.update(
                FLAG_REG as int,
                if collides(
                    old(self).display,
                    old(self).memory,
                    old(self).mar,
                    sprite_x(*old(self), x),
                    sprite_y(*old(self), y),
                    n as int,
                ) {
                    1u8
                } else {
                    0u8
                },
            ),
    {
        let ghost pre = *self;
        let tlx: usize = (self.registers[x as usize] % 64) as usize;
        let tly: usize = (self.registers[y as usize] % 32) as usize;
        let ghost x0 = tlx as int;
        let ghost y0 = tly as int;
        let mut collided = false;
        let mut i: usize = 0;
        while i < n as usize && tly + i < DISPLAY_HEIGHT
            invariant
                x0 == sprite_x(pre, x),
                y0 == sprite_y(pre, y),
                tlx == x0,
                tly == y0,
                tlx < DISPLAY_WIDTH,
                tly < DISPLAY_HEIGHT,
                i <= n,
                *self == (VirtualMachine { display: self.display, ..pre }),
                forall|r: int, c: int|
                    0 <= r < DISPLAY_HEIGHT && 0 <= c < DISPLAY_WIDTH ==> #[trigger] self.display[r][c]
                        == (pre.display[r][c] != (r < y0 + i && sprite_covers(
                        pre.memory,
                        pre.mar,
                        x0,
                        y0,
                        n as int,
                        r,
                        c,
                    ))),
                collided == exists|r: int, c: int|
                    0 <= r < DISPLAY_HEIGHT && 0 <= c < DISPLAY_WIDTH && r < y0 + i
                        && #[trigger] pre.display[r][c] && sprite_covers(
                        pre.memory,
                        pre.mar,
                        x0,
                        y0,
                        n as int,
                        r,
                        c,
                    ),
            decreases n - i,
        {
            let pxy = tly + i;
            let row = self.memory[(self.mar as usize + i) % MEM_SIZE];
            let mut line = self.display[pxy];
            let ghost collided_before = collided;
            let mut j: usize = 0;
            while j < 8 && tlx + j < DISPLAY_WIDTH
                invariant
                    tlx == x0,
                    tly == y0,
                    tlx < DISPLAY_WIDTH,
                    pxy == y0 + i,
                    pxy < DISPLAY_HEIGHT,
                    i < n,
                    j <= 8,
                    row == pre.memory[mem_addr(pre.mar + i)],
                    forall|c: int|
                        0 <= c < DISPLAY_WIDTH ==> #[trigger] line[c] == (pre.display[pxy as int][c]
                            != (c < x0 + j && sprite_covers(
                            pre.memory,
                            pre.mar,
                            x0,
                            y0,
                            n as int,
                            pxy as int,
                            c,
                        ))),
                    collided == (collided_before || exists|c: int|
                        0 <= c < DISPLAY_WIDTH && c < x0 + j && #[trigger] pre.display[pxy as int][c]
                            && sprite_covers(pre.memory, pre.mar, x0, y0, n as int, pxy as int, c)),
                decreases 8 - j,
            {
                let pxx = tlx + j;
                if row & (0x80u8 >> (j as u8)) != 0 {
                    if line[pxx] {
                        collided = true;
                    }
                    line[pxx] = !line[pxx];
                }
                j += 1;
            }
            self.display[pxy] = line;
            i += 1;
        }
        self.registers[FLAG_REG] = if collided {
            1
        } else {
            0
        };
    }

    /// The opcode at the program counter.
    fn fetch(&self) -> (r: Opcode)
        ensures
            r == opcode_at(self.memory, self.pc),
    {
        let at = self.pc as usize % MEM_SIZE;
        let next = (self.pc as usize + 1) % MEM_SIZE;
        Opcode::new(self.memory[at], self.memory[next])
    }
}

} // verus!
