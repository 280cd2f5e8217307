use vstd::prelude::*;
use crate::bus::{Bus, BusView};
use crate::cpu::Cpu;
use crate::cpu_spec::CpuView;
use crate::interrupts::Interrupt;
use crate::joypad::Joypad;

verus! {

/// T-cycles in one frame (154 lines of 456).
pub const CYCLES_PER_FRAME: u32 = 70224;

/// T-cycles that dispatching an interrupt takes.
pub const DISPATCH_CYCLES: u8 = 20;

/// Whether `check_interrupts` will dispatch an interrupt from state `s`.
pub open spec fn dispatch_due(s: CpuView) -> bool {
    s.ime && s.pending() != 0
}

#[verifier::opaque]
/// One instruction, the bus ticked by its cost, then interrupt handling
/// (a dispatch being ticked and counted too). Yields the T-cycles spent.
pub open spec fn instr_cycle(s: CpuView) -> (CpuView, u32) {
    let (s1, c) = s.step_spec();
    let s2 = CpuView { bus: s1.bus.tick_spec(c), ..s1 };
    let s3 = s2.interrupt_spec();
    if dispatch_due(s2) {
        (CpuView { bus: s3.bus.tick_spec(DISPATCH_CYCLES), ..s3 }, (c + DISPATCH_CYCLES) as u32)
    } else {
        (s3, c as u32)
    }
}

/// The state once instruction cycles have been run from `s`, `done` T-cycles
/// into the frame, until the frame's budget is spent.
#[verifier::opaque]
pub open spec fn frame_from(s: CpuView, done: nat) -> CpuView
    decreases CYCLES_PER_FRAME - done,
{
    if done >= CYCLES_PER_FRAME {
        s
    } else {
        let (t, c) = instr_cycle(s);
        if c == 0 {
            t
        } else if done + c >= CYCLES_PER_FRAME {
            t
        } else {
            frame_from(t, (done + c) as nat)
        }
    }
}

/// Runs instruction cycles until at least one frame's worth of T-cycles has
/// elapsed; returns the T-cycles spent.
pub fn run_frame(cpu: &mut Cpu) -> (cycles: u32)
    requires
        old(cpu).wf(),
    ensures
        final(cpu).wf(),
        final(cpu).view() == frame_from(old(cpu).view(), 0),
        cycles >= CYCLES_PER_FRAME,
{
    let mut done: u32 = 0;
    while done < CYCLES_PER_FRAME
        invariant
            cpu.wf(),
            done <= CYCLES_PER_FRAME + 44,
            frame_from(old(cpu).view(), 0) == frame_from(cpu.view(), done as nat),
        decreases CYCLES_PER_FRAME + 44 - done,
    {
        let ghost s = cpu.view();
        let c = run_instruction(cpu);
        proof {
            reveal(frame_from);
        }
        if c == 0 {
            return CYCLES_PER_FRAME;
        }
        done = done + c;
    }
    proof {
        reveal(frame_from);
    }
    done
}

/// One instruction cycle: `step`, `Bus::tick`, `check_interrupts`.
pub fn run_instruction(cpu: &mut Cpu) -> (cycles: u32)
    requires
        old(cpu).wf(),
    ensures
        final(cpu).wf(),
        (final(cpu).view(), cycles) == instr_cycle(old(cpu).view()),
        cycles <= 44,
{
    proof {
        reveal(instr_cycle);
    }
    let c = cpu.step();
    cpu.bus.tick(c);
    let due = cpu.ime && (cpu.bus.int_flag & cpu.bus.ie_reg & 0x1F) != 0;
    cpu.check_interrupts();
    if due {
        cpu.bus.tick(DISPATCH_CYCLES);
        c as u32 + DISPATCH_CYCLES as u32
    } else {
        c as u32
    }
}

/// Hands the host's held buttons (bit 0 Right, 1 Left, 2 Up, 3 Down, 4 A,
/// 5 B, 6 Select, 7 Start) to the joypad, requesting the Joypad interrupt when
/// a key of a selected group goes down.
pub fn apply_buttons(bus: &mut Bus, held: u8)
    requires
        old(bus).wf(),
    ensures
        final(bus).wf(),
        forall|i: u8| i < 8 ==> #[trigger] final(bus).joypad.button(i) == ((held >> i) & 1 == 1),
        final(bus).joypad.select_dpad == old(bus).joypad.select_dpad,
        final(bus).joypad.select_buttons == old(bus).joypad.select_buttons,
        final(bus).view() == (BusView {
            joypad: final(bus).joypad,
            iflag: final(bus).int_flag,
            ..old(bus).view()
        }),
        final(bus).int_flag == (if newly_pressed(old(bus).joypad, held) {
            old(bus).int_flag | 0x10
        } else {
            old(bus).int_flag
        }),
{
    let mut bit: u8 = 0;
    let mut raised = false;
    let ghost j0 = bus.joypad;
    let ghost b0 = bus.view();
    while bit < 8
        invariant
            bit <= 8,
            bus.wf(),
            forall|i: u8| i < bit ==> #[trigger] bus.joypad.button(i) == ((held >> i) & 1 == 1),
            forall|i: u8| bit <= i ==> #[trigger] bus.joypad.button(i) == j0.button(i),
            bus.joypad.select_dpad == j0.select_dpad,
            bus.joypad.select_buttons == j0.select_buttons,
            bus.view() == (BusView { joypad: bus.joypad, ..b0 }),
            raised == exists|i: u8| i < bit && #[trigger] pressed_now(j0, held, i),
        decreases 8 - bit,
    {
        let pressed = (held >> bit) & 1 == 1;
        let irq = bus.joypad.set_button(bit, pressed);
        if irq {
            raised = true;
        }
        proof {
            if irq {
                assert(pressed_now(j0, held, bit));
            }
            if !irq {
                assert(!pressed_now(j0, held, bit));
            }
        }
        bit = bit + 1;
    }
    if raised {
        bus.request_interrupt(Interrupt::Joypad);
    }
}

/// Whether host button `i` goes from released to held while its group is selected.
pub open spec fn pressed_now(j: Joypad, held: u8, i: u8) -> bool {
    i < 8 && !j.button(i) && (held >> i) & 1 == 1 && j.group_selected(i)
}

pub open spec fn newly_pressed(j: Joypad, held: u8) -> bool {
    exists|i: u8| i < 8 && #[trigger] pressed_now(j, held, i)
}

} // verus!
