//! The two entry programs, each driven through the shared life cycle: the
//! hand-off program, which ignores what the boot loader gives it, and the
//! console program, which writes the greeting before it halts.

use vstd::prelude::*;
use crate::console::{ByteWrite, TextBuffer};
use crate::machine::{lemma_halted_is_terminal, next_phase, next_spec, run_events, Event, Phase};
use crate::vga_text::{hello_spec, print_hello_world, rendered, write_sequence, HELLO_LEN};

verus! {

/// Declares `bootloader::BootInfo`, the structure that the boot loader passes
/// at hand-off, as opaque: nothing is assumed of it, since it is carried and
/// never read.
#[verifier::external_type_specification]
#[verifier::external_body]
pub struct ExBootInfo(bootloader::BootInfo);

/// The hand-off entry: takes the boot information, does nothing with it,
/// and ends in the idle spin.
pub fn kernel_main(boot_info: &bootloader::BootInfo) -> (r: Phase)
    ensures
        r == run_events(Phase::Initializing, seq![Event::HandOff, Event::BodyDone]),
        r == Phase::Halted,
{
    let p = next_phase(Phase::Initializing, Event::HandOff);
    let p = next_phase(p, Event::BodyDone);
    proof {
        lemma_handoff_run();
    }
    p
}

/// What an observer sees of the console program: its phase, the console's
/// bytes and the writes made to it.
pub struct ConsoleState {
    pub phase: Phase,
    pub cells: Seq<u8>,
    pub writes: Seq<ByteWrite>,
}

/// One scheduler tick of the console program: the hand-off starts it, the
/// next tick runs its body, and after that nothing changes.
pub open spec fn console_step(s: ConsoleState) -> ConsoleState {
    match s.phase {
        Phase::Initializing => ConsoleState { phase: Phase::Running, ..s },
        Phase::Running => ConsoleState {
            phase: Phase::Halted,
            cells: rendered(s.cells, hello_spec()),
            writes: s.writes + write_sequence(hello_spec()),
        },
        Phase::Halted => s,
    }
}

/// The state after `n` ticks from `s`.
pub open spec fn console_steps(s: ConsoleState, n: nat) -> ConsoleState
    decreases n,
{
    if n == 0 {
        s
    } else {
        console_steps(console_step(s), (n - 1) as nat)
    }
}

/// The console program: its phase and the console it writes to.
#[derive(Debug)]
pub struct ConsoleProgram {
    phase: Phase,
    screen: TextBuffer,
}

impl ConsoleProgram {
    /// The observable state.
    pub closed spec fn state(&self) -> ConsoleState {
        ConsoleState { phase: self.phase, cells: self.screen.cells(), writes: self.screen.writes() }
    }

    /// The console holds at least the greeting's cells.
    pub open spec fn wf(&self) -> bool {
        2 * HELLO_LEN <= self.state().cells.len()
    }

    /// A program not yet started, bound to `screen`.
    pub fn new(screen: TextBuffer) -> (r: ConsoleProgram)
        requires
            2 * HELLO_LEN <= screen.cells().len(),
        ensures
            r.wf(),
            r.state() == (ConsoleState {
                phase: Phase::Initializing,
                cells: screen.cells(),
                writes: screen.writes(),
            }),
    {
        ConsoleProgram { phase: Phase::Initializing, screen }
    }

    /// The current phase.
    pub fn phase(&self) -> (r: Phase)
        ensures
            r == self.state().phase,
    {
        self.phase
    }

    /// The console as it stands.
    pub fn screen(&self) -> (r: &TextBuffer)
        ensures
            r.cells() == self.state().cells,
            r.writes() == self.state().writes,
    {
        &self.screen
    }

    /// One scheduler tick.
    pub fn step(&mut self)
        requires
            old(self).wf(),
        ensures
            final(self).wf(),
            final(self).state() == console_step(old(self).state()),
    {
        match self.phase {
            Phase::Initializing => {
                self.phase = next_phase(self.phase, Event::HandOff);
            },
            Phase::Running => {
                print_hello_world(&mut self.screen);
                self.phase = next_phase(self.phase, Event::BodyDone);
            },
            Phase::Halted => {},
        }
    }

    /// A fault: the program goes to the idle spin, the console as it is.
    pub fn fault(&mut self)
        requires
            old(self).wf(),
        ensures
            final(self).wf(),
            final(self).state() == (ConsoleState { phase: Phase::Halted, ..old(self).state() }),
            final(self).state().phase == next_spec(old(self).state().phase, Event::Fault),
    {
        self.phase = next_phase(self.phase, Event::Fault);
    }
}

/// The console entry: starts the program on `screen` and drives it until it
/// halts, which takes two ticks, the hand-off and the body.
pub fn start(screen: TextBuffer) -> (r: ConsoleProgram)
    requires
        2 * HELLO_LEN <= screen.cells().len(),
    ensures
        r.wf(),
        r.state() == console_steps(
            ConsoleState { phase: Phase::Initializing, cells: screen.cells(), writes: screen.writes() },
            2,
        ),
        r.state().phase == Phase::Halted,
        r.state().cells == rendered(screen.cells(), hello_spec()),
        r.state().writes == screen.writes() + write_sequence(hello_spec()),
{
    let ghost init = ConsoleState {
        phase: Phase::Initializing,
        cells: screen.cells(),
        writes: screen.writes(),
    };
    let mut program = ConsoleProgram::new(screen);
    program.step();
    program.step();
    proof {
        lemma_two_steps(init);
    }
    program
}

/// Once halted, the console program stays exactly as it is, however many
/// ticks go by: no phase change, no byte changed, no write made.
pub proof fn lemma_idle_after_halt(s: ConsoleState, n: nat)
    requires
        s.phase == Phase::Halted,
    ensures
        console_steps(s, n) == s,
    decreases n,
{
    if n > 0 {
        lemma_idle_after_halt(console_step(s), (n - 1) as nat);
    }
}

/// Neither entry program ever gives control back: from the hand-off on,
/// the console program is halted after its body and at every later tick,
/// and the hand-off program, once halted, stays so whatever happens.
pub proof fn lemma_entries_never_return(cells: Seq<u8>, writes: Seq<ByteWrite>, n: nat, events: Seq<Event>)
    requires
        n >= 2,
    ensures
        console_steps(ConsoleState { phase: Phase::Initializing, cells, writes }, n).phase == Phase::Halted,
        console_steps(ConsoleState { phase: Phase::Initializing, cells, writes }, n)
            == console_steps(ConsoleState { phase: Phase::Initializing, cells, writes }, 2),
        run_events(run_events(Phase::Initializing, seq![Event::HandOff, Event::BodyDone]), events)
            == Phase::Halted,
{
    let init = ConsoleState { phase: Phase::Initializing, cells, writes };
    let halted = console_step(console_step(init));
    lemma_two_steps(init);
    lemma_idle_after_halt(halted, (n - 2) as nat);
    assert(console_steps(init, n) == console_steps(console_step(init), (n - 1) as nat));
    assert(console_steps(console_step(init), (n - 1) as nat) == console_steps(halted, (n - 2) as nat));
    lemma_handoff_run();
    lemma_halted_is_terminal(events);
}

proof fn lemma_handoff_run()
    ensures
        run_events(Phase::Initializing, seq![Event::HandOff, Event::BodyDone]) == Phase::Halted,
{
    let evs = seq![Event::HandOff, Event::BodyDone];
    let rest = seq![Event::BodyDone];
    assert(evs.drop_first() =~= rest);
    assert(rest.drop_first() =~= Seq::<Event>::empty());
    assert(run_events(Phase::Halted, rest.drop_first()) == Phase::Halted);
    assert(run_events(Phase::Running, rest) == Phase::Halted);
}

proof fn lemma_two_steps(s: ConsoleState)
    ensures
        console_steps(s, 2) == console_step(console_step(s)),
{
    assert(console_steps(console_step(console_step(s)), 0) == console_step(console_step(s)));
    assert(console_steps(console_step(s), 1) == console_steps(console_step(console_step(s)), 0));
}

} // verus!
