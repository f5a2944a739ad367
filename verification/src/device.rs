//! The device: the processor and the bus under one scheduler, with the
//! lifecycle that a frontend drives through events.
use vstd::prelude::*;
use crate::cpu::machine::reached;
use crate::cpu::machine::Machine;
use crate::cpu::opcodes::Opcode;
use crate::cpu::CentralProcessor;
use crate::fault::Fault;
use crate::frontend::Event;
use crate::frontend::KeyCode;
use crate::joypad::Joypad;
use crate::memory::bus_reset;
use crate::memory::header_region;
use crate::memory::load_error;
use crate::memory::BusView;
use crate::memory::MemoryMap;
use crate::types::address::Address;
use crate::types::byte::Byte;
use crate::types::cartrige::header_fields_match;
use crate::types::cartrige::CartrigeHeader;
use crate::types::cartrige::LoadError;

verus! {

/// The three substates of the scheduler.
#[derive(Clone, Copy, Debug, PartialEq, Eq, Structural)]
pub enum DeviceState {
    /// No ticks; waiting for a cartridge or a command.
    Stopped,
    /// Ticking.
    Running,
    /// No ticks; the state is kept.
    Paused,
}

/// What the caller has to do after an event was handled: the work that
/// needs the outside world.
#[derive(Clone, Debug)]
pub enum Action {
    /// Nothing.
    Proceed,
    /// Read the file at the path and hand its bytes to `load_cartrige`.
    Load(String),
    /// End the process.
    Exit,
    /// The event asks for something that the core does not offer.
    Unsupported,
}

/// The device.
#[derive(Debug)]
pub struct Device {
    pub cpu: CentralProcessor,
    pub mmap: MemoryMap,
    pub cartrige: Option<CartrigeHeader>,
    pub state: DeviceState,
    /// The path of the cartridge that was last asked for.
    pub rom_path: Option<String>,
}

/// The joypad after each of `keys` in turn was pressed or released.
pub open spec fn with_keys(pad: Joypad, keys: Seq<KeyCode>, pressed: bool) -> Joypad
    decreases keys.len(),
{
    if keys.len() == 0 {
        pad
    } else {
        with_keys(pad, keys.drop_last(), pressed).with_key(keys.last(), pressed)
    }
}

impl Machine {
    /// The outcome of one tick of the device: the processor ticks, and if
    /// it does not fault the devices on the bus follow.
    pub open spec fn ticked(self) -> (Machine, Result<(), Fault>) {
        match self.cycled() {
            (next, Ok(_)) => (Machine { bus: next.bus.ticked(), ..next }, Ok(())),
            (next, Err(fault)) => (next, Err(fault)),
        }
    }

    /// The machine after `n` ticks of the device without a fault.
    pub open spec fn ticked_times(self, n: nat) -> Machine
        decreases n,
    {
        if n == 0 {
            self
        } else {
            self.ticked().0.ticked_times((n - 1) as nat)
        }
    }

    /// Whether each of the first `n` ticks from here goes without a fault.
    pub open spec fn ticks_cleanly(self, n: nat) -> bool
        decreases n,
    {
        n == 0 || (self.ticked().1 is Ok && self.ticked().0.ticks_cleanly((n - 1) as nat))
    }
}

impl Device {
    /// The processor and the bus as one machine.
    pub open spec fn machine(&self) -> Machine {
        Machine::of(self.cpu, self.mmap)
    }

    /// The bus is in order.
    pub open spec fn wf(&self) -> bool {
        self.mmap.wf()
    }

    /// A device after reset: processor and bus in their reset states, no
    /// cartridge, stopped.
    pub fn new() -> (out: Device)
        ensures
            out.wf(),
            out.cpu == CentralProcessor::reset(),
            out.mmap@ == bus_reset(),
            out.cartrige is None,
            out.state == DeviceState::Stopped,
            out.rom_path is None,
    {
        Device {
            cpu: CentralProcessor::new(),
            mmap: MemoryMap::new(),
            cartrige: None,
            state: DeviceState::Stopped,
            rom_path: None,
        }
    }

    /// Tests the state invariant.
    pub fn is_valid(&self) -> (out: bool)
        ensures
            out == self.wf(),
    {
        self.mmap.is_valid()
    }

    /// Rebuilds every component but keeps the path of the cartridge, which
    /// is handed back so that it can be loaded again.
    pub fn reset(&mut self) -> (out: Option<String>)
        ensures
            final(self).wf(),
            final(self).cpu == CentralProcessor::reset(),
            final(self).mmap@ == bus_reset(),
            final(self).cartrige is None,
            final(self).state == DeviceState::Stopped,
            final(self).rom_path == old(self).rom_path,
            out == old(self).rom_path,
    {
        let path = self.rom_path.take();
        let out = path.clone();
        *self = Device::new();
        self.rom_path = path;
        out
    }

    /// Puts a cartridge in place and starts running. An image that cannot
    /// be loaded leaves the bus as it was and the device stopped.
    pub fn load_cartrige(&mut self, image: Vec<u8>, now: u64) -> (out: Result<(), LoadError>)
        requires
            old(self).wf(),
        ensures
            final(self).wf(),
            final(self).cpu == old(self).cpu,
            final(self).rom_path == old(self).rom_path,
            match out {
                Ok(_) => {
                    &&& load_error(image@) is None
                    &&& final(self).mmap@ == old(self).mmap@.loaded(image@, now)
                    &&& final(self).state == DeviceState::Running
                    &&& final(self).cartrige matches Some(header) && header_fields_match(
                        header,
                        header_region(image@),
                    )
                },
                Err(error) => {
                    &&& load_error(image@) == Some(error)
                    &&& final(self).mmap@ == old(self).mmap@
                    &&& final(self).state == DeviceState::Stopped
                },
            },
    {
        match self.mmap.load_cartrige(image, now) {
            Ok(header) => {
                self.cartrige = Some(header);
                self.state = DeviceState::Running;
                Ok(())
            },
            Err(error) => {
                self.state = DeviceState::Stopped;
                Err(error)
            },
        }
    }

    /// Advances the processor by one tick.
    pub fn step_cpu(&mut self) -> (out: Result<(), Fault>)
        requires
            old(self).wf(),
        ensures
            final(self).wf(),
            final(self).state == old(self).state,
            reached(final(self).cpu, final(self).mmap, out, old(self).machine().cycled()),
    {
        self.cpu.cycle(&mut self.mmap)
    }

    /// Advances the device by one tick: the processor first, then the
    /// timer and the pixel processor, so that an instruction sees those
    /// devices as they were before the tick.
    pub fn tick(&mut self) -> (out: Result<(), Fault>)
        requires
            old(self).wf(),
        ensures
            final(self).wf(),
            final(self).state == old(self).state,
            reached(final(self).cpu, final(self).mmap, out, old(self).machine().ticked()),
    {
        self.cpu.cycle(&mut self.mmap)?;
        self.mmap.tick();
        Ok(())
    }

    /// Runs the device for up to `ticks` ticks and reports how many were
    /// made. Nothing happens unless the device is running; a fault ends
    /// the run at the tick that raised it.
    pub fn run(&mut self, ticks: u32) -> (out: Result<u32, Fault>)
        requires
            old(self).wf(),
        ensures
            final(self).wf(),
            final(self).state == old(self).state,
            old(self).state != DeviceState::Running ==> out == Ok::<u32, Fault>(0)
                && final(self).machine() == old(self).machine(),
            old(self).state == DeviceState::Running ==> match out {
                Ok(done) => done == ticks && old(self).machine().ticks_cleanly(ticks as nat)
                    && final(self).machine() == old(self).machine().ticked_times(ticks as nat),
                Err(fault) => exists|n: nat|
                    n < ticks && old(self).machine().ticks_cleanly(n) && #[trigger] old(
                        self,
                    ).machine().ticked_times(n).ticked() == (
                        final(self).machine(),
                        Err::<(), Fault>(fault),
                    ),
            },
    {
        if self.state != DeviceState::Running {
            return Ok(0);
        }
        let ghost start = self.machine();
        let mut done: u32 = 0;
        while done < ticks
            invariant
                done <= ticks,
                self.wf(),
                self.state == old(self).state,
                self.state == DeviceState::Running,
                start == old(self).machine(),
                start.ticks_cleanly(done as nat),
                self.machine() == start.ticked_times(done as nat),
            decreases ticks - done,
        {
            let ghost before = self.machine();
            match self.tick() {
                Ok(_) => {
                    proof {
                        lemma_ticks_extend(start, done as nat);
                    }
                    done = done + 1;
                },
                Err(fault) => {
                    assert(start.ticked_times(done as nat).ticked() == (
                        self.machine(),
                        Err::<(), Fault>(fault),
                    ));
                    return Err(fault);
                },
            }
        }
        Ok(done)
    }

    /// Takes the completed frame, if there is one, out of the slot.
    pub fn take_frame(&mut self) -> (out: Option<Vec<u32>>)
        requires
            old(self).wf(),
        ensures
            final(self).wf(),
            final(self).cpu == old(self).cpu,
            final(self).state == old(self).state,
            final(self).mmap@ == old(self).mmap@.drained(),
            match out {
                Some(frame) => old(self).mmap@.ppu.buffer == Some(frame@) && frame@.len() == 23040,
                None => old(self).mmap@.ppu.buffer is None,
            },
    {
        self.mmap.take_frame()
    }

    /// Reads the byte at `address`.
    pub fn read(&self, address: Address) -> (out: Result<Byte, Fault>)
        requires
            self.wf(),
        ensures
            out == self.mmap@.read(address),
    {
        self.mmap.read(address)
    }

    /// Writes `value` to `address`.
    pub fn write(&mut self, address: Address, value: Byte) -> (out: Result<(), Fault>)
        requires
            old(self).wf(),
        ensures
            final(self).wf(),
            final(self).cpu == old(self).cpu,
            final(self).state == old(self).state,
            reached(
                final(self).cpu,
                final(self).mmap,
                out,
                old(self).machine().stored(address, value),
            ),
    {
        self.mmap.write(address, value)
    }

    /// Selects the bank of the image shown in the switchable ROM window
    /// when there is no controller.
    pub fn set_cartrige_bank(&mut self, value: usize)
        ensures
            final(self).mmap@ == (BusView { rom_bank: value, ..old(self).mmap@ }),
            final(self).cpu == old(self).cpu,
            final(self).state == old(self).state,
    {
        self.mmap.set_cartrige_bank(value);
    }

    /// Copies the header region out of the ROM, if the ROM reaches that
    /// far.
    pub fn get_header(&self) -> (out: Option<Vec<Byte>>)
        ensures
            match out {
                Some(header) => Some(header@) == self.mmap@.header(),
                None => self.mmap@.header() is None,
            },
    {
        self.mmap.get_header()
    }

    /// Takes the byte at the program counter and moves the counter past
    /// it.
    pub fn consume_byte(&mut self) -> (out: Result<Byte, Fault>)
        requires
            old(self).wf(),
        ensures
            final(self).wf(),
            final(self).state == old(self).state,
            reached(final(self).cpu, final(self).mmap, out, old(self).machine().consumed_byte()),
    {
        self.cpu.consume_byte(&self.mmap)
    }

    /// Fetches the instruction at the program counter and decodes it.
    pub fn fetch_instruction(&mut self) -> (out: Result<Opcode, Fault>)
        requires
            old(self).wf(),
        ensures
            final(self).wf(),
            final(self).state == old(self).state,
            reached(final(self).cpu, final(self).mmap, out, old(self).machine().fetched()),
            out matches Ok(op) ==> op.wf(),
    {
        self.cpu.fetch_instruction(&self.mmap)
    }

    /// Fetches the byte that follows the extension prefix and decodes it.
    pub fn fetch_cb_instruction(&mut self) -> (out: Result<Opcode, Fault>)
        requires
            old(self).wf(),
        ensures
            final(self).wf(),
            final(self).state == old(self).state,
            reached(
                final(self).cpu,
                final(self).mmap,
                out,
                old(self).machine().fetched_extended(),
            ),
            out matches Ok(op) ==> op.wf(),
    {
        self.cpu.fetch_cb_instruction(&self.mmap)
    }

    /// Executes `op` and charges its cost.
    pub fn execute(&mut self, op: Opcode) -> (out: Result<(), Fault>)
        requires
            old(self).wf(),
            op.wf(),
        ensures
            final(self).wf(),
            final(self).state == old(self).state,
            reached(final(self).cpu, final(self).mmap, out, old(self).machine().executed(op)),
    {
        self.cpu.execute(&mut self.mmap, op)
    }

    /// Pushes `addr` on the stack.
    pub fn push_address(&mut self, addr: Address) -> (out: Result<(), Fault>)
        requires
            old(self).wf(),
        ensures
            final(self).wf(),
            final(self).state == old(self).state,
            reached(final(self).cpu, final(self).mmap, out, old(self).machine().pushed(addr)),
    {
        self.cpu.push_address(&mut self.mmap, addr)
    }

    /// Pops a pair off the stack.
    pub fn pop_address(&mut self) -> (out: Result<Address, Fault>)
        requires
            old(self).wf(),
        ensures
            final(self).wf(),
            final(self).state == old(self).state,
            reached(final(self).cpu, final(self).mmap, out, old(self).machine().popped()),
    {
        self.cpu.pop_address(&self.mmap)
    }

    /// Marks each of `keys` as held down.
    pub fn handle_keydown(&mut self, keys: Vec<KeyCode>)
        ensures
            final(self).mmap@ == (BusView {
                joypad: with_keys(old(self).mmap@.joypad, keys@, true),
                ..old(self).mmap@
            }),
            final(self).cpu == old(self).cpu,
            final(self).state == old(self).state,
            final(self).rom_path == old(self).rom_path,
    {
        let mut i: usize = 0;
        while i < keys.len()
            invariant
                i <= keys.len(),
                self.mmap@ == (BusView {
                    joypad: with_keys(old(self).mmap@.joypad, keys@.take(i as int), true),
                    ..old(self).mmap@
                }),
                self.cpu == old(self).cpu,
                self.state == old(self).state,
                self.rom_path == old(self).rom_path,
            decreases keys.len() - i,
        {
            self.mmap.joypad.press(keys[i]);
            assert(keys@.take(i + 1).drop_last() =~= keys@.take(i as int));
            i = i + 1;
        }
        assert(keys@.take(keys.len() as int) =~= keys@);
    }

    /// Marks each of `keys` as let go.
    pub fn handle_keyup(&mut self, keys: Vec<KeyCode>)
        ensures
            final(self).mmap@ == (BusView {
                joypad: with_keys(old(self).mmap@.joypad, keys@, false),
                ..old(self).mmap@
            }),
            final(self).cpu == old(self).cpu,
            final(self).state == old(self).state,
            final(self).rom_path == old(self).rom_path,
    {
        let mut i: usize = 0;
        while i < keys.len()
            invariant
                i <= keys.len(),
                self.mmap@ == (BusView {
                    joypad: with_keys(old(self).mmap@.joypad, keys@.take(i as int), false),
                    ..old(self).mmap@
                }),
                self.cpu == old(self).cpu,
                self.state == old(self).state,
                self.rom_path == old(self).rom_path,
            decreases keys.len() - i,
        {
            self.mmap.joypad.release(keys[i]);
            assert(keys@.take(i + 1).drop_last() =~= keys@.take(i as int));
            i = i + 1;
        }
        assert(keys@.take(keys.len() as int) =~= keys@);
    }

    /// Handles one event from the frontend and says what is left for the
    /// caller to do. Key events reach the joypad; `Run` and `Pause` change
    /// the substate; `LoadFile` notes the path and asks for the file to be
    /// loaded; `Reset` rebuilds the device and asks for the noted
    /// cartridge, if any, to be loaded again.
    pub fn handle_event(&mut self, event: Event) -> (out: Action)
        requires
            old(self).wf(),
        ensures
            final(self).wf(),
            match event {
                Event::KeyDown(keys) => {
                    &&& out is Proceed
                    &&& final(self).state == old(self).state
                    &&& final(self).cpu == old(self).cpu
                    &&& final(self).mmap@ == (BusView {
                        joypad: with_keys(old(self).mmap@.joypad, keys@, true),
                        ..old(self).mmap@
                    })
                },
                Event::KeyUp(keys) => {
                    &&& out is Proceed
                    &&& final(self).state == old(self).state
                    &&& final(self).cpu == old(self).cpu
                    &&& final(self).mmap@ == (BusView {
                        joypad: with_keys(old(self).mmap@.joypad, keys@, false),
                        ..old(self).mmap@
                    })
                },
                Event::LoadFile(path) => {
                    &&& out matches Action::Load(p) && p@ == path@
                    &&& final(self).rom_path matches Some(p) && p@ == path@
                    &&& final(self).state == old(self).state
                    &&& final(self).machine() == old(self).machine()
                },
                Event::SaveState(_) | Event::LoadState(_) => {
                    &&& out is Unsupported
                    &&& final(self).state == old(self).state
                    &&& final(self).machine() == old(self).machine()
                },
                Event::Run => {
                    &&& out is Proceed
                    &&& final(self).state == DeviceState::Running
                    &&& final(self).machine() == old(self).machine()
                },
                Event::Pause => {
                    &&& out is Proceed
                    &&& final(self).state == DeviceState::Paused
                    &&& final(self).machine() == old(self).machine()
                },
                Event::Reset => {
                    &&& final(self).state == DeviceState::Stopped
                    &&& final(self).cpu == CentralProcessor::reset()
                    &&& final(self).mmap@ == bus_reset()
                    &&& final(self).rom_path == old(self).rom_path
                    &&& match old(self).rom_path {
                        Some(path) => out == Action::Load(path),
                        None => out is Proceed,
                    }
                },
                Event::Exit => {
                    &&& out is Exit
                    &&& final(self).state == old(self).state
                    &&& final(self).machine() == old(self).machine()
                },
            },
    {
        match event {
            Event::KeyDown(keys) => {
                self.handle_keydown(keys);
                Action::Proceed
            },
            Event::KeyUp(keys) => {
                self.handle_keyup(keys);
                Action::Proceed
            },
            Event::LoadFile(path) => {
                self.rom_path = Some(path.clone());
                Action::Load(path)
            },
            Event::SaveState(_) => Action::Unsupported,
            Event::LoadState(_) => Action::Unsupported,
            Event::Run => {
                self.state = DeviceState::Running;
                Action::Proceed
            },
            Event::Pause => {
                self.state = DeviceState::Paused;
                Action::Proceed
            },
            Event::Reset => {
                match self.reset() {
                    Some(path) => Action::Load(path),
                    None => Action::Proceed,
                }
            },
            Event::Exit => Action::Exit,
        }
    }
}

impl Default for Device {
    fn default() -> (out: Device)
        ensures
            out.wf(),
            out.state == DeviceState::Stopped,
    {
        Device::new()
    }
}

/// A clean run of `n` ticks followed by a clean tick is a clean run of
/// `n + 1` ticks, and ends where that tick ends.
pub proof fn lemma_ticks_extend(m: Machine, n: nat)
    requires
        m.ticks_cleanly(n),
        m.ticked_times(n).ticked().1 is Ok,
    ensures
        m.ticks_cleanly(n + 1),
        m.ticked_times(n + 1) == m.ticked_times(n).ticked().0,
    decreases n,
{
    assert(m.ticked_times(n + 1) == m.ticked().0.ticked_times(n));
    if n == 0 {
        assert(m.ticked().0.ticks_cleanly(0));
    } else {
        lemma_ticks_extend(m.ticked().0, (n - 1) as nat);
        assert(m.ticked_times(n) == m.ticked().0.ticked_times((n - 1) as nat));
    }
}

} // verus!
