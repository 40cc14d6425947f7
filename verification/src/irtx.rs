//! The IR blaster: the NEC pulse train is built and stepped by the
//! infrared crate; the decisions around it (carrier on or off, when to
//! stop, what to report back on the bus) are the library's own.

use vstd::prelude::*;

use infrared::protocol::Nec;
use infrared::protocol::nec::NecCommand;
use infrared::sender::PulsedataSender;
use infrared::sender::Status;

use crate::orchestrator::TaskCommand;

verus! {

/// The tick rate the pulse train is timed against, in hertz.
pub const IR_TICK_HZ: u32 = 20000;

#[verifier::external_type_specification]
#[verifier::external_body]
pub struct ExPulsedataSender<const S: usize>(PulsedataSender<S>);

/// One tick's sender status, mirrored into the library's own vocabulary.
#[derive(Clone, Copy, PartialEq, Eq, Structural, Debug)]
pub enum IrStatus {
    /// Nothing (left) to transmit.
    Idle,
    /// Transmitting; the payload says whether the carrier is on.
    Transmit(bool),
    /// The sender gave up.
    Error,
}

/// Relies on infrared's `PulsedataSender::new`: a fresh, idle sender with
/// an empty pulse buffer.
#[verifier::external_body]
fn ir_sender_new() -> PulsedataSender<128> {
    PulsedataSender::new()
}

/// Relies on infrared's `PulsedataSender::load_command` with the NEC
/// protocol encoder at the fixed tick rate: resets the sender and loads
/// the pulse train for (addr, cmd, repeat). The NEC train is 67 pulse
/// entries and fits the 128-entry buffer.
#[verifier::external_body]
fn ir_load_nec(sender: &mut PulsedataSender<128>, addr: u8, cmd: u8, repeat: bool) {
    sender.load_command::<Nec, IR_TICK_HZ>(&NecCommand { addr, cmd, repeat });
}

/// Relies on infrared's `PulsedataSender::tick`: advances the pulse train
/// to tick `ts` and reports the sender state, translated variant for
/// variant into the library's own status type.
#[verifier::external_body]
fn ir_tick(sender: &mut PulsedataSender<128>, ts: u32) -> (r: IrStatus) {
    match sender.tick(ts) {
        Status::Idle => IrStatus::Idle,
        Status::Transmit(carrier) => IrStatus::Transmit(carrier),
        Status::Error => IrStatus::Error,
    }
}

/// What the blaster loop does after one tick of the sender.
#[derive(Clone, Copy, PartialEq, Eq, Structural, Debug)]
pub enum IrTxAction {
    /// Keep going, with the 38 kHz carrier on or off.
    SetCarrier(bool),
    /// Stop: disable the carrier; `error` says whether the transmission
    /// failed rather than completed.
    Stop { error: bool },
}

/// The decision table for one sender status.
pub open spec fn spec_ir_step_action(status: IrStatus) -> IrTxAction {
    match status {
        IrStatus::Transmit(carrier) => IrTxAction::SetCarrier(carrier),
        IrStatus::Idle => IrTxAction::Stop { error: false },
        IrStatus::Error => IrTxAction::Stop { error: true },
    }
}

/// Decide what one tick's status means for the carrier and the loop.
pub fn ir_step_action(status: IrStatus) -> (r: IrTxAction)
    ensures
        r == spec_ir_step_action(status),
{
    match status {
        IrStatus::Transmit(carrier) => IrTxAction::SetCarrier(carrier),
        IrStatus::Idle => IrTxAction::Stop { error: false },
        IrStatus::Error => IrTxAction::Stop { error: true },
    }
}

/// What a finished transmission reports back on the bus: an error signal
/// first if it failed, then in every case the completion event that clears
/// the orchestrator's transmit flag.
pub fn ir_done_commands(error: bool) -> (r: Vec<TaskCommand>)
    ensures
        error ==> r@ == seq![TaskCommand::Error, TaskCommand::IrTxDone],
        !error ==> r@ == seq![TaskCommand::IrTxDone],
{
    let mut cmds: Vec<TaskCommand> = Vec::new();
    if error {
        cmds.push(TaskCommand::Error);
    }
    cmds.push(TaskCommand::IrTxDone);
    proof {
        if error {
            assert(cmds@ =~= seq![TaskCommand::Error, TaskCommand::IrTxDone]);
        } else {
            assert(cmds@ =~= seq![TaskCommand::IrTxDone]);
        }
    }
    cmds
}

/// The IR blaster: owns the pulse sender and the tick counter of the
/// transmission in flight.
pub struct IrBlaster {
    pub sender: PulsedataSender<128>,
    pub counter: u32,
}

impl IrBlaster {
    pub fn new() -> (b: Self)
        ensures
            b.counter == 0,
    {
        IrBlaster { sender: ir_sender_new(), counter: 0 }
    }

    /// Load the pulse train for one NEC command and restart the tick
    /// counter.
    pub fn start(&mut self, addr: u8, cmd: u8, repeat: bool)
        ensures
            final(self).counter == 0,
    {
        ir_load_nec(&mut self.sender, addr, cmd, repeat);
        self.counter = 0;
    }

    /// One tick of the transmission: advance the pulse train and decide
    /// what to do with the carrier. The counter advances by one each tick,
    /// wrapping at the 32-bit boundary.
    pub fn step(&mut self) -> (r: IrTxAction)
        ensures
            final(self).counter == crate::effects::spec_wrap_inc(old(self).counter),
    {
        let status = ir_tick(&mut self.sender, self.counter);
        self.counter = if self.counter == u32::MAX {
            0
        } else {
            self.counter + 1
        };
        ir_step_action(status)
    }
}

} // verus!
