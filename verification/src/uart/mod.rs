//! A UART register map written in the accessor style this crate
//! generates: one value type per register, with bit-exact, verified
//! getters and setters gated by each register's access mode.
//!
//! The types here model register *words*; moving a word between a type
//! and its memory-mapped location is left to the surrounding program.
use vstd::prelude::*;

pub mod baud_gen;
pub mod channel_status;
pub mod control_register;
pub mod interrupt_disable;
pub mod interrupt_mask;
pub mod interrupt_status;
pub mod mode;
pub mod mode_register;
pub mod modem_ctrl;
pub mod modem_status;
pub mod rx_fifo_trigger_level;
pub mod rx_timeout;

pub use baud_gen::BaudGen;
pub use channel_status::ChannelStatus;
pub use control_register::ControlRegister;
pub use interrupt_disable::InterruptDisable;
pub use interrupt_mask::InterruptMask;
pub use interrupt_status::InterruptStatus;
pub use mode_register::ModeRegister;
pub use modem_ctrl::ModemCtrl;
pub use modem_status::ModemStatus;
pub use rx_fifo_trigger_level::RxFifoTriggerLevel;
pub use rx_timeout::RxTimeout;

verus! {

/// The UART register block: one value per register, each wrapping the
/// word last read from, or destined for, its location.
#[allow(non_camel_case_types)]
#[derive(Clone, Copy, Debug, PartialEq, Eq, Structural)]
pub struct uart {
    pub control_register: ControlRegister,
    pub mode_register: ModeRegister,
    pub interrupt_disable: InterruptDisable,
    pub interrupt_mask: InterruptMask,
    pub interrupt_status: InterruptStatus,
    pub baud_gen: BaudGen,
    pub rx_timeout: RxTimeout,
    pub rx_fifo_trigger_level: RxFifoTriggerLevel,
    pub modem_ctrl: ModemCtrl,
    pub modem_status: ModemStatus,
    pub channel_status: ChannelStatus,
}

impl uart {
    /// Creates the whole block in reset state: every register word
    /// zero.
    pub fn new() -> (r: Self)
        ensures
            r.control_register.value == 0,
            r.mode_register.value == 0,
            r.interrupt_disable.value == 0,
            r.interrupt_mask.value == 0,
            r.interrupt_status.value == 0,
            r.baud_gen.value == 0,
            r.rx_timeout.value == 0,
            r.rx_fifo_trigger_level.value == 0,
            r.modem_ctrl.value == 0,
            r.modem_status.value == 0,
            r.channel_status.value == 0,
    {
        uart {
            control_register: ControlRegister::new(0),
            mode_register: ModeRegister::new(0),
            interrupt_disable: InterruptDisable::new(0),
            interrupt_mask: InterruptMask::new(0),
            interrupt_status: InterruptStatus::new(0),
            baud_gen: BaudGen::new(0),
            rx_timeout: RxTimeout::new(0),
            rx_fifo_trigger_level: RxFifoTriggerLevel::new(0),
            modem_ctrl: ModemCtrl::new(0),
            modem_status: ModemStatus::new(0),
            channel_status: ChannelStatus::new(0),
        }
    }
}

} // verus!
