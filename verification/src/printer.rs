//! Printer enumeration data, reduced to the plain values the UI layer shows.
//!
//! Printer discovery and job submission are OS work done outside the library;
//! what crosses into it is this data. The flasher shares nothing with it but
//! the process-wide lock and the event channel.

use vstd::prelude::*;

verus! {

/// The reported state of an installed printer.
#[allow(non_camel_case_types)]
#[derive(Clone, Copy, Debug, PartialEq, Eq, Structural)]
pub enum PrinterStateDef {
    READY,
    OFFLINE,
    PAUSED,
    PRINTING,
    UNKNOWN,
}

/// One installed printer.
#[derive(Clone, Debug)]
pub struct PrinterInfo {
    pub name: String,
    pub system_name: String,
    pub driver_name: String,
    pub uri: String,
    pub port_name: String,
    pub processor: String,
    pub data_type: String,
    pub description: String,
    pub location: String,
    pub is_default: bool,
    pub is_shared: bool,
    pub state: PrinterStateDef,
    pub state_reasons: Vec<String>,
}

/// The printers installed on the system, in enumeration order.
#[derive(Clone, Debug)]
pub struct PrinterList(pub Vec<PrinterInfo>);

} // verus!
