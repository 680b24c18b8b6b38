//! The status that the engine's interface factory reports.

use vstd::prelude::*;

verus! {

/// Whether the interface factory found the interface that was asked for.
#[derive(Clone, Copy, Debug, PartialEq, Eq, Structural)]
pub enum InterfaceReturnStatus {
    Okay,
    Failed,
}

impl InterfaceReturnStatus {
    /// The status that a return code stands for: 0 is `Okay`, every other code
    /// is `Failed`.
    pub fn from_code(code: i32) -> (s: InterfaceReturnStatus)
        ensures
            s == (if code == 0 {
                InterfaceReturnStatus::Okay
            } else {
                InterfaceReturnStatus::Failed
            }),
    {
        if code == 0 {
            InterfaceReturnStatus::Okay
        } else {
            InterfaceReturnStatus::Failed
        }
    }

    /// The return code that the factory writes for this status: 0 for `Okay`,
    /// 1 for `Failed`.
    pub fn code(&self) -> (c: i32)
        ensures
            c == (if *self == InterfaceReturnStatus::Okay {
                0i32
            } else {
                1i32
            }),
            InterfaceReturnStatus::Okay == *self <==> c == 0,
    {
        match self {
            InterfaceReturnStatus::Okay => 0,
            InterfaceReturnStatus::Failed => 1,
        }
    }
}

/// One entry of the engine's list of interface factories, with addresses in
/// place of the pointers.
#[derive(Clone, Copy, Debug, PartialEq, Eq, Structural)]
pub struct InterfaceReg {
    /// The address of the function that makes the interface.
    pub create_fn: usize,
    /// The address of the interface's name.
    pub name: usize,
    /// The address of the next entry, 0 at the end of the list.
    pub next: usize,
}

} // verus!
