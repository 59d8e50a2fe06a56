//! The target process descriptor: the resolved image name, process id and
//! module base the scan works against.

use vstd::prelude::*;

verus! {

/// Mathematical image of a `Process`.
pub struct ProcessView {
    pub name: Seq<char>,
    pub pid: u32,
    pub base_address: u32,
}

/// The resolved target of a scan. The OS-side handles the resolution opens
/// stay with the caller that resolved the image name; the scan itself needs
/// only these plain values.
pub struct Process {
    pub name: String,
    pub pid: u32,
    pub base_address: u32,
}

impl View for Process {
    type V = ProcessView;

    open spec fn view(&self) -> ProcessView {
        ProcessView { name: self.name@, pid: self.pid, base_address: self.base_address }
    }
}

impl Process {
    /// Records a resolved target: its image name, the process id the name
    /// resolved to, and the base address of the image's module.
    pub fn new(name: String, pid: u32, base_address: u32) -> (r: Self)
        ensures
            r@.name == name@,
            r@.pid == pid,
            r@.base_address == base_address,
    {
        Process { name, pid, base_address }
    }
}

impl Clone for Process {
    fn clone(&self) -> (r: Self)
        ensures
            r@ == self@,
    {
        Process { name: self.name.clone(), pid: self.pid, base_address: self.base_address }
    }
}

} // verus!
