//! What the library asks of the machine it runs on.

use sysinfo::{DiskExt, SystemExt};
use vstd::prelude::*;

verus! {

/// The handle through which `sysinfo` reads the machine's state.
#[verifier::external_type_specification]
#[verifier::external_body]
pub struct ExSystem(sysinfo::System);

/// `sysinfo::SystemExt::new_all`: a handle with everything loaded. Nothing is
/// promised of what it holds.
#[verifier::external_body]
pub(crate) fn load_system() -> (system: sysinfo::System) {
    sysinfo::System::new_all()
}

/// `sysinfo::SystemExt::refresh_memory`: reads the memory figures anew.
#[verifier::external_body]
pub(crate) fn refresh_memory(system: &mut sysinfo::System) {
    system.refresh_memory()
}

/// `sysinfo::SystemExt::available_memory`: the bytes of memory that the
/// machine reported as available at the last refresh. The figure is the
/// machine's, so nothing is promised of it.
#[verifier::external_body]
pub(crate) fn available_memory(system: &sysinfo::System) -> (bytes: u64) {
    system.available_memory()
}

/// One disk as `sysinfo` lists it.
#[verifier::external_type_specification]
#[verifier::external_body]
pub struct ExDisk(sysinfo::Disk);

/// `sysinfo::SystemExt::disks`: the disks that the handle lists. Which
/// disks a machine has is the machine's, so nothing is promised of the list.
#[verifier::external_body]
pub(crate) fn listed_disks(system: &sysinfo::System) -> (disks: &[sysinfo::Disk]) {
    system.disks()
}

/// `sysinfo::DiskExt::available_space`: the bytes that were free on the
/// disk when it was last read. The figure is the machine's, so nothing is
/// promised of it.
#[verifier::external_body]
pub(crate) fn available_space(disk: &sysinfo::Disk) -> (bytes: u64) {
    disk.available_space()
}

/// The bytes of memory that the machine reports as available now.
pub fn read_available_memory() -> (bytes: u64) {
    let mut system = load_system();
    refresh_memory(&mut system);
    available_memory(&system)
}

/// The greatest of `figures`; zero where there is none.
pub fn greatest(figures: &Vec<u64>) -> (most: u64)
    ensures
        forall|i: int| 0 <= i < figures@.len() ==> figures@[i] <= most,
        figures@.len() == 0 ==> most == 0,
        figures@.len() > 0 ==> exists|i: int| 0 <= i < figures@.len() && figures@[i] == most,
{
    let mut most: u64 = 0;
    let mut i: usize = 0;
    while i < figures.len()
        invariant
            i <= figures.len(),
            forall|j: int| 0 <= j < i ==> figures@[j] <= most,
            i == 0 ==> most == 0,
            i > 0 ==> exists|j: int| 0 <= j < i && figures@[j] == most,
        decreases figures.len() - i,
    {
        if i == 0 || figures[i] > most {
            most = figures[i];
        }
        i += 1;
    }
    most
}

/// The bytes that are free now on the disk with the most space free among
/// those that the machine lists; zero where it lists none.
pub fn read_free_disk_space() -> (bytes: u64) {
    let system = load_system();
    let disks = listed_disks(&system);
    let mut figures: Vec<u64> = Vec::new();
    let mut i: usize = 0;
    while i < disks.len()
        invariant
            i <= disks.len(),
        decreases disks.len() - i,
    {
        figures.push(available_space(&disks[i]));
        i += 1;
    }
    greatest(&figures)
}

} // verus!
