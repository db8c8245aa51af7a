use vstd::prelude::*;
use vstd::string::*;
use sysinfo::System;
use crate::monitor::{Action, ActionView, Monitor};

verus! {

/// `sysinfo::System`, a snapshot of the machine. Nothing is known of what a
/// value holds.
#[verifier::external_type_specification]
#[verifier::external_body]
pub struct ExSystem(sysinfo::System);

/// `System::new_all`: a snapshot with everything loaded. What it holds
/// depends on the machine, so nothing is promised.
pub assume_specification[ System::new_all ]() -> (system: System);

/// `System::refresh_processes`: reads the process table again. What the
/// snapshot holds afterwards depends on the machine, so nothing is promised.
pub assume_specification[ System::refresh_processes ](system: &mut System);

/// `System::processes_by_name`: the ids of the processes of the snapshot
/// whose name contains `name`. Which they are depends on the machine.
#[verifier::external_body]
fn processes_like(system: &System, name: &str) -> (ids: Vec<u32>) {
    system.processes_by_name(name).map(|process| process.pid().as_u32()).collect()
}

/// `System::processes_by_exact_name`: the ids of the processes of the
/// snapshot whose name is `name`. Which they are depends on the machine.
#[verifier::external_body]
fn processes_named(system: &System, name: &str) -> (ids: Vec<u32>) {
    system.processes_by_exact_name(name).map(|process| process.pid().as_u32()).collect()
}

/// What a service monitor reports: nothing while the process is there, and
/// otherwise that it is down.
pub open spec fn presence_spec(process_name: Seq<char>, present: bool) -> ActionView {
    if present {
        ActionView::Nothing
    } else {
        ActionView::Notify { diagnostic: Some(process_name + " is down"@) }
    }
}

/// The report of a service monitor for a process that was, or was not,
/// found on the machine.
pub fn presence_action(process_name: &str, present: bool) -> (action: Action)
    ensures
        action@ == presence_spec(process_name@, present),
{
    if present {
        Action::Nothing
    } else {
        Action::Notify { diagnostic: Some(String::from_str(process_name).concat(" is down")) }
    }
}

/// Watches the local machine for a process whose name contains a given text.
pub struct Service {
    pub process_name: String,
}

/// Watches the local machine for a process with exactly a given name.
pub struct ExactService {
    pub process_name: String,
}

impl Service {
    pub fn new(process_name: &str) -> (service: Service)
        ensures
            service.process_name@ == process_name@,
    {
        Service { process_name: process_name.to_owned() }
    }
}

impl ExactService {
    pub fn new(process_name: &str) -> (service: ExactService)
        ensures
            service.process_name@ == process_name@,
    {
        ExactService { process_name: process_name.to_owned() }
    }
}

impl Monitor for Service {
    /// Looks at the process table as it is now. The monitor itself is left
    /// as it was.
    fn check(&mut self) -> (action: Action)
        ensures
            *final(self) == *old(self),
            exists|present: bool| action@ == presence_spec(old(self).process_name@, present),
    {
        let mut system = System::new_all();
        system.refresh_processes();
        let present = processes_like(&system, self.process_name.as_str()).len() > 0;
        presence_action(self.process_name.as_str(), present)
    }
}

impl Monitor for ExactService {
    /// Looks at the process table as it is now. The monitor itself is left
    /// as it was.
    fn check(&mut self) -> (action: Action)
        ensures
            *final(self) == *old(self),
            exists|present: bool| action@ == presence_spec(old(self).process_name@, present),
    {
        let mut system = System::new_all();
        system.refresh_processes();
        let present = processes_named(&system, self.process_name.as_str()).len() > 0;
        presence_action(self.process_name.as_str(), present)
    }
}

} // verus!
