use vstd::prelude::*;

verus! {

/// Which running process to notify, and which real-time signal (counted from
/// the platform's first real-time signal) to send it.
#[derive(Debug, Clone, PartialEq, Eq)]
pub struct NotifyTarget {
    pub executable: String,
    pub signal_offset: i32,
}

impl NotifyTarget {
    /// A field-by-field copy.
    pub fn duplicate(&self) -> (r: NotifyTarget)
        ensures
            r == *self,
    {
        NotifyTarget { executable: self.executable.clone(), signal_offset: self.signal_offset }
    }
}

/// The status bar, refreshed by the thirteenth real-time signal.
pub fn default_target() -> (r: NotifyTarget)
    ensures
        r.executable@ == "waybar"@,
        r.signal_offset == 13,
{
    NotifyTarget { executable: String::from_str("waybar"), signal_offset: 13 }
}

/// What notifying a process by name comes down to.
#[derive(Debug, Clone, Copy, PartialEq, Eq, Structural)]
pub enum Notification {
    /// Send signal number `signal` to process `pid`.
    Deliver { pid: i32, signal: i32 },
    /// No process of that name runs: nothing is sent.
    NotRunning,
    /// A process was found, but its id cannot name one process to `kill`.
    Unaddressable { pid: u32 },
    /// The signal number does not fit the platform's signal type.
    SignalOutOfRange,
}

/// The notification owed for a lookup result `pid`, given the platform's first
/// real-time signal `base` and the configured `offset`.
pub open spec fn plan(pid: Option<u32>, base: i32, offset: i32) -> Notification {
    match pid {
        None => Notification::NotRunning,
        Some(p) => if p == 0 || p > i32::MAX {
            Notification::Unaddressable { pid: p }
        } else if base + offset < i32::MIN || base + offset > i32::MAX {
            Notification::SignalOutOfRange
        } else {
            Notification::Deliver { pid: p as i32, signal: (base + offset) as i32 }
        },
    }
}

/// Decides what to send once the process has been looked up: a missing process
/// is no error, and a found one gets exactly one signal, `base + offset`.
pub fn signal_plan(pid: Option<u32>, base: i32, offset: i32) -> (r: Notification)
    ensures
        r == plan(pid, base, offset),
        pid is None ==> r == Notification::NotRunning,
        pid is Some && 0 < pid->0 <= i32::MAX && i32::MIN <= base + offset <= i32::MAX ==> r == (
        Notification::Deliver { pid: pid->0 as i32, signal: (base + offset) as i32 }),
{
    match pid {
        None => Notification::NotRunning,
        Some(p) => {
            if p == 0 || p > i32::MAX as u32 {
                Notification::Unaddressable { pid: p }
            } else {
                match base.checked_add(offset) {
                    None => Notification::SignalOutOfRange,
                    Some(signal) => Notification::Deliver { pid: p as i32, signal },
                }
            }
        },
    }
}

/// Relies on sysinfo's `System::new`, `System::refresh_all` and
/// `System::processes_by_exact_name`: the id of some running process whose name
/// is exactly `name`, if one runs. Which one, among several, is left open, and
/// the answer changes as processes come and go.
#[verifier::external_body]
fn find_process_by_exact_name(name: &str) -> (r: Option<u32>) {
    let mut system = sysinfo::System::new();
    system.refresh_all();
    let found = system.processes_by_exact_name(name.as_ref()).next();
    found.map(|process| process.pid().as_u32())
}

/// Relies on libc's `SIGRTMIN`: the number of the first real-time signal, which
/// the C library fixes at run time.
#[verifier::external_body]
fn realtime_signal_base() -> (r: i32) {
    libc::SIGRTMIN()
}

/// Looks up `process` among the running processes and decides the signal it
/// gets: real-time signal `signal` past the platform's first. Whatever the
/// lookup finds, the result is the plan for some lookup result and base; a
/// process that does not run is never an error.
pub fn notify_process(process: &str, signal: i32) -> (r: Notification)
    ensures
        exists|pid: Option<u32>, base: i32| r == plan(pid, base, signal),
{
    let pid = find_process_by_exact_name(process);
    let base = realtime_signal_base();
    signal_plan(pid, base, signal)
}

} // verus!
