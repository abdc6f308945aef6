//! Plain records of sampled system figures, with the text that shows them.

use vstd::prelude::*;

verus! {

/// Bytes read from and written to the watched disks over one interval.
#[derive(Debug, Clone)]
pub struct DiskIoInfo {
    pub read: u64,
    pub read_display: String,
    pub write: u64,
    pub write_display: String,
}

impl Default for DiskIoInfo {
    /// No traffic, shown as "0 B".
    fn default() -> (info: Self)
        ensures
            info.read == 0,
            info.write == 0,
            info.read_display@ == "0 B"@,
            info.write_display@ == "0 B"@,
    {
        DiskIoInfo {
            read: 0,
            read_display: "0 B".to_owned(),
            write: 0,
            write_display: "0 B".to_owned(),
        }
    }
}

/// Bytes sent and received over the watched networks over one interval.
#[derive(Debug, Clone)]
pub struct NetworkInfo {
    pub sent: u64,
    pub sent_display: String,
    pub recv: u64,
    pub recv_display: String,
}

impl Default for NetworkInfo {
    /// No traffic, shown as nothing.
    fn default() -> (info: Self)
        ensures
            info.sent == 0,
            info.recv == 0,
            info.sent_display@ == Seq::<char>::empty(),
            info.recv_display@ == Seq::<char>::empty(),
    {
        NetworkInfo { sent: 0, sent_display: String::new(), recv: 0, recv_display: String::new() }
    }
}

/// The time of a sample, in seconds since the epoch, and as text.
#[derive(Debug, Clone)]
pub struct TimeInfo {
    pub time: u64,
    pub time_display: String,
}

impl Default for TimeInfo {
    /// The epoch, shown as nothing.
    fn default() -> (info: Self)
        ensures
            info.time == 0,
            info.time_display@ == Seq::<char>::empty(),
    {
        TimeInfo { time: 0, time_display: String::new() }
    }
}

} // verus!
