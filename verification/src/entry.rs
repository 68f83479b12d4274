//! One row of the process list, and the texts shown of it.

use vstd::prelude::*;
use vstd::string::StringExecFns;
use crate::number::{decimal, decimal_digits, push_decimal};

verus! {

/// The transport protocol of a listening socket.
#[derive(Clone, Copy, Debug, PartialEq, Eq, Structural)]
pub enum Protocol {
    Tcp,
    Udp,
}

/// One listening socket and the process that holds it. The first nine
/// fields are the columns of the discovery tool, kept as text; the last
/// three are looked up per process and fall back to a default each.
#[derive(Debug)]
pub struct LsofEntry {
    pub command: String,
    pub pid: String,
    pub user: String,
    pub fd: String,
    pub type_: String,
    pub device: String,
    pub size_off: String,
    pub node: String,
    /// The address and port as the discovery tool prints them, such as
    /// `*:8080 (LISTEN)`.
    pub name: String,
    pub protocol: Protocol,
    /// Resident memory in kilobytes; 0 where it is not known.
    pub memory_kb: u64,
    /// When the process started, in seconds since the epoch.
    pub start_time: Option<u64>,
}

/// An `LsofEntry` as plain values.
pub struct EntryView {
    pub command: Seq<char>,
    pub pid: Seq<char>,
    pub user: Seq<char>,
    pub fd: Seq<char>,
    pub type_: Seq<char>,
    pub device: Seq<char>,
    pub size_off: Seq<char>,
    pub node: Seq<char>,
    pub name: Seq<char>,
    pub protocol: Protocol,
    pub memory_kb: nat,
    pub start_time: Option<nat>,
}

impl View for LsofEntry {
    type V = EntryView;

    open spec fn view(&self) -> EntryView {
        EntryView {
            command: self.command@,
            pid: self.pid@,
            user: self.user@,
            fd: self.fd@,
            type_: self.type_@,
            device: self.device@,
            size_off: self.size_off@,
            node: self.node@,
            name: self.name@,
            protocol: self.protocol,
            memory_kb: self.memory_kb as nat,
            start_time: match self.start_time {
                Some(t) => Some(t as nat),
                None => None,
            },
        }
    }
}

impl DeepView for LsofEntry {
    type V = EntryView;

    open spec fn deep_view(&self) -> EntryView {
        self@
    }
}

impl Clone for LsofEntry {
    fn clone(&self) -> (copy: Self)
        ensures
            copy@ == self@,
    {
        LsofEntry {
            command: self.command.clone(),
            pid: self.pid.clone(),
            user: self.user.clone(),
            fd: self.fd.clone(),
            type_: self.type_.clone(),
            device: self.device.clone(),
            size_off: self.size_off.clone(),
            node: self.node.clone(),
            name: self.name.clone(),
            protocol: self.protocol,
            memory_kb: self.memory_kb,
            start_time: self.start_time,
        }
    }
}

/// What is looked up per process after discovery.
#[derive(Clone, Copy, Debug)]
pub struct ProcessInfo {
    pub protocol: Protocol,
    pub memory_kb: u64,
    pub start_time: Option<u64>,
}

impl EntryView {
    /// This row with the three looked-up values replaced.
    pub open spec fn with_info(self, info: ProcessInfo) -> EntryView {
        EntryView {
            protocol: info.protocol,
            memory_kb: info.memory_kb as nat,
            start_time: match info.start_time {
                Some(t) => Some(t as nat),
                None => None,
            },
            ..self
        }
    }
}

/// An elapsed time in its largest whole unit: seconds below a minute,
/// minutes below an hour, hours below a day, days from there on.
pub open spec fn duration_text(secs: nat) -> Seq<char> {
    if secs < 60 {
        decimal_digits(secs).push('s')
    } else if secs < 3600 {
        decimal_digits(secs / 60).push('m')
    } else if secs < 86400 {
        decimal_digits(secs / 3600).push('h')
    } else {
        decimal_digits(secs / 86400).push('d')
    }
}

/// Writes an elapsed time of `secs` seconds in its largest whole unit.
pub fn format_duration(secs: u64) -> (text: String)
    ensures
        text@ == duration_text(secs as nat),
{
    if secs < 60 {
        let mut text = decimal(secs);
        text.push('s');
        text
    } else if secs < 3600 {
        let mut text = decimal(secs / 60);
        text.push('m');
        text
    } else if secs < 86400 {
        let mut text = decimal(secs / 3600);
        text.push('h');
        text
    } else {
        let mut text = decimal(secs / 86400);
        text.push('d');
        text
    }
}

/// How long the process has run at the time `now`: the duration since its
/// start, or `unknown` where the start is not known or lies after `now`.
pub open spec fn relative_time_text(start_time: Option<nat>, now: nat) -> Seq<char> {
    match start_time {
        Some(start) if start <= now => duration_text((now - start) as nat),
        _ => "unknown"@,
    }
}

/// `n / d` rounded to the nearest whole number, a tie to the even one.
pub open spec fn rounded_quotient(n: nat, d: nat) -> nat {
    let q = n / d;
    let r = n % d;
    if 2 * r > d || (2 * r == d && q % 2 == 1) {
        q + 1
    } else {
        q
    }
}

/// `tenths / 10` with one decimal place, then `unit`.
pub open spec fn one_decimal(tenths: nat, unit: Seq<char>) -> Seq<char> {
    decimal_digits(tenths / 10).push('.') + decimal_digits(tenths % 10) + unit
}

/// A memory size with one decimal place: in kilobytes below a megabyte, in
/// gigabytes above a gigabyte, in megabytes between.
pub open spec fn memory_text(kb: nat) -> Seq<char> {
    if kb < 1024 {
        one_decimal(kb * 10, "KB"@)
    } else if kb > 1024 * 1024 {
        one_decimal(rounded_quotient(kb * 10, 1024 * 1024), "GB"@)
    } else {
        one_decimal(rounded_quotient(kb * 10, 1024), "MB"@)
    }
}

/// `10 * n / d` rounded to the nearest whole number, a tie to the even one.
fn rounded_tenths(n: u64, d: u64) -> (t: u64)
    requires
        d == 1024 || d == 1024 * 1024,
    ensures
        t == rounded_quotient(n as nat * 10, d as nat),
{
    let whole: u64 = n / d;
    let rest: u64 = (n % d) * 10;
    let q: u64 = rest / d;
    let r: u64 = rest % d;
    proof {
        if d == 1024 {
            assert((n as nat * 10) / 1024 == whole * 10 + q);
            assert((n as nat * 10) % 1024 == r);
        } else {
            assert((n as nat * 10) / 1048576 == whole * 10 + q);
            assert((n as nat * 10) % 1048576 == r);
        }
    }
    let base: u64 = whole * 10 + q;
    if r > d / 2 || (r == d / 2 && base % 2 == 1) {
        base + 1
    } else {
        base
    }
}

/// Writes `tenths / 10` with one decimal place, then `unit`.
fn format_one_decimal(tenths: u64, unit: &str) -> (text: String)
    ensures
        text@ == one_decimal(tenths as nat, unit@),
{
    let mut text = decimal(tenths / 10);
    text.push('.');
    push_decimal(&mut text, tenths % 10);
    text.append(unit);
    text
}

impl LsofEntry {
    /// The protocol's name in capitals.
    pub fn get_protocol(&self) -> (name: &'static str)
        ensures
            name@ == (match self.protocol {
                Protocol::Tcp => "TCP"@,
                Protocol::Udp => "UDP"@,
            }),
    {
        match self.protocol {
            Protocol::Tcp => "TCP",
            Protocol::Udp => "UDP",
        }
    }

    /// The resident memory for display.
    pub fn get_memory_display(&self) -> (text: String)
        ensures
            text@ == memory_text(self.memory_kb as nat),
    {
        let kb: u64 = self.memory_kb;
        if kb < 1024 {
            format_one_decimal(kb * 10, "KB")
        } else if kb > 1024 * 1024 {
            format_one_decimal(rounded_tenths(kb, 1024 * 1024), "GB")
        } else {
            format_one_decimal(rounded_tenths(kb, 1024), "MB")
        }
    }

    /// How long the process has run at `now`, in seconds since the epoch.
    pub fn get_relative_time(&self, now: u64) -> (text: String)
        ensures
            text@ == relative_time_text(self@.start_time, now as nat),
    {
        match self.start_time {
            Some(start) => {
                if start <= now {
                    format_duration(now - start)
                } else {
                    String::from_str("unknown")
                }
            },
            None => String::from_str("unknown"),
        }
    }

    /// Replaces the three looked-up values.
    pub fn set_info(&mut self, info: ProcessInfo)
        ensures
            final(self)@ == old(self)@.with_info(info),
    {
        self.protocol = info.protocol;
        self.memory_kb = info.memory_kb;
        self.start_time = info.start_time;
    }
}

} // verus!
