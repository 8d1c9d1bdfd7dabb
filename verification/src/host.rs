//! The state that the host shares with the functions a guest imports.

use crate::text::{append_decimal, decimal};
use vstd::prelude::*;

verus! {

/// What a guest says went wrong when it calls the crash reporter.
#[derive(Clone, Copy, PartialEq, Eq, Debug, Structural)]
pub enum PanicKind {
    /// Tag `0`: the guest's own runtime failed.
    InternalFailure,
    /// Tag `1`: the guest program raised a crash.
    GuestCrash,
    /// Any other tag.
    Unrecognized,
}

/// The meaning of a crash reporter tag.
pub open spec fn panic_kind(tag: i32) -> PanicKind {
    if tag == 0 {
        PanicKind::InternalFailure
    } else if tag == 1 {
        PanicKind::GuestCrash
    } else {
        PanicKind::Unrecognized
    }
}

/// One call of the crash reporter: the guest address of the message and the
/// tag, both as the guest passed them.
#[derive(Clone, Copy, PartialEq, Eq, Debug, Structural)]
pub struct PanicReport {
    pub ptr: i32,
    pub tag: i32,
}

/// The line that tells of a crash report.
pub open spec fn panic_message(report: PanicReport) -> Seq<char> {
    match panic_kind(report.tag) {
        PanicKind::InternalFailure => "Roc failed with message at ptr: "@ + decimal(
            report.ptr as int,
        ),
        PanicKind::GuestCrash => "User crash with message at ptr: "@ + decimal(report.ptr as int),
        PanicKind::Unrecognized => "Unknown panic tag: "@ + decimal(report.tag as int)
            + ", ptr: "@ + decimal(report.ptr as int),
    }
}

impl PanicReport {
    /// The line that tells of this report.
    pub fn message(&self) -> (text: String)
        ensures
            text@ == panic_message(*self),
    {
        match self.kind() {
            PanicKind::InternalFailure => {
                let mut text = String::from_str("Roc failed with message at ptr: ");
                append_decimal(&mut text, self.ptr);
                text
            },
            PanicKind::GuestCrash => {
                let mut text = String::from_str("User crash with message at ptr: ");
                append_decimal(&mut text, self.ptr);
                text
            },
            PanicKind::Unrecognized => {
                let mut text = String::from_str("Unknown panic tag: ");
                append_decimal(&mut text, self.tag);
                text.append(", ptr: ");
                append_decimal(&mut text, self.ptr);
                text
            },
        }
    }

    /// Classifies the tag of this report.
    pub fn kind(&self) -> (kind: PanicKind)
        ensures
            kind == panic_kind(self.tag),
    {
        if self.tag == 0 {
            PanicKind::InternalFailure
        } else if self.tag == 1 {
            PanicKind::GuestCrash
        } else {
            PanicKind::Unrecognized
        }
    }
}

/// Host data that lives in a store and that the bound host functions read and
/// change while a guest runs: a greeting, the number of times the guest asked
/// for it, and the crash reports the guest made.
pub struct HostState {
    name: String,
    count: usize,
    reports: Vec<PanicReport>,
}

/// A `HostState` as plain values.
pub struct HostStateView {
    pub name: Seq<char>,
    pub count: nat,
    pub reports: Seq<PanicReport>,
}

impl View for HostState {
    type V = HostStateView;

    closed spec fn view(&self) -> HostStateView {
        HostStateView { name: self.name@, count: self.count as nat, reports: self.reports@ }
    }
}

impl HostState {
    /// A state with the given greeting, not yet greeted and with no reports.
    pub fn new(name: String) -> (state: HostState)
        ensures
            state@ == (HostStateView { name: name@, count: 0, reports: Seq::empty() }),
    {
        HostState { name, count: 0, reports: Vec::new() }
    }

    /// The greeting.
    pub fn name(&self) -> (name: &str)
        ensures
            name@ == self@.name,
    {
        self.name.as_str()
    }

    /// How often the guest has asked for the greeting.
    pub fn count(&self) -> (count: usize)
        ensures
            count == self@.count,
    {
        self.count
    }

    /// The crash reports made so far, oldest first.
    pub fn reports(&self) -> (reports: &Vec<PanicReport>)
        ensures
            reports@ == self@.reports,
    {
        &self.reports
    }

    /// The greeting callback: counts one more call. The count stops at
    /// `usize::MAX`. The greeting and the reports stay as they are.
    pub fn greet(&mut self)
        ensures
            final(self)@.name == old(self)@.name,
            final(self)@.reports == old(self)@.reports,
            final(self)@.count == if old(self)@.count < usize::MAX {
                old(self)@.count + 1
            } else {
                old(self)@.count
            },
    {
        if self.count < usize::MAX {
            self.count = self.count + 1;
        }
    }

    /// The crash reporter: appends the report, whatever the tag, and returns
    /// normally, so that the guest goes on running.
    pub fn report_panic(&mut self, ptr: i32, tag: i32)
        ensures
            final(self)@.name == old(self)@.name,
            final(self)@.count == old(self)@.count,
            final(self)@.reports == old(self)@.reports.push(PanicReport { ptr, tag }),
    {
        self.reports.push(PanicReport { ptr, tag });
    }
}

} // verus!
