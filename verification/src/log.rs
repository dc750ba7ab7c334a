//! Messages a patch emits while it runs.

use vstd::prelude::*;

verus! {

/// How much a message matters.
#[derive(PartialEq, Eq, Structural, Clone, Copy, Debug)]
pub enum LogLevel {
    Debug,
    Info,
    Warn,
}

/// One message, tagged with the patch that emitted it.
#[derive(Debug)]
pub struct LogEntry {
    pub level: LogLevel,
    pub patch: String,
    pub message: String,
}

/// What a log entry holds.
pub struct EntryView {
    pub level: LogLevel,
    pub patch: Seq<char>,
    pub message: Seq<char>,
}

impl View for LogEntry {
    type V = EntryView;

    open spec fn view(&self) -> EntryView {
        EntryView { level: self.level, patch: self.patch@, message: self.message@ }
    }
}

/// The views of a list of entries.
pub open spec fn entry_views(entries: Seq<LogEntry>) -> Seq<EntryView> {
    entries.map_values(|e: LogEntry| e@)
}

impl LogEntry {
    /// An equal copy.
    pub fn duplicate(&self) -> (r: LogEntry)
        ensures
            r@ == self@,
    {
        LogEntry { level: self.level, patch: self.patch.clone(), message: self.message.clone() }
    }
}

/// Messages a patch emits while it runs, tagged with the patch's name.
pub struct PatchLog {
    patch: String,
    entries: Vec<LogEntry>,
}

impl PatchLog {
    /// The name entries are tagged with.
    pub closed spec fn patch_name(&self) -> Seq<char> {
        self.patch@
    }

    /// The entries gathered so far.
    pub closed spec fn entries(&self) -> Seq<EntryView> {
        entry_views(self.entries@)
    }

    /// An empty log for `patch`.
    pub fn new(patch: String) -> (r: Self)
        ensures
            r.patch_name() == patch@,
            r.entries().len() == 0,
    {
        PatchLog { patch, entries: Vec::new() }
    }

    /// Appends `message` at `level`.
    pub fn log(&mut self, level: LogLevel, message: String)
        ensures
            final(self).patch_name() == old(self).patch_name(),
            final(self).entries() == old(self).entries().push(
                EntryView { level, patch: old(self).patch_name(), message: message@ },
            ),
    {
        let entry = LogEntry { level, patch: self.patch.clone(), message };
        self.entries.push(entry);
        assert(entry_views(self.entries@) =~= entry_views(old(self).entries@).push(
            EntryView { level, patch: self.patch@, message: message@ },
        ));
    }

    pub fn debug(&mut self, message: String)
        ensures
            final(self).patch_name() == old(self).patch_name(),
            final(self).entries() == old(self).entries().push(
                EntryView { level: LogLevel::Debug, patch: old(self).patch_name(), message: message@ },
            ),
    {
        self.log(LogLevel::Debug, message);
    }

    pub fn info(&mut self, message: String)
        ensures
            final(self).patch_name() == old(self).patch_name(),
            final(self).entries() == old(self).entries().push(
                EntryView { level: LogLevel::Info, patch: old(self).patch_name(), message: message@ },
            ),
    {
        self.log(LogLevel::Info, message);
    }

    pub fn warn(&mut self, message: String)
        ensures
            final(self).patch_name() == old(self).patch_name(),
            final(self).entries() == old(self).entries().push(
                EntryView { level: LogLevel::Warn, patch: old(self).patch_name(), message: message@ },
            ),
    {
        self.log(LogLevel::Warn, message);
    }

    /// Hands out the gathered entries, leaving the log empty.
    pub fn take_entries(&mut self) -> (r: Vec<LogEntry>)
        ensures
            final(self).patch_name() == old(self).patch_name(),
            final(self).entries().len() == 0,
            entry_views(r@) == old(self).entries(),
    {
        let mut taken: Vec<LogEntry> = Vec::new();
        std::mem::swap(&mut taken, &mut self.entries);
        assert(entry_views(self.entries@) =~= Seq::<EntryView>::empty());
        taken
    }
}

} // verus!
