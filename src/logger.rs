//! Log forwarder: decides which log records go to the hub and what event
//! carries them.

use crate::message::{LogEvent, LogLevel, PluginType};
use vstd::prelude::*;

verus! {

/// How verbose a level is: 1 for `Error` up to 5 for `Trace`. An undefined
/// level counts as `Warn`.
pub open spec fn verbosity(level: LogLevel) -> int {
    match level {
        LogLevel::Error => 1,
        LogLevel::Warn => 2,
        LogLevel::Undefined => 2,
        LogLevel::Info => 3,
        LogLevel::Debug => 4,
        LogLevel::Trace => 5,
    }
}

/// How verbose a level is: 1 for `Error` up to 5 for `Trace`.
pub fn level_verbosity(level: LogLevel) -> (r: u8)
    ensures
        r as int == verbosity(level),
{
    match level {
        LogLevel::Error => 1,
        LogLevel::Warn => 2,
        LogLevel::Undefined => 2,
        LogLevel::Info => 3,
        LogLevel::Debug => 4,
        LogLevel::Trace => 5,
    }
}

/// The identity and level filter under which log records are forwarded.
pub struct PluginLogger {
    pub plugin_id: String,
    pub plugin_type: PluginType,
    pub level: LogLevel,
}

impl PluginLogger {
    /// A logger before any plugin is known: id `<no-ID>`, type `Undefined`,
    /// level `Warn`.
    pub fn new() -> (r: PluginLogger)
        ensures
            r.plugin_id@ == "<no-ID>"@,
            r.plugin_type == PluginType::Undefined,
            r.level == LogLevel::Warn,
    {
        PluginLogger { plugin_id: "<no-ID>".to_owned(), plugin_type: PluginType::Undefined, level: LogLevel::Warn }
    }

    pub fn set_plugin_id(&mut self, plugin_id: String)
        ensures
            *final(self) == (PluginLogger { plugin_id, ..*old(self) }),
    {
        self.plugin_id = plugin_id;
    }

    pub fn set_plugin_type(&mut self, plugin_type: PluginType)
        ensures
            *final(self) == (PluginLogger { plugin_type, ..*old(self) }),
    {
        self.plugin_type = plugin_type;
    }

    pub fn set_level(&mut self, level: LogLevel)
        ensures
            *final(self) == (PluginLogger { level, ..*old(self) }),
    {
        self.level = level;
    }

    /// Binds the logger to a plugin: its id, its capability and its level.
    pub fn initialize(&mut self, plugin_id: String, plugin_type: PluginType, level: LogLevel)
        ensures
            *final(self) == (PluginLogger { plugin_id, plugin_type, level }),
    {
        self.set_plugin_id(plugin_id);
        self.set_plugin_type(plugin_type);
        self.set_level(level);
    }

    /// Whether a record at `level` passes the filter: it is no more verbose
    /// than the configured level.
    pub fn enabled(&self, level: LogLevel) -> (r: bool)
        ensures
            r == (verbosity(level) <= verbosity(self.level)),
    {
        level_verbosity(level) <= level_verbosity(self.level)
    }

    /// The event that forwards a record at `level`, or `None` when the filter
    /// holds it back. The event carries the logger's identity and its
    /// configured level.
    pub fn log(&self, level: LogLevel, message: String) -> (r: Option<LogEvent>)
        ensures
            r is Some <==> verbosity(level) <= verbosity(self.level),
            r is Some ==> ({
                let e = r.unwrap();
                &&& e.plugin_id@ == self.plugin_id@
                &&& e.plugin_type == self.plugin_type
                &&& e.log_level == self.level
                &&& e.message == message
                &&& e.details@.len() == 0
            }),
    {
        if !self.enabled(level) {
            return None;
        }
        Some(LogEvent {
            plugin_id: self.plugin_id.clone(),
            plugin_type: self.plugin_type,
            log_level: self.level,
            message,
            details: Vec::new(),
        })
    }
}

impl Default for PluginLogger {
    fn default() -> (r: PluginLogger)
        ensures
            r.plugin_id@ == "<no-ID>"@,
            r.plugin_type == PluginType::Undefined,
            r.level == LogLevel::Warn,
    {
        PluginLogger::new()
    }
}

} // verus!
