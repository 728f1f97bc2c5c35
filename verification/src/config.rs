use vstd::prelude::*;
use vstd::string::StringExecFns;

verus! {

/// The command-line surface: every knob optional, with documented
/// defaults. Argument parsing itself happens outside the library; this
/// type holds the parsed values.
pub struct Cli {
    /// Folder to put the screenshot files in; default the current
    /// directory.
    pub path: Option<String>,
    /// Seconds between captures; default 10.
    pub interval: Option<u16>,
    /// How many screenshots to take; default 1.
    pub count: Option<u32>,
    /// Run until cancelled, ignoring the count.
    pub forever: bool,
    /// Skip captures identical to the previously written one.
    pub skip_duplicates: bool,
}

/// A fully resolved run configuration.
pub struct RunConfig {
    pub path: String,
    pub interval: u16,
    pub count: u32,
    pub forever: bool,
    pub skip_duplicates: bool,
}

impl Cli {
    /// Fills in the documented defaults: path `.`, interval 10 seconds,
    /// count 1. The flags pass through unchanged.
    pub fn resolve(self) -> (c: RunConfig)
        ensures
            c.path@ == (match self.path {
                Some(p) => p@,
                None => "."@,
            }),
            c.interval == (match self.interval {
                Some(i) => i,
                None => 10u16,
            }),
            c.count == (match self.count {
                Some(n) => n,
                None => 1u32,
            }),
            c.forever == self.forever,
            c.skip_duplicates == self.skip_duplicates,
    {
        let path = match self.path {
            Some(p) => p,
            None => String::from_str("."),
        };
        let interval = match self.interval {
            Some(i) => i,
            None => 10,
        };
        let count = match self.count {
            Some(n) => n,
            None => 1,
        };
        RunConfig { path, interval, count, forever: self.forever, skip_duplicates: self.skip_duplicates }
    }
}

} // verus!
