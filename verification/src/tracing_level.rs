//! The tracing level at which the error of each status code is logged.
use vstd::prelude::*;

verus! {

/// The tracing level that maps to `tracing::Level`.
#[derive(Copy, Clone, PartialEq, Eq, Debug, Structural)]
pub enum TracingLevel {
    Trace,
    Debug,
    Info,
    Warn,
    Error,
}

/// Number of entries in the table: one for each index below 1000.
pub const TABLE_LEN: usize = 1000;

/// The level at which the error of a status code is logged until it is
/// changed: `Debug` for 100..400, `Info` for 400..500, `Error` for 500..600
/// and `Trace` for every other index of the table.
pub open spec fn default_level(index: int) -> TracingLevel {
    if 100 <= index < 400 {
        TracingLevel::Debug
    } else if 400 <= index < 500 {
        TracingLevel::Info
    } else if 500 <= index < 600 {
        TracingLevel::Error
    } else {
        TracingLevel::Trace
    }
}

/// The default table, index by index.
pub open spec fn default_table() -> Seq<TracingLevel> {
    Seq::new(TABLE_LEN as nat, |i: int| default_level(i))
}

/// The table from status code to tracing level that error replies consult.
pub struct TracingLevels {
    levels: Vec<TracingLevel>,
}

impl View for TracingLevels {
    type V = Seq<TracingLevel>;

    closed spec fn view(&self) -> Seq<TracingLevel> {
        self.levels@
    }
}

impl TracingLevels {
    #[verifier::type_invariant]
    closed spec fn full(self) -> bool {
        self.levels@.len() == TABLE_LEN
    }

    /// The default table (see [`default_level`]).
    pub fn new() -> (t: TracingLevels)
        ensures
            t@ == default_table(),
    {
        let mut levels: Vec<TracingLevel> = Vec::new();
        let mut ind: usize = 0;
        while ind < TABLE_LEN
            invariant
                ind <= TABLE_LEN,
                levels@.len() == ind,
                forall|i: int| 0 <= i < ind ==> levels@[i] == default_level(i),
            decreases TABLE_LEN - ind,
        {
            let level = if 100 <= ind && ind < 400 {
                TracingLevel::Debug
            } else if 400 <= ind && ind < 500 {
                TracingLevel::Info
            } else if 500 <= ind && ind < 600 {
                TracingLevel::Error
            } else {
                TracingLevel::Trace
            };
            levels.push(level);
            ind += 1;
        }
        assert(levels@ =~= default_table());
        TracingLevels { levels }
    }

    /// The table always has one entry for each index below 1000.
    pub fn len(&self) -> (n: usize)
        ensures
            n == self@.len(),
            n == TABLE_LEN,
    {
        proof {
            use_type_invariant(self);
        }
        self.levels.len()
    }

    /// The level for a status code, `None` for an index past the table.
    pub fn level_for(&self, index: usize) -> (l: Option<TracingLevel>)
        ensures
            l == (if index < TABLE_LEN {
                Some(self@[index as int])
            } else {
                None::<TracingLevel>
            }),
    {
        proof {
            use_type_invariant(self);
        }
        if index < self.levels.len() {
            Some(self.levels[index])
        } else {
            None
        }
    }
}

/// Change the level for a status code. Should only be used on program
/// initialization.
///
/// The status code has to be at least 100 and below 1000.
pub fn change_tracing_level(levels: &mut TracingLevels, status_code: usize, level: TracingLevel)
    requires
        100 <= status_code < TABLE_LEN,
    ensures
        final(levels)@ == old(levels)@.update(status_code as int, level),
{
    proof {
        use_type_invariant(&*levels);
    }
    let mut table = levels.levels.clone();
    table.set(status_code, level);
    *levels = TracingLevels { levels: table };
}

/// A changed level is read back for its status code, and every other status
/// code keeps the level it had.
pub proof fn law_change_then_lookup(
    before: Seq<TracingLevel>,
    status_code: int,
    level: TracingLevel,
    other: int,
)
    requires
        before.len() == TABLE_LEN,
        100 <= status_code < TABLE_LEN,
        0 <= other < TABLE_LEN,
        other != status_code,
    ensures
        before.update(status_code, level)[status_code] == level,
        before.update(status_code, level)[other] == before[other],
        before.update(status_code, level).len() == TABLE_LEN,
{
}

/// By default, errors of status codes 100 to 399 are logged at `Debug`,
/// 400 to 499 at `Info`, 500 to 599 at `Error`, and 600 to 999 at `Trace`;
/// no code starts at `Warn`.
pub proof fn law_default_levels(code: int)
    requires
        100 <= code < 1000,
    ensures
        default_table()[code] == TracingLevel::Debug <==> code < 400,
        default_table()[code] == TracingLevel::Info <==> 400 <= code < 500,
        default_table()[code] == TracingLevel::Error <==> 500 <= code < 600,
        default_table()[code] == TracingLevel::Trace <==> 600 <= code,
        default_table()[code] != TracingLevel::Warn,
{
}

} // verus!
