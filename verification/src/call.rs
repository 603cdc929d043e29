//! The model of one command invocation: its named flags and the source
//! span of the invocation site, together with flag extraction.

use vstd::prelude::*;

verus! {

/// A source location of the invocation site, as the host reports it.
#[derive(Clone, Copy, PartialEq, Eq, Structural, Debug)]
pub struct SourceSpan {
    pub start: usize,
    pub end: usize,
}

/// The value supplied for one named flag, reduced to the kinds the
/// dispatcher distinguishes: text, a duration counted in nanoseconds, or
/// a value of any other kind.
pub enum FlagValue {
    Text(String),
    Duration(i64),
    Other,
}

/// The mathematical model of a flag value.
pub enum FlagView {
    Text(Seq<char>),
    Duration(i64),
    Other,
}

impl View for FlagValue {
    type V = FlagView;

    open spec fn view(&self) -> FlagView {
        match self {
            FlagValue::Text(s) => FlagView::Text(s@),
            FlagValue::Duration(n) => FlagView::Duration(*n),
            FlagValue::Other => FlagView::Other,
        }
    }
}

/// One named flag supplied with the call.
pub struct Flag {
    pub name: String,
    pub value: FlagValue,
}

/// The value supplied for the flag `name`, if any: the first flag with a
/// matching name decides, as in the host's own lookup.
pub open spec fn spec_flag_value(flags: Seq<Flag>, name: Seq<char>) -> Option<FlagView>
    decreases flags.len(),
{
    if flags.len() == 0 {
        None
    } else if flags[0].name@ == name {
        Some(flags[0].value@)
    } else {
        spec_flag_value(flags.drop_first(), name)
    }
}

/// What textual extraction yields: the flag's text when the flag is
/// present with a textual value, and nothing in every other case.
pub open spec fn spec_flag_string(flags: Seq<Flag>, name: Seq<char>) -> Option<Seq<char>> {
    match spec_flag_value(flags, name) {
        Some(FlagView::Text(s)) => Some(s),
        _ => None,
    }
}

/// What duration extraction yields: the flag's nanosecond count when the
/// flag is present with a duration value, and nothing in every other case.
pub open spec fn spec_flag_duration(flags: Seq<Flag>, name: Seq<char>) -> Option<i64> {
    match spec_flag_value(flags, name) {
        Some(FlagView::Duration(n)) => Some(n),
        _ => None,
    }
}

/// One command invocation: the named flags, in the order the host
/// supplies them, and the source span of the invocation site. Immutable
/// for the duration of one invocation.
pub struct CallRecord {
    pub flags: Vec<Flag>,
    pub head: SourceSpan,
}

proof fn lemma_flag_lookup_step(flags: Seq<Flag>, name: Seq<char>, i: int)
    requires
        0 <= i < flags.len(),
        flags[i].name@ != name,
    ensures
        spec_flag_value(flags.skip(i), name) == spec_flag_value(flags.skip(i + 1), name),
{
    assert(flags.skip(i)[0] == flags[i]);
    assert(flags.skip(i).drop_first() =~= flags.skip(i + 1));
}

impl CallRecord {
    /// The value supplied for the flag `name`, if any.
    pub fn get_flag_value(&self, name: &str) -> (r: Option<&FlagValue>)
        ensures
            match r {
                Some(v) => spec_flag_value(self.flags@, name@) == Some(v@),
                None => spec_flag_value(self.flags@, name@) is None,
            },
    {
        let needle: String = name.to_owned();
        let n = self.flags.len();
        let mut i: usize = 0;
        assert(self.flags@.skip(0) =~= self.flags@);
        while i < n
            invariant
                n == self.flags@.len(),
                i <= n,
                needle@ == name@,
                spec_flag_value(self.flags@, name@) == spec_flag_value(
                    self.flags@.skip(i as int),
                    name@,
                ),
            decreases n - i,
        {
            let f = &self.flags[i];
            if f.name == needle {
                assert(self.flags@.skip(i as int)[0] == self.flags@[i as int]);
                return Some(&f.value);
            }
            proof {
                lemma_flag_lookup_step(self.flags@, name@, i as int);
            }
            i += 1;
        }
        None
    }
}

/// Reads the flag `name` from the call as text. The extraction succeeds
/// only if the flag was supplied and its value is textual; a flag that is
/// absent, or present with a value of any other kind, yields `None`.
pub fn load_string(call: &CallRecord, name: &str) -> (r: Option<String>)
    ensures
        match r {
            Some(s) => spec_flag_string(call.flags@, name@) == Some(s@),
            None => spec_flag_string(call.flags@, name@) is None,
        },
{
    match call.get_flag_value(name) {
        Some(v) => match v {
            FlagValue::Text(s) => Some(s.clone()),
            _ => None,
        },
        None => None,
    }
}

/// Reads the flag `name` from the call as a duration in nanoseconds. The
/// extraction succeeds only if the flag was supplied and its value is a
/// duration; a flag that is absent, or present with a value of any other
/// kind, yields `None`.
pub fn load_duration(call: &CallRecord, name: &str) -> (r: Option<i64>)
    ensures
        r == spec_flag_duration(call.flags@, name@),
{
    match call.get_flag_value(name) {
        Some(v) => match v {
            FlagValue::Duration(n) => Some(*n),
            _ => None,
        },
        None => None,
    }
}

/// Flag extraction is idempotent: it is a pure function of the call
/// record and the flag name, and a call record is never mutated, so any
/// two extractions of the same flag from the same call yield the same
/// result. The result of `load_string` is pinned to `spec_flag_string`
/// by its postcondition, so the hypotheses hold of any two of its calls.
pub proof fn lemma_extraction_idempotent(
    flags: Seq<Flag>,
    name: Seq<char>,
    first: Option<Seq<char>>,
    second: Option<Seq<char>>,
)
    requires
        first == spec_flag_string(flags, name),
        second == spec_flag_string(flags, name),
    ensures
        first == second,
{
}

} // verus!
