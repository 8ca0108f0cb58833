use vstd::prelude::*;
use vstd::string::StringExecFns;
use crate::raw::RawOutput;
use crate::slot::slot_of;
use crate::slot::SlotValue;

verus! {

/// The kinds of value that a request can ask the engine for.
#[derive(Clone, Copy, Debug, PartialEq, Eq, Structural)]
pub enum OutputKind {
    Number,
    Ordinal,
    Percentage,
    Datetime,
    DatetimeInterval,
    AmountOfMoney,
    Temperature,
    Duration,
}

/// The kind that an identifier names, if it names one.
pub open spec fn kind_named(name: Seq<char>) -> Option<OutputKind> {
    if name == "number"@ {
        Some(OutputKind::Number)
    } else if name == "ordinal"@ {
        Some(OutputKind::Ordinal)
    } else if name == "percentage"@ {
        Some(OutputKind::Percentage)
    } else if name == "datetime"@ {
        Some(OutputKind::Datetime)
    } else if name == "datetime-interval"@ {
        Some(OutputKind::DatetimeInterval)
    } else if name == "amount-of-money"@ {
        Some(OutputKind::AmountOfMoney)
    } else if name == "temperature"@ {
        Some(OutputKind::Temperature)
    } else if name == "duration"@ {
        Some(OutputKind::Duration)
    } else {
        None
    }
}

/// The kind under which a raw result was searched: whole and fractional numbers
/// are both numbers.
pub open spec fn raw_kind(o: RawOutput) -> OutputKind {
    match o {
        RawOutput::Integer(_) => OutputKind::Number,
        RawOutput::Float(_) => OutputKind::Number,
        RawOutput::Ordinal(_) => OutputKind::Ordinal,
        RawOutput::Percentage(_) => OutputKind::Percentage,
        RawOutput::Datetime(_) => OutputKind::Datetime,
        RawOutput::DatetimeInterval(_) => OutputKind::DatetimeInterval,
        RawOutput::AmountOfMoney { .. } => OutputKind::AmountOfMoney,
        RawOutput::Temperature { .. } => OutputKind::Temperature,
        RawOutput::Duration { .. } => OutputKind::Duration,
    }
}

/// The kind that the tag of a slot value stands for.
pub open spec fn slot_kind(v: SlotValue) -> OutputKind {
    match v {
        SlotValue::Number(_) => OutputKind::Number,
        SlotValue::Ordinal(_) => OutputKind::Ordinal,
        SlotValue::Percentage(_) => OutputKind::Percentage,
        SlotValue::InstantTime(_) => OutputKind::Datetime,
        SlotValue::TimeInterval(_) => OutputKind::DatetimeInterval,
        SlotValue::AmountOfMoney(_) => OutputKind::AmountOfMoney,
        SlotValue::Temperature(_) => OutputKind::Temperature,
        SlotValue::Duration(_) => OutputKind::Duration,
    }
}

/// Why a request was not answered.
#[derive(Clone, Debug, PartialEq, Eq)]
pub enum DispatchError {
    /// The identifier at this position of the requested kinds names no kind.
    InvalidKind { position: usize },
    /// The engine could not process the input; its message is kept.
    ParseFailure { message: String },
}

/// A language code that the engine does not support.
#[derive(Clone, Debug, PartialEq, Eq)]
pub struct ConfigurationError {
    pub code: String,
}

/// What to ask of the engine for one request.
#[derive(Clone, Debug, PartialEq, Eq)]
pub enum ParsePlan {
    /// Everything that the engine recognises, in its own order of priority.
    Discover,
    /// Only these kinds, an earlier one taking precedence over a later one.
    Constrained { kinds: Vec<OutputKind> },
}

fn same_text(a: &str, b: &str) -> (r: bool)
    ensures
        r == (a@ == b@),
{
    let left = String::from_str(a);
    let right = String::from_str(b);
    left == right
}

impl OutputKind {
    /// Reads a kind identifier; `None` where it names no kind.
    pub fn from_name(name: &str) -> (r: Option<OutputKind>)
        ensures
            r == kind_named(name@),
    {
        if same_text(name, "number") {
            Some(OutputKind::Number)
        } else if same_text(name, "ordinal") {
            Some(OutputKind::Ordinal)
        } else if same_text(name, "percentage") {
            Some(OutputKind::Percentage)
        } else if same_text(name, "datetime") {
            Some(OutputKind::Datetime)
        } else if same_text(name, "datetime-interval") {
            Some(OutputKind::DatetimeInterval)
        } else if same_text(name, "amount-of-money") {
            Some(OutputKind::AmountOfMoney)
        } else if same_text(name, "temperature") {
            Some(OutputKind::Temperature)
        } else if same_text(name, "duration") {
            Some(OutputKind::Duration)
        } else {
            None
        }
    }
}

impl SlotValue {
    /// The kind that the value's tag stands for.
    pub fn kind(&self) -> (k: OutputKind)
        ensures
            k == slot_kind(*self),
    {
        match self {
            SlotValue::Number(_) => OutputKind::Number,
            SlotValue::Ordinal(_) => OutputKind::Ordinal,
            SlotValue::Percentage(_) => OutputKind::Percentage,
            SlotValue::InstantTime(_) => OutputKind::Datetime,
            SlotValue::TimeInterval(_) => OutputKind::DatetimeInterval,
            SlotValue::AmountOfMoney(_) => OutputKind::AmountOfMoney,
            SlotValue::Temperature(_) => OutputKind::Temperature,
            SlotValue::Duration(_) => OutputKind::Duration,
        }
    }
}

/// Whether every identifier before position `end` names a kind.
pub open spec fn all_named(names: Seq<String>, end: int) -> bool {
    forall|i: int| 0 <= i < end ==> (#[trigger] kind_named(names[i]@)) is Some
}

/// Whether `kinds` holds, in order, the kinds that `names` name.
pub open spec fn kinds_follow(names: Seq<String>, kinds: Seq<OutputKind>) -> bool {
    &&& kinds.len() == names.len()
    &&& forall|i: int| 0 <= i < names.len() ==> kind_named(names[i]@) == Some(#[trigger] kinds[i])
}

/// Whether `slots` holds, in order, the slot value of each of `entities`.
pub open spec fn slots_follow(entities: Seq<RawOutput>, slots: Seq<SlotValue>) -> bool {
    &&& slots.len() == entities.len()
    &&& forall|i: int| 0 <= i < entities.len() ==> #[trigger] slots[i] == slot_of(entities[i])
}

/// Decides what to ask of the engine. With no identifiers the engine discovers
/// what it can; with some, the search is held to those kinds in the order
/// given. The first identifier that names no kind fails the request.
pub fn plan(names: &Vec<String>) -> (r: Result<ParsePlan, DispatchError>)
    ensures
        names@.len() == 0 ==> r == Ok::<ParsePlan, DispatchError>(ParsePlan::Discover),
        names@.len() > 0 && all_named(names@, names@.len() as int) ==> (r matches Ok(
            ParsePlan::Constrained { kinds },
        ) && kinds_follow(names@, kinds@)),
        !all_named(names@, names@.len() as int) ==> (r matches Err(
            DispatchError::InvalidKind { position },
        ) && position < names@.len() && all_named(names@, position as int) && kind_named(
            names@[position as int]@,
        ) is None),
{
    if names.len() == 0 {
        return Ok(ParsePlan::Discover);
    }
    let mut kinds: Vec<OutputKind> = Vec::new();
    let mut i: usize = 0;
    while i < names.len()
        invariant
            i <= names@.len(),
            kinds@.len() == i,
            all_named(names@, i as int),
            forall|j: int| 0 <= j < i ==> kind_named(names@[j]@) == Some(#[trigger] kinds@[j]),
        decreases names@.len() - i,
    {
        match OutputKind::from_name(names[i].as_str()) {
            Some(kind) => {
                kinds.push(kind);
            },
            None => {
                return Err(DispatchError::InvalidKind { position: i });
            },
        }
        i = i + 1;
    }
    Ok(ParsePlan::Constrained { kinds })
}

/// Converts every entity, in the order in which the engine gave them.
pub fn convert_all(entities: &Vec<RawOutput>) -> (slots: Vec<SlotValue>)
    ensures
        slots_follow(entities@, slots@),
{
    let mut slots: Vec<SlotValue> = Vec::new();
    let mut i: usize = 0;
    while i < entities.len()
        invariant
            i <= entities@.len(),
            slots@.len() == i,
            forall|j: int| 0 <= j < i ==> #[trigger] slots@[j] == slot_of(entities@[j]),
        decreases entities@.len() - i,
    {
        slots.push(SlotValue::of(&entities[i]));
        i = i + 1;
    }
    slots
}

/// Answers a request from what the engine returned: every entity converted, in
/// the engine's order, or the failure of the engine and no value at all.
pub fn respond(outcome: Result<Vec<RawOutput>, String>) -> (r: Result<Vec<SlotValue>, DispatchError>)
    ensures
        match outcome {
            Ok(entities) => r matches Ok(slots) && slots_follow(entities@, slots@),
            Err(message) => r == Err::<Vec<SlotValue>, DispatchError>(
                DispatchError::ParseFailure { message },
            ),
        },
{
    match outcome {
        Ok(entities) => Ok(convert_all(&entities)),
        Err(message) => Err(DispatchError::ParseFailure { message }),
    }
}

/// Settles the construction of a parser for a language code: the handle that the
/// engine built for it, or the code as a configuration error where the engine
/// supports no such language. No handle comes with an error.
pub fn construct<H>(code: String, built: Option<H>) -> (r: Result<H, ConfigurationError>)
    ensures
        match built {
            Some(handle) => r == Ok::<H, ConfigurationError>(handle),
            None => r == Err::<H, ConfigurationError>(ConfigurationError { code }),
        },
{
    match built {
        Some(handle) => Ok(handle),
        None => Err(ConfigurationError { code }),
    }
}

/// A slot value carries the tag of the kind under which the engine found it.
pub proof fn lemma_conversion_keeps_kind(o: RawOutput)
    ensures
        slot_kind(slot_of(o)) == raw_kind(o),
{
}

/// The slot value of a valid raw result is valid: its instants are valid, and an
/// interval has at least one bound.
pub proof fn lemma_conversion_keeps_validity(o: RawOutput)
    requires
        o.wf(),
    ensures
        slot_of(o).wf(),
{
}

/// Converting equal raw results gives equal slot values.
pub proof fn lemma_conversion_deterministic(a: RawOutput, b: RawOutput)
    requires
        a == b,
    ensures
        slot_of(a) == slot_of(b),
{
}

/// Where the engine returned only entities of the requested kinds, the response
/// holds only values tagged with those kinds, one for each entity and in the
/// same order.
pub proof fn lemma_constrained_response(
    entities: Seq<RawOutput>,
    slots: Seq<SlotValue>,
    kinds: Seq<OutputKind>,
)
    requires
        slots_follow(entities, slots),
        forall|i: int| 0 <= i < entities.len() ==> kinds.contains(raw_kind(#[trigger] entities[i])),
    ensures
        slots.len() == entities.len(),
        forall|i: int|
            0 <= i < slots.len() ==> slot_kind(#[trigger] slots[i]) == raw_kind(entities[i])
                && kinds.contains(slot_kind(slots[i])),
{
    assert forall|i: int| 0 <= i < slots.len() implies slot_kind(#[trigger] slots[i]) == raw_kind(
        entities[i],
    ) && kinds.contains(slot_kind(slots[i])) by {
        lemma_conversion_keeps_kind(entities[i]);
        assert(kinds.contains(raw_kind(entities[i])));
    }
}

} // verus!
