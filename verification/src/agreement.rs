//! What the agent reads from its agreement: the usage counters that it is
//! billed by.

use vstd::prelude::*;
use ya_agreement_utils::AgreementView;
use crate::counter::requests_duration::RequestsDurationCounter;
use crate::counter::{CounterEntry, CounterRegistry, UsageCounter};
use crate::text::{joined, owned, same_text, texts};

verus! {

/// An agreement as `ya_agreement_utils` holds it, carried through as it
/// comes.
#[verifier::external_type_specification]
#[verifier::external_body]
pub struct ExAgreementView(ya_agreement_utils::AgreementView);

/// The error type of `ya_agreement_utils`, carried through as it comes.
#[verifier::external_type_specification]
#[verifier::external_body]
pub struct ExAgreementError(ya_agreement_utils::Error);

/// What an agreement holds as lists of strings: for each JSON pointer under
/// which an array of strings stands in the agreement, the strings of that
/// array, in order. A pointer under which nothing stands, or anything but
/// an array of strings, is not in the map.
pub uninterp spec fn string_lists(view: AgreementView) -> Map<Seq<char>, Seq<Seq<char>>>;

/// Reads the list of strings under `pointer` with
/// `AgreementView::pointer_typed`. It looks the pointer up in the
/// agreement's JSON and reads what stands there as a list of strings: so
/// it gives the list exactly when an array of strings stands under the
/// pointer, and an error when nothing stands there or something else.
#[verifier::external_body]
fn pointer_strings(view: &AgreementView, pointer: &str) -> (r: Result<
    Vec<String>,
    ya_agreement_utils::Error,
>)
    ensures
        match r {
            Ok(list) => string_lists(*view).contains_key(pointer@) && string_lists(*view)[pointer@]
                == texts(list@),
            Err(_) => !string_lists(*view).contains_key(pointer@),
        },
{
    view.pointer_typed(pointer)
}

/// The words of an agreement error, as its `Display` gives them. Nothing
/// is claimed of them.
#[verifier::external_body]
fn error_words(error: &ya_agreement_utils::Error) -> String {
    error.to_string()
}

/// The JSON pointer under which an agreement keeps its usage vector.
pub open spec fn usage_vector_pointer() -> Seq<char> {
    "/offer/properties/golem/com/usage/vector"@
}

/// The name of the counter of hash rate.
pub open spec fn tera_hash_name() -> Seq<char> {
    "golem.usage.tera-hash"@
}

/// The name of the counter of time.
pub open spec fn duration_sec_name() -> Seq<char> {
    "golem.usage.duration_sec"@
}

/// What the agent needs of an agreement.
#[derive(Clone)]
pub struct AgreementDesc {
    /// The names of the usage counters, in the order of the usage vector.
    pub counters: Vec<String>,
}

/// Where the two counters of this agent stand in the usage vector.
#[derive(Clone, Copy, Debug, PartialEq, Eq, Hash, Structural)]
pub struct UsageLayout {
    pub tera_hash_pos: usize,
    pub duration_sec_pos: usize,
}

/// Why an agreement's counters do not suit this agent.
#[derive(Clone, Copy, Debug, PartialEq, Eq, Hash, Structural)]
pub enum LayoutError {
    /// There are not exactly two counters.
    WrongCount,
    /// One of the two counters of this agent is not among them.
    MissingCounters,
}

impl LayoutError {
    /// The words under which the error is shown.
    pub fn message(self) -> (r: String)
        ensures
            r@ == match self {
                LayoutError::WrongCount => "Invalid agreement. Expected 2 usage counters"@,
                LayoutError::MissingCounters => "Invalid agreement. Missing usage counters"@,
            },
    {
        match self {
            LayoutError::WrongCount => owned("Invalid agreement. Expected 2 usage counters"),
            LayoutError::MissingCounters => owned("Invalid agreement. Missing usage counters"),
        }
    }
}

/// Whether `name` is among `names`.
pub open spec fn listed(names: Seq<Seq<char>>, name: Seq<char>) -> bool {
    exists|i: int| 0 <= i < names.len() && #[trigger] names[i] == name
}

/// Where the two counters of this agent stand among `names`, or why the
/// names do not suit: there must be exactly two, the counter of hash rate
/// and the counter of time, in either order.
pub open spec fn layout_of(names: Seq<Seq<char>>) -> Result<UsageLayout, LayoutError> {
    if names.len() != 2 {
        Err(LayoutError::WrongCount)
    } else if names[0] == tera_hash_name() && names[1] == duration_sec_name() {
        Ok(UsageLayout { tera_hash_pos: 0, duration_sec_pos: 1 })
    } else if names[0] == duration_sec_name() && names[1] == tera_hash_name() {
        Ok(UsageLayout { tera_hash_pos: 1, duration_sec_pos: 0 })
    } else {
        Err(LayoutError::MissingCounters)
    }
}

/// The two counter names differ.
pub proof fn lemma_counter_names_differ()
    ensures
        tera_hash_name() != duration_sec_name(),
{
    reveal_strlit("golem.usage.tera-hash");
    reveal_strlit("golem.usage.duration_sec");
    assert(tera_hash_name().len() == 21);
    assert(duration_sec_name().len() == 24);
}

/// Two names suit exactly when both counters of this agent are among
/// them, and then the layout points at each of them.
pub proof fn lemma_layout_finds_both_counters(names: Seq<Seq<char>>)
    requires
        names.len() == 2,
    ensures
        layout_of(names) is Ok <==> listed(names, tera_hash_name()) && listed(
            names,
            duration_sec_name(),
        ),
        layout_of(names) matches Ok(layout) ==> {
            &&& layout.tera_hash_pos != layout.duration_sec_pos
            &&& names[layout.tera_hash_pos as int] == tera_hash_name()
            &&& names[layout.duration_sec_pos as int] == duration_sec_name()
        },
{
    lemma_counter_names_differ();
    if layout_of(names) is Ok {
        assert(names[0] == tera_hash_name() || names[1] == tera_hash_name());
        assert(names[0] == duration_sec_name() || names[1] == duration_sec_name());
    }
}

impl AgreementDesc {
    /// The agreement's description from the outcome of reading its usage
    /// vector: the counters as they were read, or the reader's words after
    /// `Invalid Agreement: Error loading usage counters: `.
    pub fn from_usage_vector(loaded: Result<Vec<String>, String>) -> (r: Result<
        AgreementDesc,
        String,
    >)
        ensures
            match loaded {
                Ok(counters) => r matches Ok(desc) && desc.counters == counters,
                Err(words) => r matches Err(message) && message@
                    == "Invalid Agreement: Error loading usage counters: "@ + words@,
            },
    {
        match loaded {
            Ok(counters) => Ok(AgreementDesc { counters }),
            Err(words) => Err(
                joined("Invalid Agreement: Error loading usage counters: ", words.as_str()),
            ),
        }
    }

    /// Reads the usage vector of an agreement, which stands under
    /// [`usage_vector_pointer`].
    ///
    /// When an array of strings stands there, the description holds those
    /// strings as its counters, in order. When nothing stands there, or
    /// anything else, the agreement is refused with the reader's words
    /// after `Invalid Agreement: Error loading usage counters: `.
    pub fn from_view(view: &AgreementView) -> (r: Result<AgreementDesc, String>)
        ensures
            match r {
                Ok(desc) => string_lists(*view).contains_key(usage_vector_pointer()) && texts(
                    desc.counters@,
                ) == string_lists(*view)[usage_vector_pointer()],
                Err(message) => {
                    &&& !string_lists(*view).contains_key(usage_vector_pointer())
                    &&& exists|words: Seq<char>|
                        message@ == "Invalid Agreement: Error loading usage counters: "@ + words
                },
            },
    {
        let loaded = match pointer_strings(view, "/offer/properties/golem/com/usage/vector") {
            Ok(counters) => Ok(counters),
            Err(error) => Err(error_words(&error)),
        };
        AgreementDesc::from_usage_vector(loaded)
    }

    /// Finds the two counters of this agent. See [`layout_of`].
    pub fn usage_layout(&self) -> (r: Result<UsageLayout, LayoutError>)
        ensures
            r == layout_of(texts(self.counters@)),
    {
        if self.counters.len() != 2 {
            return Err(LayoutError::WrongCount);
        }
        let ghost names = texts(self.counters@);
        assert(names[0] == self.counters@[0]@ && names[1] == self.counters@[1]@);
        let first_is_time = same_text(&self.counters[0], "golem.usage.duration_sec");
        let first_is_hash = same_text(&self.counters[0], "golem.usage.tera-hash");
        let second_is_time = same_text(&self.counters[1], "golem.usage.duration_sec");
        let second_is_hash = same_text(&self.counters[1], "golem.usage.tera-hash");
        if first_is_hash && second_is_time {
            Ok(UsageLayout { tera_hash_pos: 0, duration_sec_pos: 1 })
        } else if first_is_time && second_is_hash {
            Ok(UsageLayout { tera_hash_pos: 1, duration_sec_pos: 0 })
        } else {
            Err(LayoutError::MissingCounters)
        }
    }

    /// The counters that this agent keeps for the agreement, in the order
    /// of its usage vector and without limits: an input counter for the
    /// hash rate, at first zero, and the duration of requests for the
    /// time. An agreement whose counters do not suit gives the error of
    /// [`layout_of`].
    pub fn registry(&self) -> (r: Result<CounterRegistry, LayoutError>)
        ensures
            match r {
                Ok(registry) => layout_of(texts(self.counters@)) matches Ok(layout)
                    && registry.entries@ == fresh_counters(self.counters@, layout),
                Err(error) => layout_of(texts(self.counters@)) == Err::<UsageLayout, LayoutError>(
                    error,
                ),
            },
    {
        let layout = match self.usage_layout() {
            Ok(layout) => layout,
            Err(error) => {
                return Err(error);
            },
        };
        let hash = UsageCounter::Input { value: 0 };
        let time = UsageCounter::RequestsDuration { counter: RequestsDurationCounter::new() };
        let first = self.counters[0].clone();
        let second = self.counters[1].clone();
        let registry = if layout.tera_hash_pos == 0 {
            CounterRegistry::new().with_counter(first, hash).with_counter(second, time)
        } else {
            CounterRegistry::new().with_counter(first, time).with_counter(second, hash)
        };
        assert(registry.entries@ =~= fresh_counters(self.counters@, layout));
        Ok(registry)
    }
}

/// The counters of an agreement before anything was counted: under each
/// name of the usage vector the counter that `layout` gives it, at zero
/// and without a limit.
pub open spec fn fresh_counters(names: Seq<String>, layout: UsageLayout) -> Seq<CounterEntry> {
    Seq::new(
        2,
        |i: int|
            CounterEntry {
                name: names[i],
                counter: if i == layout.tera_hash_pos {
                    UsageCounter::Input { value: 0 }
                } else {
                    UsageCounter::RequestsDuration {
                        counter: RequestsDurationCounter {
                            duration: 0,
                            active_requests_count: 0,
                            first_active_request_start_time: None,
                        },
                    }
                },
                limit: None,
            },
    )
}

} // verus!
