//! The caller-facing outcome of an evaluation: the value together with
//! metadata about how it was derived.

use crate::error::EvaluationError;
use crate::string_map::StringMap;
use crate::value::FloatBits;
use vstd::prelude::*;

verus! {

/// The result of evaluation: the wanted outcome, or the error that ended the
/// call.
pub type EvaluationResult<T> = Result<T, EvaluationError>;

/// Reason for evaluation.
#[derive(PartialEq, Eq, Debug)]
pub enum EvaluationReason {
    /// The resolved value is static (no dynamic evaluation).
    Static,
    /// The resolved value fell back to a pre-configured value.
    Default,
    /// The resolved value was the result of a dynamic evaluation.
    TargetingMatch,
    /// The resolved value was the result of pseudorandom assignment.
    Split,
    /// The resolved value was retrieved from cache.
    Cached,
    /// The resolved value was the result of the flag being disabled.
    Disabled,
    /// The reason for the resolved value could not be determined.
    Unknown,
    /// The resolved value was the result of an error.
    Error,
    /// Other custom reason.
    Other(String),
}

impl EvaluationReason {
    /// The reason, rendered as the conventional upper-case name; a custom
    /// reason renders as itself.
    pub fn to_string(&self) -> (r: String)
        ensures
            r@ == self.spec_name(),
    {
        match self {
            Self::Static => "STATIC".to_owned(),
            Self::Default => "DEFAULT".to_owned(),
            Self::TargetingMatch => "TARGETING_MATCH".to_owned(),
            Self::Split => "SPLIT".to_owned(),
            Self::Cached => "CACHED".to_owned(),
            Self::Disabled => "DISABLED".to_owned(),
            Self::Unknown => "UNKNOWN".to_owned(),
            Self::Error => "ERROR".to_owned(),
            Self::Other(reason) => reason.clone(),
        }
    }

    /// The characters [`EvaluationReason::to_string`] renders to.
    pub open spec fn spec_name(self) -> Seq<char> {
        match self {
            Self::Static => "STATIC"@,
            Self::Default => "DEFAULT"@,
            Self::TargetingMatch => "TARGETING_MATCH"@,
            Self::Split => "SPLIT"@,
            Self::Cached => "CACHED"@,
            Self::Disabled => "DISABLED"@,
            Self::Unknown => "UNKNOWN"@,
            Self::Error => "ERROR"@,
            Self::Other(reason) => reason@,
        }
    }
}

impl Clone for EvaluationReason {
    /// Cloning keeps the reason.
    fn clone(&self) -> (r: Self)
        ensures
            r == *self,
    {
        match self {
            Self::Static => Self::Static,
            Self::Default => Self::Default,
            Self::TargetingMatch => Self::TargetingMatch,
            Self::Split => Self::Split,
            Self::Cached => Self::Cached,
            Self::Disabled => Self::Disabled,
            Self::Unknown => Self::Unknown,
            Self::Error => Self::Error,
            Self::Other(reason) => Self::Other(reason.clone()),
        }
    }
}

impl Default for EvaluationReason {
    /// The default reason is [`EvaluationReason::Unknown`].
    fn default() -> (r: Self)
        ensures
            r == EvaluationReason::Unknown,
    {
        EvaluationReason::Unknown
    }
}

/// Supported values of flag metadata fields.
#[derive(PartialEq, Debug)]
pub enum FlagMetadataValue {
    Bool(bool),
    Int(i64),
    Float(FloatBits),
    String(String),
}

impl Clone for FlagMetadataValue {
    /// Cloning keeps the value.
    fn clone(&self) -> (r: Self)
        ensures
            r == *self,
    {
        match self {
            Self::Bool(value) => Self::Bool(*value),
            Self::Int(value) => Self::Int(*value),
            Self::Float(value) => Self::Float(*value),
            Self::String(value) => Self::String(value.clone()),
        }
    }
}

/// A structure which supports definition of arbitrary properties, with keys
/// of type string, and values of type boolean, string, or number. Populated
/// by a provider for use by application authors and hooks.
#[derive(PartialEq, Debug)]
pub struct FlagMetadata {
    /// The fields of the metadata.
    pub values: StringMap<FlagMetadataValue>,
}

impl FlagMetadata {
    /// Create a metadata record with no fields.
    pub fn new() -> (r: Self)
        ensures
            r.values@ == Map::<Seq<char>, FlagMetadataValue>::empty(),
    {
        FlagMetadata { values: StringMap::new() }
    }

    /// Append the given `key` and `value` to the fields of the metadata, and
    /// return it.
    #[must_use]
    pub fn with_value(self, key: &str, value: FlagMetadataValue) -> (r: Self)
        ensures
            r.values@ == self.values@.insert(key@, value),
    {
        let mut r = self;
        r.add_value(key, value);
        r
    }

    /// Append the given `key` and `value` to the fields of the metadata.
    pub fn add_value(&mut self, key: &str, value: FlagMetadataValue)
        ensures
            final(self).values@ == old(self).values@.insert(key@, value),
    {
        self.values.insert(key.to_owned(), value);
    }
}

impl Clone for FlagMetadata {
    /// Cloning keeps the fields.
    fn clone(&self) -> (r: Self)
        ensures
            r.values@ == self.values@,
    {
        let values = self.values.clone();
        proof {
            use_type_invariant(&self.values);
            use_type_invariant(&values);
            self.values.lemma_pairs();
            values.lemma_pairs();
            assert forall|k: Seq<char>| #[trigger] self.values@.contains_key(k) implies values@[k]
                == self.values@[k] by {
                lemma_metadata_value_cloned(self.values@[k], values@[k]);
            }
            assert(values@ =~= self.values@);
        }
        FlagMetadata { values }
    }
}

impl Default for FlagMetadata {
    /// The default metadata record has no fields.
    fn default() -> (r: Self)
        ensures
            r.values@ == Map::<Seq<char>, FlagMetadataValue>::empty(),
    {
        FlagMetadata::new()
    }
}

/// A clone of a flag metadata value is the value itself.
pub proof fn lemma_metadata_value_cloned(a: FlagMetadataValue, b: FlagMetadataValue)
    requires
        cloned::<FlagMetadataValue>(a, b),
    ensures
        a == b,
{
}

/// The result of the flag evaluation process, as made available to the
/// caller: the resolved value together with the flag key it was resolved
/// for, and the provider's optional reason, variant and metadata.
#[derive(Clone, Debug)]
pub struct EvaluationDetails<T> {
    /// The flag key argument passed to the detailed flag evaluation method.
    pub flag_key: String,

    /// The value of the evaluation result.
    pub value: T,

    /// The optional reason returned by the configured provider.
    pub reason: Option<EvaluationReason>,

    /// The optional variant returned by the configured provider.
    pub variant: Option<String>,

    /// The flag metadata returned by the configured provider, or an empty
    /// record if the provider returned none.
    pub flag_metadata: FlagMetadata,
}

} // verus!
