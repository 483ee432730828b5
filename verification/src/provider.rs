//! The provider contract: the pluggable backend that resolves flag values,
//! and the two providers the library ships.

use crate::context::EvaluationContext;
use crate::context::EvaluationContextFieldValue;
use crate::details::EvaluationDetails;
use crate::details::EvaluationReason;
use crate::details::EvaluationResult;
use crate::details::FlagMetadata;
use crate::details::FlagMetadataValue;
use crate::error::EvaluationError;
use crate::hooks::HookWrapper;
use crate::string_map::map_of;
use crate::value::struct_deep_eq;
use crate::value::FloatBits;
use crate::value::StructValue;
use std::sync::Arc;
use vstd::prelude::*;

verus! {

/// The metadata of a feature provider: its name.
#[derive(PartialEq, Eq, Debug)]
pub struct ProviderMetadata {
    /// The name of the provider.
    pub name: String,
}

impl ProviderMetadata {
    /// Create metadata out of a name.
    pub fn new(name: &str) -> (r: Self)
        ensures
            r.name@ == name@,
    {
        ProviderMetadata { name: name.to_owned() }
    }
}

impl Clone for ProviderMetadata {
    /// Cloning keeps the name.
    fn clone(&self) -> (r: Self)
        ensures
            r == *self,
    {
        ProviderMetadata { name: self.name.clone() }
    }
}

impl Default for ProviderMetadata {
    /// The default metadata carries the empty name.
    fn default() -> (r: Self)
        ensures
            r.name@ == Seq::<char>::empty(),
    {
        ProviderMetadata { name: String::new() }
    }
}

/// The status of a feature provider.
#[derive(Clone, Copy, PartialEq, Eq, Structural, Debug)]
pub enum ProviderStatus {
    /// The provider has not been initialized.
    NotReady,
    /// The provider has been initialized, and is able to reliably resolve
    /// flag values.
    Ready,
    /// The provider is initialized but is not able to reliably resolve flag
    /// values.
    Error,
    /// The provider's cached state is no longer valid and may not be
    /// up-to-date with the source of truth.
    Stale,
}

impl Default for ProviderStatus {
    /// A provider starts out not ready.
    fn default() -> (r: Self)
        ensures
            r == ProviderStatus::NotReady,
    {
        ProviderStatus::NotReady
    }
}

/// The raw outcome of a provider's flag resolution: the value, an optional
/// variant label, an optional reason, an optional error and optional
/// metadata.
#[derive(Clone, Debug)]
pub struct ResolutionDetails<T> {
    /// The resolved flag value.
    pub value: T,

    /// An optional identifier of the variant the value corresponds to.
    pub variant: Option<String>,

    /// An optional semantic reason for the returned value.
    pub reason: Option<EvaluationReason>,

    /// In abnormal execution, the error; never populated on success.
    pub error: Option<EvaluationError>,

    /// Optional metadata about the flag.
    pub flag_metadata: Option<FlagMetadata>,
}

impl<T> ResolutionDetails<T> {
    /// Create a resolution carrying only a value.
    pub fn new(value: T) -> (r: Self)
        ensures
            r.value == value,
            r.variant is None,
            r.reason is None,
            r.error is None,
            r.flag_metadata is None,
    {
        ResolutionDetails { value, variant: None, reason: None, error: None, flag_metadata: None }
    }

    /// Whether the resolution carries an error.
    pub fn is_error(&self) -> (r: bool)
        ensures
            r == (self.error is Some),
    {
        self.error.is_some()
    }

    /// Attach the flag key, carry the value, variant and reason over, and
    /// default absent metadata to an empty record: the caller-facing view of
    /// this resolution.
    pub fn into_evaluation_details(self, flag_key: &str) -> (r: EvaluationDetails<T>)
        ensures
            r.flag_key@ == flag_key@,
            r.value == self.value,
            r.reason == self.reason,
            r.variant == self.variant,
            r.flag_metadata.values@ == (match self.flag_metadata {
                Some(m) => m.values@,
                None => Map::<Seq<char>, FlagMetadataValue>::empty(),
            }),
    {
        let flag_metadata = match self.flag_metadata {
            Some(m) => m,
            None => FlagMetadata::new(),
        };
        EvaluationDetails {
            flag_key: flag_key.to_owned(),
            value: self.value,
            reason: self.reason,
            variant: self.variant,
            flag_metadata,
        }
    }
}

impl<T: Default> Default for ResolutionDetails<T> {
    /// The default resolution carries the type's default value and nothing
    /// else.
    fn default() -> (r: Self)
        ensures
            T::default.ensures((), r.value),
            r.variant is None,
            r.reason is None,
            r.error is None,
            r.flag_metadata is None,
    {
        ResolutionDetails {
            value: T::default(),
            variant: None,
            reason: None,
            error: None,
            flag_metadata: None,
        }
    }
}

/// The contract a flag-resolution backend implements. Providers translate
/// flag evaluation calls into their flag management system; the library asks
/// one to initialize before it becomes visible, to resolve typed values
/// during evaluations, and to shut down at most once, when it is replaced or
/// the registry is cleared.
pub trait FeatureProvider: Send + Sync {
    /// Called once, with the global evaluation context, before the provider
    /// becomes visible for lookups.
    fn initialize(&mut self, context: &EvaluationContext);

    /// The readiness of the provider.
    fn status(&self) -> ProviderStatus;

    /// The provider's identifying metadata.
    fn metadata(&self) -> &ProviderMetadata;

    /// The provider-scope hooks, spliced into the hook chain at the
    /// innermost position.
    fn hooks(&self) -> &[HookWrapper];

    /// Called at most once by the library, after the provider has been
    /// superseded or during registry shutdown.
    fn shutdown(&self);

    /// Resolve the given `flag_key` as a bool value.
    fn resolve_bool_value(&self, flag_key: &str, evaluation_context: &EvaluationContext) -> (r:
        EvaluationResult<ResolutionDetails<bool>>);

    /// Resolve the given `flag_key` as an int value.
    fn resolve_int_value(&self, flag_key: &str, evaluation_context: &EvaluationContext) -> (r:
        EvaluationResult<ResolutionDetails<i64>>);

    /// Resolve the given `flag_key` as a float value, carried as its bits.
    fn resolve_float_value(&self, flag_key: &str, evaluation_context: &EvaluationContext) -> (r:
        EvaluationResult<ResolutionDetails<FloatBits>>);

    /// Resolve the given `flag_key` as a string value.
    fn resolve_string_value(&self, flag_key: &str, evaluation_context: &EvaluationContext) -> (r:
        EvaluationResult<ResolutionDetails<String>>);

    /// Resolve the given `flag_key` as a structure value.
    fn resolve_struct_value(&self, flag_key: &str, evaluation_context: &EvaluationContext) -> (r:
        EvaluationResult<ResolutionDetails<StructValue>>);
}

/// What a context field contributes to flag metadata: booleans, numbers and
/// strings carry over; date-times and structs are left out.
pub open spec fn field_metadata_value(v: EvaluationContextFieldValue) -> Option<FlagMetadataValue> {
    match v {
        EvaluationContextFieldValue::Bool(value) => Some(FlagMetadataValue::Bool(value)),
        EvaluationContextFieldValue::Int(value) => Some(FlagMetadataValue::Int(value)),
        EvaluationContextFieldValue::Float(value) => Some(FlagMetadataValue::Float(value)),
        EvaluationContextFieldValue::String(value) => Some(FlagMetadataValue::String(value)),
        EvaluationContextFieldValue::DateTime(_) => None,
        EvaluationContextFieldValue::Struct(_) => None,
    }
}

/// The metadata map after appending, in order, what each context field pair
/// contributes.
pub open spec fn metadata_after_fields(
    base: Map<Seq<char>, FlagMetadataValue>,
    pairs: Seq<(String, EvaluationContextFieldValue)>,
) -> Map<Seq<char>, FlagMetadataValue>
    decreases pairs.len(),
{
    if pairs.len() == 0 {
        base
    } else {
        let prev = metadata_after_fields(base, pairs.drop_last());
        match field_metadata_value(pairs.last().1) {
            Some(m) => prev.insert(pairs.last().0@, m),
            None => prev,
        }
    }
}

/// Whether `m` is the metadata a no-op resolution reports: the `Type` key
/// bound to the given type name, the context's targeting key, and the
/// context fields that carry over.
pub open spec fn is_noop_metadata(
    m: Map<Seq<char>, FlagMetadataValue>,
    tag_name: Seq<char>,
    ctx: EvaluationContext,
) -> bool {
    exists|tag: FlagMetadataValue|
        (#[trigger] tag_chars(tag)) == Some(tag_name) && m == metadata_with_context(
            Map::<Seq<char>, FlagMetadataValue>::empty().insert("Type"@, tag),
            ctx,
        )
}

/// The characters of a string metadata value, if it is one.
pub open spec fn tag_chars(tag: FlagMetadataValue) -> Option<Seq<char>> {
    match tag {
        FlagMetadataValue::String(s) => Some(s@),
        _ => None,
    }
}

/// The metadata map after recording the context's targeting key, if any,
/// and then every context field that carries over.
pub open spec fn metadata_with_context(
    base: Map<Seq<char>, FlagMetadataValue>,
    ctx: EvaluationContext,
) -> Map<Seq<char>, FlagMetadataValue> {
    let with_key = match ctx.targeting_key {
        Some(k) => base.insert("TargetingKey"@, FlagMetadataValue::String(k)),
        None => base,
    };
    metadata_after_fields(with_key, ctx.custom_fields.pairs())
}

/// The default provider that does nothing: it returns the value it was
/// configured with for each supported type, and a reason and variant that
/// say whether that value is the type's default. Every resolver except the
/// struct one also attaches metadata describing the type and the evaluation
/// context.
pub struct NoOpProvider {
    /// The provider's identifying metadata.
    pub metadata: ProviderMetadata,
    /// The bool value every bool flag resolves to.
    pub bool_value: bool,
    /// The int value every int flag resolves to.
    pub int_value: i64,
    /// The float value, as bits, every float flag resolves to.
    pub float_value: FloatBits,
    /// The string value every string flag resolves to.
    pub string_value: String,
    /// The structure value every struct flag resolves to.
    pub struct_value: Arc<StructValue>,
    /// The provider-scope hooks; this provider registers none.
    pub hooks: Vec<HookWrapper>,
}

impl NoOpProvider {
    /// Start building a provider with fixed values.
    pub fn builder() -> NoOpProviderBuilder {
        NoOpProviderBuilder { provider: NoOpProvider::default() }
    }

    /// The reason and variant for a resolution: `Default` when the resolved
    /// value equals the type's default value, `Static` otherwise.
    fn create_reason_variant(is_default: bool) -> (r: (EvaluationReason, String))
        ensures
            r.0 == NoOpProvider::spec_reason_variant(is_default).0,
            r.1@ == NoOpProvider::spec_reason_variant(is_default).1,
    {
        if is_default {
            (EvaluationReason::Default, "Default".to_owned())
        } else {
            (EvaluationReason::Static, "Static".to_owned())
        }
    }

    /// The reason and the characters of the variant for a resolution.
    pub open spec fn spec_reason_variant(is_default: bool) -> (EvaluationReason, Seq<char>) {
        if is_default {
            (EvaluationReason::Default, "Default"@)
        } else {
            (EvaluationReason::Static, "Static"@)
        }
    }

    /// Record the targeting key and the boolean, number and string fields of
    /// the evaluation context in the flag metadata.
    fn populate_evaluation_context_values(
        flag_metadata: &mut FlagMetadata,
        evaluation_context: &EvaluationContext,
    )
        ensures
            final(flag_metadata).values@ == metadata_with_context(
                old(flag_metadata).values@,
                *evaluation_context,
            ),
    {
        match &evaluation_context.targeting_key {
            Some(value) => {
                flag_metadata.add_value("TargetingKey", FlagMetadataValue::String(value.clone()));
            },
            None => {},
        }
        let ghost base = flag_metadata.values@;
        proof {
            use_type_invariant(&evaluation_context.custom_fields);
            evaluation_context.custom_fields.lemma_pairs();
        }
        let n = evaluation_context.custom_fields.len();
        let mut i: usize = 0;
        while i < n
            invariant
                n == evaluation_context.custom_fields.pairs().len(),
                i <= n,
                flag_metadata.values@ == metadata_after_fields(
                    base,
                    evaluation_context.custom_fields.pairs().take(i as int),
                ),
            decreases n - i,
        {
            proof {
                assert(evaluation_context.custom_fields.pairs().take(i as int + 1).drop_last()
                    =~= evaluation_context.custom_fields.pairs().take(i as int));
            }
            let pair = evaluation_context.custom_fields.pair_at(i);
            match &pair.1 {
                EvaluationContextFieldValue::Bool(value) => {
                    flag_metadata.add_value(pair.0.as_str(), FlagMetadataValue::Bool(*value));
                },
                EvaluationContextFieldValue::Int(value) => {
                    flag_metadata.add_value(pair.0.as_str(), FlagMetadataValue::Int(*value));
                },
                EvaluationContextFieldValue::Float(value) => {
                    flag_metadata.add_value(pair.0.as_str(), FlagMetadataValue::Float(*value));
                },
                EvaluationContextFieldValue::String(value) => {
                    flag_metadata.add_value(
                        pair.0.as_str(),
                        FlagMetadataValue::String(value.clone()),
                    );
                },
                _ => {},
            }
            i = i + 1;
        }
        proof {
            assert(evaluation_context.custom_fields.pairs().take(n as int)
                =~= evaluation_context.custom_fields.pairs());
        }
    }
}

impl Default for NoOpProvider {
    /// The default provider resolves each type's default value and announces
    /// itself as not yet initialized.
    fn default() -> (r: Self)
        ensures
            r.metadata.name@ == "No Operation - Default"@,
            r.bool_value == false,
            r.int_value == 0,
            r.float_value.bits == 0,
            r.string_value@ == Seq::<char>::empty(),
            r.struct_value@ == Map::<Seq<char>, crate::value::Value>::empty(),
            r.hooks@.len() == 0,
    {
        NoOpProvider {
            metadata: ProviderMetadata::new("No Operation - Default"),
            bool_value: false,
            int_value: 0,
            float_value: FloatBits { bits: 0 },
            string_value: String::new(),
            struct_value: Arc::new(StructValue::new()),
            hooks: Vec::new(),
        }
    }
}

/// Builds a [`NoOpProvider`] with chosen fixed values.
pub struct NoOpProviderBuilder {
    provider: NoOpProvider,
}

impl NoOpProviderBuilder {
    /// The provider built so far.
    pub closed spec fn provider_view(&self) -> NoOpProvider {
        self.provider
    }

    /// Set the bool value the provider resolves.
    #[must_use]
    pub fn bool_value(self, value: bool) -> (r: Self)
        ensures
            r.provider_view() == (NoOpProvider { bool_value: value, ..self.provider_view() }),
    {
        let mut provider = self.provider;
        provider.bool_value = value;
        NoOpProviderBuilder { provider }
    }

    /// Set the int value the provider resolves.
    #[must_use]
    pub fn int_value(self, value: i64) -> (r: Self)
        ensures
            r.provider_view() == (NoOpProvider { int_value: value, ..self.provider_view() }),
    {
        let mut provider = self.provider;
        provider.int_value = value;
        NoOpProviderBuilder { provider }
    }

    /// Set the float value, given as its bits, the provider resolves.
    #[must_use]
    pub fn float_value(self, value: FloatBits) -> (r: Self)
        ensures
            r.provider_view() == (NoOpProvider { float_value: value, ..self.provider_view() }),
    {
        let mut provider = self.provider;
        provider.float_value = value;
        NoOpProviderBuilder { provider }
    }

    /// Set the string value the provider resolves.
    #[must_use]
    pub fn string_value(self, value: &str) -> (r: Self)
        ensures
            r.provider_view().string_value@ == value@,
            r.provider_view() == (NoOpProvider {
                string_value: r.provider_view().string_value,
                ..self.provider_view()
            }),
    {
        let mut provider = self.provider;
        provider.string_value = value.to_owned();
        NoOpProviderBuilder { provider }
    }

    /// Set the struct value the provider resolves.
    #[must_use]
    pub fn struct_value(self, value: Arc<StructValue>) -> (r: Self)
        ensures
            r.provider_view() == (NoOpProvider { struct_value: value, ..self.provider_view() }),
    {
        let mut provider = self.provider;
        provider.struct_value = value;
        NoOpProviderBuilder { provider }
    }

    /// Finish building.
    pub fn build(self) -> (r: NoOpProvider)
        ensures
            r == self.provider_view(),
    {
        self.provider
    }
}

impl FeatureProvider for NoOpProvider {
    /// Initialization announces the provider as operational by renaming it.
    fn initialize(&mut self, _context: &EvaluationContext)
        ensures
            *final(self) == (NoOpProvider { metadata: final(self).metadata, ..*old(self) }),
            final(self).metadata.name@ == "No Operation"@,
    {
        self.metadata = ProviderMetadata::new("No Operation");
    }

    /// This provider is always ready.
    fn status(&self) -> (r: ProviderStatus)
        ensures
            r == ProviderStatus::Ready,
    {
        ProviderStatus::Ready
    }

    fn metadata(&self) -> (r: &ProviderMetadata)
        ensures
            r == &self.metadata,
    {
        &self.metadata
    }

    /// This provider registers no hooks.
    fn hooks(&self) -> (r: &[HookWrapper])
        ensures
            r@ == self.hooks@,
    {
        self.hooks.as_slice()
    }

    /// Nothing to release.
    fn shutdown(&self) {
    }

    /// Resolve any flag to the configured bool value.
    fn resolve_bool_value(&self, _flag_key: &str, evaluation_context: &EvaluationContext) -> (r:
        EvaluationResult<ResolutionDetails<bool>>)
        ensures
            r matches Ok(d) && d.value == self.bool_value && d.error is None && d.reason == Some(
                NoOpProvider::spec_reason_variant(self.bool_value == false).0,
            ) && (d.variant matches Some(v) && v@ == NoOpProvider::spec_reason_variant(self.bool_value == false).1) && (
            d.flag_metadata matches Some(m) && is_noop_metadata(
                m.values@,
                "Bool"@,
                *evaluation_context,
            )),
    {
        let (reason, variant) = Self::create_reason_variant(self.bool_value == false);
        let tag = FlagMetadataValue::String("Bool".to_owned());
        let ghost tag_snapshot = tag;
        let mut flag_metadata = FlagMetadata::new().with_value("Type", tag);
        Self::populate_evaluation_context_values(&mut flag_metadata, evaluation_context);
        proof {
            assert(tag_chars(tag_snapshot) == Some("Bool"@));
            assert(flag_metadata.values@ == metadata_with_context(
                Map::<Seq<char>, FlagMetadataValue>::empty().insert("Type"@, tag_snapshot),
                *evaluation_context,
            ));
        }
        Ok(
            ResolutionDetails {
                value: self.bool_value,
                variant: Some(variant),
                reason: Some(reason),
                error: None,
                flag_metadata: Some(flag_metadata),
            },
        )
    }

    /// Resolve any flag to the configured int value.
    fn resolve_int_value(&self, _flag_key: &str, evaluation_context: &EvaluationContext) -> (r:
        EvaluationResult<ResolutionDetails<i64>>)
        ensures
            r matches Ok(d) && d.value == self.int_value && d.error is None && d.reason == Some(
                NoOpProvider::spec_reason_variant(self.int_value == 0).0,
            ) && (d.variant matches Some(v) && v@ == NoOpProvider::spec_reason_variant(self.int_value == 0).1) && (
            d.flag_metadata matches Some(m) && is_noop_metadata(
                m.values@,
                "Int"@,
                *evaluation_context,
            )),
    {
        let (reason, variant) = Self::create_reason_variant(self.int_value == 0);
        let tag = FlagMetadataValue::String("Int".to_owned());
        let ghost tag_snapshot = tag;
        let mut flag_metadata = FlagMetadata::new().with_value("Type", tag);
        Self::populate_evaluation_context_values(&mut flag_metadata, evaluation_context);
        proof {
            assert(tag_chars(tag_snapshot) == Some("Int"@));
            assert(flag_metadata.values@ == metadata_with_context(
                Map::<Seq<char>, FlagMetadataValue>::empty().insert("Type"@, tag_snapshot),
                *evaluation_context,
            ));
        }
        Ok(
            ResolutionDetails {
                value: self.int_value,
                variant: Some(variant),
                reason: Some(reason),
                error: None,
                flag_metadata: Some(flag_metadata),
            },
        )
    }

    /// Resolve any flag to the configured float value, compared as bits when
    /// choosing the reason.
    fn resolve_float_value(&self, _flag_key: &str, evaluation_context: &EvaluationContext) -> (r:
        EvaluationResult<ResolutionDetails<FloatBits>>)
        ensures
            r matches Ok(d) && d.value == self.float_value && d.error is None && d.reason == Some(
                NoOpProvider::spec_reason_variant(self.float_value.bits == 0).0,
            ) && (d.variant matches Some(v) && v@ == NoOpProvider::spec_reason_variant(self.float_value.bits == 0).1) && (
            d.flag_metadata matches Some(m) && is_noop_metadata(
                m.values@,
                "Float"@,
                *evaluation_context,
            )),
    {
        let (reason, variant) = Self::create_reason_variant(self.float_value.bits == 0);
        let tag = FlagMetadataValue::String("Float".to_owned());
        let ghost tag_snapshot = tag;
        let mut flag_metadata = FlagMetadata::new().with_value("Type", tag);
        Self::populate_evaluation_context_values(&mut flag_metadata, evaluation_context);
        proof {
            assert(tag_chars(tag_snapshot) == Some("Float"@));
            assert(flag_metadata.values@ == metadata_with_context(
                Map::<Seq<char>, FlagMetadataValue>::empty().insert("Type"@, tag_snapshot),
                *evaluation_context,
            ));
        }
        Ok(
            ResolutionDetails {
                value: self.float_value,
                variant: Some(variant),
                reason: Some(reason),
                error: None,
                flag_metadata: Some(flag_metadata),
            },
        )
    }

    /// Resolve any flag to the configured string value.
    fn resolve_string_value(&self, _flag_key: &str, evaluation_context: &EvaluationContext) -> (r:
        EvaluationResult<ResolutionDetails<String>>)
        ensures
            r matches Ok(d) && d.value@ == self.string_value@ && d.error is None && d.reason == Some(
                NoOpProvider::spec_reason_variant(self.string_value@.len() == 0).0,
            ) && (d.variant matches Some(v) && v@ == NoOpProvider::spec_reason_variant(self.string_value@.len() == 0).1) && (
            d.flag_metadata matches Some(m) && is_noop_metadata(
                m.values@,
                "String"@,
                *evaluation_context,
            )),
    {
        let (reason, variant) = Self::create_reason_variant(self.string_value.as_str().is_empty());
        let tag = FlagMetadataValue::String("String".to_owned());
        let ghost tag_snapshot = tag;
        let mut flag_metadata = FlagMetadata::new().with_value("Type", tag);
        Self::populate_evaluation_context_values(&mut flag_metadata, evaluation_context);
        proof {
            assert(tag_chars(tag_snapshot) == Some("String"@));
            assert(flag_metadata.values@ == metadata_with_context(
                Map::<Seq<char>, FlagMetadataValue>::empty().insert("Type"@, tag_snapshot),
                *evaluation_context,
            ));
        }
        Ok(
            ResolutionDetails {
                value: self.string_value.clone(),
                variant: Some(variant),
                reason: Some(reason),
                error: None,
                flag_metadata: Some(flag_metadata),
            },
        )
    }

    /// Resolve any flag to a deep copy of the configured struct value.
    /// Alone among the resolvers, this one attaches no flag metadata.
    fn resolve_struct_value(&self, _flag_key: &str, _evaluation_context: &EvaluationContext) -> (r:
        EvaluationResult<ResolutionDetails<StructValue>>)
        ensures
            r matches Ok(d) && struct_deep_eq(*self.struct_value, d.value) && d.error is None && d.reason == Some(
                NoOpProvider::spec_reason_variant(self.struct_value@.dom().len() == 0).0,
            ) && (d.variant matches Some(v) && v@ == NoOpProvider::spec_reason_variant(self.struct_value@.dom().len() == 0).1)
                && d.flag_metadata is None,
    {
        let is_default = self.struct_value.len() == 0;
        let (reason, variant) = Self::create_reason_variant(is_default);
        let value = (*self.struct_value).clone();
        Ok(
            ResolutionDetails {
                value,
                variant: Some(variant),
                reason: Some(reason),
                error: None,
                flag_metadata: None,
            },
        )
    }
}

/// A structure used where an example structured flag value is wanted.
#[derive(PartialEq, Debug)]
pub struct DummyStruct {
    /// An example numeric field.
    pub id: i64,
    /// An example string field.
    pub name: String,
}

impl DummyStruct {
    /// Start building.
    pub fn builder() -> (r: DummyStructBuilder)
        ensures
            r.value_view().id == 0,
            r.value_view().name@ == Seq::<char>::empty(),
    {
        DummyStructBuilder { value: DummyStruct { id: 0, name: String::new() } }
    }

    /// Convert into the equivalent structure value, with fields `id` and
    /// `name`.
    pub fn into_struct_value(self) -> (r: StructValue)
        ensures
            r@ == Map::<Seq<char>, crate::value::Value>::empty().insert(
                "id"@,
                crate::value::Value::Int(self.id),
            ).insert("name"@, crate::value::Value::String(self.name)),
    {
        StructValue::new().with_field("id", crate::value::Value::Int(self.id)).with_field(
            "name",
            crate::value::Value::String(self.name),
        )
    }
}

impl Default for DummyStruct {
    /// The default instance carries an id of zero and an empty name.
    fn default() -> (r: Self)
        ensures
            r.id == 0,
            r.name@ == Seq::<char>::empty(),
    {
        DummyStruct { id: 0, name: String::new() }
    }
}

impl From<DummyStruct> for StructValue {
    /// The equivalent structure value, with fields `id` and `name`.
    fn from(value: DummyStruct) -> (r: StructValue)
        ensures
            r@ == Map::<Seq<char>, crate::value::Value>::empty().insert(
                "id"@,
                crate::value::Value::Int(value.id),
            ).insert("name"@, crate::value::Value::String(value.name)),
    {
        value.into_struct_value()
    }
}

impl vstd::std_specs::convert::FromSpecImpl<DummyStruct> for StructValue {
    open spec fn obeys_from_spec() -> bool {
        false
    }

    open spec fn from_spec(value: DummyStruct) -> StructValue {
        arbitrary()
    }
}

/// Builds a [`DummyStruct`].
pub struct DummyStructBuilder {
    value: DummyStruct,
}

impl DummyStructBuilder {
    /// The value built so far.
    pub closed spec fn value_view(&self) -> DummyStruct {
        self.value
    }

    /// Set the id.
    #[must_use]
    pub fn id(self, id: i64) -> (r: Self)
        ensures
            r.value_view() == (DummyStruct { id, ..self.value_view() }),
    {
        let mut value = self.value;
        value.id = id;
        DummyStructBuilder { value }
    }

    /// Set the name.
    #[must_use]
    pub fn name(self, name: &str) -> (r: Self)
        ensures
            r.value_view().name@ == name@,
            r.value_view().id == self.value_view().id,
    {
        let mut value = self.value;
        value.name = name.to_owned();
        DummyStructBuilder { value }
    }

    /// Finish building.
    pub fn build(self) -> (r: DummyStruct)
        ensures
            r == self.value_view(),
    {
        self.value
    }
}

/// A provider that resolves every flag to a fixed value per type, with no
/// reason, variant or metadata.
pub struct FixedValueProvider {
    /// The provider's identifying metadata.
    pub metadata: ProviderMetadata,
    /// The bool value every bool flag resolves to.
    pub bool_value: bool,
    /// The int value every int flag resolves to.
    pub int_value: i64,
    /// The float value, as bits, every float flag resolves to.
    pub float_value: FloatBits,
    /// The string value every string flag resolves to.
    pub string_value: String,
    /// The structure value every struct flag resolves to.
    pub struct_value: Arc<StructValue>,
    /// The provider-scope hooks; this provider registers none.
    pub hooks: Vec<HookWrapper>,
}

impl Default for FixedValueProvider {
    /// The default instance resolves each type's default value.
    fn default() -> (r: Self)
        ensures
            r.metadata.name@ == "Fixed Value"@,
            r.bool_value == false,
            r.int_value == 0,
            r.float_value.bits == 0,
            r.string_value@ == Seq::<char>::empty(),
    {
        FixedValueProvider {
            metadata: ProviderMetadata::new("Fixed Value"),
            bool_value: false,
            int_value: 0,
            float_value: FloatBits { bits: 0 },
            string_value: String::new(),
            struct_value: Arc::new(StructValue::new()),
            hooks: Vec::new(),
        }
    }
}

impl FeatureProvider for FixedValueProvider {
    /// Nothing to set up.
    fn initialize(&mut self, _context: &EvaluationContext)
        ensures
            *final(self) == *old(self),
    {
    }

    /// This provider is always ready.
    fn status(&self) -> (r: ProviderStatus)
        ensures
            r == ProviderStatus::Ready,
    {
        ProviderStatus::Ready
    }

    fn metadata(&self) -> (r: &ProviderMetadata)
        ensures
            r == &self.metadata,
    {
        &self.metadata
    }

    /// This provider registers no hooks.
    fn hooks(&self) -> (r: &[HookWrapper])
        ensures
            r@ == self.hooks@,
    {
        self.hooks.as_slice()
    }

    /// Nothing to release.
    fn shutdown(&self) {
    }

    /// Resolve any flag to the configured bool value.
    fn resolve_bool_value(&self, _flag_key: &str, _evaluation_context: &EvaluationContext) -> (r:
        EvaluationResult<ResolutionDetails<bool>>)
        ensures
            r matches Ok(d) && d.value == self.bool_value && d.error is None && d.reason is None
                && d.variant is None && d.flag_metadata is None,
    {
        Ok(ResolutionDetails::new(self.bool_value))
    }

    /// Resolve any flag to the configured int value.
    fn resolve_int_value(&self, _flag_key: &str, _evaluation_context: &EvaluationContext) -> (r:
        EvaluationResult<ResolutionDetails<i64>>)
        ensures
            r matches Ok(d) && d.value == self.int_value && d.error is None && d.reason is None
                && d.variant is None && d.flag_metadata is None,
    {
        Ok(ResolutionDetails::new(self.int_value))
    }

    /// Resolve any flag to the configured float value.
    fn resolve_float_value(&self, _flag_key: &str, _evaluation_context: &EvaluationContext) -> (r:
        EvaluationResult<ResolutionDetails<FloatBits>>)
        ensures
            r matches Ok(d) && d.value == self.float_value && d.error is None && d.reason is None
                && d.variant is None && d.flag_metadata is None,
    {
        Ok(ResolutionDetails::new(self.float_value))
    }

    /// Resolve any flag to the configured string value.
    fn resolve_string_value(&self, _flag_key: &str, _evaluation_context: &EvaluationContext) -> (r:
        EvaluationResult<ResolutionDetails<String>>)
        ensures
            r matches Ok(d) && d.value@ == self.string_value@ && d.error is None && d.reason is None
                && d.variant is None && d.flag_metadata is None,
    {
        Ok(ResolutionDetails::new(self.string_value.clone()))
    }

    /// Resolve any flag to a deep copy of the configured struct value.
    fn resolve_struct_value(&self, _flag_key: &str, _evaluation_context: &EvaluationContext) -> (r:
        EvaluationResult<ResolutionDetails<StructValue>>)
        ensures
            r matches Ok(d) && struct_deep_eq(*self.struct_value, d.value) && d.error is None
                && d.reason is None && d.variant is None && d.flag_metadata is None,
    {
        Ok(ResolutionDetails::new((*self.struct_value).clone()))
    }
}

} // verus!
