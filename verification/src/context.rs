//! The evaluation context: ambient, per-call contextual data used for
//! targeting, and its merge semantics.

use crate::string_map::StringMap;
use crate::value::FloatBits;
use crate::value::StructValue;
use std::sync::Arc;
use vstd::prelude::*;

verus! {

/// A point in time: seconds and nanoseconds of the Unix epoch, together
/// with a UTC offset in seconds.
#[derive(Clone, Copy, PartialEq, Eq, Structural, Debug)]
pub struct DateTimeValue {
    /// Whole seconds since the Unix epoch.
    pub unix_seconds: i64,
    /// Nanoseconds within the second, below one billion.
    pub nanosecond: u32,
    /// The UTC offset, in seconds.
    pub offset_seconds: i32,
}

/// Value type of evaluation context custom fields.
#[derive(Debug)]
pub enum EvaluationContextFieldValue {
    Bool(bool),
    Int(i64),
    Float(FloatBits),
    String(String),
    DateTime(DateTimeValue),
    Struct(Arc<StructValue>),
}

impl EvaluationContextFieldValue {
    /// Create a new instance with the given struct `value`.
    pub fn new_struct(value: StructValue) -> (r: Self)
        ensures
            r is Struct && r->Struct_0 == value,
    {
        EvaluationContextFieldValue::Struct(Arc::new(value))
    }

    /// Return `true` if this is a bool value.
    pub fn is_bool(&self) -> (r: bool)
        ensures
            r == (self is Bool),
    {
        matches!(self, Self::Bool(_))
    }

    /// Try to convert `self` to bool.
    pub fn as_bool(&self) -> (r: Option<bool>)
        ensures
            r == (if self is Bool {
                Some(self->Bool_0)
            } else {
                Option::<bool>::None
            }),
    {
        match self {
            Self::Bool(value) => Some(*value),
            _ => None,
        }
    }

    /// Return `true` if this is an int value.
    pub fn is_i64(&self) -> (r: bool)
        ensures
            r == (self is Int),
    {
        matches!(self, Self::Int(_))
    }

    /// Try to convert `self` to int.
    pub fn as_i64(&self) -> (r: Option<i64>)
        ensures
            r == (if self is Int {
                Some(self->Int_0)
            } else {
                Option::<i64>::None
            }),
    {
        match self {
            Self::Int(value) => Some(*value),
            _ => None,
        }
    }

    /// Return `true` if this is a float value.
    pub fn is_f64(&self) -> (r: bool)
        ensures
            r == (self is Float),
    {
        matches!(self, Self::Float(_))
    }

    /// Try to convert `self` to the bits of a float.
    pub fn as_f64(&self) -> (r: Option<FloatBits>)
        ensures
            r == (if self is Float {
                Some(self->Float_0)
            } else {
                Option::<FloatBits>::None
            }),
    {
        match self {
            Self::Float(value) => Some(*value),
            _ => None,
        }
    }

    /// Return `true` if this is a string value.
    pub fn is_str(&self) -> (r: bool)
        ensures
            r == (self is String),
    {
        matches!(self, Self::String(_))
    }

    /// Try to convert `self` to string.
    pub fn as_str(&self) -> (r: Option<&str>)
        ensures
            match r {
                Some(s) => self is String && s@ == self->String_0@,
                None => !(self is String),
            },
    {
        match self {
            Self::String(value) => Some(value.as_str()),
            _ => None,
        }
    }

    /// Return `true` if this is a date-time value.
    pub fn is_date_time(&self) -> (r: bool)
        ensures
            r == (self is DateTime),
    {
        matches!(self, Self::DateTime(_))
    }

    /// Try to convert `self` to a date-time value.
    pub fn as_date_time(&self) -> (r: Option<&DateTimeValue>)
        ensures
            match r {
                Some(d) => self is DateTime && *d == self->DateTime_0,
                None => !(self is DateTime),
            },
    {
        match self {
            Self::DateTime(value) => Some(value),
            _ => None,
        }
    }

    /// Return `true` if this is a struct value.
    pub fn is_struct(&self) -> (r: bool)
        ensures
            r == (self is Struct),
    {
        matches!(self, Self::Struct(_))
    }

    /// Try to convert `self` to struct.
    pub fn as_struct(&self) -> (r: Option<Arc<StructValue>>)
        ensures
            match r {
                Some(s) => self is Struct && s == self->Struct_0,
                None => !(self is Struct),
            },
    {
        match self {
            Self::Struct(value) => Some(Arc::clone(value)),
            _ => None,
        }
    }
}

impl Clone for EvaluationContextFieldValue {
    /// Cloning keeps the value; a struct payload is shared, not copied.
    fn clone(&self) -> (r: Self)
        ensures
            r == *self,
    {
        match self {
            Self::Bool(value) => Self::Bool(*value),
            Self::Int(value) => Self::Int(*value),
            Self::Float(value) => Self::Float(*value),
            Self::String(value) => Self::String(value.clone()),
            Self::DateTime(value) => Self::DateTime(*value),
            Self::Struct(value) => Self::Struct(Arc::clone(value)),
        }
    }
}

/// A clone of a context field value is the value itself.
pub proof fn lemma_field_value_cloned(a: EvaluationContextFieldValue, b: EvaluationContextFieldValue)
    requires
        cloned::<EvaluationContextFieldValue>(a, b),
    ensures
        a == b,
{
}

impl PartialEq for EvaluationContextFieldValue {
    /// Two field values are equal when they hold the same kind of value and
    /// the contents are equal; struct payloads are never considered equal.
    fn eq(&self, other: &Self) -> (r: bool) {
        match (self, other) {
            (Self::Bool(left), Self::Bool(right)) => *left == *right,
            (Self::Int(left), Self::Int(right)) => *left == *right,
            (Self::Float(left), Self::Float(right)) => *left == *right,
            (Self::String(left), Self::String(right)) => *left == *right,
            (Self::DateTime(left), Self::DateTime(right)) => *left == *right,
            (_, _) => false,
        }
    }
}

impl vstd::std_specs::cmp::PartialEqSpecImpl for EvaluationContextFieldValue {
    open spec fn obeys_eq_spec() -> bool {
        true
    }

    open spec fn eq_spec(&self, other: &Self) -> bool {
        match (*self, *other) {
            (Self::Bool(left), Self::Bool(right)) => left == right,
            (Self::Int(left), Self::Int(right)) => left == right,
            (Self::Float(left), Self::Float(right)) => left == right,
            (Self::String(left), Self::String(right)) => left@ == right@,
            (Self::DateTime(left), Self::DateTime(right)) => left == right,
            (_, _) => false,
        }
    }
}

/// The evaluation context provides ambient information for the purposes of
/// flag evaluation, such as data about the end-user, the application or the
/// host. A context can be supplied at the API, client and invocation levels,
/// and amended by before-hooks; the layers are merged with [`EvaluationContext::merge_missing`].
#[derive(PartialEq, Debug)]
pub struct EvaluationContext {
    /// The targeting key uniquely identifies the subject (end-user, or
    /// client service) of a flag evaluation.
    pub targeting_key: Option<String>,

    /// The custom contextual fields, by name.
    pub custom_fields: StringMap<EvaluationContextFieldValue>,
}

impl EvaluationContext {
    /// The characters of the targeting key, if one is set.
    pub open spec fn targeting_key_view(&self) -> Option<Seq<char>> {
        match self.targeting_key {
            Some(k) => Some(k@),
            None => None,
        }
    }

    /// Create a context with no targeting key and no fields.
    pub fn new() -> (r: Self)
        ensures
            r.targeting_key is None,
            r.custom_fields@ == Map::<Seq<char>, EvaluationContextFieldValue>::empty(),
    {
        EvaluationContext { targeting_key: None, custom_fields: StringMap::new() }
    }

    /// Start building a context.
    pub fn builder() -> (r: EvaluationContextBuilder)
        ensures
            r.context_view().targeting_key is None,
            r.context_view().custom_fields@ == Map::<
                Seq<char>,
                EvaluationContextFieldValue,
            >::empty(),
    {
        EvaluationContextBuilder { context: EvaluationContext::new() }
    }

    /// Set the targeting key and return the context.
    #[must_use]
    pub fn with_targeting_key(self, targeting_key: &str) -> (r: Self)
        ensures
            r.targeting_key_view() == Some(targeting_key@),
            r.custom_fields == self.custom_fields,
    {
        EvaluationContext {
            targeting_key: Some(targeting_key.to_owned()),
            custom_fields: self.custom_fields,
        }
    }

    /// Add a custom field and return the context.
    #[must_use]
    pub fn with_custom_field(self, key: &str, value: EvaluationContextFieldValue) -> (r: Self)
        ensures
            r.targeting_key == self.targeting_key,
            r.custom_fields@ == self.custom_fields@.insert(key@, value),
    {
        let mut r = self;
        r.add_custom_field(key, value);
        r
    }

    /// Add a custom field in place.
    pub fn add_custom_field(&mut self, key: &str, value: EvaluationContextFieldValue)
        ensures
            final(self).targeting_key == old(self).targeting_key,
            final(self).custom_fields@ == old(self).custom_fields@.insert(key@, value),
    {
        self.custom_fields.insert(key.to_owned(), value);
    }

    /// Fill the gaps of `self` from `other`: adopt `other`'s targeting key
    /// only if `self` has none, and copy every field of `other` whose key
    /// `self` does not hold. A key already present keeps its value.
    pub fn merge_missing(&mut self, other: &Self)
        ensures
            final(self).targeting_key == (if old(self).targeting_key is Some {
                old(self).targeting_key
            } else {
                other.targeting_key
            }),
            final(self).custom_fields@.dom() =~= old(self).custom_fields@.dom()
                + other.custom_fields@.dom(),
            forall|k: Seq<char>|
                #[trigger] old(self).custom_fields@.contains_key(k) ==> final(self).custom_fields@[k] == old(self).custom_fields@[k],
            forall|k: Seq<char>|
                #[trigger] other.custom_fields@.contains_key(k) && !old(self).custom_fields@.contains_key(k) ==> final(self).custom_fields@[k]
                    == other.custom_fields@[k],
    {
        if self.targeting_key.is_none() {
            match &other.targeting_key {
                Some(targeting_key) => {
                    self.targeting_key = Some(targeting_key.clone());
                },
                None => {},
            }
        }
        self.custom_fields.merge_missing(&other.custom_fields);
        proof {
            assert forall|k: Seq<char>|
                #[trigger] other.custom_fields@.contains_key(k) && !old(self).custom_fields@.contains_key(k) implies self.custom_fields@[k]
                == other.custom_fields@[k] by {
                lemma_field_value_cloned(other.custom_fields@[k], self.custom_fields@[k]);
            }
        }
    }
}

/// Whether two contexts hold the same data: the same targeting key and the
/// same custom fields, in the same order.
pub open spec fn context_equiv(a: EvaluationContext, b: EvaluationContext) -> bool {
    a.targeting_key == b.targeting_key && a.custom_fields@ == b.custom_fields@
        && a.custom_fields.pairs() == b.custom_fields.pairs()
}

impl Clone for EvaluationContext {
    /// Cloning keeps the targeting key and the fields.
    fn clone(&self) -> (r: Self)
        ensures
            context_equiv(*self, r),
    {
        let targeting_key = match &self.targeting_key {
            Some(k) => Some(k.clone()),
            None => None,
        };
        let custom_fields = self.custom_fields.clone();
        proof {
            use_type_invariant(&self.custom_fields);
            use_type_invariant(&custom_fields);
            self.custom_fields.lemma_pairs();
            custom_fields.lemma_pairs();
            assert forall|i: int|
                0 <= i < self.custom_fields.pairs().len() implies #[trigger] custom_fields.pairs()[i]
                == self.custom_fields.pairs()[i] by {
                assert(custom_fields.pairs()[i].0 == self.custom_fields.pairs()[i].0 && cloned::<
                    EvaluationContextFieldValue,
                >(self.custom_fields.pairs()[i].1, custom_fields.pairs()[i].1));
                lemma_field_value_cloned(
                    self.custom_fields.pairs()[i].1,
                    custom_fields.pairs()[i].1,
                );
            }
            assert(custom_fields.pairs() =~= self.custom_fields.pairs());
            assert forall|k: Seq<char>|
                #[trigger] self.custom_fields@.contains_key(k) implies custom_fields@[k]
                == self.custom_fields@[k] by {
                lemma_field_value_cloned(self.custom_fields@[k], custom_fields@[k]);
            }
            assert(custom_fields@ =~= self.custom_fields@);
        }
        EvaluationContext { targeting_key, custom_fields }
    }
}

impl Default for EvaluationContext {
    /// The default context has no targeting key and no fields.
    fn default() -> (r: Self)
        ensures
            r.targeting_key is None,
            r.custom_fields@ == Map::<Seq<char>, EvaluationContextFieldValue>::empty(),
    {
        EvaluationContext::new()
    }
}

/// Builds an [`EvaluationContext`] step by step.
pub struct EvaluationContextBuilder {
    context: EvaluationContext,
}

impl EvaluationContextBuilder {
    /// The context built so far.
    pub closed spec fn context_view(&self) -> EvaluationContext {
        self.context
    }

    /// Set the targeting key.
    #[must_use]
    pub fn targeting_key(self, targeting_key: &str) -> (r: Self)
        ensures
            r.context_view().targeting_key_view() == Some(targeting_key@),
            r.context_view().custom_fields == self.context_view().custom_fields,
    {
        EvaluationContextBuilder { context: self.context.with_targeting_key(targeting_key) }
    }

    /// Add a custom field.
    #[must_use]
    pub fn custom_field(self, key: &str, value: EvaluationContextFieldValue) -> (r: Self)
        ensures
            r.context_view().targeting_key == self.context_view().targeting_key,
            r.context_view().custom_fields@ == self.context_view().custom_fields@.insert(
                key@,
                value,
            ),
    {
        EvaluationContextBuilder { context: self.context.with_custom_field(key, value) }
    }

    /// Finish building.
    pub fn build(self) -> (r: EvaluationContext)
        ensures
            r == self.context_view(),
    {
        self.context
    }
}

/// Whether a context carries a custom field under `k`.
pub open spec fn ctx_has(c: EvaluationContext, k: Seq<char>) -> bool {
    c.custom_fields@.contains_key(k)
}

/// The custom field a context carries under `k`.
pub open spec fn ctx_at(c: EvaluationContext, k: Seq<char>) -> EvaluationContextFieldValue {
    c.custom_fields@[k]
}

/// Whether an optional invocation context carries a custom field under `k`.
pub open spec fn opt_ctx_has(c: Option<EvaluationContext>, k: Seq<char>) -> bool {
    match c {
        Some(c) => ctx_has(c, k),
        None => false,
    }
}

/// The optional context behind an optional reference.
pub open spec fn opt_ctx(c: Option<&EvaluationContext>) -> Option<EvaluationContext> {
    match c {
        Some(c) => Some(*c),
        None => None,
    }
}

/// Merge the per-call layers in precedence order: the invocation context's
/// fields win over the client context's, which win over the global
/// context's; a field is seen from a lower layer only where every higher
/// layer omits its key. The targeting key is the highest layer's, too.
pub fn merged_context(
    invocation: Option<&EvaluationContext>,
    client: &EvaluationContext,
    global: &EvaluationContext,
) -> (r: EvaluationContext)
    ensures
        r.custom_fields@.dom() =~= (match invocation {
            Some(c) => c.custom_fields@.dom(),
            None => Set::<Seq<char>>::empty(),
        }) + client.custom_fields@.dom() + global.custom_fields@.dom(),
        forall|k: Seq<char>|
            #[trigger] opt_ctx_has(opt_ctx(invocation), k) ==> ctx_at(r, k) == ctx_at(
                *invocation->0,
                k,
            ),
        forall|k: Seq<char>|
            !opt_ctx_has(opt_ctx(invocation), k) && #[trigger] ctx_has(*client, k) ==> ctx_at(
                r,
                k,
            ) == ctx_at(*client, k),
        forall|k: Seq<char>|
            !opt_ctx_has(opt_ctx(invocation), k) && !ctx_has(*client, k) && #[trigger] ctx_has(
                *global,
                k,
            ) ==> ctx_at(r, k) == ctx_at(*global, k),
        r.targeting_key == (match invocation {
            Some(c) if c.targeting_key is Some => c.targeting_key,
            _ => if client.targeting_key is Some {
                client.targeting_key
            } else {
                global.targeting_key
            },
        }),
{
    let mut context = match invocation {
        Some(c) => (*c).clone(),
        None => EvaluationContext::new(),
    };
    let ghost layered = opt_ctx(invocation);
    proof {
        assert(context.custom_fields@ == (match layered {
            Some(c) => c.custom_fields@,
            None => Map::<Seq<char>, EvaluationContextFieldValue>::empty(),
        }));
    }
    let ghost c0 = context;
    context.merge_missing(client);
    let ghost c1 = context;
    context.merge_missing(global);
    proof {
        assert forall|k: Seq<char>|
            !opt_ctx_has(layered, k) && #[trigger] ctx_has(*client, k) implies ctx_at(context, k)
            == ctx_at(*client, k) by {
            assert(client.custom_fields@.contains_key(k));
            assert(!c0.custom_fields@.contains_key(k));
            assert(c1.custom_fields@[k] == client.custom_fields@[k]);
            assert(c1.custom_fields@.contains_key(k));
        }
        assert forall|k: Seq<char>|
            !opt_ctx_has(layered, k) && !ctx_has(*client, k) && #[trigger] ctx_has(
                *global,
                k,
            ) implies ctx_at(context, k) == ctx_at(*global, k) by {
            assert(!c1.custom_fields@.contains_key(k));
            assert(global.custom_fields@.contains_key(k));
        }
        assert forall|k: Seq<char>| #[trigger] opt_ctx_has(layered, k) implies ctx_at(context, k)
            == ctx_at(layered->0, k) by {
            assert(c0.custom_fields@.contains_key(k));
            assert(c1.custom_fields@.contains_key(k));
            assert(c1.custom_fields@[k] == c0.custom_fields@[k]);
        }
    }
    context
}

/// Merge a before-hook's context delta over the working context: the
/// delta's fields and targeting key win; what the delta omits is kept from
/// the working context.
pub fn apply_hook_delta(delta: EvaluationContext, working: &EvaluationContext) -> (r:
    EvaluationContext)
    ensures
        r.custom_fields@.dom() =~= delta.custom_fields@.dom() + working.custom_fields@.dom(),
        forall|k: Seq<char>| #[trigger] ctx_has(delta, k) ==> ctx_at(r, k) == ctx_at(delta, k),
        forall|k: Seq<char>|
            !ctx_has(delta, k) && #[trigger] ctx_has(*working, k) ==> ctx_at(r, k) == ctx_at(
                *working,
                k,
            ),
        r.targeting_key == (if delta.targeting_key is Some {
            delta.targeting_key
        } else {
            working.targeting_key
        }),
{
    let mut r = delta;
    r.merge_missing(working);
    r
}

/// Context precedence, end to end: given the global, client, invocation and
/// hook-delta layers, the context the provider observes holds, under each
/// key, the hook's value when the hook supplied one, else the invocation's,
/// else the client's, else the global's; and the first targeting key set,
/// in that same order.
pub fn observed_context(
    hook_delta: Option<EvaluationContext>,
    invocation: Option<&EvaluationContext>,
    client: &EvaluationContext,
    global: &EvaluationContext,
) -> (r: EvaluationContext)
    ensures
        forall|k: Seq<char>|
            #[trigger] opt_ctx_has(hook_delta, k) ==> ctx_at(r, k) == ctx_at(hook_delta->0, k),
        forall|k: Seq<char>|
            !opt_ctx_has(hook_delta, k) && #[trigger] opt_ctx_has(opt_ctx(invocation), k) ==> ctx_at(
                r,
                k,
            ) == ctx_at(*invocation->0, k),
        forall|k: Seq<char>|
            !opt_ctx_has(hook_delta, k) && !opt_ctx_has(opt_ctx(invocation), k)
                && #[trigger] ctx_has(*client, k) ==> ctx_at(r, k) == ctx_at(*client, k),
        forall|k: Seq<char>|
            !opt_ctx_has(hook_delta, k) && !opt_ctx_has(opt_ctx(invocation), k) && !ctx_has(
                *client,
                k,
            ) && #[trigger] ctx_has(*global, k) ==> ctx_at(r, k) == ctx_at(*global, k),
{
    let merged = merged_context(invocation, client, global);
    match hook_delta {
        Some(delta) => {
            let ghost delta_snapshot = delta;
            let r = apply_hook_delta(delta, &merged);
            proof {
                assert forall|k: Seq<char>|
                    !opt_ctx_has(hook_delta, k) && #[trigger] opt_ctx_has(
                        opt_ctx(invocation),
                        k,
                    ) implies ctx_at(r, k) == ctx_at(*invocation->0, k) by {
                    assert(!ctx_has(delta_snapshot, k));
                    assert(ctx_has(merged, k));
                }
                assert forall|k: Seq<char>|
                    !opt_ctx_has(hook_delta, k) && !opt_ctx_has(opt_ctx(invocation), k)
                        && #[trigger] ctx_has(*client, k) implies ctx_at(r, k) == ctx_at(
                    *client,
                    k,
                ) by {
                    assert(!ctx_has(delta_snapshot, k));
                    assert(ctx_has(merged, k));
                }
                assert forall|k: Seq<char>|
                    !opt_ctx_has(hook_delta, k) && !opt_ctx_has(opt_ctx(invocation), k) && !ctx_has(
                        *client,
                        k,
                    ) && #[trigger] ctx_has(*global, k) implies ctx_at(r, k) == ctx_at(
                    *global,
                    k,
                ) by {
                    assert(!ctx_has(delta_snapshot, k));
                    assert(ctx_has(merged, k));
                }
            }
            r
        },
        None => merged,
    }
}

} // verus!
