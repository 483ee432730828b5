//! A hook that logs the evaluation lifecycle of a flag. The lines it writes
//! are built by verified code; only the write to the standard error stream
//! is trusted.

use crate::context::EvaluationContext;
use crate::details::EvaluationDetails;
use crate::error::EvaluationError;
use crate::hooks::Hook;
use crate::hooks::HookContext;
use crate::hooks::HookHints;
use crate::value::Value;
use std::io::Write;
use vstd::prelude::*;
use vstd::string::StringExecFns;

verus! {

/// A hook that writes one line per stage it observes.
pub struct LoggingHook {
    include_evaluation_context: bool,
}

/// The characters of the targeting key a log line reports: the key itself,
/// or `none` when the context has not set one.
pub open spec fn spec_targeting_key_chars(context: HookContext) -> Seq<char> {
    match context.evaluation_context.targeting_key {
        Some(k) => k@,
        None => "none"@,
    }
}

/// The characters of the part every log line shares: the stage name, the
/// client's name (its domain), the flag key, the flag type and, when the
/// hook was asked to include the evaluation context, its targeting key.
pub open spec fn spec_log_prefix(
    stage: Seq<char>,
    context: HookContext,
    include_evaluation_context: bool,
) -> Seq<char> {
    let base = stage + ": domain="@ + context.client_metadata.name@ + ", flag_key="@
        + context.flag_key@ + ", flag_type="@ + context.flag_type.spec_name();
    if include_evaluation_context {
        base + ", targeting_key="@ + spec_targeting_key_chars(context)
    } else {
        base
    }
}

impl LoggingHook {
    /// Create a logging hook that leaves the evaluation context out of its
    /// lines.
    pub fn new() -> (r: Self)
        ensures
            !r.spec_include_evaluation_context(),
    {
        LoggingHook { include_evaluation_context: false }
    }

    /// Create a logging hook whose lines also name the evaluation context's
    /// targeting key.
    pub fn with_evaluation_context() -> (r: Self)
        ensures
            r.spec_include_evaluation_context(),
    {
        LoggingHook { include_evaluation_context: true }
    }

    /// Whether the hook's lines name the evaluation context's targeting key.
    pub closed spec fn spec_include_evaluation_context(&self) -> bool {
        self.include_evaluation_context
    }

    /// The shared first part of a log line.
    fn log_prefix(stage: &str, context: &HookContext, include_evaluation_context: bool) -> (r:
        String)
        ensures
            r@ == spec_log_prefix(stage@, *context, include_evaluation_context),
    {
        let mut line = stage.to_owned();
        line.append(": domain=");
        line.append(context.client_metadata.name.as_str());
        line.append(", flag_key=");
        line.append(context.flag_key.as_str());
        line.append(", flag_type=");
        let flag_type = context.flag_type.to_string();
        line.append(flag_type.as_str());
        if include_evaluation_context {
            line.append(", targeting_key=");
            match &context.evaluation_context.targeting_key {
                Some(k) => line.append(k.as_str()),
                None => line.append("none"),
            }
        }
        line
    }

    /// The line the before stage writes.
    pub fn before_message(context: &HookContext) -> (r: String)
        ensures
            r@ == spec_log_prefix("Before stage"@, *context, false),
    {
        Self::log_prefix("Before stage", context, false)
    }

    /// The line the after stage writes: the prefix, then the variant (or
    /// `none`) and the reason (or `none`) of the resolution.
    pub fn after_message(context: &HookContext, details: &EvaluationDetails<Value>) -> (r: String)
        ensures
            r@ == spec_log_prefix("After stage"@, *context, false) + ", variant="@ + (match details.variant {
                Some(v) => v@,
                None => "none"@,
            }) + ", reason="@ + (match details.reason {
                Some(reason) => reason.spec_name(),
                None => "none"@,
            }),
    {
        let mut line = Self::log_prefix("After stage", context, false);
        line.append(", variant=");
        match &details.variant {
            Some(v) => line.append(v.as_str()),
            None => line.append("none"),
        }
        line.append(", reason=");
        match &details.reason {
            Some(reason) => {
                let name = reason.to_string();
                line.append(name.as_str());
            },
            None => line.append("none"),
        }
        line
    }

    /// The line the error stage writes: the prefix, then the error code and
    /// the error's message, if it carries one.
    pub fn error_message(context: &HookContext, error: &EvaluationError) -> (r: String)
        ensures
            r@ == spec_log_prefix("Error stage"@, *context, false) + ", error_code="@
                + error.code.spec_name() + ", error_message="@ + (match error.message {
                Some(m) => m@,
                None => "none"@,
            }),
    {
        let mut line = Self::log_prefix("Error stage", context, false);
        line.append(", error_code=");
        let code = error.code.to_string();
        line.append(code.as_str());
        line.append(", error_message=");
        match &error.message {
            Some(m) => line.append(m.as_str()),
            None => line.append("none"),
        }
        line
    }
}

impl Default for LoggingHook {
    /// The default logging hook leaves the evaluation context out.
    fn default() -> (r: Self)
        ensures
            !r.spec_include_evaluation_context(),
    {
        LoggingHook::new()
    }
}

/// Relies on `writeln!` to `std::io::Stderr`: writes the line to the
/// standard error stream and returns nothing.
#[verifier::external_body]
fn emit_log_line(line: &str) {
    let mut stderr = std::io::stderr();
    let _ = writeln!(stderr, "{}", line);
}

impl Hook for LoggingHook {
    /// Log the before stage; never amend the context and never fail.
    fn before(&self, context: &HookContext, _hints: Option<&HookHints>) -> (r: Result<
        Option<EvaluationContext>,
        EvaluationError,
    >)
        ensures
            r matches Ok(delta) && delta is None,
    {
        let line = Self::log_prefix("Before stage", context, self.include_evaluation_context);
        emit_log_line(line.as_str());
        Ok(None)
    }

    /// Log the after stage; never fail.
    fn after(
        &self,
        context: &HookContext,
        details: &EvaluationDetails<Value>,
        _hints: Option<&HookHints>,
    ) -> (r: Result<(), EvaluationError>)
        ensures
            r is Ok,
    {
        let line = Self::after_message(context, details);
        emit_log_line(line.as_str());
        Ok(())
    }

    /// Log the error stage.
    fn error(&self, context: &HookContext, error: &EvaluationError, _hints: Option<&HookHints>) {
        let line = Self::error_message(context, error);
        emit_log_line(line.as_str());
    }

    /// The finally stage writes nothing.
    fn finally(&self, _context: &HookContext, _hints: Option<&HookHints>) {
    }
}

} // verus!
