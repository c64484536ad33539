//! Assembly of the backend context's creation parameters, and the policy of
//! its diagnostic channel.
//!
//! The backend context is created from an application name, the extensions
//! the windowing platform requires, and a validation flag. When validation
//! is requested, the diagnostic-utilities extension and the validation
//! layer are added; otherwise the platform's list is passed through
//! unchanged and no layer is enabled. The names themselves come from the
//! caller, which reads them from the backend; this module decides what goes
//! into the list.

use vstd::prelude::*;

verus! {

/// Everything the backend context is created from.
pub struct InstanceSpec {
    /// Application name, as a byte string.
    pub app_name: Vec<u8>,
    /// Names of the instance extensions to enable.
    pub extensions: Vec<Vec<u8>>,
    /// Names of the layers to enable.
    pub layers: Vec<Vec<u8>>,
    /// Whether the diagnostic/validation channel is wanted.
    pub validation: bool,
}

/// Severity of one message on the diagnostic channel.
#[derive(Clone, Copy, Debug, PartialEq, Eq, Structural)]
pub enum DiagnosticSeverity {
    Verbose,
    Info,
    Warning,
    Error,
}

/// The level a diagnostic message is logged at.
#[derive(Clone, Copy, Debug, PartialEq, Eq, Structural)]
pub enum LogLevel {
    Trace,
    Info,
    Warn,
    Error,
}

/// The level each diagnostic severity is logged at.
pub open spec fn spec_diagnostic_level(s: DiagnosticSeverity) -> LogLevel {
    match s {
        DiagnosticSeverity::Verbose => LogLevel::Trace,
        DiagnosticSeverity::Info => LogLevel::Info,
        DiagnosticSeverity::Warning => LogLevel::Warn,
        DiagnosticSeverity::Error => LogLevel::Error,
    }
}

/// Build the creation parameters for the backend context.
///
/// `platform_extensions` is what the windowing platform requires;
/// `debug_extension` and `validation_layer` are the names of the
/// diagnostic-utilities extension and the validation layer. Exactly when
/// validation is requested, the extension list additionally carries the
/// diagnostic-utilities extension and the validation layer is the single
/// enabled layer.
pub fn build_instance_spec(
    app_name: Vec<u8>,
    platform_extensions: Vec<Vec<u8>>,
    debug_extension: Vec<u8>,
    validation_layer: Vec<u8>,
    validation: bool,
) -> (s: InstanceSpec)
    ensures
        s.validation == validation,
        s.app_name == app_name,
        validation ==> s.extensions@ == platform_extensions@.push(debug_extension),
        validation ==> s.layers@ == seq![validation_layer],
        !validation ==> s.extensions@ == platform_extensions@,
        !validation ==> s.layers@.len() == 0,
{
    let mut extensions = platform_extensions;
    let mut layers: Vec<Vec<u8>> = Vec::new();
    if validation {
        extensions.push(debug_extension);
        layers.push(validation_layer);
        proof {
            assert(layers@ =~= seq![validation_layer]);
        }
    }
    InstanceSpec { app_name, extensions, layers, validation }
}

/// Which diagnostic severities the channel registers for: warnings and
/// errors; verbose and informational chatter stays off.
pub fn severity_enabled(s: DiagnosticSeverity) -> (r: bool)
    ensures
        r == (s is Warning || s is Error),
{
    match s {
        DiagnosticSeverity::Warning => true,
        DiagnosticSeverity::Error => true,
        _ => false,
    }
}

/// The level to log one diagnostic message at, from its severity.
pub fn diagnostic_level(s: DiagnosticSeverity) -> (l: LogLevel)
    ensures
        l == spec_diagnostic_level(s),
{
    match s {
        DiagnosticSeverity::Verbose => LogLevel::Trace,
        DiagnosticSeverity::Info => LogLevel::Info,
        DiagnosticSeverity::Warning => LogLevel::Warn,
        DiagnosticSeverity::Error => LogLevel::Error,
    }
}

} // verus!
