//! The Diagnostic Channel.
//!
//! When validation is enabled, one callback is registered with the API,
//! filtered by a severity mask and a category mask fixed at creation. The
//! callback hands every received message on to the logging collaborator,
//! unmodified, and answers the API with a fixed "do not abort the
//! triggering call" signal. It may run on whatever thread issued the
//! triggering call, so it must not block or re-enter the API: here it is a
//! plain computation on the message, and the caller does the logging.

use vstd::prelude::*;

verus! {

/// The severity tag of a diagnostic message.
#[derive(Clone, Copy, Debug, PartialEq, Eq, Structural)]
pub enum Severity {
    Verbose,
    Info,
    Warning,
    Error,
}

/// The category tag of a diagnostic message.
#[derive(Clone, Copy, Debug, PartialEq, Eq, Structural)]
pub enum Category {
    General,
    Validation,
    Performance,
}

/// Which severities a channel lets through.
#[derive(Clone, Copy, Debug, PartialEq, Eq, Structural)]
pub struct SeverityMask {
    pub verbose: bool,
    pub info: bool,
    pub warning: bool,
    pub error: bool,
}

/// Which categories a channel lets through.
#[derive(Clone, Copy, Debug, PartialEq, Eq, Structural)]
pub struct CategoryMask {
    pub general: bool,
    pub validation: bool,
    pub performance: bool,
}

/// The filter a diagnostic channel is created with. Fixed at creation.
#[derive(Clone, Copy, Debug, PartialEq, Eq, Structural)]
pub struct DiagnosticConfig {
    pub severities: SeverityMask,
    pub categories: CategoryMask,
}

/// The default filter: warnings and errors in every category; verbose and
/// informational messages are suppressed.
pub open spec fn spec_default_filter() -> DiagnosticConfig {
    DiagnosticConfig {
        severities: SeverityMask { verbose: false, info: false, warning: true, error: true },
        categories: CategoryMask { general: true, validation: true, performance: true },
    }
}

/// Whether a message tagged (`severity`, `category`) passes `config`.
pub open spec fn spec_accepts(config: DiagnosticConfig, severity: Severity, category: Category) -> bool {
    &&& match severity {
        Severity::Verbose => config.severities.verbose,
        Severity::Info => config.severities.info,
        Severity::Warning => config.severities.warning,
        Severity::Error => config.severities.error,
    }
    &&& match category {
        Category::General => config.categories.general,
        Category::Validation => config.categories.validation,
        Category::Performance => config.categories.performance,
    }
}

impl DiagnosticConfig {
    /// A channel filter with the given masks. The severity mask is a
    /// configuration point: callers may widen or narrow it here.
    pub fn new(severities: SeverityMask, categories: CategoryMask) -> (r: DiagnosticConfig)
        ensures
            r.severities == severities,
            r.categories == categories,
    {
        DiagnosticConfig { severities, categories }
    }

    /// The default filter used by bootstrap.
    pub fn default_filter() -> (r: DiagnosticConfig)
        ensures
            r == spec_default_filter(),
    {
        DiagnosticConfig {
            severities: SeverityMask { verbose: false, info: false, warning: true, error: true },
            categories: CategoryMask { general: true, validation: true, performance: true },
        }
    }

    /// Whether a message tagged (`severity`, `category`) passes this filter.
    pub fn accepts(&self, severity: Severity, category: Category) -> (r: bool)
        ensures
            r == spec_accepts(*self, severity, category),
    {
        let severity_passes = match severity {
            Severity::Verbose => self.severities.verbose,
            Severity::Info => self.severities.info,
            Severity::Warning => self.severities.warning,
            Severity::Error => self.severities.error,
        };
        let category_passes = match category {
            Category::General => self.categories.general,
            Category::Validation => self.categories.validation,
            Category::Performance => self.categories.performance,
        };
        severity_passes && category_passes
    }
}

/// The channel filter for a bootstrap: the default filter when validation
/// is enabled, and no channel at all otherwise.
pub fn diagnostic_config_for(validation_enabled: bool) -> (r: Option<DiagnosticConfig>)
    ensures
        r is Some <==> validation_enabled,
        validation_enabled ==> r == Some(spec_default_filter()),
{
    if validation_enabled {
        Some(DiagnosticConfig::default_filter())
    } else {
        None
    }
}

/// What the callback answers for one received message: the tuple to hand to
/// the logging collaborator, and the abort signal for the API.
pub struct DiagnosticResponse {
    pub severity: Severity,
    pub category: Category,
    pub forwarded_message: String,
    pub abort_triggering_call: bool,
}

/// The callback body: forwards the message unmodified, with its tags, and
/// never asks the API to abort the triggering call.
pub fn handle_message(severity: Severity, category: Category, message: String) -> (r:
    DiagnosticResponse)
    ensures
        r.severity == severity,
        r.category == category,
        r.forwarded_message@ == message@,
        r.abort_triggering_call == false,
{
    DiagnosticResponse { severity, category, forwarded_message: message, abort_triggering_call: false }
}

} // verus!
