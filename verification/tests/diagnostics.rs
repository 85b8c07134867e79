use blossom::diag::{
    diagnostic_config_for, handle_message, Category, CategoryMask, DiagnosticConfig, Severity,
    SeverityMask,
};

#[test]
fn no_channel_without_validation() {
    assert!(diagnostic_config_for(false).is_none());
}

#[test]
fn one_channel_with_default_filter_under_validation() {
    let config = diagnostic_config_for(true).expect("validation must create a channel");
    assert_eq!(config, DiagnosticConfig::default_filter());
    let severities = config.severities;
    assert!(!severities.verbose);
    assert!(!severities.info);
    assert!(severities.warning);
    assert!(severities.error);
    let categories = config.categories;
    assert!(categories.general);
    assert!(categories.validation);
    assert!(categories.performance);
}

#[test]
fn default_filter_passes_warnings_and_errors_only() {
    let config = DiagnosticConfig::default_filter();
    for category in [Category::General, Category::Validation, Category::Performance] {
        assert!(config.accepts(Severity::Warning, category));
        assert!(config.accepts(Severity::Error, category));
        assert!(!config.accepts(Severity::Verbose, category));
        assert!(!config.accepts(Severity::Info, category));
    }
}

#[test]
fn severity_mask_is_configurable() {
    let config = DiagnosticConfig::new(
        SeverityMask { verbose: true, info: true, warning: true, error: true },
        CategoryMask { general: true, validation: false, performance: false },
    );
    assert!(config.accepts(Severity::Verbose, Category::General));
    assert!(!config.accepts(Severity::Verbose, Category::Validation));
}

#[test]
fn callback_forwards_unmodified_and_never_aborts() {
    let text = "validation layer: vkQueueSubmit without a signaled fence".to_string();
    let response = handle_message(Severity::Warning, Category::Validation, text.clone());
    assert_eq!(response.forwarded_message, text);
    assert_eq!(response.severity, Severity::Warning);
    assert_eq!(response.category, Category::Validation);
    assert!(!response.abort_triggering_call);
}
