//! Layered configuration for a terminal application: the rules that a fully
//! resolved configuration must satisfy, the messages that report a broken
//! rule, and the step that keeps only the command-line values a user typed.

mod arg_matches;
mod config;
mod decimal;
mod error;

pub use arg_matches::{
    explicit_only, id_names, is_default, lemma_strip_defaults_idempotent, matched_args,
    matched_entry, same_entries_as, strip_defaults, stripped_of, without_defaults_among,
    ArgSource,
};
pub use config::{
    color_conflict, is_valid, lemma_color_rule, lemma_valid_exactly_when,
    lemma_validation_reads_only_display, lemma_width_rule, rejection_message, theme_setting, violations, width_allowed,
    width_message, width_range, Cli, DisplayConfig, GeneralConfig, TerminalConfig, WIDTH_MAX,
    WIDTH_MIN,
};
pub use decimal::{decimal, digit_char, push_decimal};
pub use error::{
    all_plain, figment_renders_as, header_text, item_text, items_text, lemma_plain_report,
    plain_text, plain_texts, renders_all, renders_as, report_text, ConfigError, ConfigErrorView,
    ConfigErrors,
};
