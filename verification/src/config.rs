use vstd::prelude::*;

use crate::decimal::{decimal, push_decimal};
use crate::error::{
    all_plain, lemma_plain_report, renders_all, plain_texts, report_text, ConfigError, ConfigErrorView, ConfigErrors,
};

verus! {

/// Settings of the display.
#[derive(Debug, Clone, PartialEq)]
pub struct DisplayConfig {
    pub width: u32,
    pub theme: String,
    /// Disable color output entirely. Cannot be combined with a non-default
    /// `theme`, since a theme other than "dark" implies color is wanted.
    pub no_color: bool,
}

/// Settings of the terminal.
#[derive(Debug, Clone, PartialEq)]
pub struct TerminalConfig {
    pub shell: String,
    pub scrollback: u32,
}

/// General settings.
#[derive(Debug, Clone, PartialEq)]
pub struct GeneralConfig {
    pub log_level: String,
}

/// The fully resolved configuration, all sections together.
#[derive(Debug, Clone, PartialEq)]
pub struct Cli {
    pub display: DisplayConfig,
    pub terminal: TerminalConfig,
    pub general: GeneralConfig,
}

/// Smallest allowed `display.width`.
pub const WIDTH_MIN: u32 = 10;

/// Largest allowed `display.width`.
pub const WIDTH_MAX: u32 = 500;

/// Allowed range for `display.width`, regardless of which source (TOML, env,
/// or CLI) it came from.
pub fn width_range() -> (r: std::ops::RangeInclusive<u32>)
    ensures
        r@.start == WIDTH_MIN,
        r@.end == WIDTH_MAX,
        !r@.exhausted,
{
    std::ops::RangeInclusive::new(WIDTH_MIN, WIDTH_MAX)
}

/// The width lies in the allowed range.
pub open spec fn width_allowed(width: u32) -> bool {
    WIDTH_MIN <= width <= WIDTH_MAX
}

/// Color is switched off while a theme other than "dark" is chosen.
pub open spec fn color_conflict(display: DisplayConfig) -> bool {
    display.no_color && display.theme@ != "dark"@
}

/// The description of an out-of-range width.
pub open spec fn width_message(width: u32) -> Seq<char> {
    "display.width = "@ + decimal(width as nat) + " is out of range ("@ + decimal(WIDTH_MIN as nat)
        + "..="@ + decimal(WIDTH_MAX as nat) + ")"@
}

/// How the theme is named in a conflict report.
pub open spec fn theme_setting(theme: Seq<char>) -> Seq<char> {
    "display.theme = \""@ + theme + "\""@
}

/// Every rule that `cli` breaks, in the order in which they are checked:
/// first the width range, then the color/theme conflict.
pub open spec fn violations(cli: Cli) -> Seq<ConfigErrorView> {
    let range = if width_allowed(cli.display.width) {
        Seq::empty()
    } else {
        seq![ConfigErrorView::InvalidRange(width_message(cli.display.width))]
    };
    let conflict = if color_conflict(cli.display) {
        seq![
            ConfigErrorView::MutuallyExclusive(
                "display.no_color"@,
                theme_setting(cli.display.theme@),
            ),
        ]
    } else {
        Seq::empty()
    };
    range + conflict
}

/// The configuration breaks no rule.
pub open spec fn is_valid(cli: Cli) -> bool {
    width_allowed(cli.display.width) && !color_conflict(cli.display)
}

/// The message with which a configuration that breaks some rule is refused:
/// the full report of its violations.
pub open spec fn rejection_message(cli: Cli) -> Seq<char> {
    report_text(plain_texts(violations(cli)))
}

/// The width rule: a configuration is reported out of range exactly when its
/// width is below 10 or above 500, whatever its other settings.
pub proof fn lemma_width_rule(cli: Cli)
    ensures
        (exists|i: int|
            0 <= i < violations(cli).len() && #[trigger] violations(cli)[i] is InvalidRange) <==> !(
        10 <= cli.display.width <= 500),
        (10 <= cli.display.width <= 500) ==> (forall|i: int|
            0 <= i < violations(cli).len() ==> !(#[trigger] violations(cli)[i] is InvalidRange)),
{
    let v = violations(cli);
    if !(10 <= cli.display.width <= 500) {
        assert(v[0] is InvalidRange);
    } else {
        assert forall|i: int| 0 <= i < v.len() implies !(#[trigger] v[i] is InvalidRange) by {
            assert(v[i] is MutuallyExclusive);
        }
    }
}

/// The color rule: a configuration is reported as combining `no_color` with
/// a theme exactly when color is off and the theme is anything but the
/// literal text "dark", whatever its other settings.
pub proof fn lemma_color_rule(cli: Cli)
    ensures
        (exists|i: int|
            0 <= i < violations(cli).len() && #[trigger] violations(cli)[i] is MutuallyExclusive)
            <==> (cli.display.no_color && cli.display.theme@ != "dark"@),
{
    let v = violations(cli);
    if cli.display.no_color && cli.display.theme@ != "dark"@ {
        assert(v[v.len() - 1] is MutuallyExclusive);
    } else {
        assert forall|i: int| 0 <= i < v.len() implies !(#[trigger] v[i] is MutuallyExclusive) by {
            assert(v[i] is InvalidRange);
        }
    }
}

/// A configuration is accepted exactly when its width lies in 10..=500 and
/// it does not switch color off under a theme other than "dark"; nothing
/// else about it matters.
pub proof fn lemma_valid_exactly_when(cli: Cli)
    ensures
        is_valid(cli) <==> (10 <= cli.display.width <= 500 && !(cli.display.no_color
            && cli.display.theme@ != "dark"@)),
        is_valid(cli) <==> violations(cli).len() == 0,
{
}

/// Validation reads only the display settings: two configurations with the
/// same width, theme and color switch break the same rules, with the same
/// messages, whatever their terminal and general settings.
pub proof fn lemma_validation_reads_only_display(a: Cli, b: Cli)
    requires
        a.display.width == b.display.width,
        a.display.no_color == b.display.no_color,
        a.display.theme@ == b.display.theme@,
    ensures
        violations(a) == violations(b),
        is_valid(a) == is_valid(b),
        rejection_message(a) == rejection_message(b),
{
}

impl Cli {
    /// Validates business rules on the fully-resolved config, after TOML,
    /// env, and CLI have already been merged together. A bad `width` is a bad
    /// `width` whichever source it came from.
    ///
    /// Collects every violation found rather than stopping at the first one,
    /// so a user fixing their config sees all problems in a single run.
    pub fn validate(&self) -> (r: Result<(), ConfigErrors>)
        ensures
            r is Ok <==> is_valid(*self),
            r is Ok <==> violations(*self).len() == 0,
            r matches Err(errors) ==> errors@ == violations(*self),
            r is Ok <==> (10 <= self.display.width <= 500 && !(self.display.no_color
                && self.display.theme@ != "dark"@)),
            r matches Err(errors) ==> ((exists|i: int|
                0 <= i < errors@.len() && #[trigger] errors@[i] is InvalidRange) <==> !(10
                <= self.display.width <= 500)),
            r matches Err(errors) ==> ((exists|i: int|
                0 <= i < errors@.len() && #[trigger] errors@[i] is MutuallyExclusive) <==> (
            self.display.no_color && self.display.theme@ != "dark"@)),
    {
        proof {
            lemma_width_rule(*self);
            lemma_color_rule(*self);
        }
        let mut errors: Vec<ConfigError> = Vec::new();
        let width = self.display.width;
        if !(WIDTH_MIN <= width && width <= WIDTH_MAX) {
            let mut msg = String::from_str("display.width = ");
            push_decimal(&mut msg, width as u64);
            msg.append(" is out of range (");
            push_decimal(&mut msg, WIDTH_MIN as u64);
            msg.append("..=");
            push_decimal(&mut msg, WIDTH_MAX as u64);
            msg.append(")");
            errors.push(ConfigError::InvalidRange(msg));
        }
        let dark = String::from_str("dark");
        if self.display.no_color && !(self.display.theme == dark) {
            let mut theme = String::from_str("display.theme = \"");
            theme.append(self.display.theme.as_str());
            theme.append("\"");
            errors.push(ConfigError::MutuallyExclusive(String::from_str("display.no_color"), theme));
        }
        let ghost found = errors@.map_values(|e: ConfigError| e@);
        assert(found =~= violations(*self));
        if errors.len() == 0 {
            Ok(())
        } else {
            Err(ConfigErrors(errors))
        }
    }

    /// Accepts the configuration if it breaks no rule; otherwise refuses it
    /// with a single `Validation` error whose message is the full report of
    /// every violation.
    pub fn into_validated(self) -> (r: Result<Cli, ConfigError>)
        ensures
            is_valid(self) ==> r == Ok::<Cli, ConfigError>(self),
            !is_valid(self) ==> (r matches Err(ConfigError::Validation(msg)) && msg@
                == rejection_message(self)),
    {
        match self.validate() {
            Ok(()) => Ok(self),
            Err(errors) => {
                let report = errors.to_string();
                proof {
                    let texts = choose|texts: Seq<Seq<char>>|
                        renders_all(errors@, texts) && report@ == report_text(texts);
                    assert(all_plain(errors@));
                    lemma_plain_report(errors@, texts);
                }
                Err(ConfigError::Validation(report))
            },
        }
    }
}

} // verus!
