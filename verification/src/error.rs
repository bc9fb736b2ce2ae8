use vstd::prelude::*;
use vstd::string::to_string_from_display_ensures;

use crate::decimal::{decimal, push_decimal};

verus! {

/// An error that figment reports while merging or deserializing the layers
/// of a configuration: read failures of `config.toml`, TOML syntax errors,
/// and values of the wrong type.
#[verifier::external_type_specification]
#[verifier::external_body]
pub struct ExFigmentError(figment::Error);

/// Errors that can occur during configuration loading or validation.
#[derive(Debug)]
pub enum ConfigError {
    /// Error surfaced by figment while merging/deserializing TOML, env, or
    /// CLI-baseline layers (covers I/O errors reading `config.toml`, TOML
    /// parse errors, and type-mismatch deserialization errors).
    Figment(figment::Error),
    /// General validation error with a free-form description.
    Validation(String),
    /// Two options that cannot be used together.
    MutuallyExclusive(String, String),
    /// An option that depends on another option being set.
    Dependency(String),
    /// A numeric value fell outside its allowed range.
    InvalidRange(String),
}

/// A configuration error with its texts taken as character sequences.
pub enum ConfigErrorView {
    Figment(figment::Error),
    Validation(Seq<char>),
    MutuallyExclusive(Seq<char>, Seq<char>),
    Dependency(Seq<char>),
    InvalidRange(Seq<char>),
}

impl View for ConfigError {
    type V = ConfigErrorView;

    open spec fn view(&self) -> ConfigErrorView {
        match self {
            ConfigError::Figment(e) => ConfigErrorView::Figment(*e),
            ConfigError::Validation(m) => ConfigErrorView::Validation(m@),
            ConfigError::MutuallyExclusive(a, b) => ConfigErrorView::MutuallyExclusive(a@, b@),
            ConfigError::Dependency(m) => ConfigErrorView::Dependency(m@),
            ConfigError::InvalidRange(m) => ConfigErrorView::InvalidRange(m@),
        }
    }
}

/// The text of an error that carries only the library's own messages.
/// Meaningful for every variant but `Figment`: for a figment error it gives
/// only the prefix `config error: `, and `renders_as` states the full text.
pub open spec fn plain_text(e: ConfigErrorView) -> Seq<char> {
    match e {
        ConfigErrorView::Figment(_) => "config error: "@,
        ConfigErrorView::Validation(m) => "validation error: "@ + m,
        ConfigErrorView::MutuallyExclusive(a, b) => "options '"@ + a + "' and '"@ + b
            + "' are mutually exclusive"@,
        ConfigErrorView::Dependency(m) => "dependency error: "@ + m,
        ConfigErrorView::InvalidRange(m) => "invalid range: "@ + m,
    }
}

/// `t` is how error `e` reads: for a figment error, `config error: ` followed
/// by figment's own rendering of it; for the others, exactly `plain_text(e)`.
pub open spec fn renders_as(e: ConfigErrorView, t: Seq<char>) -> bool {
    if let ConfigErrorView::Figment(err) = e {
        figment_renders_as(err, t)
    } else {
        t == plain_text(e)
    }
}

/// `t` is `config error: ` followed by figment's own rendering of `err`.
pub open spec fn figment_renders_as(err: figment::Error, t: Seq<char>) -> bool {
    exists|s: String| #[trigger] to_string_from_display_ensures::<figment::Error>(&err, s) && t
        == "config error: "@ + s@
}

impl ConfigError {
    /// The human-readable message of the error.
    pub fn to_string(&self) -> (r: String)
        ensures
            renders_as(self@, r@),
    {
        match self {
            ConfigError::Figment(err) => {
                let mut s = String::from_str("config error: ");
                let inner = err.to_string();
                s.append(inner.as_str());
                assert(figment_renders_as(*err, s@));
                s
            },
            ConfigError::Validation(m) => {
                let mut s = String::from_str("validation error: ");
                s.append(m.as_str());
                s
            },
            ConfigError::MutuallyExclusive(a, b) => {
                let mut s = String::from_str("options '");
                s.append(a.as_str());
                s.append("' and '");
                s.append(b.as_str());
                s.append("' are mutually exclusive");
                s
            },
            ConfigError::Dependency(m) => {
                let mut s = String::from_str("dependency error: ");
                s.append(m.as_str());
                s
            },
            ConfigError::InvalidRange(m) => {
                let mut s = String::from_str("invalid range: ");
                s.append(m.as_str());
                s
            },
        }
    }
}

impl From<figment::Error> for ConfigError {
    fn from(err: figment::Error) -> (r: ConfigError) {
        ConfigError::Figment(err)
    }
}

impl vstd::std_specs::convert::FromSpecImpl<figment::Error> for ConfigError {
    open spec fn obeys_from_spec() -> bool {
        true
    }

    open spec fn from_spec(err: figment::Error) -> ConfigError {
        ConfigError::Figment(err)
    }
}

/// A collection of validation failures, gathered all at once rather than
/// stopping at the first problem found.
#[derive(Debug)]
pub struct ConfigErrors(pub Vec<ConfigError>);

impl View for ConfigErrors {
    type V = Seq<ConfigErrorView>;

    open spec fn view(&self) -> Seq<ConfigErrorView> {
        self.0@.map_values(|e: ConfigError| e@)
    }
}

/// The first line of a report of `n` errors.
pub open spec fn header_text(n: nat) -> Seq<char> {
    "found "@ + decimal(n) + " configuration error(s):\n"@
}

/// The line of a report for the error at position `i` (numbered from one),
/// whose text is `t`.
pub open spec fn item_text(i: nat, t: Seq<char>) -> Seq<char> {
    "  "@ + decimal(i + 1) + ". "@ + t + "\n"@
}

/// The numbered lines of a report whose error texts are `texts`, in order.
pub open spec fn items_text(texts: Seq<Seq<char>>) -> Seq<char>
    decreases texts.len(),
{
    if texts.len() == 0 {
        Seq::empty()
    } else {
        items_text(texts.drop_last()) + item_text((texts.len() - 1) as nat, texts.last())
    }
}

/// A whole report: the count line, then one numbered line per error.
pub open spec fn report_text(texts: Seq<Seq<char>>) -> Seq<char> {
    header_text(texts.len()) + items_text(texts)
}

/// `texts[i]` is how `errors[i]` reads, for every position.
pub open spec fn renders_all(errors: Seq<ConfigErrorView>, texts: Seq<Seq<char>>) -> bool {
    &&& texts.len() == errors.len()
    &&& forall|i: int| 0 <= i < errors.len() ==> renders_as(#[trigger] errors[i], texts[i])
}

/// The texts of errors that carry only the library's own messages.
pub open spec fn plain_texts(errors: Seq<ConfigErrorView>) -> Seq<Seq<char>> {
    errors.map_values(|e: ConfigErrorView| plain_text(e))
}

/// No error of the sequence comes from figment.
pub open spec fn all_plain(errors: Seq<ConfigErrorView>) -> bool {
    forall|i: int| 0 <= i < errors.len() ==> !(#[trigger] errors[i] is Figment)
}

impl ConfigErrors {
    /// The report of all collected errors: a line with their count, then
    /// one numbered line per error, each line ending in a newline.
    pub fn to_string(&self) -> (r: String)
        ensures
            exists|texts: Seq<Seq<char>>| renders_all(self@, texts) && r@ == report_text(texts),
    {
        let n = self.0.len();
        let mut s = String::from_str("found ");
        push_decimal(&mut s, n as u64);
        s.append(" configuration error(s):\n");
        let ghost mut texts: Seq<Seq<char>> = Seq::empty();
        let mut i: usize = 0;
        while i < n
            invariant
                n == self.0.len(),
                i <= n,
                texts.len() == i,
                forall|j: int| 0 <= j < i ==> renders_as(self.0@[j]@, #[trigger] texts[j]),
                s@ == header_text(n as nat) + items_text(texts),
            decreases n - i,
        {
            let line = self.0[i].to_string();
            s.append("  ");
            push_decimal(&mut s, (i + 1) as u64);
            s.append(". ");
            s.append(line.as_str());
            s.append("\n");
            proof {
                let old_texts = texts;
                texts = texts.push(line@);
                assert(texts.drop_last() =~= old_texts);
            }
            i = i + 1;
        }
        assert forall|j: int| 0 <= j < self@.len() implies renders_as(
            #[trigger] self@[j],
            texts[j],
        ) by {
            assert(self@[j] == self.0@[j]@);
        }
        assert(renders_all(self@, texts));
        assert(s@ == report_text(texts));
        s
    }
}

/// Laws of the report text.
/// When no error comes from figment, the report reads exactly: the count
/// line, then each error's own message on a numbered line.
pub proof fn lemma_plain_report(errors: Seq<ConfigErrorView>, texts: Seq<Seq<char>>)
    requires
        all_plain(errors),
        renders_all(errors, texts),
    ensures
        texts == plain_texts(errors),
        report_text(texts) == report_text(plain_texts(errors)),
{
    assert forall|i: int| 0 <= i < errors.len() implies texts[i] == plain_texts(errors)[i] by {
        assert(!(errors[i] is Figment));
        assert(renders_as(errors[i], texts[i]));
    }
    assert(texts =~= plain_texts(errors));
}

} // verus!
