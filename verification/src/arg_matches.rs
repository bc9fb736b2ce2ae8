use vstd::prelude::*;

use clap::parser::{MatchesError, ValueSource};
use clap::ArgMatches;

verus! {

/// The result of parsing a command line with clap.
#[verifier::external_type_specification]
#[verifier::external_body]
pub struct ExArgMatches(ArgMatches);

/// The error that clap reports when a lookup in `ArgMatches` names an id that
/// the command does not define, or asks for a value of the wrong type.
#[verifier::external_type_specification]
#[verifier::external_body]
pub struct ExMatchesError(MatchesError);

/// Where the value of a matched argument came from.
#[derive(Debug, Clone, Copy, PartialEq, Eq, Structural)]
pub enum ArgSource {
    /// The argument's `default_value`.
    Default,
    /// An environment variable bound to the argument.
    Env,
    /// The command line.
    CommandLine,
    /// A source that clap does not name in the release this library is built
    /// with (clap marks its list of sources as open to additions).
    Other,
}

/// What a set of argument matches holds: for each argument or group id that
/// is present, where its value came from (`None` for an entry that records
/// no source).
pub uninterp spec fn matched_args(m: ArgMatches) -> Map<Seq<char>, Option<ArgSource>>;

/// The entry that `m` holds under `id` (its values, their occurrences and its
/// source), encoded as a number: two entries are equal exactly when their
/// numbers are.
pub uninterp spec fn matched_entry(m: ArgMatches, id: Seq<char>) -> int;

/// A list of ids, each taken as its character sequence.
pub open spec fn id_names(ids: Seq<String>) -> Seq<Seq<char>> {
    ids.map_values(|s: String| s@)
}

/// The source is an argument's default.
pub open spec fn is_default(source: Option<ArgSource>) -> bool {
    source == Some(ArgSource::Default)
}

/// The entries of `m` whose value was supplied explicitly: every entry whose
/// source is not the default, with its source unchanged.
pub open spec fn explicit_only(m: Map<Seq<char>, Option<ArgSource>>) -> Map<
    Seq<char>,
    Option<ArgSource>,
> {
    Map::new(|k: Seq<char>| m.dom().contains(k) && !is_default(m[k]), |k: Seq<char>| m[k])
}

/// The entries of `m`, without those among `seen` whose source is the
/// default.
pub open spec fn without_defaults_among(
    m: Map<Seq<char>, Option<ArgSource>>,
    seen: Seq<Seq<char>>,
) -> Map<Seq<char>, Option<ArgSource>> {
    Map::new(
        |k: Seq<char>| m.dom().contains(k) && !(is_default(m[k]) && seen.contains(k)),
        |k: Seq<char>| m[k],
    )
}

/// Every entry that `s` holds is the very entry that `m` holds under the same
/// id.
pub open spec fn same_entries_as(s: ArgMatches, m: ArgMatches) -> bool {
    forall|k: Seq<char>| #[trigger]
        matched_args(s).dom().contains(k) ==> matched_entry(s, k) == matched_entry(m, k)
}

/// `s` is what is left of `m` once every entry that came from a default is
/// cleared: the ids whose source is not the default, each with its source
/// and its entry (values included) unchanged.
pub open spec fn stripped_of(m: ArgMatches, s: ArgMatches) -> bool {
    &&& matched_args(s) == explicit_only(matched_args(m))
    &&& same_entries_as(s, m)
}

/// Calls `ArgMatches::ids` and takes each `Id` as a `String` (`Id::as_str`).
/// The contract claims that the ids listed are exactly the keys of the
/// matches, each once: clap keeps its matched arguments in a map whose keys
/// are distinct and iterates over these keys.
#[verifier::external_body]
fn arg_ids(m: &ArgMatches) -> (ids: Vec<String>)
    ensures
        id_names(ids@).to_set() == matched_args(*m).dom(),
        id_names(ids@).no_duplicates(),
{
    let mut out = Vec::new();
    for id in m.ids() {
        out.push(id.as_str().to_string());
    }
    out
}

/// Calls `ArgMatches::value_source` and converts clap's `ValueSource` to
/// `ArgSource`, one variant for one variant. The contract claims that this is
/// the source the model keeps for the id. The id must be present in the
/// matches: clap panics in debug builds on an id that its command does not
/// define, and every id present was defined by the command that produced the
/// matches.
#[verifier::external_body]
fn arg_source(m: &ArgMatches, id: &str) -> (source: Option<ArgSource>)
    requires
        matched_args(*m).dom().contains(id@),
    ensures
        source == matched_args(*m)[id@],
{
    match m.value_source(id) {
        Some(ValueSource::DefaultValue) => Some(ArgSource::Default),
        Some(ValueSource::EnvVariable) => Some(ArgSource::Env),
        Some(ValueSource::CommandLine) => Some(ArgSource::CommandLine),
        Some(_) => Some(ArgSource::Other),
        None => None,
    }
}

/// Calls `ArgMatches::try_clear_id`. The contract claims that the entry of
/// the id is removed and every other entry stays as it was (clap removes the
/// one key from its map), and that the call reports `Ok(true)`: it fails only
/// on ids that the command does not define, and a present id was defined by
/// it.
#[verifier::external_body]
fn clear_arg(m: &mut ArgMatches, id: &str) -> (r: Result<bool, MatchesError>)
    requires
        matched_args(*old(m)).dom().contains(id@),
    ensures
        matched_args(*final(m)) == matched_args(*old(m)).remove(id@),
        forall|k: Seq<char>|
            k != id@ ==> #[trigger] matched_entry(*final(m), k) == matched_entry(*old(m), k),
        r matches Ok(true),
{
    m.try_clear_id(id)
}

/// Calls `ArgMatches::clone` (derived); the contract claims the copy holds
/// the same entries under the same ids.
#[verifier::external_body]
fn clone_matches(m: &ArgMatches) -> (c: ArgMatches)
    ensures
        matched_args(c) == matched_args(*m),
        forall|k: Seq<char>| #[trigger] matched_entry(c, k) == matched_entry(*m, k),
{
    m.clone()
}

/// Clears any argument whose value came from clap's `default_value` (not
/// genuinely supplied by the user via CLI or env), leaving a sparse
/// `ArgMatches` containing only explicitly-provided values.
///
/// This is what lets CLI-provided values act as the highest priority layer
/// without clap's own defaults unconditionally clobbering the TOML/env layers
/// underneath them. The decision rests on where a value came from, not on the
/// value: an explicit value equal to the default stays, with its value and
/// its source.
pub fn strip_defaults(matches: &ArgMatches) -> (stripped: ArgMatches)
    ensures
        stripped_of(*matches, stripped),
{
    let ghost all = matched_args(*matches);
    let mut stripped = clone_matches(matches);
    let ids = arg_ids(matches);
    let ghost names = id_names(ids@);
    let mut i: usize = 0;
    assert(names.take(0) =~= Seq::<Seq<char>>::empty());
    assert(matched_args(stripped) =~= without_defaults_among(all, names.take(0)));
    while i < ids.len()
        invariant
            all == matched_args(*matches),
            names == id_names(ids@),
            names.to_set() == all.dom(),
            names.no_duplicates(),
            i <= ids.len(),
            matched_args(stripped) == without_defaults_among(all, names.take(i as int)),
            forall|k: Seq<char>|
                all.dom().contains(k) && !(is_default(all[k]) && names.take(i as int).contains(k))
                    ==> #[trigger] matched_entry(stripped, k) == matched_entry(*matches, k),
        decreases ids.len() - i,
    {
        let id = ids[i].as_str();
        proof {
            // the id is one of the matches' keys
            assert(names[i as int] == ids@[i as int]@);
            assert(names.to_set().contains(names[i as int]));
        }
        let ghost before = names.take(i as int);
        let ghost after = names.take(i as int + 1);
        proof {
            assert forall|k: Seq<char>|
                after.contains(k) <==> (before.contains(k) || k == names[i as int]) by {
                if after.contains(k) {
                    let j = choose|j: int| 0 <= j < after.len() && after[j] == k;
                    if j < i {
                        assert(before[j] == k);
                    }
                }
                if before.contains(k) {
                    let j = choose|j: int| 0 <= j < before.len() && before[j] == k;
                    assert(after[j] == k);
                }
                if k == names[i as int] {
                    assert(after[i as int] == k);
                }
            }
        }
        let source = arg_source(matches, id);
        if source == Some(ArgSource::Default) {
            proof {
                // ids are distinct, so this one has not been cleared yet
                if before.contains(names[i as int]) {
                    let j = choose|j: int| 0 <= j < before.len() && before[j] == names[i as int];
                    assert(names[j] == names[i as int]);
                }
            }
            let _ = clear_arg(&mut stripped, id);
        }
        proof {
            assert(matched_args(stripped) =~= without_defaults_among(all, after));
        }
        i = i + 1;
    }
    proof {
        assert(names.take(ids.len() as int) =~= names);
        assert forall|k: Seq<char>| all.dom().contains(k) implies names.contains(k) by {
            assert(names.to_set().contains(k));
        }
        assert(matched_args(stripped) =~= explicit_only(all));
        assert forall|k: Seq<char>| #[trigger]
            matched_args(stripped).dom().contains(k) implies matched_entry(stripped, k)
            == matched_entry(*matches, k) by {
            assert(all.dom().contains(k) && !is_default(all[k]));
        }
    }
    stripped
}

/// Stripping defaults twice gives what stripping once gave: the second pass
/// keeps every id of the first, with the same source and the same entry.
pub proof fn lemma_strip_defaults_idempotent(m: ArgMatches, once: ArgMatches, twice: ArgMatches)
    requires
        stripped_of(m, once),
        stripped_of(once, twice),
    ensures
        matched_args(twice) == matched_args(once),
        forall|k: Seq<char>| #[trigger]
            matched_args(twice).dom().contains(k) ==> matched_entry(twice, k) == matched_entry(
                once,
                k,
            ),
        stripped_of(m, twice),
{
    assert(matched_args(twice) =~= matched_args(once));
    assert forall|k: Seq<char>| #[trigger]
        matched_args(twice).dom().contains(k) implies matched_entry(twice, k) == matched_entry(
        m,
        k,
    ) by {
        assert(matched_args(once).dom().contains(k));
    }
}

} // verus!
