//! Presets by name: saving, loading and removing them, reading the tables
//! of a new preset from what the operator typed, and resolving the
//! exclusion set of a run.

use vstd::prelude::*;
use crate::config::{Preset, RestoreConfig};
use crate::error::{ErrorView, RestoreError};
use crate::text::{concat3, trim, trimmed};

verus! {

/// The index of the first `,` in `s`, or its length where it has none.
pub open spec fn first_comma(s: Seq<char>) -> nat
    decreases s.len(),
{
    if s.len() == 0 || s[0] == ',' {
        0
    } else {
        1 + first_comma(s.drop_first())
    }
}

/// The pieces that the commas of `s` separate, in their order: one more
/// than `s` has commas.
pub open spec fn pieces(s: Seq<char>) -> Seq<Seq<char>>
    decreases s.len(),
{
    let i = first_comma(s) as int;
    if i >= s.len() {
        seq![s]
    } else {
        seq![s.take(i)] + pieces(s.skip(i + 1))
    }
}

/// Each of the texts, trimmed.
pub open spec fn trim_each(texts: Seq<Seq<char>>) -> Seq<Seq<char>> {
    texts.map_values(|t: Seq<char>| trimmed(t))
}

/// Those of the texts that are not empty, in their order.
pub open spec fn nonempty(texts: Seq<Seq<char>>) -> Seq<Seq<char>> {
    texts.filter(|t: Seq<char>| t.len() > 0)
}

/// The tables that a comma-separated line names: its pieces, trimmed,
/// without the empty ones.
pub open spec fn exclude_tables_of(input: Seq<char>) -> Seq<Seq<char>> {
    nonempty(trim_each(pieces(input)))
}

/// The exclusion set of a run and the name of the preset it came from: the
/// tables of the preset asked for, or no tables where none was asked for.
/// `None` where the store does not hold the preset.
pub open spec fn exclusions_of(
    store: Map<Seq<char>, Seq<Seq<char>>>,
    preset: Option<Seq<char>>,
) -> Option<(Seq<Seq<char>>, Option<Seq<char>>)> {
    match preset {
        Some(name) => if store.contains_key(name) {
            Some((store[name], Some(name)))
        } else {
            None
        },
        None => Some((Seq::empty(), None)),
    }
}

/// The error that names the preset asked for as missing.
pub open spec fn missing_preset(preset: Option<Seq<char>>) -> Option<ErrorView> {
    match preset {
        Some(name) => Some(ErrorView::PresetNotFound { name }),
        None => None,
    }
}

/// The first comma of `s` is at `k` where a `,` stands at `k` and none
/// before it; `s` has none (`k` is its length) where it holds no `,`.
pub proof fn lemma_first_comma(s: Seq<char>, k: int)
    requires
        0 <= k <= s.len(),
        forall|j: int| 0 <= j < k ==> #[trigger] s[j] != ',',
        k == s.len() || s[k] == ',',
    ensures
        first_comma(s) == k,
    decreases k,
{
    if k > 0 {
        let rest = s.drop_first();
        assert forall|j: int| 0 <= j < k - 1 implies #[trigger] rest[j] != ',' by {
            assert(rest[j] == s[j + 1]);
        }
        lemma_first_comma(rest, k - 1);
    }
}

/// One more piece adds its trimmed text to the tables, unless that is
/// empty.
pub proof fn lemma_tables_push(done: Seq<Seq<char>>, piece: Seq<char>)
    ensures
        nonempty(trim_each(done.push(piece))) == if trimmed(piece).len() > 0 {
            nonempty(trim_each(done)).push(trimmed(piece))
        } else {
            nonempty(trim_each(done))
        },
{
    reveal(Seq::filter);
    assert(trim_each(done.push(piece)) =~= trim_each(done).push(trimmed(piece)));
    assert(trim_each(done).push(trimmed(piece)).drop_last() =~= trim_each(done));
}

/// The tables that a comma-separated line names: each piece between commas,
/// trimmed, unless nothing is left of it.
pub fn parse_exclude_tables(input: &str) -> (tables: Vec<String>)
    ensures
        tables.deep_view() == exclude_tables_of(input@),
{
    let n: usize = input.unicode_len();
    let mut tables: Vec<String> = Vec::new();
    let ghost mut done: Seq<Seq<char>> = Seq::empty();
    let mut start: usize = 0;
    let mut i: usize = 0;
    proof {
        reveal(Seq::filter);
        assert(input@.skip(0) =~= input@);
        assert(tables.deep_view() =~= nonempty(trim_each(done)));
    }
    while i < n
        invariant
            n == input@.len(),
            start <= i <= n,
            forall|j: int| start <= j < i ==> #[trigger] input@[j] != ',',
            pieces(input@) == done + pieces(input@.skip(start as int)),
            tables.deep_view() == nonempty(trim_each(done)),
        decreases n - i,
    {
        if input.get_char(i) == ',' {
            let piece = trim(input.substring_char(start, i));
            proof {
                let rest = input@.skip(start as int);
                assert forall|j: int| 0 <= j < i - start implies #[trigger] rest[j] != ',' by {
                    assert(rest[j] == input@[j + start]);
                }
                lemma_first_comma(rest, i - start);
                assert(rest.take(i - start) =~= input@.subrange(start as int, i as int));
                assert(rest.skip(i - start + 1) =~= input@.skip(i + 1));
                lemma_tables_push(done, rest.take(i - start));
                assert(done + (seq![rest.take(i - start)] + pieces(input@.skip(i + 1)))
                    =~= done.push(rest.take(i - start)) + pieces(input@.skip(i + 1)));
                done = done.push(rest.take(i - start));
            }
            if piece.unicode_len() > 0 {
                let ghost before = tables.deep_view();
                tables.push(String::from_str(piece));
                assert(tables.deep_view() =~= before.push(piece@));
            }
            start = i + 1;
        }
        i = i + 1;
    }
    let piece = trim(input.substring_char(start, n));
    proof {
        let rest = input@.skip(start as int);
        assert forall|j: int| 0 <= j < n - start implies #[trigger] rest[j] != ',' by {
            assert(rest[j] == input@[j + start]);
        }
        lemma_first_comma(rest, n - start);
        assert(rest =~= input@.subrange(start as int, n as int));
        lemma_tables_push(done, rest);
        assert(done + seq![rest] =~= done.push(rest));
    }
    if piece.unicode_len() > 0 {
        let ghost before = tables.deep_view();
        tables.push(String::from_str(piece));
        assert(tables.deep_view() =~= before.push(piece@));
    }
    tables
}

/// Saves the preset under that name, in place of an earlier one of the
/// same name.
pub fn save_preset(cfg: &mut RestoreConfig, name: String, preset: Preset)
    ensures
        final(cfg)@ == old(cfg)@.insert(name@, preset@),
{
    cfg.insert(name, preset);
}

/// The preset saved under that name; a name that the store does not hold
/// is an error.
pub fn load_preset(cfg: &RestoreConfig, name: &str) -> (r: Result<Preset, RestoreError>)
    ensures
        match r {
            Ok(preset) => cfg@.contains_key(name@) && preset@ == cfg@[name@],
            Err(e) => !cfg@.contains_key(name@) && e@ == (ErrorView::PresetNotFound {
                name: name@,
            }),
        },
{
    match cfg.get(name) {
        Some(preset) => Ok(preset.duplicate()),
        None => Err(RestoreError::PresetNotFound { name: String::from_str(name) }),
    }
}

/// Saves a new preset whose tables are those that `input` names, separated
/// by commas.
pub fn add_preset(cfg: &mut RestoreConfig, name: String, input: &str)
    ensures
        final(cfg)@ == old(cfg)@.insert(name@, exclude_tables_of(input@)),
{
    let exclude_tables = parse_exclude_tables(input);
    save_preset(cfg, name, Preset { exclude_tables });
}

/// Removes the preset of that name; a name that the store does not hold is
/// an error, and leaves the store as it was.
pub fn remove_preset(cfg: &mut RestoreConfig, name: String) -> (r: Result<(), RestoreError>)
    ensures
        match r {
            Ok(_) => old(cfg)@.contains_key(name@) && final(cfg)@ == old(cfg)@.remove(name@),
            Err(e) => !old(cfg)@.contains_key(name@) && final(cfg)@ == old(cfg)@ && e@ == (
            ErrorView::PresetDoesNotExist { name: name@ }),
        },
{
    match cfg.remove(name.as_str()) {
        Some(_) => Ok(()),
        None => {
            assert(cfg@ =~= old(cfg)@);
            Err(RestoreError::PresetDoesNotExist { name })
        },
    }
}

/// What the operator asks of the preset store.
#[derive(Debug, Clone, PartialEq, Eq)]
pub enum PresetCommand {
    /// Save a new preset under this name.
    Add { name: String },
    /// Change the preset of this name.
    Edit { name: String },
    /// Show the names of the presets.
    List,
    /// Remove the preset of this name.
    Remove { name: String },
}

/// The line that confirms a removal.
pub open spec fn removed_line(name: Seq<char>) -> Seq<char> {
    "Preset '"@ + name + "' removed"@
}

/// Carries out a command on the preset store and says what to show: for
/// `List` the names of the presets, in the order of the store; for `Add`
/// nothing, the new preset holding the tables that `input` names; for
/// `Remove` the confirmation, or the error where there is no such preset.
/// No `Edit` is offered.
pub fn handle(cfg: &mut RestoreConfig, action: PresetCommand, input: &str) -> (r: Result<
    Vec<String>,
    RestoreError,
>)
    requires
        !(action is Edit),
    ensures
        match action {
            PresetCommand::List => final(cfg)@ == old(cfg)@ && (r matches Ok(lines)
                && lines.deep_view() == old(cfg).listed()),
            PresetCommand::Add { name } => final(cfg)@ == old(cfg)@.insert(
                name@,
                exclude_tables_of(input@),
            ) && (r matches Ok(lines) && lines.deep_view() == Seq::<Seq<char>>::empty()),
            PresetCommand::Remove { name } => if old(cfg)@.contains_key(name@) {
                final(cfg)@ == old(cfg)@.remove(name@) && (r matches Ok(lines) && lines.deep_view()
                    == seq![removed_line(name@)])
            } else {
                final(cfg)@ == old(cfg)@ && (r matches Err(e) && e@ == (
                    ErrorView::PresetDoesNotExist { name: name@ }))
            },
            PresetCommand::Edit { .. } => true,
        },
{
    let mut lines: Vec<String> = Vec::new();
    match action {
        PresetCommand::List => {
            lines = cfg.names();
        },
        PresetCommand::Add { name } => {
            add_preset(cfg, name, input);
            assert(lines.deep_view() =~= Seq::<Seq<char>>::empty());
        },
        PresetCommand::Remove { name } => {
            let line = concat3("Preset '", name.as_str(), "' removed");
            match remove_preset(cfg, name) {
                Ok(_) => {
                    lines.push(line);
                    assert(lines.deep_view() =~= seq![line@]);
                },
                Err(e) => {
                    return Err(e);
                },
            }
        },
        PresetCommand::Edit { .. } => {},
    }
    Ok(lines)
}

/// Resolves the exclusion set of a run: the tables of the preset asked for,
/// with its name, or no tables and no name where none was asked for. A
/// preset that the store does not hold is an error.
pub fn resolve_exclusions(cfg: &RestoreConfig, preset: Option<String>) -> (r: Result<
    (Vec<String>, Option<String>),
    RestoreError,
>)
    ensures
        match r {
            Ok(found) => exclusions_of(cfg@, preset.deep_view()) == Some(
                (found.0.deep_view(), found.1.deep_view()),
            ),
            Err(e) => exclusions_of(cfg@, preset.deep_view()) is None && Some(e@) == missing_preset(
                preset.deep_view(),
            ),
        },
{
    match preset {
        Some(name) => {
            match load_preset(cfg, name.as_str()) {
                Ok(found) => Ok((found.exclude_tables, Some(name))),
                Err(e) => Err(e),
            }
        },
        None => {
            let tables: Vec<String> = Vec::new();
            assert(tables.deep_view() =~= Seq::<Seq<char>>::empty());
            Ok((tables, None))
        },
    }
}

} // verus!
