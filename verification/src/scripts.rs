//! Projection of the manifest's `scripts` object into candidate rows, and the
//! split of a chosen row back into a script name.

use vstd::prelude::*;
use crate::text::{
    char_is_space, is_space_char, lemma_trim_drops_trailing_space, lemma_trim_end_at,
    lemma_trim_start_at, trim_text,
};

verus! {

/// One entry of the manifest's `scripts` object: a script name and, when the
/// entry's value is a JSON string, its command.
#[derive(Debug)]
pub struct ScriptEntry {
    pub name: String,
    pub command: Option<String>,
}

/// The manifest text could not be parsed as JSON; carries the parser's message.
#[derive(Debug)]
pub struct ManifestError {
    pub message: String,
}

/// A command, or the empty text where the entry's value was not a string.
pub open spec fn command_text(command: Option<Seq<char>>) -> Seq<char> {
    match command {
        Some(c) => c,
        None => Seq::empty(),
    }
}

/// The candidate row shown for one script entry: `"{name} = {command}"`.
pub open spec fn row_text(name: Seq<char>, command: Option<Seq<char>>) -> Seq<char> {
    name + " = "@ + command_text(command)
}

/// The plain pair an entry denotes.
pub open spec fn entry_pair(e: ScriptEntry) -> (Seq<char>, Option<Seq<char>>) {
    (
        e.name@,
        match e.command {
            Some(c) => Some(c@),
            None => None,
        },
    )
}

/// The plain pairs a sequence of entries denotes.
pub open spec fn entry_pairs(es: Seq<ScriptEntry>) -> Seq<(Seq<char>, Option<Seq<char>>)> {
    es.map_values(|e: ScriptEntry| entry_pair(e))
}

/// The candidate rows for a sequence of entry pairs, in the same order.
pub open spec fn row_texts(pairs: Seq<(Seq<char>, Option<Seq<char>>)>) -> Seq<Seq<char>> {
    pairs.map_values(|p: (Seq<char>, Option<Seq<char>>)| row_text(p.0, p.1))
}

/// The character sequences a vector of strings denotes.
pub open spec fn string_views(v: Seq<String>) -> Seq<Seq<char>> {
    v.map_values(|s: String| s@)
}

/// Builds the candidate row for one script entry.
pub fn make_row(entry: &ScriptEntry) -> (r: String)
    ensures
        r@ == row_text(entry_pair(*entry).0, entry_pair(*entry).1),
{
    let mut r = entry.name.clone();
    r.append(" = ");
    match &entry.command {
        Some(c) => {
            r.append(c.as_str());
        },
        None => {
            proof {
                assert(r@ =~= row_text(entry_pair(*entry).0, entry_pair(*entry).1));
            }
        },
    }
    r
}

/// Builds the full candidate list: one row per entry, in entry order.
pub fn build_candidate_rows(entries: &Vec<ScriptEntry>) -> (rows: Vec<String>)
    ensures
        rows@.len() == entries@.len(),
        forall|i: int|
            0 <= i < entries@.len() ==> rows@[i]@ == row_text(
                entry_pair(entries@[i]).0,
                entry_pair(entries@[i]).1,
            ),
        string_views(rows@) == row_texts(entry_pairs(entries@)),
{
    let mut rows: Vec<String> = Vec::new();
    let n: usize = entries.len();
    let mut i: usize = 0;
    while i < n
        invariant
            n == entries@.len(),
            i <= n,
            rows@.len() == i,
            forall|j: int|
                0 <= j < i ==> rows@[j]@ == row_text(
                    entry_pair(entries@[j]).0,
                    entry_pair(entries@[j]).1,
                ),
        decreases n - i,
    {
        rows.push(make_row(&entries[i]));
        i = i + 1;
    }
    proof {
        assert(string_views(rows@) =~= row_texts(entry_pairs(entries@)));
    }
    rows
}

/// What the `scripts` object of a manifest text holds: `None` where
/// serde_json does not accept the text as one JSON document (malformed text,
/// or nesting past the parser's limit); otherwise the object's entries in
/// document order, each a name paired with its command where the value is a
/// JSON string and with `None` where it is any other JSON value. A manifest
/// without a `scripts` key, or whose `scripts` value is not an object, holds
/// the empty sequence.
pub uninterp spec fn manifest_scripts(text: Seq<char>) -> Option<
    Seq<(Seq<char>, Option<Seq<char>>)>,
>;

/// Relies on serde_json: `from_str` to parse the manifest text (it fails
/// exactly on text it does not accept as a JSON document, and with the
/// `preserve_order` feature its objects iterate in document order), `Value::get` and
/// `Value::as_object` to reach the `scripts` object, `Map::iter` to walk its
/// entries, and `Value::as_str` to keep a value only where it is a JSON
/// string. `manifest_scripts` names what that projection yields.
#[verifier::external_body]
fn read_script_entries(text: &str) -> (r: Result<Vec<ScriptEntry>, String>)
    ensures
        r is Ok <==> manifest_scripts(text@) is Some,
        r is Ok ==> entry_pairs(r->Ok_0@) == manifest_scripts(text@)->Some_0,
{
    match serde_json::from_str::<serde_json::Value>(text) {
        Err(e) => Err(format!("{}", e)),
        Ok(v) => match v.get("scripts").and_then(|s| s.as_object()) {
            None => Ok(Vec::new()),
            Some(m) => Ok(m.iter().map(|(k, w)| ScriptEntry {
                name: k.clone(),
                command: w.as_str().map(|c| c.to_owned()),
            }).collect()),
        },
    }
}

/// Extracts the candidate rows from the manifest text: one row
/// `"{name} = {command}"` per entry of the `scripts` object, in document
/// order, with an empty command where the value is not a JSON string. A
/// manifest without a usable `scripts` object yields an empty list; text
/// that is not valid JSON is the one error.
pub fn get_scripts_from_package_json(manifest_text: &str) -> (r: Result<
    Vec<String>,
    ManifestError,
>)
    ensures
        r is Ok <==> manifest_scripts(manifest_text@) is Some,
        r is Ok ==> string_views(r->Ok_0@) == row_texts(
            manifest_scripts(manifest_text@)->Some_0,
        ),
{
    match read_script_entries(manifest_text) {
        Err(message) => Err(ManifestError { message }),
        Ok(entries) => Ok(build_candidate_rows(&entries)),
    }
}

/// Decides the pipeline's expected empty states, which stop it early but are
/// not errors: a missing manifest yields the "no package.json" diagnostic,
/// and a manifest whose candidate list came out empty yields the "no
/// scripts" diagnostic. With a manifest and at least one candidate there is
/// no diagnostic and the pipeline goes on to the picker.
pub fn empty_state_diagnostic(manifest_present: bool, candidate_count: usize) -> (r: Option<
    String,
>)
    ensures
        r is Some <==> (!manifest_present || candidate_count == 0),
        !manifest_present ==> r->Some_0@
            == "Error: There is no package.json in the current directory"@,
        manifest_present && candidate_count == 0 ==> r->Some_0@
            == "Error: There are no scripts in package.json"@,
{
    if !manifest_present {
        Some("Error: There is no package.json in the current directory".to_owned())
    } else if candidate_count == 0 {
        Some("Error: There are no scripts in package.json".to_owned())
    } else {
        None
    }
}

/// The index of the first `'='` in the text, or the text's length where none
/// occurs.
pub open spec fn first_eq_index(s: Seq<char>) -> int
    decreases s.len(),
{
    if s.len() == 0 {
        0
    } else if s[0] == '=' {
        0
    } else {
        1 + first_eq_index(s.drop_first())
    }
}

/// The name half of a candidate row: the text before the first `'='`, with
/// whitespace trimmed from both ends.
pub open spec fn script_name_text(s: Seq<char>) -> Seq<char> {
    trim_text(s.subrange(0, first_eq_index(s)))
}

/// `first_eq_index` points at the first `'='`.
pub proof fn lemma_first_eq_index_at(s: Seq<char>, i: int)
    requires
        0 <= i <= s.len(),
        forall|j: int| 0 <= j < i ==> s[j] != '=',
        i == s.len() || s[i] == '=',
    ensures
        first_eq_index(s) == i,
    decreases i,
{
    if i > 0 {
        let t = s.drop_first();
        assert(forall|j: int| 0 <= j < i - 1 ==> t[j] != '=');
        lemma_first_eq_index_at(t, i - 1);
    }
}

/// Splits a chosen row back into its script name: the text before the first
/// `'='`, trimmed of surrounding whitespace. A row without `'='` yields the
/// whole row, trimmed.
pub fn extract_script_name(row: &str) -> (r: String)
    ensures
        r@ == script_name_text(row@),
{
    let n: usize = row.unicode_len();
    let mut e: usize = 0;
    while e < n && row.get_char(e) != '='
        invariant
            n == row@.len(),
            e <= n,
            forall|j: int| 0 <= j < e ==> row@[j] != '=',
        decreases n - e,
    {
        e = e + 1;
    }
    let mut start: usize = 0;
    while start < e && char_is_space(row.get_char(start))
        invariant
            n == row@.len(),
            e <= n,
            start <= e,
            forall|j: int| 0 <= j < start ==> is_space_char(row@[j]),
        decreases e - start,
    {
        start = start + 1;
    }
    let mut end: usize = e;
    while end > start && char_is_space(row.get_char(end - 1))
        invariant
            n == row@.len(),
            e <= n,
            start <= end <= e,
            forall|j: int| end <= j < e ==> is_space_char(row@[j]),
        decreases end,
    {
        end = end - 1;
    }
    let sub = row.substring_char(start, end);
    let r = sub.to_owned();
    proof {
        lemma_first_eq_index_at(row@, e as int);
        let p = row@.subrange(0, e as int);
        lemma_trim_start_at(p, start as int);
        let q = p.subrange(start as int, p.len() as int);
        lemma_trim_end_at(q, end - start);
        assert(q.subrange(0, end - start) =~= row@.subrange(start as int, end as int));
    }
    r
}

/// In a row built from a name that contains no `'='`, the first `'='` is the
/// separator, and the text before it is the name followed by one space.
proof fn lemma_row_head(name: Seq<char>, command: Option<Seq<char>>)
    requires
        !name.contains('='),
    ensures
        first_eq_index(row_text(name, command)) == name.len() as int + 1,
        row_text(name, command).subrange(0, name.len() as int) == name,
        row_text(name, command).subrange(0, name.len() as int + 1) == name.push(' '),
{
    reveal_strlit(" = ");
    let row = row_text(name, command);
    assert(" = "@[0] == ' ' && " = "@[1] == '=');
    assert(row[name.len() as int] == ' ');
    assert(row[name.len() as int + 1] == '=');
    assert forall|j: int| 0 <= j < name.len() as int + 1 implies row[j] != '=' by {
        if j < name.len() {
            assert(row[j] == name[j]);
            if name[j] == '=' {
                assert(name.contains('='));
            }
        } else {
            assert(row[j] == ' ');
        }
    }
    lemma_first_eq_index_at(row, name.len() as int + 1);
    assert(row.subrange(0, name.len() as int) =~= name);
    assert(row.subrange(0, name.len() as int + 1) =~= name.push(' '));
}

/// Splitting a row built from a name that contains no `'='` recovers the
/// trimmed name, whatever the command half holds.
pub proof fn lemma_row_round_trip(name: Seq<char>, command: Option<Seq<char>>)
    requires
        !name.contains('='),
    ensures
        script_name_text(row_text(name, command)) == trim_text(name),
{
    lemma_row_head(name, command);
    lemma_trim_drops_trailing_space(name, ' ');
}

/// A row built from a name with no `'='` and no whitespace at its ends
/// splits back to exactly that name.
pub proof fn lemma_row_name_exact(name: Seq<char>, command: Option<Seq<char>>)
    requires
        !name.contains('='),
        trim_text(name) == name,
    ensures
        script_name_text(row_text(name, command)) == name,
{
    lemma_row_round_trip(name, command);
}

/// Rows are pairwise distinct where the script names are pairwise distinct
/// and no name contains `'='`: each shown row then comes from exactly one
/// script entry.
pub proof fn lemma_rows_distinct(pairs: Seq<(Seq<char>, Option<Seq<char>>)>, i: int, j: int)
    requires
        0 <= i < pairs.len(),
        0 <= j < pairs.len(),
        forall|k: int| 0 <= k < pairs.len() ==> !(#[trigger] pairs[k].0).contains('='),
        pairs[i].0 != pairs[j].0,
    ensures
        row_texts(pairs)[i] != row_texts(pairs)[j],
{
    let ri = row_text(pairs[i].0, pairs[i].1);
    let rj = row_text(pairs[j].0, pairs[j].1);
    lemma_row_head(pairs[i].0, pairs[i].1);
    lemma_row_head(pairs[j].0, pairs[j].1);
    if ri == rj {
        assert(pairs[i].0.len() == pairs[j].0.len());
        assert(pairs[i].0 == pairs[j].0);
    }
}

/// An entry whose value is the JSON string `command` yields exactly the row
/// `"{name} = {command}"`.
pub proof fn lemma_string_value_row(name: Seq<char>, command: Seq<char>)
    ensures
        row_text(name, Some(command)) == name + " = "@ + command,
{
}

/// An entry whose value is not a JSON string still yields a row, with an
/// empty command half: `"{name} = "`.
pub proof fn lemma_non_string_value_row(name: Seq<char>)
    ensures
        row_text(name, None) == name + " = "@,
{
    assert(row_text(name, None) =~= name + " = "@);
}

/// An empty list of script entries yields an empty candidate list.
pub proof fn lemma_no_scripts_no_rows(pairs: Seq<(Seq<char>, Option<Seq<char>>)>)
    requires
        pairs.len() == 0,
    ensures
        row_texts(pairs).len() == 0,
{
}

} // verus!
