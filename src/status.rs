use vstd::prelude::*;

use crate::text::same_text;

verus! {

/// The built-in mapping from a pull request label to a workflow status.
pub open spec fn default_status(label: Seq<char>) -> Option<Seq<char>> {
    if label == "In development"@ {
        Some("In development"@)
    } else if label == "Needs code review"@ {
        Some("In code review"@)
    } else if label == "Needs PM review"@ {
        Some("In PM review"@)
    } else if label == "Ready"@ {
        Some("Ready to ship"@)
    } else {
        None
    }
}

/// The status that the first entry of `table` keyed by `label` gives, if any.
pub open spec fn override_status(table: Seq<(String, String)>, label: Seq<char>) -> Option<
    Seq<char>,
>
    decreases table.len(),
{
    if table.len() == 0 {
        None
    } else if table[0].0@ == label {
        Some(table[0].1@)
    } else {
        override_status(table.drop_first(), label)
    }
}

/// The status that one label stands for: the override table's, else the
/// built-in table's, else none.
pub open spec fn effective_status(table: Option<Seq<(String, String)>>, label: Seq<char>) -> Option<
    Seq<char>,
> {
    match table {
        Some(t) => match override_status(t, label) {
            Some(s) => Some(s),
            None => default_status(label),
        },
        None => default_status(label),
    }
}

/// The statuses that the labels stand for, in label order, with the labels
/// that stand for none left out.
pub open spec fn effective_statuses(
    table: Option<Seq<(String, String)>>,
    labels: Seq<Seq<char>>,
) -> Seq<Seq<char>>
    decreases labels.len(),
{
    if labels.len() == 0 {
        Seq::empty()
    } else {
        let prior = effective_statuses(table, labels.drop_last());
        match effective_status(table, labels.last()) {
            Some(s) => prior.push(s),
            None => prior,
        }
    }
}

/// The resolved status: the second of the effective statuses, none when
/// fewer than two labels stand for a status.
pub open spec fn resolved_status(table: Option<Seq<(String, String)>>, labels: Seq<Seq<char>>) -> Option<
    Seq<char>,
> {
    let found = effective_statuses(table, labels);
    if found.len() >= 2 {
        Some(found[1])
    } else {
        None
    }
}

/// The view of an optional override table.
pub open spec fn table_view(table: Option<&Vec<(String, String)>>) -> Option<Seq<(String, String)>> {
    match table {
        Some(t) => Some(t@),
        None => None,
    }
}

/// The view of an optional text.
pub open spec fn opt_text(s: Option<String>) -> Option<Seq<char>> {
    match s {
        Some(x) => Some(x@),
        None => None,
    }
}

/// Looks `label` up in the built-in table.
pub fn default_status_of(label: &str) -> (r: Option<String>)
    ensures
        opt_text(r) == default_status(label@),
{
    if same_text(label, "In development") {
        Some(String::from_str("In development"))
    } else if same_text(label, "Needs code review") {
        Some(String::from_str("In code review"))
    } else if same_text(label, "Needs PM review") {
        Some(String::from_str("In PM review"))
    } else if same_text(label, "Ready") {
        Some(String::from_str("Ready to ship"))
    } else {
        None
    }
}

/// Looks `label` up in an override table; the first entry with that key wins.
pub fn override_status_of(table: &Vec<(String, String)>, label: &str) -> (r: Option<String>)
    ensures
        opt_text(r) == override_status(table@, label@),
{
    let mut i: usize = 0;
    assert(table@.subrange(0, table@.len() as int) =~= table@);
    while i < table.len()
        invariant
            i <= table@.len(),
            override_status(table@, label@) == override_status(table@.subrange(i as int, table@.len() as int), label@),
        decreases table.len() - i,
    {
        let ghost rest = table@.subrange(i as int, table@.len() as int);
        assert(rest.drop_first() =~= table@.subrange(i + 1, table@.len() as int));
        if same_text(table[i].0.as_str(), label) {
            return Some(table[i].1.clone());
        }
        i = i + 1;
    }
    None
}

/// The status that one label stands for.
pub fn effective_status_of(table: Option<&Vec<(String, String)>>, label: &str) -> (r: Option<
    String,
>)
    ensures
        opt_text(r) == effective_status(table_view(table), label@),
{
    match table {
        Some(t) => match override_status_of(t, label) {
            Some(s) => Some(s),
            None => default_status_of(label),
        },
        None => default_status_of(label),
    }
}

/// Maps a pull request's labels to the workflow status it should move its
/// record to. The second label that stands for a status decides; with fewer
/// than two such labels there is none.
pub fn resolve_status(labels: &Vec<String>, table: Option<&Vec<(String, String)>>) -> (r: Option<
    String,
>)
    ensures
        opt_text(r) == resolved_status(table_view(table), labels.deep_view()),
{
    let ghost t = table_view(table);
    let mut count: usize = 0;
    let mut second: Option<String> = None;
    let mut i: usize = 0;
    while i < labels.len()
        invariant
            i <= labels@.len(),
            t == table_view(table),
            count as int == effective_statuses(t, labels.deep_view().subrange(0, i as int)).len(),
            count <= i,
            opt_text(second) == resolved_status(t, labels.deep_view().subrange(0, i as int)),
        decreases labels.len() - i,
    {
        let ghost before = labels.deep_view().subrange(0, i as int);
        let ghost after = labels.deep_view().subrange(0, i + 1);
        assert(after.drop_last() =~= before);
        assert(after.last() == labels[i as int]@);
        let found = effective_status_of(table, labels[i].as_str());
        match found {
            Some(s) => {
                if count == 1 {
                    second = Some(s);
                }
                count = count + 1;
            },
            None => {},
        }
        i = i + 1;
    }
    assert(labels.deep_view().subrange(0, labels@.len() as int) =~= labels.deep_view());
    second
}

} // verus!
