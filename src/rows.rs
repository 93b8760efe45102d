use vstd::prelude::*;

use crate::record::{status_name, Feature, TrackerRecord};

verus! {

/// How a row of the features list hangs in the tree.
#[derive(Clone, Copy, Debug, PartialEq, Eq, Structural)]
pub enum RowMarker {
    /// A feature.
    Parent,
    /// A requirement that is not its feature's last.
    Child,
    /// The last requirement of its feature.
    LastChild,
}

/// One row of the features list: its label, and the tree node it shows.
#[derive(Clone, Debug)]
pub struct FeatureRow {
    pub label: String,
    /// Index of the feature in the tree.
    pub feature: usize,
    /// Index of the requirement within the feature; `None` for the feature itself.
    pub requirement: Option<usize>,
    pub marker: RowMarker,
}

/// Where a row points in the tree.
pub type RowPos = (int, Option<int>, RowMarker);

impl FeatureRow {
    pub open spec fn pos(&self) -> RowPos {
        (
            self.feature as int,
            match self.requirement {
                Some(j) => Some(j as int),
                None => None,
            },
            self.marker,
        )
    }
}

/// The rows of feature `f`: the feature first, then each requirement in
/// order, the last one marked apart.
pub open spec fn rows_of(f: int, feature: Feature) -> Seq<RowPos> {
    let n = feature.requirements@.len();
    seq![(f, None, RowMarker::Parent)] + Seq::new(
        n,
        |j: int|
            (
                f,
                Some(j),
                if j + 1 == n {
                    RowMarker::LastChild
                } else {
                    RowMarker::Child
                },
            ),
    )
}

/// The rows of the whole tree, feature after feature.
pub open spec fn feature_rows(tree: Seq<Feature>) -> Seq<RowPos>
    decreases tree.len(),
{
    if tree.len() == 0 {
        Seq::empty()
    } else {
        feature_rows(tree.drop_last()) + rows_of(tree.len() - 1, tree.last())
    }
}

/// The record that a row shows.
pub open spec fn row_record(tree: Seq<Feature>, row: RowPos) -> TrackerRecord {
    match row.1 {
        Some(j) => tree[row.0].requirements@[j],
        None => tree[row.0].record,
    }
}

/// The text that a row starts with.
pub open spec fn marker_prefix(m: RowMarker) -> Seq<char> {
    match m {
        RowMarker::Parent => Seq::empty(),
        RowMarker::Child => "├ "@,
        RowMarker::LastChild => "└ "@,
    }
}

/// The status name, or nothing where the record has no status.
pub open spec fn status_text(r: TrackerRecord) -> Seq<char> {
    match status_name(r) {
        Some(s) => s,
        None => Seq::empty(),
    }
}

/// `name - status`.
pub open spec fn record_label(r: TrackerRecord) -> Seq<char> {
    r.name@ + " - "@ + status_text(r)
}

/// The label of a row: its marker, then the record's name and status.
pub open spec fn row_label(tree: Seq<Feature>, row: RowPos) -> Seq<char> {
    marker_prefix(row.2) + record_label(row_record(tree, row))
}

/// The rows are those of the tree, in order, each with its label.
pub open spec fn rows_match(tree: Seq<Feature>, rows: Seq<FeatureRow>) -> bool {
    &&& rows.len() == feature_rows(tree).len()
    &&& forall|k: int|
        0 <= k < rows.len() ==> {
            &&& #[trigger] rows[k].pos() == feature_rows(tree)[k]
            &&& rows[k].label@ == row_label(tree, feature_rows(tree)[k])
        }
}

/// A row points at a node of the tree.
pub open spec fn row_in_tree(tree: Seq<Feature>, row: RowPos) -> bool {
    &&& 0 <= row.0 < tree.len()
    &&& match row.1 {
        Some(j) => 0 <= j < tree[row.0].requirements@.len(),
        None => true,
    }
}

/// Every row of a tree points at a node of it.
pub proof fn lemma_rows_in_tree(tree: Seq<Feature>)
    ensures
        forall|k: int|
            0 <= k < feature_rows(tree).len() ==> row_in_tree(tree, #[trigger] feature_rows(tree)[k]),
    decreases tree.len(),
{
    if tree.len() > 0 {
        let prior = tree.drop_last();
        lemma_rows_in_tree(prior);
        let a = feature_rows(prior);
        let b = rows_of(tree.len() - 1, tree.last());
        assert forall|k: int| 0 <= k < feature_rows(tree).len() implies row_in_tree(
            tree,
            #[trigger] feature_rows(tree)[k],
        ) by {
            if k < a.len() {
                assert(feature_rows(tree)[k] == a[k]);
                assert(row_in_tree(prior, a[k]));
            } else {
                assert(feature_rows(tree)[k] == b[k - a.len()]);
            }
        }
    }
}

/// The label of a record, after a prefix.
fn make_label(prefix: &str, r: &TrackerRecord) -> (s: String)
    ensures
        s@ == prefix@ + record_label(*r),
{
    let s = String::from_str(prefix).concat(r.name.as_str()).concat(" - ");
    let s = match &r.workflow_status {
        Some(w) => s.concat(w.name.as_str()),
        None => s,
    };
    assert(s@ =~= prefix@ + record_label(*r));
    s
}

/// Lays the feature tree out as rows: each feature, then its requirements.
pub fn flatten_features(tree: &Vec<Feature>) -> (rows: Vec<FeatureRow>)
    ensures
        rows_match(tree@, rows@),
{
    let mut rows: Vec<FeatureRow> = Vec::new();
    let mut i: usize = 0;
    while i < tree.len()
        invariant
            i <= tree@.len(),
            rows@.len() == feature_rows(tree@.subrange(0, i as int)).len(),
            forall|k: int|
                0 <= k < rows@.len() ==> {
                    &&& #[trigger] rows@[k].pos() == feature_rows(tree@.subrange(0, i as int))[k]
                    &&& rows@[k].label@ == row_label(tree@, rows@[k].pos())
                },
        decreases tree.len() - i,
    {
        let ghost before = tree@.subrange(0, i as int);
        let ghost after = tree@.subrange(0, i + 1);
        assert(after.drop_last() =~= before);
        let ghost block = rows_of(i as int, tree@[i as int]);
        assert(feature_rows(after) == feature_rows(before) + block);
        let ghost base = rows@.len();
        let feature = &tree[i];
        rows.push(
            FeatureRow {
                label: make_label("", &feature.record),
                feature: i,
                requirement: None,
                marker: RowMarker::Parent,
            },
        );
        proof {
            reveal_strlit("");
            assert(""@ =~= Seq::<char>::empty());
        }
        let n = feature.requirements.len();
        let mut j: usize = 0;
        while j < n
            invariant
                i < tree@.len(),
                feature == tree@[i as int],
                n == feature.requirements@.len(),
                j <= n,
                block == rows_of(i as int, tree@[i as int]),
                rows@.len() == base + 1 + j,
                base == feature_rows(before).len(),
                forall|k: int|
                    0 <= k < base ==> {
                        &&& #[trigger] rows@[k].pos() == feature_rows(before)[k]
                        &&& rows@[k].label@ == row_label(tree@, rows@[k].pos())
                    },
                forall|k: int|
                    base <= k < rows@.len() ==> {
                        &&& #[trigger] rows@[k].pos() == block[k - base]
                        &&& rows@[k].label@ == row_label(tree@, rows@[k].pos())
                    },
            decreases n - j,
        {
            let marker = if j + 1 == n {
                RowMarker::LastChild
            } else {
                RowMarker::Child
            };
            let prefix = if j + 1 == n {
                "└ "
            } else {
                "├ "
            };
            rows.push(
                FeatureRow {
                    label: make_label(prefix, &feature.requirements[j]),
                    feature: i,
                    requirement: Some(j),
                    marker,
                },
            );
            j = j + 1;
        }
        assert forall|k: int| 0 <= k < rows@.len() implies {
            &&& #[trigger] rows@[k].pos() == feature_rows(after)[k]
            &&& rows@[k].label@ == row_label(tree@, rows@[k].pos())
        } by {
            if k < base {
                assert(feature_rows(after)[k] == feature_rows(before)[k]);
            } else {
                assert(feature_rows(after)[k] == block[k - base]);
            }
        }
        i = i + 1;
    }
    assert(tree@.subrange(0, tree@.len() as int) =~= tree@);
    rows
}

} // verus!
