//! Splitting text into grapheme clusters.
//!
//! A cell of the grid shows one grapheme cluster, so every operation that
//! lays text out in cells first splits it here. The segmentation algorithm is
//! the one of the `unicode-segmentation` crate; this module gives its result a
//! name and states the little that the rest of the library relies on.

use unicode_segmentation::UnicodeSegmentation;
use vstd::prelude::*;

verus! {

/// The extended grapheme clusters of `text`, in order, as
/// `UnicodeSegmentation::graphemes(text, true)` yields them.
pub uninterp spec fn grapheme_clusters(text: Seq<char>) -> Seq<Seq<char>>;

/// The text of each string of `strings`, in order.
pub open spec fn texts(strings: Seq<String>) -> Seq<Seq<char>> {
    Seq::new(strings.len(), |i: int| strings[i]@)
}

/// Calls `UnicodeSegmentation::graphemes` with `is_extended` set and collects
/// the clusters as owned strings.
///
/// Trusted: the clusters are the named segmentation of `text`; they are
/// consecutive slices that together cover `text`, so joined in order they
/// give `text` back, and none of them is empty.
#[verifier::external_body]
pub(crate) fn split_graphemes(text: &str) -> (clusters: Vec<String>)
    ensures
        texts(clusters@) == grapheme_clusters(text@),
        texts(clusters@).flatten() == text@,
        forall|i: int| 0 <= i < clusters@.len() ==> (#[trigger] clusters@[i])@.len() > 0,
{
    text.graphemes(true).map(String::from).collect()
}

/// The number of grapheme clusters in `text`.
pub fn grapheme_count(text: &str) -> (count: usize)
    ensures
        count == grapheme_clusters(text@).len(),
{
    let clusters = split_graphemes(text);
    assert(texts(clusters@).len() == clusters@.len());
    clusters.len()
}

/// The clusters that are left of `clusters` after the first `skip` were
/// passed over and at most `take` were then taken, joined in order.
pub open spec fn joined(clusters: Seq<Seq<char>>, skip: int, take: int) -> Seq<char> {
    span(clusters, skip, take).flatten()
}

/// The clusters that are left of `clusters` after the first `skip` were
/// passed over and at most `take` were then taken.
pub open spec fn span(clusters: Seq<Seq<char>>, skip: int, take: int) -> Seq<Seq<char>> {
    let start = if skip < clusters.len() { skip } else { clusters.len() as int };
    let end = if start + take < clusters.len() { start + take } else { clusters.len() as int };
    clusters.subrange(start, end)
}

/// How a cluster is shown in a row of cells: a tab as one space, any other as itself.
pub open spec fn shown_cluster(cluster: Seq<char>) -> Seq<char> {
    if cluster == seq!['\t'] {
        seq![' ']
    } else {
        cluster
    }
}

/// The clusters of `span(clusters, skip, take)` as they are shown, joined in order.
pub open spec fn shown(clusters: Seq<Seq<char>>, skip: int, take: int) -> Seq<char> {
    span(clusters, skip, take).map_values(|cluster: Seq<char>| shown_cluster(cluster)).flatten()
}

/// Whether `clusters` cut `text` into pieces: none of them is empty, and
/// joined in order they give `text`.
pub open spec fn partitions(clusters: Seq<Seq<char>>, text: Seq<char>) -> bool {
    &&& clusters.flatten() == text
    &&& forall|i: int| 0 <= i < clusters.len() ==> (#[trigger] clusters[i]).len() > 0
}

/// A text has at most as many pieces as characters, and no piece only
/// where it is empty.
pub proof fn lemma_partition_bounds(clusters: Seq<Seq<char>>, text: Seq<char>)
    requires
        partitions(clusters, text),
    ensures
        clusters.len() <= text.len(),
        clusters.len() == 0 <==> text.len() == 0,
    decreases clusters.len(),
{
    if clusters.len() > 0 {
        let rest = clusters.drop_first();
        assert forall|i: int| 0 <= i < rest.len() implies (#[trigger] rest[i]).len() > 0 by {
            assert(rest[i] == clusters[i + 1]);
        }
        lemma_partition_bounds(rest, rest.flatten());
        assert(clusters[0].len() > 0);
    }
}

/// Joining one more cluster onto the end of a joined run appends its text.
pub proof fn lemma_flatten_push(parts: Seq<Seq<char>>, part: Seq<char>)
    ensures
        parts.push(part).flatten() == parts.flatten() + part,
{
    let one = seq![part];
    one.lemma_flatten_one_element();
    vstd::seq_lib::lemma_flatten_concat(parts, one);
    assert(parts.push(part) =~= parts + one);
    assert(parts.push(part).flatten() =~= parts.flatten() + part);
}

/// Join the clusters that are left after the first `skip` were passed over
/// and at most `take` were then taken.
pub fn join_clusters(clusters: &Vec<String>, skip: usize, take: usize) -> (text: String)
    ensures
        text@ == joined(texts(clusters@), skip as int, take as int),
{
    let count = clusters.len();
    let start = if skip < count { skip } else { count };
    let end = if take < count - start { start + take } else { count };
    let ghost all = texts(clusters@);
    let mut text = String::new();
    let mut i: usize = start;
    assert(all.subrange(start as int, start as int) =~= Seq::<Seq<char>>::empty());
    while i < end
        invariant
            start <= i <= end <= count,
            count == clusters@.len(),
            all == texts(clusters@),
            text@ == all.subrange(start as int, i as int).flatten(),
        decreases end - i,
    {
        proof {
            lemma_flatten_push(all.subrange(start as int, i as int), all[i as int]);
            assert(all.subrange(start as int, i + 1) =~= all.subrange(start as int, i as int).push(
                all[i as int],
            ));
        }
        text.append(clusters[i].as_str());
        i += 1;
    }
    text
}

/// Join the clusters that are left after the first `skip` were passed over
/// and at most `take` were then taken, each as it is shown in a row of cells.
pub fn show_clusters(clusters: &Vec<String>, skip: usize, take: usize) -> (text: String)
    ensures
        text@ == shown(texts(clusters@), skip as int, take as int),
{
    let count = clusters.len();
    let start = if skip < count { skip } else { count };
    let end = if take < count - start { start + take } else { count };
    let ghost all = texts(clusters@);
    let ghost show = |cluster: Seq<char>| shown_cluster(cluster);
    let tab = "\t".to_owned();
    proof {
        reveal_strlit("\t");
        reveal_strlit(" ");
    }
    assert(tab@ =~= seq!['\t']);
    assert(" "@ =~= seq![' ']);
    let mut text = String::new();
    let mut i: usize = start;
    assert(all.subrange(start as int, start as int).map_values(show) =~= Seq::<
        Seq<char>,
    >::empty());
    while i < end
        invariant
            start <= i <= end <= count,
            count == clusters@.len(),
            all == texts(clusters@),
            show == |cluster: Seq<char>| shown_cluster(cluster),
            tab@ == seq!['\t'],
            " "@ == seq![' '],
            text@ == all.subrange(start as int, i as int).map_values(show).flatten(),
        decreases end - i,
    {
        proof {
            lemma_flatten_push(
                all.subrange(start as int, i as int).map_values(show),
                shown_cluster(all[i as int]),
            );
            assert(all.subrange(start as int, i + 1).map_values(show) =~= all.subrange(
                start as int,
                i as int,
            ).map_values(show).push(shown_cluster(all[i as int])));
        }
        if clusters[i] == tab {
            text.append(" ");
        } else {
            text.append(clusters[i].as_str());
        }
        i += 1;
    }
    text
}

} // verus!
