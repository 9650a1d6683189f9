//! A row of editable text, addressed by grapheme cluster.

use crate::segmentation::{
    grapheme_clusters, join_clusters, joined, lemma_partition_bounds, partitions, show_clusters,
    shown, split_graphemes, texts,
};
use vstd::prelude::*;

verus! {

/// One line of text. Positions within a row count grapheme clusters, not
/// bytes or chars, and the row keeps the number of its clusters at hand.
#[derive(Debug)]
pub struct Row {
    string: String,
    len: usize,
}

impl View for Row {
    type V = Seq<char>;

    closed spec fn view(&self) -> Seq<char> {
        self.string@
    }
}

/// The window of clusters that `Row::to_string` shows of `text` for `start`
/// and `end`: how many clusters are passed over, and how many are then
/// taken at most. `end` is held to the length of `text` in bytes, and
/// `start` to `end`.
pub open spec fn window(text: Seq<char>, start: int, end: int) -> (int, int) {
    let bytes = vstd::utf8::encode_utf8(text).len() as int;
    let end = if end < bytes { end } else { bytes };
    let start = if start < end { start } else { end };
    (start, end - start)
}

/// `text` with `ch` put in before its cluster at offset `at`, or at its end
/// where it has no such cluster.
pub open spec fn inserted(text: Seq<char>, at: int, ch: char) -> Seq<char> {
    let clusters = grapheme_clusters(text);
    if at >= clusters.len() {
        text.push(ch)
    } else {
        joined(clusters, 0, at).push(ch) + joined(clusters, at, clusters.len() as int)
    }
}

/// `text` without its cluster at offset `at`, or `text` itself where it has
/// no such cluster.
pub open spec fn deleted(text: Seq<char>, at: int) -> Seq<char> {
    let clusters = grapheme_clusters(text);
    if at >= clusters.len() {
        text
    } else {
        joined(clusters, 0, at) + joined(clusters, at + 1, clusters.len() as int)
    }
}

/// The number of grapheme clusters in `text`.
pub open spec fn cluster_count(text: Seq<char>) -> nat {
    grapheme_clusters(text).len()
}

impl Row {
    #[verifier::type_invariant]
    spec fn counted(self) -> bool {
        &&& self.len == grapheme_clusters(self.string@).len()
        &&& partitions(grapheme_clusters(self.string@), self.string@)
    }

    /// The row's grapheme clusters.
    pub open spec fn clusters(&self) -> Seq<Seq<char>> {
        grapheme_clusters(self@)
    }

    /// Create a row that holds `slice`.
    pub fn from(slice: &str) -> (row: Self)
        ensures
            row@ == slice@,
    {
        let clusters = split_graphemes(slice);
        assert(texts(clusters@).len() == clusters@.len());
        assert forall|i: int| 0 <= i < texts(clusters@).len() implies (#[trigger] texts(
            clusters@,
        )[i]).len() > 0 by {
            assert(clusters@[i]@.len() > 0);
        }
        Self { string: slice.to_owned(), len: clusters.len() }
    }

    /// The clusters from offset `start` up to offset `end`, joined, with each
    /// tab shown as a space. `end` is held to the row's length in bytes and
    /// `start` to `end`.
    pub fn to_string(&self, start: usize, end: usize) -> (text: String)
        ensures
            text@ == shown(
                self.clusters(),
                window(self@, start as int, end as int).0,
                window(self@, start as int, end as int).1,
            ),
    {
        let bytes = self.string.as_str().as_bytes().len();
        let end = if end < bytes { end } else { bytes };
        let start = if start < end { start } else { end };
        let clusters = split_graphemes(self.string.as_str());
        show_clusters(&clusters, start, end - start)
    }

    /// Append the text of `new` to the row.
    pub fn append(&mut self, new: &Self)
        ensures
            final(self)@ == old(self)@ + new@,
    {
        let mut string = self.string.clone();
        string.append(new.string.as_str());
        *self = Self::from(string.as_str());
    }

    /// Delete the cluster at offset `at`; the row stays as it is where it has
    /// no such cluster.
    pub fn delete(&mut self, at: usize)
        ensures
            final(self)@ == deleted(old(self)@, at as int),
    {
        proof {
            use_type_invariant(&*self);
        }
        if at >= self.len {
            return ;
        }
        let clusters = split_graphemes(self.string.as_str());
        assert(texts(clusters@).len() == clusters@.len());
        let mut result = join_clusters(&clusters, 0, at);
        let remainder = join_clusters(&clusters, at + 1, clusters.len());
        result.append(remainder.as_str());
        *self = Self::from(result.as_str());
    }

    /// Insert `ch` before the cluster at offset `at`, or at the end of the
    /// row where it has no such cluster.
    pub fn insert(&mut self, at: usize, ch: char)
        ensures
            final(self)@ == inserted(old(self)@, at as int, ch),
            old(self)@.len() == 0 ==> final(self)@ == seq![ch],
    {
        proof {
            use_type_invariant(&*self);
            lemma_partition_bounds(grapheme_clusters(self.string@), self.string@);
            assert(Seq::<char>::empty().push(ch) =~= seq![ch]);
            if self.string@.len() == 0 {
                assert(self.string@ =~= Seq::<char>::empty());
            }
        }
        if at >= self.len {
            let mut string = self.string.clone();
            string.push(ch);
            *self = Self::from(string.as_str());
            return ;
        }
        let clusters = split_graphemes(self.string.as_str());
        assert(texts(clusters@).len() == clusters@.len());
        let mut result = join_clusters(&clusters, 0, at);
        let remainder = join_clusters(&clusters, at, clusters.len());
        result.push(ch);
        result.append(remainder.as_str());
        *self = Self::from(result.as_str());
    }

    /// Cut the row before the cluster at offset `at`: the row keeps what
    /// stands before it and the rest is returned as a row of its own.
    pub fn split(&mut self, at: usize) -> (rest: Self)
        ensures
            final(self)@ == joined(old(self).clusters(), 0, at as int),
            rest@ == joined(old(self).clusters(), at as int, old(self).clusters().len() as int),
            final(self)@ + rest@ == old(self)@,
    {
        let clusters = split_graphemes(self.string.as_str());
        assert(texts(clusters@).len() == clusters@.len());
        let beginning = join_clusters(&clusters, 0, at);
        let remainder = join_clusters(&clusters, at, clusters.len());
        proof {
            let all = texts(clusters@);
            let cut = if at < all.len() { at as int } else { all.len() as int };
            assert(all.subrange(0, cut) + all.subrange(cut, all.len() as int) =~= all);
            vstd::seq_lib::lemma_flatten_concat(
                all.subrange(0, cut),
                all.subrange(cut, all.len() as int),
            );
        }
        *self = Self::from(beginning.as_str());
        Self::from(remainder.as_str())
    }

    /// The number of grapheme clusters in the row. A row has no more
    /// clusters than characters, and none only where it is empty.
    pub fn len(&self) -> (len: usize)
        ensures
            len == cluster_count(self@),
            len <= self@.len(),
            len == 0 <==> self@.len() == 0,
    {
        proof {
            use_type_invariant(self);
            lemma_partition_bounds(grapheme_clusters(self.string@), self.string@);
        }
        self.len
    }

    /// The row's text as UTF-8 bytes.
    pub fn as_bytes(&self) -> (bytes: &[u8])
        ensures
            bytes@ == vstd::utf8::encode_utf8(self@),
    {
        self.string.as_str().as_bytes()
    }

    /// The row's text.
    pub fn contents(&self) -> (text: String)
        ensures
            text@ == self@,
    {
        self.string.clone()
    }
}

impl Default for Row {
    fn default() -> (row: Self)
        ensures
            row@ == Seq::<char>::empty(),
    {
        let row = Self::from("");
        proof {
            reveal_strlit("");
        }
        assert(row@ =~= Seq::<char>::empty());
        row
    }
}

impl Clone for Row {
    fn clone(&self) -> (row: Self)
        ensures
            row@ == self@,
    {
        proof {
            use_type_invariant(self);
        }
        Self { string: self.string.clone(), len: self.len }
    }
}

impl PartialEq for Row {
    fn eq(&self, other: &Self) -> (equal: bool) {
        self.string == other.string
    }
}

impl vstd::std_specs::cmp::PartialEqSpecImpl for Row {
    open spec fn obeys_eq_spec() -> bool {
        true
    }

    open spec fn eq_spec(&self, other: &Self) -> bool {
        self@ == other@
    }
}

impl Eq for Row {

}

} // verus!
