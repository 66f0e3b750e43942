//! Directory listings for the file tree: which entries show, and in what order.
use vstd::prelude::*;
use crate::paths::{file_name_of, path_file_name};
use crate::text::{lemma_precedes_irreflexive, lemma_precedes_transitive, lower_of, lowercase, text_before, text_precedes};

verus! {

/// One entry of a directory, as its own metadata described it when listed:
/// a symbolic link is reported as a link, whatever it points to.
#[derive(Debug, PartialEq, Eq)]
pub struct FileItem {
    pub path: String,
    pub name: String,
    pub is_dir: bool,
    pub is_symlink: bool,
}

impl FileItem {
    /// The entry at `path`, with the kind its metadata gave; none when the
    /// path has no final component to name it by.
    pub fn new(path: &str, is_dir: bool, is_symlink: bool) -> (r: Option<FileItem>)
        ensures
            match r {
                Some(item) => {
                    &&& path_file_name(path@) == Some(item.name@)
                    &&& item.path@ == path@
                    &&& item.is_dir == is_dir
                    &&& item.is_symlink == is_symlink
                },
                None => path_file_name(path@) is None,
            },
    {
        match file_name_of(path) {
            Some(name) => Some(FileItem { path: String::from_str(path), name, is_dir, is_symlink }),
            None => None,
        }
    }

    /// The entry's path.
    pub fn path_buf(&self) -> (r: String)
        ensures
            r@ == self.path@,
    {
        self.path.clone()
    }

    /// Whether the tree may open this entry to show its children: a real
    /// directory, never a link, so that no cycle is followed.
    pub fn is_expandable(&self) -> (r: bool)
        ensures
            r == (self.is_dir && !self.is_symlink),
    {
        self.is_dir && !self.is_symlink
    }

    /// A field-by-field copy.
    pub fn duplicate(&self) -> (r: FileItem)
        ensures
            r == *self,
    {
        FileItem {
            path: self.path.clone(),
            name: self.name.clone(),
            is_dir: self.is_dir,
            is_symlink: self.is_symlink,
        }
    }
}

/// Hidden entries are those whose name starts with a dot.
pub open spec fn is_hidden(item: FileItem) -> bool {
    item.name@.len() > 0 && item.name@[0] == '.'
}

/// The entries of a listing that are shown, in their original order.
pub open spec fn visible(items: Seq<FileItem>) -> Seq<FileItem> {
    items.filter(|item: FileItem| !is_hidden(item))
}

/// Directories come first; within each group, names compare without regard
/// to case.
pub open spec fn listed_before(a: FileItem, b: FileItem) -> bool {
    (a.is_dir && !b.is_dir) || (a.is_dir == b.is_dir && text_precedes(
        lower_of(a.name@),
        lower_of(b.name@),
    ))
}

/// No entry comes before one that precedes it.
pub open spec fn in_listing_order(s: Seq<FileItem>) -> bool {
    forall|i: int, j: int| 0 <= i < j < s.len() ==> !listed_before(#[trigger] s[j], #[trigger] s[i])
}

/// Two entries that the listing order cannot tell apart: of the same kind,
/// with names equal once lowercased.
pub open spec fn tied(a: FileItem, b: FileItem) -> bool {
    a.is_dir == b.is_dir && lower_of(a.name@) == lower_of(b.name@)
}

/// The entries of `s` that are tied with `x`, in their order in `s`.
pub open spec fn ties_of(s: Seq<FileItem>, x: FileItem) -> Seq<FileItem> {
    s.filter(|y: FileItem| tied(x, y))
}

proof fn lemma_insert_ties(s: Seq<FileItem>, k: int, a: FileItem, x: FileItem)
    requires
        0 <= k <= s.len(),
        forall|j: int| k <= j < s.len() ==> !tied(a, #[trigger] s[j]),
    ensures
        ties_of(s.insert(k, a), x) == if tied(x, a) {
            ties_of(s, x).push(a)
        } else {
            ties_of(s, x)
        },
{
    let pred = |y: FileItem| tied(x, y);
    let s0 = s.subrange(0, k);
    let s1 = s.subrange(k, s.len() as int);
    assert(s =~= s0 + s1);
    assert(s.insert(k, a) =~= (s0 + seq![a]) + s1);
    Seq::filter_distributes_over_add(s0, s1, pred);
    Seq::filter_distributes_over_add(s0 + seq![a], s1, pred);
    Seq::filter_distributes_over_add(s0, seq![a], pred);
    assert(seq![a] =~= Seq::<FileItem>::empty().push(a));
    Seq::<FileItem>::empty().lemma_filter_push(a, pred);
    reveal(Seq::filter);
    assert(Seq::<FileItem>::empty().filter(pred) =~= Seq::<FileItem>::empty());
    if tied(x, a) {
        assert(s1.all(|y: FileItem| !pred(y))) by {
            assert forall|j: int| 0 <= j < s1.len() implies !pred(#[trigger] s1[j]) by {
                assert(s1[j] == s[k + j]);
            }
        }
        s1.lemma_all_neg_filter_empty(pred);
        assert(s1.filter(pred) =~= Seq::<FileItem>::empty());
        assert(ties_of(s.insert(k, a), x) =~= ties_of(s, x).push(a));
    } else {
        assert(ties_of(s.insert(k, a), x) =~= ties_of(s, x));
    }
}

proof fn lemma_listed_before_transitive(a: FileItem, b: FileItem, c: FileItem)
    requires
        listed_before(a, b),
        listed_before(b, c),
    ensures
        listed_before(a, c),
{
    if a.is_dir == b.is_dir && b.is_dir == c.is_dir {
        lemma_precedes_transitive(lower_of(a.name@), lower_of(b.name@), lower_of(c.name@));
    }
}

proof fn lemma_listed_before_irreflexive(a: FileItem)
    ensures
        !listed_before(a, a),
{
    lemma_precedes_irreflexive(lower_of(a.name@));
}

proof fn lemma_insert_keeps_order(s: Seq<FileItem>, k: int, x: FileItem)
    requires
        in_listing_order(s),
        0 <= k <= s.len(),
        forall|j: int| 0 <= j < k ==> !listed_before(x, #[trigger] s[j]),
        k < s.len() ==> listed_before(x, s[k]),
    ensures
        in_listing_order(s.insert(k, x)),
{
    let t = s.insert(k, x);
    assert forall|i: int, j: int| 0 <= i < j < t.len() implies !listed_before(
        #[trigger] t[j],
        #[trigger] t[i],
    ) by {
        if j == k {
            assert(t[i] == s[i]);
        } else if i == k {
            assert(t[j] == s[j - 1]);
            if listed_before(s[j - 1], x) {
                lemma_listed_before_transitive(s[j - 1], x, s[k]);
                if j - 1 == k {
                    lemma_listed_before_irreflexive(s[k]);
                } else {
                    assert(!listed_before(s[j - 1], s[k]));
                }
            }
        } else {
            let si = if i < k { i } else { i - 1 };
            let sj = if j < k { j } else { j - 1 };
            assert(t[i] == s[si] && t[j] == s[sj]);
        }
    }
}

/// Whether the entry with directory flag `a_dir` and lowercased name `a_key`
/// is listed before the one with `b_dir` and `b_key`.
fn key_before(a_dir: bool, a_key: &str, b_dir: bool, b_key: &str) -> (r: bool)
    ensures
        r == ((a_dir && !b_dir) || (a_dir == b_dir && text_precedes(a_key@, b_key@))),
{
    if a_dir != b_dir {
        a_dir
    } else {
        text_before(a_key, b_key)
    }
}

fn name_is_hidden(item: &FileItem) -> (r: bool)
    ensures
        r == is_hidden(*item),
{
    item.name.as_str().unicode_len() > 0 && item.name.as_str().get_char(0) == '.'
}

/// The shown entries of a directory in listing order. `entries` is what
/// reading the directory gave, or none when it could not be read, in which
/// case the listing is empty rather than an error.
pub fn load_directory_items(entries: Option<Vec<FileItem>>) -> (r: Vec<FileItem>)
    ensures
        entries is None ==> r@.len() == 0,
        entries matches Some(es) ==> r@.to_multiset() == visible(es@).to_multiset(),
        in_listing_order(r@),
        forall|i: int| 0 <= i < r@.len() ==> !is_hidden(#[trigger] r@[i]),
        forall|i: int, j: int|
            0 <= i < j < r@.len() && (#[trigger] r@[j]).is_dir ==> (#[trigger] r@[i]).is_dir,
        forall|i: int, j: int|
            0 <= i < j < r@.len() && (#[trigger] r@[i]).is_dir == (#[trigger] r@[j]).is_dir
                ==> !text_precedes(lower_of(r@[j].name@), lower_of(r@[i].name@)),
        entries matches Some(es) ==> forall|x: FileItem|
            #[trigger] ties_of(r@, x) == ties_of(visible(es@), x),
{
    let mut out: Vec<FileItem> = Vec::new();
    let es = match entries {
        Some(es) => es,
        None => {
            return out;
        },
    };
    let mut keys: Vec<String> = Vec::new();
    let n = es.len();
    proof {
        broadcast use vstd::seq_lib::group_seq_properties;
        reveal(Seq::filter);
        assert(es@.subrange(0, 0) =~= Seq::<FileItem>::empty());
        assert(visible(es@.subrange(0, 0)) =~= Seq::<FileItem>::empty());
        assert(out@ =~= Seq::<FileItem>::empty());
        assert forall|x: FileItem| #[trigger] ties_of(out@, x) == ties_of(visible(es@.subrange(0, 0)), x) by {
            assert(ties_of(out@, x) =~= Seq::<FileItem>::empty());
            assert(ties_of(visible(es@.subrange(0, 0)), x) =~= Seq::<FileItem>::empty());
        }
    }
    let mut i: usize = 0;
    while i < n
        invariant
            n == es@.len(),
            i <= n,
            keys@.len() == out@.len(),
            forall|j: int| 0 <= j < out@.len() ==> (#[trigger] keys@[j])@ == lower_of(out@[j].name@),
            in_listing_order(out@),
            out@.to_multiset() == visible(es@.subrange(0, i as int)).to_multiset(),
            forall|x: FileItem| #[trigger] ties_of(out@, x) == ties_of(visible(es@.subrange(0, i as int)), x),
        decreases n - i,
    {
        proof {
            let pred = |item: FileItem| !is_hidden(item);
            assert(es@.subrange(0, i + 1) =~= es@.subrange(0, i as int).push(es@[i as int]));
            es@.subrange(0, i as int).lemma_filter_push(es@[i as int], pred);
            vstd::seq_lib::to_multiset_build(visible(es@.subrange(0, i as int)), es@[i as int]);
        }
        let item = &es[i];
        if !name_is_hidden(item) {
            let key = lowercase(item.name.as_str());
            let mut k: usize = 0;
            while k < out.len() && !key_before(item.is_dir, key.as_str(), out[k].is_dir, keys[k].as_str())
                invariant
                    k <= out@.len(),
                    keys@.len() == out@.len(),
                    key@ == lower_of(item.name@),
                    forall|j: int| 0 <= j < out@.len() ==> (#[trigger] keys@[j])@ == lower_of(out@[j].name@),
                    forall|j: int| 0 <= j < k ==> !listed_before(*item, #[trigger] out@[j]),
                decreases out@.len() - k,
            {
                k = k + 1;
            }
            proof {
                assert forall|j: int| k <= j < out@.len() implies !tied(*item, #[trigger] out@[j]) by {
                    if tied(*item, out@[j]) {
                        lemma_listed_before_irreflexive(out@[k as int]);
                        assert(listed_before(out@[j], out@[k as int]));
                    }
                }
                assert forall|x: FileItem| #[trigger] ties_of(out@.insert(k as int, *item), x) == ties_of(
                    visible(es@.subrange(0, i + 1)),
                    x,
                ) by {
                    lemma_insert_ties(out@, k as int, *item, x);
                    visible(es@.subrange(0, i as int)).lemma_filter_push(*item, |y: FileItem| tied(x, y));
                }
                lemma_insert_keeps_order(out@, k as int, *item);
                vstd::seq_lib::to_multiset_insert(out@, k as int, *item);
            }
            let ghost old_keys = keys@;
            let ghost old_out = out@;
            let copy = item.duplicate();
            out.insert(k, copy);
            keys.insert(k, key);
            assert(out@ == old_out.insert(k as int, *item));
            assert forall|j: int| 0 <= j < out@.len() implies (#[trigger] keys@[j])@ == lower_of(out@[j].name@) by {
                if j > k as int {
                    assert(keys@[j] == old_keys[j - 1] && out@[j] == old_out[j - 1]);
                } else if j < k as int {
                    assert(keys@[j] == old_keys[j] && out@[j] == old_out[j]);
                }
            }
        }
        i = i + 1;
    }
    assert(es@.subrange(0, n as int) =~= es@);
    proof {
        assert forall|i: int| 0 <= i < out@.len() implies !is_hidden(#[trigger] out@[i]) by {
            vstd::seq_lib::to_multiset_contains(out@, out@[i]);
            let v = visible(es@);
            vstd::seq_lib::to_multiset_contains(v, out@[i]);
            let pred = |item: FileItem| !is_hidden(item);
            es@.lemma_filter_contains_rev(pred, out@[i]);
        }
        assert forall|i: int, j: int|
            0 <= i < j < out@.len() && (#[trigger] out@[j]).is_dir implies (#[trigger] out@[i]).is_dir by {
            assert(!listed_before(out@[j], out@[i]));
        }
    }
    out
}

} // verus!
