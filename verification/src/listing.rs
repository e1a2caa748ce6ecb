//! The directory lister: from the children of a directory to its sorted listing.

use crate::paths::{is_absolute, join, joined, needs_separator};
use crate::text::{
    flag_rank, flip, lemma_text_rank_chain, lemma_text_rank_flip, lemma_text_rank_same, lowered,
    lowers_to, rank_text, refine, text_rank, Rank,
};
use vstd::prelude::*;
use vstd::relations::{sorted_by, total_ordering};

verus! {

/// One child of a directory, as a scan of the directory found it.
#[derive(Clone, Debug, PartialEq, Eq)]
pub struct Child {
    /// The base name of the entry.
    pub name: String,
    /// Whether the entry is a directory.
    pub dir: bool,
}

/// What a `Child` stands for.
pub struct ChildView {
    pub name: Seq<char>,
    pub dir: bool,
}

impl View for Child {
    type V = ChildView;

    open spec fn view(&self) -> ChildView {
        ChildView { name: self.name@, dir: self.dir }
    }
}

impl DeepView for Child {
    type V = ChildView;

    open spec fn deep_view(&self) -> ChildView {
        self@
    }
}

/// One child of a directory as a read of the directory gives it: its name, where the name
/// is valid text, and its kind.
#[derive(Clone, Debug, PartialEq, Eq)]
pub struct Found {
    /// The base name of the entry, or nothing where it is not valid text.
    pub name: Option<String>,
    /// Whether the entry is a directory.
    pub dir: bool,
}

/// What a `Found` stands for.
pub struct FoundView {
    pub name: Option<Seq<char>>,
    pub dir: bool,
}

impl View for Found {
    type V = FoundView;

    open spec fn view(&self) -> FoundView {
        FoundView {
            name: match self.name {
                Some(name) => Some(name@),
                None => None,
            },
            dir: self.dir,
        }
    }
}

impl DeepView for Found {
    type V = FoundView;

    open spec fn deep_view(&self) -> FoundView {
        self@
    }
}

/// The child that was found, given that its name is text.
pub open spec fn child_of(found: FoundView) -> ChildView {
    ChildView { name: found.name->Some_0, dir: found.dir }
}

/// The scan that a read of a directory comes to: the children in the order in which they
/// were found, or no scan at all where one of the names is not valid text, since such a
/// name cannot be shown.
pub open spec fn scan_of(found: Seq<FoundView>) -> Option<Seq<ChildView>> {
    if forall|i: int| 0 <= i < found.len() ==> (#[trigger] found[i]).name is Some {
        Some(found.map_values(|one: FoundView| child_of(one)))
    } else {
        None
    }
}

/// A scan of a directory, if there is one, by what it stands for.
pub open spec fn scan_view(scan: Option<Vec<Child>>) -> Option<Seq<ChildView>> {
    match scan {
        Some(children) => Some(children.deep_view()),
        None => None,
    }
}

/// Turns what a read of a directory found into a scan. There is no scan where a name is
/// not valid text: the directory then counts as one that could not be read.
pub fn scan(found: &Vec<Found>) -> (children: Option<Vec<Child>>)
    ensures
        scan_view(children) == scan_of(found.deep_view()),
{
    let ghost read = found.deep_view();
    let mut children: Vec<Child> = Vec::new();
    let mut next: usize = 0;
    while next < found.len()
        invariant
            read == found.deep_view(),
            next <= found.len(),
            children.len() == next,
            forall|i: int| 0 <= i < next ==> (#[trigger] read[i]).name is Some,
            forall|i: int| 0 <= i < next ==> (#[trigger] children@[i])@ == child_of(read[i]),
        decreases found.len() - next,
    {
        let one = &found[next];
        assert(read[next as int] == one@);
        match &one.name {
            Some(name) => {
                children.push(Child { name: name.clone(), dir: one.dir });
            },
            None => {
                assert(read[next as int].name is None);
                return None;
            },
        }
        next += 1;
    }
    assert(children.deep_view() =~= read.map_values(|one: FoundView| child_of(one)));
    Some(children)
}

/// One row of a listing: a file or a directory, with the paths by which a client fetches it
/// and its thumbnail.
#[derive(Clone, Debug, PartialEq, Eq, PartialOrd, Ord)]
pub struct DirItem {
    /// The base name of the entry.
    pub name: String,
    /// The path by which a client fetches the entry.
    pub path: String,
    /// The path by which a client fetches the entry's thumbnail.
    pub thumbnail: String,
    /// Whether the entry is a directory.
    pub dir: bool,
}

/// What a `DirItem` stands for.
pub struct DirItemView {
    pub name: Seq<char>,
    pub path: Seq<char>,
    pub thumbnail: Seq<char>,
    pub dir: bool,
}

impl View for DirItem {
    type V = DirItemView;

    open spec fn view(&self) -> DirItemView {
        DirItemView {
            name: self.name@,
            path: self.path@,
            thumbnail: self.thumbnail@,
            dir: self.dir,
        }
    }
}

impl DeepView for DirItem {
    type V = DirItemView;

    open spec fn deep_view(&self) -> DirItemView {
        self@
    }
}

/// Whether a name is one of the reserved thumbnail file names, in whatever case it is
/// written. Such files are cache artifacts and are left out of listings.
pub open spec fn is_reserved_name(name: Seq<char>) -> bool {
    lowered(name) == "thumbnail.jpg"@ || lowered(name) == "thumbnail.png"@
}

/// The path by which a client fetches a child of the directory `path`: a file under the
/// gallery route, a directory by its path relative to the gallery root.
pub open spec fn web_path(path: Seq<char>, child: ChildView) -> Seq<char> {
    if child.dir {
        joined(path, child.name)
    } else {
        joined(joined("/gallery/"@, path), child.name)
    }
}

/// The path by which a client fetches the thumbnail of a child of the directory `path`:
/// for a file its own path under the thumbnails route, for a directory the file
/// `thumbnail.jpg` inside it.
pub open spec fn thumbnail_path(path: Seq<char>, child: ChildView) -> Seq<char> {
    let mirrored = joined(joined("/thumbnails/"@, path), child.name);
    if child.dir {
        joined(mirrored, "thumbnail.jpg"@)
    } else {
        mirrored
    }
}

/// The row that a child of the directory `path` gets in the listing.
pub open spec fn item_of(path: Seq<char>, child: ChildView) -> DirItemView {
    DirItemView {
        name: child.name,
        path: web_path(path, child),
        thumbnail: thumbnail_path(path, child),
        dir: child.dir,
    }
}

/// The rows of the children of the directory `path`, in the order of the scan: one for each
/// child whose name is not reserved.
pub open spec fn listed(path: Seq<char>, children: Seq<ChildView>) -> Seq<DirItemView> {
    children.filter(|child: ChildView| !is_reserved_name(child.name)).map_values(
        |child: ChildView| item_of(path, child),
    )
}

/// The rank of one row against another: by name, then by path, then by thumbnail path, then
/// files before directories.
pub open spec fn item_rank(a: DirItemView, b: DirItemView) -> Rank {
    refine(
        text_rank(a.name, b.name),
        refine(
            text_rank(a.path, b.path),
            refine(text_rank(a.thumbnail, b.thumbnail), flag_rank(a.dir, b.dir)),
        ),
    )
}

/// The order of the rows of a listing.
pub open spec fn item_order() -> spec_fn(DirItemView, DirItemView) -> bool {
    |a: DirItemView, b: DirItemView| item_rank(a, b) != Rank::After
}

/// The listing of the directory `path`: the rows of its children, sorted.
pub open spec fn listing(path: Seq<char>, children: Seq<ChildView>) -> Seq<DirItemView> {
    listed(path, children).sort_by(item_order())
}

/// Swapping two rows flips their rank.
pub proof fn lemma_item_rank_flip(a: DirItemView, b: DirItemView)
    ensures
        item_rank(b, a) == flip(item_rank(a, b)),
{
    lemma_text_rank_flip(a.name, b.name);
    lemma_text_rank_flip(a.path, b.path);
    lemma_text_rank_flip(a.thumbnail, b.thumbnail);
}

/// Two rows rank the same exactly when they are equal.
pub proof fn lemma_item_rank_same(a: DirItemView, b: DirItemView)
    ensures
        item_rank(a, b) == Rank::Same <==> a == b,
{
    lemma_text_rank_same(a.name, b.name);
    lemma_text_rank_same(a.path, b.path);
    lemma_text_rank_same(a.thumbnail, b.thumbnail);
}

/// The order of rows is transitive.
pub proof fn lemma_item_rank_chain(a: DirItemView, b: DirItemView, c: DirItemView)
    requires
        item_rank(a, b) != Rank::After,
        item_rank(b, c) != Rank::After,
    ensures
        item_rank(a, c) != Rank::After,
{
    lemma_text_rank_same(a.name, b.name);
    lemma_text_rank_same(b.name, c.name);
    lemma_text_rank_same(a.path, b.path);
    lemma_text_rank_same(b.path, c.path);
    lemma_text_rank_same(a.thumbnail, b.thumbnail);
    lemma_text_rank_same(b.thumbnail, c.thumbnail);
    lemma_text_rank_chain(a.name, b.name, c.name);
    if text_rank(a.name, c.name) == Rank::Same {
        lemma_text_rank_same(a.name, c.name);
        lemma_text_rank_chain(a.path, b.path, c.path);
        if text_rank(a.path, c.path) == Rank::Same {
            lemma_text_rank_same(a.path, c.path);
            lemma_text_rank_chain(a.thumbnail, b.thumbnail, c.thumbnail);
            if text_rank(a.thumbnail, c.thumbnail) == Rank::Same {
                lemma_text_rank_same(a.thumbnail, c.thumbnail);
            }
        }
    }
}

/// Rows are totally ordered: any two compare, and only equal rows compare both ways.
pub proof fn lemma_item_order_total()
    ensures
        total_ordering(item_order()),
{
    let le = item_order();
    assert forall|a: DirItemView| #[trigger] le(a, a) by {
        lemma_item_rank_same(a, a);
    }
    assert forall|a: DirItemView, b: DirItemView| #[trigger] le(a, b) && #[trigger] le(b, a)
        implies a == b by {
        lemma_item_rank_flip(a, b);
        lemma_item_rank_same(a, b);
    }
    assert forall|a: DirItemView, b: DirItemView, c: DirItemView| #[trigger]
        le(a, b) && #[trigger] le(b, c) implies le(a, c) by {
        lemma_item_rank_chain(a, b, c);
    }
    assert forall|a: DirItemView, b: DirItemView| #[trigger] le(a, b) || #[trigger] le(b, a) by {
        lemma_item_rank_flip(a, b);
    }
}

/// Whether a name is one of the reserved thumbnail file names.
pub fn is_reserved(name: &str) -> (reserved: bool)
    ensures
        reserved == is_reserved_name(name@),
{
    lowers_to(name, "thumbnail.jpg") || lowers_to(name, "thumbnail.png")
}

/// The row that a child of the directory `path` gets in the listing.
pub fn item_for(path: &str, child: &Child) -> (item: DirItem)
    ensures
        item@ == item_of(path@, child@),
{
    let name = child.name.as_str();
    let mirrored = join(join("/thumbnails/", path).as_str(), name);
    if child.dir {
        DirItem {
            name: child.name.clone(),
            path: join(path, name),
            thumbnail: join(mirrored.as_str(), "thumbnail.jpg"),
            dir: true,
        }
    } else {
        DirItem {
            name: child.name.clone(),
            path: join(join("/gallery/", path).as_str(), name),
            thumbnail: mirrored,
            dir: false,
        }
    }
}

/// Ranks one row against another.
pub fn rank_items(a: &DirItem, b: &DirItem) -> (rank: Rank)
    ensures
        rank == item_rank(a@, b@),
{
    match rank_text(a.name.as_str(), b.name.as_str()) {
        Rank::Same => {},
        decided => {
            return decided;
        },
    }
    match rank_text(a.path.as_str(), b.path.as_str()) {
        Rank::Same => {},
        decided => {
            return decided;
        },
    }
    match rank_text(a.thumbnail.as_str(), b.thumbnail.as_str()) {
        Rank::Same => {},
        decided => {
            return decided;
        },
    }
    if a.dir == b.dir {
        Rank::Same
    } else if b.dir {
        Rank::Before
    } else {
        Rank::After
    }
}

/// The place of `item` among sorted `items`: what lies before it comes no later in the
/// order than `item`, what lies from it on comes no earlier.
fn place_of(items: &Vec<DirItem>, item: &DirItem) -> (at: usize)
    requires
        sorted_by(items.deep_view(), item_order()),
    ensures
        at <= items.len(),
        forall|i: int| 0 <= i < at ==> #[trigger] item_order()(items.deep_view()[i], item@),
        forall|i: int|
            at <= i < items.len() ==> #[trigger] item_order()(item@, items.deep_view()[i]),
{
    let ghost rows = items.deep_view();
    let mut low: usize = 0;
    let mut high: usize = items.len();
    while low < high
        invariant
            rows == items.deep_view(),
            sorted_by(rows, item_order()),
            low <= high <= items.len(),
            forall|i: int| 0 <= i < low ==> #[trigger] item_order()(rows[i], item@),
            forall|i: int| high <= i < items.len() ==> #[trigger] item_order()(item@, rows[i]),
        decreases high - low,
    {
        let mid = low + (high - low) / 2;
        match rank_items(&items[mid], item) {
            Rank::After => {
                proof {
                    lemma_item_rank_flip(rows[mid as int], item@);
                    assert forall|i: int| mid <= i < items.len() implies #[trigger] item_order()(
                        item@,
                        rows[i],
                    ) by {
                        if mid < i {
                            assert(item_order()(rows[mid as int], rows[i]));
                        }
                        lemma_item_rank_same(rows[mid as int], rows[i]);
                        lemma_item_rank_chain(item@, rows[mid as int], rows[i]);
                    }
                }
                high = mid;
            },
            _ => {
                proof {
                    assert forall|i: int| 0 <= i < mid + 1 implies #[trigger] item_order()(
                        rows[i],
                        item@,
                    ) by {
                        if i < mid {
                            assert(item_order()(rows[i], rows[mid as int]));
                        }
                        lemma_item_rank_same(rows[i], rows[mid as int]);
                        lemma_item_rank_chain(rows[i], rows[mid as int], item@);
                    }
                }
                low = mid + 1;
            },
        }
    }
    low
}

/// Puts `item` at its place among sorted `items`.
fn insert_sorted(items: &mut Vec<DirItem>, item: DirItem)
    requires
        sorted_by(old(items).deep_view(), item_order()),
    ensures
        sorted_by(final(items).deep_view(), item_order()),
        final(items).deep_view().to_multiset() == old(items).deep_view().to_multiset().insert(
            item@,
        ),
{
    let at = place_of(items, &item);
    let ghost before = items.deep_view();
    items.insert(at, item);
    proof {
        let after = items.deep_view();
        assert(after =~= before.insert(at as int, item@));
        vstd::seq_lib::to_multiset_insert(before, at as int, item@);
        assert forall|i: int, j: int| 0 <= i < j < after.len() implies #[trigger] item_order()(
            after[i],
            after[j],
        ) by {
            if j < at {
                assert(item_order()(before[i], before[j]));
            } else if j == at {
                assert(item_order()(before[i], item@));
            } else if i < at {
                assert(item_order()(before[i], before[j - 1]));
            } else if i == at {
                assert(item_order()(item@, before[j - 1]));
            } else {
                assert(item_order()(before[i - 1], before[j - 1]));
            }
        }
    }
}

/// Lists the directory `path` from a scan of its children: one row for each child whose
/// name is not reserved, the rows sorted by name, then path, then thumbnail path, then kind.
pub fn dirvec(path: &str, children: &Vec<Child>) -> (items: Vec<DirItem>)
    ensures
        items.deep_view() == listing(path@, children.deep_view()),
        sorted_by(items.deep_view(), item_order()),
        items.deep_view().to_multiset() == listed(path@, children.deep_view()).to_multiset(),
{
    let ghost scan = children.deep_view();
    let mut items: Vec<DirItem> = Vec::new();
    let mut next: usize = 0;
    proof {
        assert(scan.take(0) =~= Seq::<ChildView>::empty());
        lemma_listed_empty(path@);
        assert(items.deep_view() =~= Seq::<DirItemView>::empty());
    }
    while next < children.len()
        invariant
            scan == children.deep_view(),
            next <= children.len(),
            sorted_by(items.deep_view(), item_order()),
            items.deep_view().to_multiset() == listed(path@, scan.take(next as int)).to_multiset(),
        decreases children.len() - next,
    {
        let child = &children[next];
        proof {
            assert(scan.take(next + 1) =~= scan.take(next as int).push(child@));
            lemma_listed_push(path@, scan.take(next as int), child@);
        }
        if !is_reserved(child.name.as_str()) {
            let item = item_for(path, child);
            insert_sorted(&mut items, item);
            proof {
                vstd::seq_lib::to_multiset_build(
                    listed(path@, scan.take(next as int)),
                    item_of(path@, child@),
                );
            }
        }
        next += 1;
    }
    proof {
        assert(scan.take(next as int) =~= scan);
        lemma_item_order_total();
        listed(path@, scan).lemma_sort_by_ensures(item_order());
        vstd::seq_lib::lemma_sorted_unique(
            items.deep_view(),
            listing(path@, scan),
            item_order(),
        );
    }
    items
}

/// Nothing is listed of a directory without children.
pub proof fn lemma_listed_empty(path: Seq<char>)
    ensures
        listed(path, Seq::<ChildView>::empty()) == Seq::<DirItemView>::empty(),
{
    reveal(Seq::filter);
    assert(listed(path, Seq::<ChildView>::empty()) =~= Seq::<DirItemView>::empty());
}

/// One more child at the end of a scan adds its row at the end, unless its name is
/// reserved.
pub proof fn lemma_listed_push(path: Seq<char>, children: Seq<ChildView>, child: ChildView)
    ensures
        listed(path, children.push(child)) == if is_reserved_name(child.name) {
            listed(path, children)
        } else {
            listed(path, children).push(item_of(path, child))
        },
{
    let keep = |child: ChildView| !is_reserved_name(child.name);
    children.lemma_filter_push(child, keep);
    if !is_reserved_name(child.name) {
        assert(listed(path, children.push(child)) =~= listed(path, children).push(
            item_of(path, child),
        ));
    }
}

/// The children of a scan that get a row: those whose name is not reserved.
pub open spec fn kept(children: Seq<ChildView>) -> Seq<ChildView> {
    children.filter(|child: ChildView| !is_reserved_name(child.name))
}

/// A listing holds the rows of the children whose names are not reserved, and nothing
/// else: every row belongs to such a child, every such child has its row, there are as many
/// rows as such children, and no row bears a reserved name.
pub proof fn lemma_listing_rows(path: Seq<char>, children: Seq<ChildView>)
    ensures
        listing(path, children).len() == kept(children).len(),
        forall|row: DirItemView| #[trigger]
            listing(path, children).contains(row) ==> exists|child: ChildView|
                #[trigger] children.contains(child) && !is_reserved_name(child.name) && row
                    == item_of(path, child),
        forall|child: ChildView| #[trigger]
            children.contains(child) && !is_reserved_name(child.name) ==> listing(
                path,
                children,
            ).contains(item_of(path, child)),
        forall|i: int|
            0 <= i < listing(path, children).len() ==> !is_reserved_name(
                #[trigger] listing(path, children)[i].name,
            ),
{
    broadcast use vstd::seq_lib::group_to_multiset_ensures;

    let keep = |child: ChildView| !is_reserved_name(child.name);
    let rows = listed(path, children);
    let sorted = listing(path, children);
    lemma_item_order_total();
    rows.lemma_sort_by_ensures(item_order());
    assert(sorted.len() == rows.len()) by {
        vstd::seq_lib::to_multiset_len(sorted);
        vstd::seq_lib::to_multiset_len(rows);
    }
    assert forall|row: DirItemView| #[trigger] sorted.contains(row) implies exists|
        child: ChildView,
    | #[trigger]
        children.contains(child) && !is_reserved_name(child.name) && row == item_of(
            path,
            child,
        ) by {
        assert(rows.contains(row));
        let i = choose|i: int| 0 <= i < rows.len() && rows[i] == row;
        let child = kept(children)[i];
        children.lemma_filter_pred(keep, i);
        assert(kept(children).contains(child));
        children.lemma_filter_contains_rev(keep, child);
        assert(children.contains(child) && !is_reserved_name(child.name) && row == item_of(
            path,
            child,
        ));
    }
    assert forall|child: ChildView| #[trigger]
        children.contains(child) && !is_reserved_name(child.name) implies sorted.contains(
        item_of(path, child),
    ) by {
        let j = choose|j: int| 0 <= j < children.len() && children[j] == child;
        children.lemma_filter_contains(keep, j);
        let i = choose|i: int| 0 <= i < kept(children).len() && kept(children)[i] == child;
        assert(rows[i] == item_of(path, child));
        vstd::seq_lib::to_multiset_contains(rows, item_of(path, child));
        vstd::seq_lib::to_multiset_contains(sorted, item_of(path, child));
    }
    assert forall|i: int| 0 <= i < sorted.len() implies !is_reserved_name(
        #[trigger] sorted[i].name,
    ) by {
        assert(sorted.contains(sorted[i]));
    }
}

/// The thumbnail of a directory is the file `thumbnail.jpg` inside it: its thumbnail path
/// ends in `/thumbnail.jpg`.
pub proof fn lemma_directory_thumbnail(path: Seq<char>, child: ChildView)
    requires
        child.dir,
    ensures
        "/thumbnail.jpg"@.is_suffix_of(item_of(path, child).thumbnail),
{
    reveal_strlit("/thumbnail.jpg");
    reveal_strlit("thumbnail.jpg");
    reveal_strlit("/thumbnails/");
    let mirrored = joined(joined("/thumbnails/"@, path), child.name);
    let whole = thumbnail_path(path, child);
    assert(mirrored.len() > 0);
    if needs_separator(mirrored) {
        assert(whole =~= mirrored + "/thumbnail.jpg"@);
    } else {
        assert(whole =~= mirrored.drop_last() + "/thumbnail.jpg"@);
    }
    assert("/thumbnail.jpg"@ =~= whole.subrange(
        whole.len() - "/thumbnail.jpg"@.len(),
        whole.len() as int,
    ));
}

/// A file has its thumbnail under the thumbnails route at the very place where it lies
/// itself under the gallery route, given that the directory and the name are relative.
pub proof fn lemma_file_thumbnail(path: Seq<char>, child: ChildView)
    requires
        !child.dir,
        !is_absolute(path),
        !is_absolute(child.name),
    ensures
        item_of(path, child).path == "/gallery/"@ + joined(path, child.name),
        item_of(path, child).thumbnail == "/thumbnails/"@ + joined(path, child.name),
{
    reveal_strlit("/gallery/");
    reveal_strlit("/thumbnails/");
    assert(item_of(path, child).path =~= "/gallery/"@ + joined(path, child.name));
    assert(item_of(path, child).thumbnail =~= "/thumbnails/"@ + joined(path, child.name));
}

} // verus!
