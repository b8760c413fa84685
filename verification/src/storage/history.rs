//! The history of generated QR codes, newest first.
//!
//! The store is a plain value here; the application shares it between the
//! interface and the redirect server and writes it to disk after each change.
use vstd::prelude::*;

use crate::models::qr_item::QrItem;
use crate::utils::file_ops::{joined_path, FileOps};
use crate::text::{
    chars_of, contains, find_in, first_index, is_first, lemma_first_index, lemma_first_none,
    lowercase, str_eq, string_of, to_lowercase, trim, trimmed_str,
};

verus! {

/// The number of items the history keeps.
pub const HISTORY_LIMIT: usize = 200;

/// The item has identifier `id`.
pub open spec fn has_id(id: Seq<char>) -> spec_fn(QrItem) -> bool {
    |i: QrItem| i.id@ == id
}

/// The item has short code `code`.
pub open spec fn has_code(code: Seq<char>) -> spec_fn(QrItem) -> bool {
    |i: QrItem| i.short_code@ == code
}

/// `i` may stay beside `item`: it shares neither identifier nor short code.
pub open spec fn keeps(i: QrItem, item: QrItem) -> bool {
    i.id@ != item.id@ && i.short_code@ != item.short_code@
}

/// The items of `s` that may stay beside `item`, in order.
pub open spec fn retained(s: Seq<QrItem>, item: QrItem) -> Seq<QrItem>
    decreases s.len(),
{
    if s.len() == 0 {
        s
    } else if keeps(s.last(), item) {
        retained(s.drop_last(), item).push(s.last())
    } else {
        retained(s.drop_last(), item)
    }
}

/// The history after adding `item`: the item first, then the older items
/// that share neither its identifier nor its short code, at most
/// `HISTORY_LIMIT` in all.
pub open spec fn added(s: Seq<QrItem>, item: QrItem) -> Seq<QrItem> {
    let t = seq![item] + retained(s, item);
    if t.len() > HISTORY_LIMIT {
        t.take(HISTORY_LIMIT as int)
    } else {
        t
    }
}

/// The items of `s` whose identifier is not `id`, in order.
pub open spec fn without_id(s: Seq<QrItem>, id: Seq<char>) -> Seq<QrItem>
    decreases s.len(),
{
    if s.len() == 0 {
        s
    } else if s.last().id@ != id {
        without_id(s.drop_last(), id).push(s.last())
    } else {
        without_id(s.drop_last(), id)
    }
}

/// `x` with its favorite mark flipped.
pub open spec fn flipped(x: QrItem) -> QrItem {
    QrItem {
        id: x.id,
        original_url: x.original_url,
        target_type: x.target_type,
        short_code: x.short_code,
        dynamic_url: x.dynamic_url,
        expiration_time: x.expiration_time,
        created_at: x.created_at,
        is_favorite: !x.is_favorite,
        last_saved_path: x.last_saved_path,
        ecc_level: x.ecc_level,
        export_format: x.export_format,
        title: x.title,
    }
}

/// The history after toggling the favorite mark of the first item with `id`.
pub open spec fn toggled(s: Seq<QrItem>, id: Seq<char>) -> Seq<QrItem> {
    match first_index(s, has_id(id)) {
        Some(k) => s.update(k, flipped(s[k])),
        None => s,
    }
}

/// The searchable title of an item (none reads as empty).
pub open spec fn title_text(t: Option<String>) -> Seq<char> {
    match t {
        Some(x) => x@,
        None => Seq::empty(),
    }
}

/// `q` occurs in the lower-cased URL, short code or title of `i`.
pub open spec fn matches_query(i: QrItem, q: Seq<char>) -> bool {
    ||| contains(lowercase(i.original_url@), q)
    ||| contains(lowercase(i.short_code@), q)
    ||| contains(lowercase(title_text(i.title)), q)
}

/// The items of `s` that match `q`, in order.
pub open spec fn matching(s: Seq<QrItem>, q: Seq<char>) -> Seq<QrItem>
    decreases s.len(),
{
    if s.len() == 0 {
        s
    } else if matches_query(s.last(), q) {
        matching(s.drop_last(), q).push(s.last())
    } else {
        matching(s.drop_last(), q)
    }
}

/// The result of searching `s` for `query`: the query is trimmed and
/// lower-cased; an empty query matches everything.
pub open spec fn search_result(s: Seq<QrItem>, query: Seq<char>) -> Seq<QrItem> {
    let q = lowercase(trim(query));
    if q.len() == 0 {
        s
    } else {
        matching(s, q)
    }
}

/// What a lookup in `s` yields: the item at the first position where `p`
/// holds.
pub open spec fn lookup(s: Seq<QrItem>, p: spec_fn(QrItem) -> bool) -> Option<QrItem> {
    match first_index(s, p) {
        Some(k) => Some(s[k]),
        None => None,
    }
}

/// Where the history file lives: `~/.config/qr-utility/history.json`, or
/// `history.json` in the current folder where `$HOME` is unset.
pub open spec fn history_file_for(home: Option<Seq<char>>) -> Seq<char> {
    match home {
        Some(h) => joined_path(
            joined_path(joined_path(h, ".config"@), "qr-utility"@),
            "history.json"@,
        ),
        None => "history.json"@,
    }
}

/// The history of generated QR codes, newest first.
pub struct HistoryStore {
    items: Vec<QrItem>,
}

impl View for HistoryStore {
    type V = Seq<QrItem>;

    closed spec fn view(&self) -> Seq<QrItem> {
        self.items@
    }
}

impl Default for HistoryStore {
    fn default() -> (r: HistoryStore)
        ensures
            r@ == Seq::<QrItem>::empty(),
    {
        HistoryStore { items: Vec::new() }
    }
}

impl HistoryStore {
    /// Where the history file lives, `home` being `$HOME` if set.
    pub fn history_path_for(home: Option<&str>) -> (r: String)
        ensures
            r@ == history_file_for(
                match home {
                    Some(h) => Some(h@),
                    None => None,
                },
            ),
    {
        match home {
            Some(h) => {
                let a = FileOps::join(h, ".config");
                let b = FileOps::join(a.as_str(), "qr-utility");
                FileOps::join(b.as_str(), "history.json")
            },
            None => "history.json".to_owned(),
        }
    }

    /// An empty history.
    pub fn new() -> (r: HistoryStore)
        ensures
            r@ == Seq::<QrItem>::empty(),
    {
        HistoryStore { items: Vec::new() }
    }

    /// A history holding `items`, as loaded from disk.
    pub fn from_items(items: Vec<QrItem>) -> (r: HistoryStore)
        ensures
            r@ == items@,
    {
        HistoryStore { items }
    }

    /// The number of items.
    pub fn len(&self) -> (r: usize)
        ensures
            r == self@.len(),
    {
        self.items.len()
    }

    /// A copy of all items, newest first.
    pub fn items(&self) -> (r: Vec<QrItem>)
        ensures
            r@ == self@,
    {
        let mut r: Vec<QrItem> = Vec::new();
        let mut i: usize = 0;
        while i < self.items.len()
            invariant
                i <= self.items@.len(),
                r@ == self.items@.take(i as int),
            decreases self.items@.len() - i,
        {
            r.push(self.items[i].duplicate());
            proof {
                assert(self.items@.take(i + 1) =~= self.items@.take(i as int).push(self.items@[i as int]));
            }
            i = i + 1;
        }
        proof {
            assert(self.items@.take(self.items@.len() as int) =~= self.items@);
        }
        r
    }

    /// Adds `item` in front, dropping older items with the same identifier or
    /// short code and keeping at most `HISTORY_LIMIT` items.
    pub fn add(&mut self, item: QrItem)
        ensures
            final(self)@ == added(old(self)@, item),
    {
        let ghost old_items = self.items@;
        let ghost it = item;
        let mut kept: Vec<QrItem> = Vec::new();
        kept.push(item);
        let mut i: usize = 0;
        while i < self.items.len()
            invariant
                self.items@ == old_items,
                i <= old_items.len(),
                kept@.len() >= 1,
                kept@[0] == it,
                kept@ == seq![it] + retained(old_items.take(i as int), it),
            decreases old_items.len() - i,
        {
            let keep = !str_eq(self.items[i].id.as_str(), kept[0].id.as_str()) && !str_eq(
                self.items[i].short_code.as_str(),
                kept[0].short_code.as_str(),
            );
            proof {
                assert(old_items.take(i + 1).drop_last() =~= old_items.take(i as int));
            }
            if keep {
                kept.push(self.items[i].duplicate());
            }
            i = i + 1;
        }
        proof {
            assert(old_items.take(old_items.len() as int) =~= old_items);
        }
        if kept.len() > HISTORY_LIMIT {
            kept.truncate(HISTORY_LIMIT);
        }
        self.items = kept;
    }

    /// Removes every item with identifier `id`.
    pub fn delete(&mut self, id: &str)
        ensures
            final(self)@ == without_id(old(self)@, id@),
    {
        let ghost old_items = self.items@;
        let mut kept: Vec<QrItem> = Vec::new();
        let mut i: usize = 0;
        while i < self.items.len()
            invariant
                self.items@ == old_items,
                i <= old_items.len(),
                kept@ == without_id(old_items.take(i as int), id@),
            decreases old_items.len() - i,
        {
            proof {
                assert(old_items.take(i + 1).drop_last() =~= old_items.take(i as int));
            }
            if !str_eq(self.items[i].id.as_str(), id) {
                kept.push(self.items[i].duplicate());
            }
            i = i + 1;
        }
        proof {
            assert(old_items.take(old_items.len() as int) =~= old_items);
        }
        self.items = kept;
    }

    /// Flips the favorite mark of the first item with identifier `id` and
    /// returns its new state; `false`, with nothing changed, if there is none.
    pub fn toggle_favorite(&mut self, id: &str) -> (r: bool)
        ensures
            final(self)@ == toggled(old(self)@, id@),
            match first_index(old(self)@, has_id(id@)) {
                Some(k) => r == !old(self)@[k].is_favorite,
                None => !r,
            },
    {
        let mut i: usize = 0;
        while i < self.items.len()
            invariant
                self.items@ == old(self).items@,
                i <= self.items@.len(),
                forall|j: int| 0 <= j < i ==> !has_id(id@)(#[trigger] self.items@[j]),
            decreases self.items@.len() - i,
        {
            if str_eq(self.items[i].id.as_str(), id) {
                proof {
                    lemma_first_index(self.items@, has_id(id@), i as int);
                }
                let mut x = self.items[i].duplicate();
                x.is_favorite = !x.is_favorite;
                let state = x.is_favorite;
                self.items.set(i, x);
                proof {
                    assert(self.items@ =~= old(self).items@.update(i as int, flipped(old(self).items@[i as int])));
                }
                return state;
            }
            i = i + 1;
        }
        proof {
            lemma_first_none(self.items@, has_id(id@));
        }
        false
    }

    /// The first item with short code `short_code`, if any.
    pub fn find_by_short_code(&self, short_code: &str) -> (r: Option<QrItem>)
        ensures
            r == lookup(self@, has_code(short_code@)),
    {
        let mut i: usize = 0;
        while i < self.items.len()
            invariant
                i <= self.items@.len(),
                forall|j: int| 0 <= j < i ==> !has_code(short_code@)(#[trigger] self.items@[j]),
            decreases self.items@.len() - i,
        {
            if str_eq(self.items[i].short_code.as_str(), short_code) {
                proof {
                    lemma_first_index(self.items@, has_code(short_code@), i as int);
                }
                return Some(self.items[i].duplicate());
            }
            i = i + 1;
        }
        proof {
            lemma_first_none(self.items@, has_code(short_code@));
        }
        None
    }

    /// The items whose URL, short code or title contains `query`, ignoring
    /// case and the query's surrounding white space; all items for an empty
    /// query.
    pub fn search(&self, query: &str) -> (r: Vec<QrItem>)
        ensures
            r@ == search_result(self@, query@),
    {
        let t = trimmed_str(query);
        let ts = string_of(t.as_slice());
        let q = to_lowercase(ts.as_str());
        let qc = chars_of(q.as_str());
        if qc.len() == 0 {
            return self.items();
        }
        let mut r: Vec<QrItem> = Vec::new();
        let mut i: usize = 0;
        while i < self.items.len()
            invariant
                i <= self.items@.len(),
                qc@ == lowercase(trim(query@)),
                r@ == matching(self.items@.take(i as int), qc@),
            decreases self.items@.len() - i,
        {
            proof {
                assert(self.items@.take(i + 1).drop_last() =~= self.items@.take(i as int));
            }
            if item_matches(&self.items[i], qc.as_slice()) {
                r.push(self.items[i].duplicate());
            }
            i = i + 1;
        }
        proof {
            assert(self.items@.take(self.items@.len() as int) =~= self.items@);
        }
        r
    }
}

/// Whether `item` matches the lower-cased query `q`.
fn item_matches(item: &QrItem, q: &[char]) -> (r: bool)
    ensures
        r == matches_query(*item, q@),
{
    let url = chars_of(to_lowercase(item.original_url.as_str()).as_str());
    if find_in(url.as_slice(), q) {
        return true;
    }
    let code = chars_of(to_lowercase(item.short_code.as_str()).as_str());
    if find_in(code.as_slice(), q) {
        return true;
    }
    let title = match &item.title {
        Some(t) => to_lowercase(t.as_str()),
        None => to_lowercase(""),
    };
    proof {
        reveal_strlit("");
        assert(""@ =~= Seq::<char>::empty());
    }
    let tc = chars_of(title.as_str());
    find_in(tc.as_slice(), q)
}

/// Every item that `retained` keeps may stay beside `item` and comes from `s`.
pub proof fn lemma_retained(s: Seq<QrItem>, item: QrItem)
    ensures
        retained(s, item).len() <= s.len(),
        forall|j: int| 0 <= j < retained(s, item).len() ==> keeps(#[trigger] retained(s, item)[j], item),
        forall|j: int| 0 <= j < retained(s, item).len() ==> s.contains(#[trigger] retained(s, item)[j]),
        forall|j: int| 0 <= j < s.len() && keeps(#[trigger] s[j], item) ==> retained(s, item).contains(s[j]),
    decreases s.len(),
{
    if s.len() > 0 {
        let p = s.drop_last();
        lemma_retained(p, item);
        let r = retained(s, item);
        let rp = retained(p, item);
        assert forall|j: int| 0 <= j < r.len() implies s.contains(#[trigger] r[j]) by {
            if j < rp.len() {
                assert(rp[j] == r[j]);
                assert(p.contains(rp[j]));
                let m = choose|m: int| 0 <= m < p.len() && p[m] == rp[j];
                assert(s[m] == p[m]);
            } else {
                assert(r[j] == s.last());
                assert(s[s.len() - 1] == s.last());
            }
        }
        assert forall|j: int| 0 <= j < s.len() && keeps(#[trigger] s[j], item) implies r.contains(s[j]) by {
            if j < s.len() - 1 {
                assert(p[j] == s[j]);
                assert(rp.contains(p[j]));
                let m = choose|m: int| 0 <= m < rp.len() && rp[m] == p[j];
                assert(r[m] == rp[m]);
            } else {
                assert(r[r.len() - 1] == s.last());
            }
        }
    }
}

/// Retaining twice removes nothing more than retaining once.
pub proof fn lemma_retained_idempotent(s: Seq<QrItem>, item: QrItem)
    ensures
        retained(retained(s, item), item) == retained(s, item),
    decreases s.len(),
{
    if s.len() > 0 {
        lemma_retained_idempotent(s.drop_last(), item);
        let rp = retained(s.drop_last(), item);
        if keeps(s.last(), item) {
            assert(rp.push(s.last()).drop_last() =~= rp);
        }
    }
}

/// The items `without_id` keeps come from `s`, in order, and none has `id`.
pub proof fn lemma_without_id(s: Seq<QrItem>, id: Seq<char>)
    ensures
        without_id(s, id).len() <= s.len(),
        forall|j: int| 0 <= j < without_id(s, id).len() ==> (#[trigger] without_id(s, id)[j]).id@ != id,
        without_id(without_id(s, id), id) == without_id(s, id),
    decreases s.len(),
{
    if s.len() > 0 {
        lemma_without_id(s.drop_last(), id);
        let wp = without_id(s.drop_last(), id);
        if s.last().id@ != id {
            assert(wp.push(s.last()).drop_last() =~= wp);
        }
    }
}

// ---------------------------------------------------------------------------
// Laws of the history
// ---------------------------------------------------------------------------

/// Read after write: once `item` is added, looking up its short code finds
/// the item itself, in first position.
pub proof fn law_add_then_find(s: Seq<QrItem>, item: QrItem)
    ensures
        added(s, item)[0] == item,
        lookup(added(s, item), has_code(item.short_code@)) == Some(item),
        lookup(added(s, item), has_id(item.id@)) == Some(item),
{
    let t = added(s, item);
    assert(t[0] == item);
    lemma_first_index(t, has_code(item.short_code@), 0);
    lemma_first_index(t, has_id(item.id@), 0);
}

/// After adding `item`, no other entry shares its identifier or short code,
/// and the history holds at most `HISTORY_LIMIT` items.
pub proof fn law_add_unique(s: Seq<QrItem>, item: QrItem)
    ensures
        1 <= added(s, item).len() <= HISTORY_LIMIT,
        forall|j: int| 1 <= j < added(s, item).len() ==> keeps(#[trigger] added(s, item)[j], item),
{
    lemma_retained(s, item);
    let r = retained(s, item);
    let t = added(s, item);
    assert forall|j: int| 1 <= j < t.len() implies keeps(#[trigger] t[j], item) by {
        assert(t[j] == r[j - 1]);
    }
}

/// Adding an item that is already in front changes nothing: re-adding is
/// idempotent.
pub proof fn law_add_idempotent(s: Seq<QrItem>, item: QrItem)
    ensures
        added(added(s, item), item) == added(s, item),
{
    let r = retained(s, item);
    let t = seq![item] + r;
    lemma_retained(s, item);
    lemma_retained_idempotent(s, item);
    let a = added(s, item);
    // Retaining in `a` drops the front item and keeps the rest.
    assert(a.drop_first() =~= if t.len() > HISTORY_LIMIT {
        r.take(HISTORY_LIMIT - 1)
    } else {
        r
    });
    lemma_retained_front(a, item);
    lemma_retained_prefix_kept(r, item, if t.len() > HISTORY_LIMIT {
        HISTORY_LIMIT - 1
    } else {
        r.len() as int
    });
    assert(added(a, item) =~= a);
}

/// Retaining in a sequence that starts with `item` drops that first element.
pub proof fn lemma_retained_front(a: Seq<QrItem>, item: QrItem)
    requires
        a.len() >= 1,
        a[0] == item,
    ensures
        retained(a, item) == retained(a.drop_first(), item),
    decreases a.len(),
{
    if a.len() == 1 {
        assert(a.drop_last() =~= Seq::<QrItem>::empty());
        assert(a.drop_first() =~= Seq::<QrItem>::empty());
    } else {
        lemma_retained_front(a.drop_last(), item);
        assert(a.drop_last().drop_first() =~= a.drop_first().drop_last());
        assert(a.drop_first().last() == a.last());
    }
}

/// A prefix of a retained sequence is left as it is by retaining again.
pub proof fn lemma_retained_prefix_kept(r: Seq<QrItem>, item: QrItem, n: int)
    requires
        0 <= n <= r.len(),
        forall|j: int| 0 <= j < r.len() ==> keeps(#[trigger] r[j], item),
    ensures
        retained(r.take(n), item) == r.take(n),
    decreases n,
{
    if n > 0 {
        lemma_retained_prefix_kept(r, item, n - 1);
        assert(r.take(n).drop_last() =~= r.take(n - 1));
        assert(r.take(n).last() == r[n - 1]);
        assert(r.take(n - 1).push(r[n - 1]) =~= r.take(n));
    } else {
        assert(r.take(0) =~= Seq::<QrItem>::empty());
    }
}

/// After deleting `id`, no item with that identifier is left, and deleting
/// again changes nothing.
pub proof fn law_delete(s: Seq<QrItem>, id: Seq<char>)
    ensures
        lookup(without_id(s, id), has_id(id)) is None,
        without_id(without_id(s, id), id) == without_id(s, id),
        without_id(s, id).len() <= s.len(),
{
    lemma_without_id(s, id);
    lemma_first_none(without_id(s, id), has_id(id));
}

/// Toggling the favorite mark of the same item twice restores the history.
pub proof fn law_toggle_twice(s: Seq<QrItem>, id: Seq<char>)
    ensures
        toggled(toggled(s, id), id) == s,
{
    match first_index(s, has_id(id)) {
        Some(k) => {
            let t = toggled(s, id);
            assert(is_first(s, has_id(id), k));
            assert(is_first(t, has_id(id), k)) by {
                assert forall|j: int| 0 <= j < k implies !has_id(id)(#[trigger] t[j]) by {
                    assert(t[j] == s[j]);
                }
            }
            lemma_first_index(t, has_id(id), k);
            assert(toggled(t, id) =~= s);
        },
        None => {},
    }
}

/// A blank query finds every item.
pub proof fn law_blank_search(s: Seq<QrItem>, query: Seq<char>)
    requires
        lowercase(trim(query)).len() == 0,
    ensures
        search_result(s, query) == s,
{
}

} // verus!
