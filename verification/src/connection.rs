//! Cursor-based pagination: an ordered, cursor-addressable window over a
//! collection of entities.
//!
//! `first`/`after` request a forward window of at most `first` items starting
//! strictly after cursor `after`; `last`/`before` request a backward window
//! ending strictly before cursor `before`. Requesting both directions in one
//! call is an invalid argument. Cursors are opaque tokens assigned by the
//! data provider; a cursor that does not occur in the collection selects the
//! empty window (forward) or the whole collection (backward), keeping the
//! semantics total.

use vstd::prelude::*;

use crate::error::Error;

verus! {

/// Mathematical model of one page entry: an opaque cursor and the node view.
#[verifier::ext_equal]
pub struct EdgeView<V> {
    pub cursor: Seq<char>,
    pub node: V,
}

/// Mathematical model of a page.
#[verifier::ext_equal]
pub struct ConnectionView<V> {
    pub edges: Seq<EdgeView<V>>,
    pub has_previous_page: bool,
    pub has_next_page: bool,
}

/// One element of a page: the node together with its opaque cursor.
#[derive(Clone, Debug, PartialEq, Eq)]
pub struct Edge<T> {
    pub cursor: String,
    pub node: T,
}

impl<T: View> View for Edge<T> {
    type V = EdgeView<T::V>;

    open spec fn view(&self) -> EdgeView<T::V> {
        EdgeView { cursor: self.cursor@, node: self.node@ }
    }
}

/// A page over an ordered collection, with "has more" indicators for both
/// directions.
#[derive(Clone, Debug, PartialEq, Eq)]
pub struct Connection<T> {
    pub edges: Vec<Edge<T>>,
    pub has_previous_page: bool,
    pub has_next_page: bool,
}

/// The views of a sequence of edges.
pub open spec fn edges_view<T: View>(es: Seq<Edge<T>>) -> Seq<EdgeView<T::V>> {
    es.map_values(|e: Edge<T>| e@)
}

impl<T: View> View for Connection<T> {
    type V = ConnectionView<T::V>;

    open spec fn view(&self) -> ConnectionView<T::V> {
        ConnectionView {
            edges: edges_view(self.edges@),
            has_previous_page: self.has_previous_page,
            has_next_page: self.has_next_page,
        }
    }
}

/// The view of an optional cursor argument.
pub open spec fn cursor_view(c: Option<String>) -> Option<Seq<char>> {
    match c {
        Option::Some(s) => Option::Some(s@),
        Option::None => Option::None,
    }
}

/// A forward window is requested.
pub open spec fn forward_requested(first: Option<u64>, after: Option<Seq<char>>) -> bool {
    first is Some || after is Some
}

/// A backward window is requested.
pub open spec fn backward_requested(last: Option<u64>, before: Option<Seq<char>>) -> bool {
    last is Some || before is Some
}

/// Forward and backward pagination are requested in the same call.
pub open spec fn page_args_conflict(
    first: Option<u64>,
    after: Option<Seq<char>>,
    last: Option<u64>,
    before: Option<Seq<char>>,
) -> bool {
    forward_requested(first, after) && backward_requested(last, before)
}

/// Index of the first entry carrying cursor `c`, or `es.len()` if none does.
pub open spec fn cursor_index<V>(es: Seq<EdgeView<V>>, c: Seq<char>) -> int
    decreases es.len(),
{
    if es.len() == 0 {
        0
    } else if es[0].cursor == c {
        0
    } else {
        1 + cursor_index(es.drop_first(), c)
    }
}

proof fn lemma_cursor_index_at<V>(es: Seq<EdgeView<V>>, c: Seq<char>, i: int)
    requires
        0 <= i <= es.len(),
        forall|j: int| 0 <= j < i ==> es[j].cursor != c,
        i < es.len() ==> es[i].cursor == c,
    ensures
        cursor_index(es, c) == i,
    decreases es.len(),
{
    if es.len() == 0 {
    } else if i == 0 {
    } else {
        assert(es[0].cursor != c);
        assert(forall|j: int| 0 <= j < i - 1 ==> es.drop_first()[j] == es[j + 1]);
        lemma_cursor_index_at(es.drop_first(), c, i - 1);
    }
}

/// Start of the forward window: strictly after cursor `after`, or the
/// beginning of the collection when no cursor is given.
pub open spec fn forward_lo<V>(es: Seq<EdgeView<V>>, after: Option<Seq<char>>) -> int {
    match after {
        Option::None => 0,
        Option::Some(c) => {
            if cursor_index(es, c) == es.len() {
                es.len() as int
            } else {
                cursor_index(es, c) + 1
            }
        },
    }
}

/// End of the forward window: at most `first` items past its start.
pub open spec fn forward_hi<V>(
    es: Seq<EdgeView<V>>,
    first: Option<u64>,
    after: Option<Seq<char>>,
) -> int {
    let lo = forward_lo(es, after);
    match first {
        Option::None => es.len() as int,
        Option::Some(n) => if lo + n <= es.len() { lo + n } else { es.len() as int },
    }
}

/// End of the backward window: strictly before cursor `before`, or the end
/// of the collection when no cursor is given.
pub open spec fn backward_hi<V>(es: Seq<EdgeView<V>>, before: Option<Seq<char>>) -> int {
    match before {
        Option::None => es.len() as int,
        Option::Some(c) => cursor_index(es, c),
    }
}

/// Start of the backward window: at most `last` items before its end.
pub open spec fn backward_lo<V>(
    es: Seq<EdgeView<V>>,
    last: Option<u64>,
    before: Option<Seq<char>>,
) -> int {
    let hi = backward_hi(es, before);
    match last {
        Option::None => 0,
        Option::Some(n) => if hi - n >= 0 { hi - n } else { 0 },
    }
}

/// Lower bound of the requested window.
pub open spec fn page_lo<V>(
    es: Seq<EdgeView<V>>,
    first: Option<u64>,
    after: Option<Seq<char>>,
    last: Option<u64>,
    before: Option<Seq<char>>,
) -> int {
    if backward_requested(last, before) {
        backward_lo(es, last, before)
    } else {
        forward_lo(es, after)
    }
}

/// Upper bound of the requested window.
pub open spec fn page_hi<V>(
    es: Seq<EdgeView<V>>,
    first: Option<u64>,
    after: Option<Seq<char>>,
    last: Option<u64>,
    before: Option<Seq<char>>,
) -> int {
    if backward_requested(last, before) {
        backward_hi(es, before)
    } else {
        forward_hi(es, first, after)
    }
}

/// The page that non-conflicting arguments select from an ordered collection:
/// the window itself plus the two "has more" indicators.
pub open spec fn page_of<V>(
    es: Seq<EdgeView<V>>,
    first: Option<u64>,
    after: Option<Seq<char>>,
    last: Option<u64>,
    before: Option<Seq<char>>,
) -> ConnectionView<V> {
    let lo = page_lo(es, first, after, last, before);
    let hi = page_hi(es, first, after, last, before);
    ConnectionView {
        edges: es.subrange(lo, hi),
        has_previous_page: lo > 0,
        has_next_page: hi < es.len(),
    }
}

proof fn lemma_page_bounds<V>(
    es: Seq<EdgeView<V>>,
    first: Option<u64>,
    after: Option<Seq<char>>,
    last: Option<u64>,
    before: Option<Seq<char>>,
)
    ensures
        0 <= page_lo(es, first, after, last, before),
        page_lo(es, first, after, last, before) <= page_hi(es, first, after, last, before),
        page_hi(es, first, after, last, before) <= es.len(),
{
    if after is Some {
        lemma_cursor_index_nonneg(es, after->0);
    }
    if before is Some {
        lemma_cursor_index_nonneg(es, before->0);
    }
}

proof fn lemma_cursor_index_nonneg<V>(es: Seq<EdgeView<V>>, c: Seq<char>)
    ensures
        0 <= cursor_index(es, c) <= es.len(),
    decreases es.len(),
{
    if es.len() == 0 {
    } else if es[0].cursor == c {
    } else {
        lemma_cursor_index_nonneg(es.drop_first(), c);
    }
}

/// Law: replaying the same pagination arguments against an unchanged
/// collection yields the same page contents and cursors.
pub proof fn lemma_page_replay<V>(
    es: Seq<EdgeView<V>>,
    first: Option<u64>,
    after: Option<Seq<char>>,
    last: Option<u64>,
    before: Option<Seq<char>>,
    c1: ConnectionView<V>,
    c2: ConnectionView<V>,
)
    requires
        c1 == page_of(es, first, after, last, before),
        c2 == page_of(es, first, after, last, before),
    ensures
        c1 == c2,
{
}

/// True when the pagination arguments do not request both directions at once.
pub fn page_args_valid(
    first: &Option<u64>,
    after: &Option<String>,
    last: &Option<u64>,
    before: &Option<String>,
) -> (r: bool)
    ensures
        r == !page_args_conflict(*first, cursor_view(*after), *last, cursor_view(*before)),
{
    let forward = first.is_some() || after.is_some();
    let backward = last.is_some() || before.is_some();
    !(forward && backward)
}

/// Index of the first edge carrying `cursor`, or `entries.len()` if none does.
fn find_cursor<T: View>(entries: &Vec<Edge<T>>, cursor: &String) -> (r: usize)
    ensures
        r as int == cursor_index(edges_view(entries@), cursor@),
        r <= entries@.len(),
{
    let ghost es = edges_view(entries@);
    let mut i: usize = 0;
    while i < entries.len()
        invariant
            i <= entries@.len(),
            es == edges_view(entries@),
            es.len() == entries@.len(),
            forall|j: int| 0 <= j < i ==> es[j].cursor != cursor@,
        decreases entries@.len() - i,
    {
        proof {
            assert(es[i as int] == entries@[i as int]@);
        }
        if entries[i].cursor == *cursor {
            proof {
                lemma_cursor_index_at(es, cursor@, i as int);
            }
            return i;
        }
        i += 1;
    }
    proof {
        lemma_cursor_index_at(es, cursor@, es.len() as int);
    }
    entries.len()
}

/// Cuts the window that the pagination arguments select out of an ordered,
/// cursor-assigned collection.
///
/// Rejects a call that requests both directions at once with
/// `Error::InvalidArgument`; otherwise returns exactly the page described by
/// [`page_of`].
pub fn paginate<T: View>(
    entries: Vec<Edge<T>>,
    first: Option<u64>,
    after: Option<String>,
    last: Option<u64>,
    before: Option<String>,
) -> (r: Result<Connection<T>, Error>)
    ensures
        page_args_conflict(first, cursor_view(after), last, cursor_view(before)) <==> r
            == Err::<Connection<T>, Error>(Error::InvalidArgument),
        !page_args_conflict(first, cursor_view(after), last, cursor_view(before)) ==> (r matches Ok(c)
            && c@ == page_of(
            edges_view(entries@),
            first,
            cursor_view(after),
            last,
            cursor_view(before),
        )),
{
    let ghost es = edges_view(entries@);
    let ghost afterv = cursor_view(after);
    let ghost beforev = cursor_view(before);
    if !page_args_valid(&first, &after, &last, &before) {
        return Err(Error::InvalidArgument);
    }
    let len = entries.len();
    proof {
        assert(es.len() == entries@.len());
        lemma_page_bounds(es, first, afterv, last, beforev);
    }
    let backward = last.is_some() || before.is_some();
    let lo: usize;
    let hi: usize;
    if backward {
        hi = match &before {
            None => len,
            Some(c) => find_cursor(&entries, c),
        };
        lo = match last {
            None => 0,
            Some(n) => if n >= hi as u64 {
                0
            } else {
                hi - n as usize
            },
        };
        proof {
            assert(hi as int == backward_hi(es, beforev));
            assert(lo as int == backward_lo(es, last, beforev));
        }
    } else {
        lo = match &after {
            None => 0,
            Some(c) => {
                let i = find_cursor(&entries, c);
                if i == len {
                    len
                } else {
                    i + 1
                }
            },
        };
        hi = match first {
            None => len,
            Some(n) => if n >= (len - lo) as u64 {
                len
            } else {
                lo + n as usize
            },
        };
        proof {
            assert(lo as int == forward_lo(es, afterv));
            assert(hi as int == forward_hi(es, first, afterv));
        }
    }
    proof {
        assert(lo as int == page_lo(es, first, afterv, last, beforev));
        assert(hi as int == page_hi(es, first, afterv, last, beforev));
    }
    let mut work = entries;
    work.truncate(hi);
    let page = work.split_off(lo);
    proof {
        assert(page@ =~= entries@.subrange(lo as int, hi as int));
        assert(edges_view(page@) =~= es.subrange(lo as int, hi as int));
    }
    let conn = Connection { edges: page, has_previous_page: lo > 0, has_next_page: hi < len };
    proof {
        assert(conn@ =~= page_of(es, first, afterv, last, beforev));
    }
    Ok(conn)
}

} // verus!
