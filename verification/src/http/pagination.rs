use vstd::prelude::*;

use crate::constants::DEFAULT_PAGINATION_LIMIT;
use crate::text::{decimal, decimal_string};
use crate::utils::query::{lemma_pairs_view_push, pairs_view};

verus! {

/// A page of results of the Redmine API.
#[derive(Debug, Clone)]
pub struct PaginatedResponse<T> {
    /// The items of the current page.
    pub items: Vec<T>,
    /// Number of items available over all pages.
    pub total_count: u32,
    /// Maximum number of items per page.
    pub limit: u32,
    /// Offset of the first item returned.
    pub offset: u32,
}

/// Pagination parameters.
#[derive(Debug, Clone, Copy)]
pub struct PaginationParams {
    /// Offset of the query.
    pub offset: Option<u32>,
    /// Maximum number of items to return.
    pub limit: Option<u32>,
}

impl Default for PaginationParams {
    fn default() -> (r: Self)
        ensures
            r.offset is None,
            r.limit is None,
    {
        PaginationParams { offset: None, limit: None }
    }
}

/// A query pair whose value is a number, written in decimal.
pub open spec fn numeric_pair(key: Seq<char>, value: u32) -> (Seq<char>, Seq<char>) {
    (key, decimal(value as nat))
}

/// The pairs that stand for `offset` and `limit`, in that order, each where it
/// is given.
pub open spec fn pagination_pairs(offset: Option<u32>, limit: Option<u32>) -> Seq<
    (Seq<char>, Seq<char>),
> {
    let o = match offset {
        Some(v) => seq![numeric_pair("offset"@, v)],
        None => Seq::empty(),
    };
    let l = match limit {
        Some(v) => seq![numeric_pair("limit"@, v)],
        None => Seq::empty(),
    };
    o + l
}

/// A list of borrowed-key query pairs, as characters.
pub open spec fn static_pairs_view(v: Seq<(&'static str, String)>) -> Seq<
    (Seq<char>, Seq<char>),
> {
    v.map_values(|p: (&'static str, String)| (p.0@, p.1@))
}

impl PaginationParams {
    /// Parameters with both an offset and a limit.
    pub fn new(offset: u32, limit: u32) -> (r: Self)
        ensures
            r.offset == Some(offset),
            r.limit == Some(limit),
    {
        PaginationParams { offset: Some(offset), limit: Some(limit) }
    }

    /// The parameters as query pairs: `offset` first, then `limit`, each only
    /// where it is set.
    pub fn to_query(&self) -> (r: Vec<(&'static str, String)>)
        ensures
            static_pairs_view(r@) == pagination_pairs(self.offset, self.limit),
    {
        let mut params: Vec<(&'static str, String)> = Vec::new();
        if let Some(offset) = self.offset {
            params.push(("offset", decimal_string(offset as u64)));
        }
        if let Some(limit) = self.limit {
            params.push(("limit", decimal_string(limit as u64)));
        }
        assert(static_pairs_view(params@) =~= pagination_pairs(self.offset, self.limit));
        params
    }
}

/// A copy of a list of query pairs.
pub fn copy_pairs(query: &Vec<(String, String)>) -> (r: Vec<(String, String)>)
    ensures
        pairs_view(r@) == pairs_view(query@),
{
    let mut q: Vec<(String, String)> = Vec::new();
    let n = query.len();
    let mut i: usize = 0;
    while i < n
        invariant
            n == query@.len(),
            i <= n,
            pairs_view(q@) == pairs_view(query@).subrange(0, i as int),
        decreases n - i,
    {
        let pair = (query[i].0.clone(), query[i].1.clone());
        proof {
            lemma_pairs_view_push(q@, pair);
            assert(pairs_view(query@).subrange(0, i + 1) =~= pairs_view(query@).subrange(
                0,
                i as int,
            ).push((pair.0@, pair.1@)));
        }
        q.push(pair);
        i = i + 1;
    }
    assert(pairs_view(query@).subrange(0, n as int) =~= pairs_view(query@));
    q
}

/// The query of one paginated request: the caller's pairs, then the
/// pagination pairs, or a `limit` of 100 when no parameters are given.
pub open spec fn paginated_pairs(
    query: Seq<(Seq<char>, Seq<char>)>,
    params: Option<PaginationParams>,
) -> Seq<(Seq<char>, Seq<char>)> {
    match params {
        Some(p) => query + pagination_pairs(p.offset, p.limit),
        None => query + seq![numeric_pair("limit"@, DEFAULT_PAGINATION_LIMIT)],
    }
}

/// Builds the query of a single paginated request.
pub fn paginated_query(query: &Vec<(String, String)>, params: Option<&PaginationParams>) -> (r: Vec<
    (String, String),
>)
    ensures
        pairs_view(r@) == paginated_pairs(
            pairs_view(query@),
            match params {
                Some(p) => Some(*p),
                None => None,
            },
        ),
{
    let mut q = copy_pairs(query);
    let ghost base = pairs_view(query@);
    match params {
        Some(p) => {
            let extra = p.to_query();
            let n = extra.len();
            let mut i: usize = 0;
            while i < n
                invariant
                    n == extra@.len(),
                    i <= n,
                    pairs_view(q@) == base + static_pairs_view(extra@).subrange(0, i as int),
                decreases n - i,
            {
                let pair = (extra[i].0.to_owned(), extra[i].1.clone());
                proof {
                    lemma_pairs_view_push(q@, pair);
                    assert(static_pairs_view(extra@).subrange(0, i + 1) =~= static_pairs_view(
                        extra@,
                    ).subrange(0, i as int).push((pair.0@, pair.1@)));
                }
                q.push(pair);
                i = i + 1;
            }
            assert(static_pairs_view(extra@).subrange(0, n as int) =~= static_pairs_view(
                extra@,
            ));
        },
        None => {
            q.push(("limit".to_owned(), decimal_string(DEFAULT_PAGINATION_LIMIT as u64)));
            assert(pairs_view(q@) =~= base + seq![
                numeric_pair("limit"@, DEFAULT_PAGINATION_LIMIT),
            ]);
        },
    }
    q
}

/// Position in a walk through all pages of a listing.
#[derive(Debug, Clone, Copy)]
pub struct PageCursor {
    /// Offset of the next page to request.
    pub offset: u32,
    /// Number of items asked for per page.
    pub limit: u32,
}

impl PageCursor {
    /// The first page, with the default page size.
    pub fn start() -> (c: Self)
        ensures
            c.offset == 0,
            c.limit == DEFAULT_PAGINATION_LIMIT,
    {
        PageCursor { offset: 0, limit: DEFAULT_PAGINATION_LIMIT }
    }

    /// The query of the current page: the caller's pairs, then `offset` and
    /// `limit`.
    pub fn page_query(&self, query: &Vec<(String, String)>) -> (r: Vec<(String, String)>)
        ensures
            pairs_view(r@) == pairs_view(query@) + seq![
                numeric_pair("offset"@, self.offset),
                numeric_pair("limit"@, self.limit),
            ],
    {
        let mut q = copy_pairs(query);
        q.push(("offset".to_owned(), decimal_string(self.offset as u64)));
        q.push(("limit".to_owned(), decimal_string(self.limit as u64)));
        assert(pairs_view(q@) =~= pairs_view(query@) + seq![
            numeric_pair("offset"@, self.offset),
            numeric_pair("limit"@, self.limit),
        ]);
        q
    }

    /// Records that the current page brought `received` items out of `total`
    /// and tells whether another page must be fetched; if so, moves the cursor
    /// past the records received (one page size on, when the page was empty),
    /// so that no record is skipped when the server sends fewer records than
    /// asked for. The count is taken modulo 2^32, as a `u32`.
    pub fn advance(&mut self, received: usize, total: u32) -> (more: bool)
        requires
            old(self).offset + (received as u32) <= u32::MAX,
            old(self).offset + (received as u32) < total && (received as u32) == 0
                ==> old(self).offset + old(self).limit <= u32::MAX,
        ensures
            more == more_pages(old(self).offset as int, (received as u32) as int, total as int),
            final(self).limit == old(self).limit,
            more ==> final(self).offset == old(self).offset + page_step(
                (received as u32) as int,
                old(self).limit as int,
            ),
            !more ==> final(self).offset == old(self).offset,
    {
        let c: u32 = received as u32;
        if self.offset + c >= total {
            false
        } else {
            if c > 0 {
                self.offset = self.offset + c;
            } else {
                self.offset = self.offset + self.limit;
            }
            true
        }
    }
}

/// Whether another page must be fetched after the page at `offset` brought
/// `received` records out of `total`: the records seen so far fall short.
pub open spec fn more_pages(offset: int, received: int, total: int) -> bool {
    offset + received < total
}

/// How far the cursor moves after a page that brought `received` records:
/// past them, or one page size on when the page was empty.
pub open spec fn page_step(received: int, limit: int) -> int {
    if received > 0 {
        received
    } else {
        limit
    }
}

/// The number of records sent for the page at `offset` of size `limit` by a
/// server that holds `total` records and sends at most `cap` per page: as many
/// as asked for and allowed, or what is left.
pub open spec fn page_size(offset: int, limit: int, cap: int, total: int) -> int {
    let most = if limit < cap {
        limit
    } else {
        cap
    };
    if total - offset < most {
        total - offset
    } else {
        most
    }
}

/// The positions of the records gathered by a walk through the pages of such
/// a server that starts at `offset`, and moves on as `PageCursor::advance`
/// does while the records seen so far fall short of `total`.
pub open spec fn records_walked(offset: int, limit: int, cap: int, total: int) -> Seq<int>
    decreases (if offset < total {
        total - offset
    } else {
        0
    }),
{
    let page = page_size(offset, limit, cap, total);
    let here = Seq::new(
        if page > 0 {
            page as nat
        } else {
            0
        },
        |i: int| offset + i,
    );
    let step = page_step(page, limit);
    if offset < total && more_pages(offset, page, total) && step > 0 {
        here + records_walked(offset + step, limit, cap, total)
    } else {
        here
    }
}

/// Walking through every page of a listing gathers each of its records once,
/// in order, whatever the number of records the server sends per page: from
/// any offset inside the listing, the pages left hold exactly the records
/// left.
pub proof fn lemma_walk_gathers_every_record(offset: int, limit: int, cap: int, total: int)
    requires
        limit >= 1,
        cap >= 1,
        0 <= offset <= total,
    ensures
        records_walked(offset, limit, cap, total) == Seq::new(
            (total - offset) as nat,
            |i: int| offset + i,
        ),
    decreases total - offset,
{
    let page = page_size(offset, limit, cap, total);
    if offset + page < total {
        lemma_walk_gathers_every_record(offset + page, limit, cap, total);
    }
    assert(records_walked(offset, limit, cap, total) =~= Seq::new(
        (total - offset) as nat,
        |i: int| offset + i,
    ));
}

} // verus!
