use vstd::prelude::*;

use crate::error::AppError;
use crate::text::same_text;

verus! {

/// Shared server-list traversal budget: at most this many items in one listing.
pub const SERVER_LIST_MAX_ITEMS: u32 = 100_000;

/// At most this many pages in one listing.
pub const SERVER_LIST_MAX_PAGES: u32 = 1_000;

/// The only page size the server may use.
pub const SERVER_LIST_PAGE_SIZE: u32 = 100;

/// `ceil(total / 100)`.
pub open spec fn page_count_for(total: int) -> int {
    (total + 99) / 100
}

/// Untrusted pagination metadata of one server-list page.
#[derive(Debug, Clone, Copy, PartialEq, Eq, Structural)]
pub struct PaginationInput {
    pub requested_page: u32,
    pub page: u32,
    pub per_page: u32,
    pub total: u32,
    pub pages: u32,
}

/// Why pagination metadata was refused.
#[derive(Debug, Clone, Copy, PartialEq, Eq, Structural)]
pub enum PaginationError {
    Origin,
    PageSize,
    PageCap,
    ZeroMismatch,
    PageCount,
    Drift,
}

/// The message of each pagination failure.
pub open spec fn pagination_error_text(e: PaginationError) -> Seq<char> {
    match e {
        PaginationError::Origin => "pagination origin changed"@,
        PaginationError::PageSize => "pagination page size changed"@,
        PaginationError::PageCap => "pagination exceeded the page cap"@,
        PaginationError::ZeroMismatch => "zero page count does not match zero total"@,
        PaginationError::PageCount => "pagination total and page count disagree"@,
        PaginationError::Drift => "pagination changed during enumeration"@,
    }
}

impl PaginationError {
    /// Whether the metadata changed between pages of one listing.
    pub fn is_drift(&self) -> (r: bool)
        ensures
            r == (*self is Drift),
    {
        match self {
            PaginationError::Drift => true,
            _ => false,
        }
    }

    /// The failure's message.
    pub fn message(&self) -> (text: &'static str)
        ensures
            text@ == pagination_error_text(*self),
    {
        match self {
            PaginationError::Origin => "pagination origin changed",
            PaginationError::PageSize => "pagination page size changed",
            PaginationError::PageCap => "pagination exceeded the page cap",
            PaginationError::ZeroMismatch => "zero page count does not match zero total",
            PaginationError::PageCount => "pagination total and page count disagree",
            PaginationError::Drift => "pagination changed during enumeration",
        }
    }
}

/// The first rule that the metadata breaks, in the order the rules are
/// checked: the origin (the page answered is the page requested), the page
/// size, the page cap, a requested page beyond a non-empty listing, the
/// zero page count agreeing with the zero total, and the page count
/// agreeing with the total.
pub open spec fn pagination_violation(input: PaginationInput) -> Option<PaginationError> {
    if input.page != input.requested_page {
        Some(PaginationError::Origin)
    } else if input.per_page != SERVER_LIST_PAGE_SIZE {
        Some(PaginationError::PageSize)
    } else if input.pages > SERVER_LIST_MAX_PAGES {
        Some(PaginationError::PageCap)
    } else if input.pages != 0 && input.page >= input.pages {
        Some(PaginationError::PageCap)
    } else if (input.pages == 0) != (input.total == 0) {
        Some(PaginationError::ZeroMismatch)
    } else if input.pages as int != page_count_for(input.total as int) {
        Some(PaginationError::PageCount)
    } else {
        None
    }
}

/// Validated, stable pagination metadata for one server-list page.
#[derive(Debug, Clone, Copy, PartialEq, Eq, Structural)]
pub struct Pagination {
    pages: u32,
    total: u32,
    per_page: u32,
}

impl Pagination {
    #[verifier::type_invariant]
    spec fn well_formed(self) -> bool {
        &&& self.per_page == SERVER_LIST_PAGE_SIZE
        &&& self.pages <= SERVER_LIST_MAX_PAGES
        &&& (self.pages == 0) == (self.total == 0)
        &&& self.pages as int == page_count_for(self.total as int)
    }

    /// The advertised page count.
    pub closed spec fn pages_spec(self) -> u32 {
        self.pages
    }

    /// The advertised item total.
    pub closed spec fn total_spec(self) -> u32 {
        self.total
    }

    /// Validates the metadata: the first broken rule of
    /// `pagination_violation` is the error.
    pub fn try_from(input: PaginationInput) -> (r: Result<Pagination, PaginationError>)
        ensures
            pagination_violation(input) is Some ==> r == Err::<Pagination, PaginationError>(
                pagination_violation(input)->0,
            ),
            pagination_violation(input) is None ==> (r is Ok && r->Ok_0.pages_spec() == input.pages
                && r->Ok_0.total_spec() == input.total),
    {
        if input.page != input.requested_page {
            return Err(PaginationError::Origin);
        }
        if input.per_page != SERVER_LIST_PAGE_SIZE {
            return Err(PaginationError::PageSize);
        }
        if input.pages > SERVER_LIST_MAX_PAGES {
            return Err(PaginationError::PageCap);
        }
        if input.pages != 0 && input.page >= input.pages {
            return Err(PaginationError::PageCap);
        }
        if (input.pages == 0) != (input.total == 0) {
            return Err(PaginationError::ZeroMismatch);
        }
        let quotient = input.total / SERVER_LIST_PAGE_SIZE;
        let needed = if input.total % SERVER_LIST_PAGE_SIZE == 0 {
            quotient
        } else {
            quotient + 1
        };
        assert(needed as int == page_count_for(input.total as int));
        if input.pages != needed {
            return Err(PaginationError::PageCount);
        }
        Ok(Pagination { pages: input.pages, total: input.total, per_page: input.per_page })
    }

    /// Refuses metadata that differs from the previous page's.
    pub fn ensure_stable(self, previous: Option<Pagination>) -> (r: Result<Pagination, PaginationError>)
        ensures
            (previous is Some && previous->0 != self) ==> r == Err::<Pagination, PaginationError>(
                PaginationError::Drift,
            ),
            !(previous is Some && previous->0 != self) ==> r == Ok::<Pagination, PaginationError>(
                self,
            ),
    {
        match previous {
            Some(p) => {
                if p != self {
                    return Err(PaginationError::Drift);
                }
            },
            None => {},
        }
        Ok(self)
    }

    /// The advertised page count.
    pub fn pages(self) -> (n: u32)
        ensures
            n == self.pages_spec(),
            n <= SERVER_LIST_MAX_PAGES,
    {
        proof {
            use_type_invariant(&self);
        }
        self.pages
    }

    /// The advertised item total.
    pub fn total(self) -> (n: u32)
        ensures
            n == self.total_spec(),
            n <= SERVER_LIST_MAX_ITEMS,
            (n == 0) == (self.pages_spec() == 0),
            self.pages_spec() as int == page_count_for(n as int),
    {
        proof {
            use_type_invariant(&self);
        }
        self.total
    }
}

// ---------------------------------------------------------------------------
// Exhaustive page scan
// ---------------------------------------------------------------------------

/// What the scan asks for next.
#[derive(Debug, Clone, Copy, PartialEq, Eq, Structural)]
pub enum ScanStep {
    /// Fetch the page with this zero-based index.
    FetchPage(u32),
    /// The listing was read completely and reconciles.
    Complete(ScanSummary),
}

/// The counts of a completed exhaustive scan.
#[derive(Debug, Clone, Copy, PartialEq, Eq, Structural)]
pub struct ScanSummary {
    pub pages_requested: u32,
    pub items_seen: u32,
    pub advertised_total: u32,
}

/// Whether no two ids of `ids` are equal.
pub open spec fn distinct_ids(ids: Seq<Seq<char>>) -> bool {
    forall|i: int, j: int| 0 <= i < j < ids.len() ==> ids[i] != ids[j]
}

/// The ids of a page, as texts.
pub open spec fn id_texts(ids: Seq<String>) -> Seq<Seq<char>> {
    ids.map_values(|s: String| s@)
}

/// The first index of `page` at which the scan stops: the item cap is
/// passed, or the id was seen before (earlier in the listing or earlier on
/// this page). `page.len()` when every item is accepted.
pub open spec fn first_rejected(seen: Seq<Seq<char>>, page: Seq<Seq<char>>) -> int
    decreases page.len(),
{
    if page.len() == 0 {
        0
    } else {
        let k = first_rejected(seen, page.drop_last());
        if k < page.len() - 1 {
            k
        } else if seen.len() + page.len() > SERVER_LIST_MAX_ITEMS {
            page.len() - 1
        } else if (seen + page.drop_last()).contains(page.last()) {
            page.len() - 1
        } else {
            page.len() as int
        }
    }
}

/// The metadata of a page answered for the request of page `requested`.
pub open spec fn as_requested(input: PaginationInput, requested: u32) -> PaginationInput {
    PaginationInput { requested_page: requested, ..input }
}

/// Zero-based exhaustive scan of one server listing, one page at a time.
///
/// The scan starts at page 0, requires every page to carry the same valid
/// metadata, refuses more than 100,000 items and any repeated id, and at the
/// end requires the number of items seen to equal the advertised total.
pub struct ScanState {
    next_page: u32,
    pages_requested: u32,
    fingerprint: Option<Pagination>,
    seen_ids: Vec<String>,
    page_open: bool,
    finished: bool,
}

impl ScanState {
    /// The scan's internal invariant: one request per page before the
    /// current one, each seen id distinct, the item cap kept, metadata held
    /// exactly once a page was opened, and the page inside the listing.
    pub closed spec fn wf(self) -> bool {
        &&& self.seen_ids.len() <= SERVER_LIST_MAX_ITEMS
        &&& distinct_ids(id_texts(self.seen_ids@))
        &&& self.pages_requested == self.next_page
        &&& self.next_page < SERVER_LIST_MAX_PAGES
        &&& !self.finished ==> (self.fingerprint is None <==> (self.next_page == 0
            && !self.page_open))
        &&& (!self.finished && self.fingerprint is Some) ==> (if self.fingerprint->0.pages_spec()
            == 0 {
            self.next_page == 0
        } else {
            self.next_page < self.fingerprint->0.pages_spec()
        })
    }

    /// The page the scan asks for next (or reads now).
    pub closed spec fn next_page_spec(self) -> u32 {
        self.next_page
    }

    /// The ids seen so far, in listing order.
    pub closed spec fn seen_spec(self) -> Seq<Seq<char>> {
        id_texts(self.seen_ids@)
    }

    /// The metadata of the pages opened so far.
    pub closed spec fn fingerprint_spec(self) -> Option<Pagination> {
        self.fingerprint
    }

    /// Whether a page's items are being read.
    pub closed spec fn page_open_spec(self) -> bool {
        self.page_open
    }

    /// Whether the scan has ended.
    pub closed spec fn finished_spec(self) -> bool {
        self.finished
    }

    /// A scan that asks for page 0 first.
    pub fn new() -> (s: ScanState)
        ensures
            s.wf(),
            s.next_page_spec() == 0,
            s.seen_spec() == Seq::<Seq<char>>::empty(),
            s.fingerprint_spec() is None,
            !s.page_open_spec(),
            !s.finished_spec(),
    {
        let s = ScanState {
            next_page: 0,
            pages_requested: 0,
            fingerprint: None,
            seen_ids: Vec::new(),
            page_open: false,
            finished: false,
        };
        proof {
            assert(id_texts(s.seen_ids@) =~= Seq::<Seq<char>>::empty());
        }
        s
    }

    /// The page the scan asks for next.
    pub fn next_page(&self) -> (page: u32)
        ensures
            page == self.next_page_spec(),
    {
        self.next_page
    }

    /// Opens the page the scan asked for with the metadata it carries (its
    /// requested page is the one the scan asked for). Refused metadata is a
    /// compatibility failure, or a reconciliation failure when it drifted
    /// from the earlier pages.
    pub fn begin_page(&mut self, entity: &str, input: PaginationInput) -> (r: Result<(), AppError>)
        requires
            old(self).wf(),
            !old(self).finished_spec(),
            !old(self).page_open_spec(),
        ensures
            final(self).wf(),
            final(self).seen_spec() == old(self).seen_spec(),
            final(self).next_page_spec() == old(self).next_page_spec(),
            ({
                let validated = pagination_violation(as_requested(input, old(self).next_page_spec()));
                let drifted = validated is None && old(self).fingerprint_spec() is Some && (
                old(self).fingerprint_spec()->0.pages_spec() != input.pages
                    || old(self).fingerprint_spec()->0.total_spec() != input.total);
                if validated is Some {
                    r is Err && r->Err_0 is ApiIncompatible && final(self).finished_spec()
                } else if drifted {
                    r is Err && r->Err_0 is Reconciliation && final(self).finished_spec()
                } else {
                    &&& r is Ok
                    &&& !final(self).finished_spec()
                    &&& final(self).page_open_spec()
                    &&& final(self).fingerprint_spec() is Some
                    &&& final(self).fingerprint_spec()->0.pages_spec() == input.pages
                    &&& final(self).fingerprint_spec()->0.total_spec() == input.total
                }
            }),
    {
        let checked = PaginationInput {
            requested_page: self.next_page,
            page: input.page,
            per_page: input.per_page,
            total: input.total,
            pages: input.pages,
        };
        let pagination = match Pagination::try_from(checked) {
            Ok(p) => p,
            Err(e) => {
                self.finished = true;
                return Err(AppError::ApiIncompatible(entity_message(entity, e.message())));
            },
        };
        proof {
            use_type_invariant(&pagination);
            match self.fingerprint {
                Some(f) => {
                    use_type_invariant(&f);
                },
                None => {},
            }
        }
        let pagination = match pagination.ensure_stable(self.fingerprint) {
            Ok(p) => p,
            Err(e) => {
                self.finished = true;
                return Err(AppError::Reconciliation(entity_message(entity, e.message())));
            },
        };
        self.fingerprint = Some(pagination);
        self.page_open = true;
        Ok(())
    }

    /// Counts one item of the open page: passing the item cap is a
    /// compatibility failure and a repeated id a reconciliation failure.
    pub fn accept_item(&mut self, entity: &str, id: &str) -> (r: Result<(), AppError>)
        requires
            old(self).wf(),
            !old(self).finished_spec(),
            old(self).page_open_spec(),
        ensures
            final(self).wf(),
            final(self).next_page_spec() == old(self).next_page_spec(),
            final(self).fingerprint_spec() == old(self).fingerprint_spec(),
            final(self).page_open_spec(),
            old(self).seen_spec().len() >= SERVER_LIST_MAX_ITEMS ==> (r is Err && r->Err_0
                is ApiIncompatible && final(self).finished_spec()),
            old(self).seen_spec().len() < SERVER_LIST_MAX_ITEMS && old(self).seen_spec().contains(
                id@,
            ) ==> (r is Err && r->Err_0 is Reconciliation && final(self).finished_spec()),
            old(self).seen_spec().len() < SERVER_LIST_MAX_ITEMS && !old(self).seen_spec().contains(
                id@,
            ) ==> (r is Ok && !final(self).finished_spec() && final(self).seen_spec()
                == old(self).seen_spec().push(id@)),
    {
        if self.seen_ids.len() >= SERVER_LIST_MAX_ITEMS as usize {
            self.finished = true;
            let mut message = String::from_str(entity);
            message.append(" enumeration exceeded 100,000-item cap");
            return Err(AppError::ApiIncompatible(message));
        }
        if contains_text(&self.seen_ids, id) {
            self.finished = true;
            let mut message = String::from_str(entity);
            message.append(" enumeration repeated an entity id");
            return Err(AppError::Reconciliation(message));
        }
        let ghost before = self.seen_ids@;
        let copy = id.to_owned();
        self.seen_ids.push(copy);
        proof {
            assert(id_texts(self.seen_ids@) =~= id_texts(before).push(id@));
            assert forall|i: int, j: int|
                0 <= i < j < id_texts(self.seen_ids@).len() implies id_texts(self.seen_ids@)[i]
                != id_texts(self.seen_ids@)[j] by {
                assert(id_texts(self.seen_ids@)[i] == id_texts(before)[i]);
                if j < id_texts(before).len() {
                    assert(id_texts(self.seen_ids@)[j] == id_texts(before)[j]);
                }
            }
        }
        Ok(())
    }

    /// Closes the open page. After the last page the items seen must equal
    /// the advertised total; otherwise the scan asks for the next page.
    pub fn end_page(&mut self, entity: &str) -> (r: Result<ScanStep, AppError>)
        requires
            old(self).wf(),
            !old(self).finished_spec(),
            old(self).page_open_spec(),
        ensures
            final(self).wf(),
            !final(self).page_open_spec(),
            final(self).seen_spec() == old(self).seen_spec(),
            final(self).fingerprint_spec() == old(self).fingerprint_spec(),
            ({
                let fp = old(self).fingerprint_spec()->0;
                let page = old(self).next_page_spec();
                if fp.pages_spec() == 0 || page + 1 >= fp.pages_spec() {
                    &&& final(self).finished_spec()
                    &&& if old(self).seen_spec().len() != fp.total_spec() {
                        r is Err && r->Err_0 is Reconciliation
                    } else {
                        r == Ok::<ScanStep, AppError>(
                            ScanStep::Complete(
                                ScanSummary {
                                    pages_requested: (page + 1) as u32,
                                    items_seen: fp.total_spec(),
                                    advertised_total: fp.total_spec(),
                                },
                            ),
                        )
                    }
                } else {
                    &&& !final(self).finished_spec()
                    &&& final(self).next_page_spec() == page + 1
                    &&& r == Ok::<ScanStep, AppError>(ScanStep::FetchPage((page + 1) as u32))
                }
            }),
    {
        self.page_open = false;
        let pagination = match self.fingerprint {
            Some(p) => p,
            None => {
                self.finished = true;
                return Err(AppError::Internal("scan page closed before it was opened".to_owned()));
            },
        };
        let pages = pagination.pages();
        let total = pagination.total();
        if pages == 0 || self.next_page + 1 >= pages {
            self.finished = true;
            if self.seen_ids.len() != total as usize {
                let mut message = String::from_str(entity);
                message.append(" enumeration ended before the advertised total");
                return Err(AppError::Reconciliation(message));
            }
            return Ok(
                ScanStep::Complete(
                    ScanSummary {
                        pages_requested: self.pages_requested + 1,
                        items_seen: total,
                        advertised_total: total,
                    },
                ),
            );
        }
        self.next_page = self.next_page + 1;
        self.pages_requested = self.pages_requested + 1;
        Ok(ScanStep::FetchPage(self.next_page))
    }

    /// Ends the scan early, on a failure found by the caller.
    pub fn abandon(&mut self)
        requires
            old(self).wf(),
        ensures
            final(self).wf(),
            final(self).finished_spec(),
            final(self).seen_spec() == old(self).seen_spec(),
            final(self).next_page_spec() == old(self).next_page_spec(),
            final(self).fingerprint_spec() == old(self).fingerprint_spec(),
    {
        self.finished = true;
    }

    /// Takes the ids and metadata of the page the scan asked for: opens the
    /// page, counts its items in order and closes it.
    pub fn accept_page(&mut self, entity: &str, ids: &Vec<String>, input: PaginationInput) -> (r: Result<ScanStep, AppError>)
        requires
            old(self).wf(),
            !old(self).finished_spec(),
            !old(self).page_open_spec(),
        ensures
            final(self).wf(),
            !final(self).finished_spec() ==> !final(self).page_open_spec(),
            ({
                let validated = pagination_violation(as_requested(input, old(self).next_page_spec()));
                let drifted = validated is None && old(self).fingerprint_spec() is Some && (
                old(self).fingerprint_spec()->0.pages_spec() != input.pages
                    || old(self).fingerprint_spec()->0.total_spec() != input.total);
                let k = first_rejected(old(self).seen_spec(), id_texts(ids@));
                let page = old(self).next_page_spec();
                if validated is Some {
                    r is Err && r->Err_0 is ApiIncompatible && final(self).finished_spec()
                } else if drifted {
                    r is Err && r->Err_0 is Reconciliation && final(self).finished_spec()
                } else if k < ids.len() {
                    r is Err && final(self).finished_spec() && (if old(self).seen_spec().len() + k
                        + 1 > SERVER_LIST_MAX_ITEMS {
                        r->Err_0 is ApiIncompatible
                    } else {
                        r->Err_0 is Reconciliation
                    })
                } else {
                    let seen = old(self).seen_spec() + id_texts(ids@);
                    &&& final(self).seen_spec() == seen
                    &&& final(self).fingerprint_spec() is Some
                    &&& final(self).fingerprint_spec()->0.pages_spec() == input.pages
                    &&& final(self).fingerprint_spec()->0.total_spec() == input.total
                    &&& if input.pages == 0 || page + 1 >= input.pages {
                        &&& final(self).finished_spec()
                        &&& if seen.len() != input.total {
                            r is Err && r->Err_0 is Reconciliation
                        } else {
                            r == Ok::<ScanStep, AppError>(
                                ScanStep::Complete(
                                    ScanSummary {
                                        pages_requested: (page + 1) as u32,
                                        items_seen: input.total,
                                        advertised_total: input.total,
                                    },
                                ),
                            )
                        }
                    } else {
                        &&& !final(self).finished_spec()
                        &&& final(self).next_page_spec() == page + 1
                        &&& r == Ok::<ScanStep, AppError>(ScanStep::FetchPage((page + 1) as u32))
                    }
                }
            }),
    {
        self.begin_page(entity, input)?;
        let ghost seen0 = self.seen_spec();
        let mut index: usize = 0;
        while index < ids.len()
            invariant
                0 <= index <= ids.len(),
                self.wf(),
                !self.finished_spec(),
                self.page_open_spec(),
                self.seen_spec() == seen0 + id_texts(ids@).take(index as int),
                seen0 == old(self).seen_spec(),
                first_rejected(seen0, id_texts(ids@).take(index as int)) == index,
                self.next_page_spec() == old(self).next_page_spec(),
                self.fingerprint_spec() is Some,
                self.fingerprint_spec()->0.pages_spec() == input.pages,
                self.fingerprint_spec()->0.total_spec() == input.total,
                pagination_violation(as_requested(input, old(self).next_page_spec())) is None,
                old(self).fingerprint_spec() is Some ==> (old(self).fingerprint_spec()->0.pages_spec()
                    == input.pages && old(self).fingerprint_spec()->0.total_spec() == input.total),
            decreases ids.len() - index,
        {
            let ghost page_prefix = id_texts(ids@).take(index as int + 1);
            proof {
                assert(page_prefix.drop_last() =~= id_texts(ids@).take(index as int));
                assert(page_prefix.last() == ids@[index as int]@);
                assert(page_prefix =~= id_texts(ids@).take(index as int).push(ids@[index as int]@));
            }
            let accepted = self.accept_item(entity, ids[index].as_str());
            match accepted {
                Ok(()) => {},
                Err(e) => {
                    proof {
                        assert(first_rejected(seen0, page_prefix) == index);
                        lemma_first_rejected_prefix(
                            seen0,
                            id_texts(ids@),
                            index as int + 1,
                            index as int,
                        );
                    }
                    return Err(e);
                },
            }
            proof {
                assert(first_rejected(seen0, page_prefix) == index + 1);
                assert(self.seen_spec() =~= seen0 + page_prefix);
            }
            index = index + 1;
        }
        proof {
            assert(id_texts(ids@).take(ids.len() as int) =~= id_texts(ids@));
            lemma_first_rejected_all(seen0, id_texts(ids@));
        }
        self.end_page(entity)
    }
}

/// `<entity> <message>`.
fn entity_message(entity: &str, message: &str) -> (text: String)
    ensures
        text@ == entity@ + " "@ + message@,
{
    let mut text = String::from_str(entity);
    text.append(" ");
    text.append(message);
    text
}

/// Whether some text of `ids` equals `id`.
fn contains_text(ids: &Vec<String>, id: &str) -> (r: bool)
    ensures
        r == id_texts(ids@).contains(id@),
{
    let mut index: usize = 0;
    while index < ids.len()
        invariant
            0 <= index <= ids.len(),
            forall|j: int| 0 <= j < index ==> ids@[j]@ != id@,
        decreases ids.len() - index,
    {
        if same_text(ids[index].as_str(), id) {
            proof {
                assert(id_texts(ids@)[index as int] == id@);
            }
            return true;
        }
        index = index + 1;
    }
    proof {
        if id_texts(ids@).contains(id@) {
            let j = choose|j: int| 0 <= j < id_texts(ids@).len() && id_texts(ids@)[j] == id@;
            assert(ids@[j]@ == id@);
        }
    }
    false
}

/// A rejection inside a prefix is the rejection of the whole page.
proof fn lemma_first_rejected_prefix(seen: Seq<Seq<char>>, page: Seq<Seq<char>>, n: int, m: int)
    requires
        0 <= m < n <= page.len(),
        first_rejected(seen, page.take(n)) == m,
    ensures
        first_rejected(seen, page) == m,
    decreases page.len() - n,
{
    if n < page.len() {
        assert(page.take(n + 1).drop_last() =~= page.take(n));
        assert(page.take(n + 1).len() == n + 1);
        assert(first_rejected(seen, page.take(n + 1)) == m);
        lemma_first_rejected_prefix(seen, page, n + 1, m);
    } else {
        assert(page.take(n) =~= page);
    }
}

/// The whole page is its own prefix.
proof fn lemma_first_rejected_all(seen: Seq<Seq<char>>, page: Seq<Seq<char>>)
    ensures
        first_rejected(seen, page.take(page.len() as int)) == first_rejected(seen, page),
{
    assert(page.take(page.len() as int) =~= page);
}

} // verus!
