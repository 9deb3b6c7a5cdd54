//! Bookkeeping of the shared-memory pages that the service hands out, and the
//! checks that locate a resource inside such a page.

use vstd::prelude::*;
use crate::error_handling::{ErrorType, PartialError, PartialErrorModel, result_view};
use std::collections::HashMap;

verus! {

broadcast use vstd::std_specs::hash::group_hash_axioms;

/// Asks the system for its memory page size through `nix::unistd::sysconf`
/// with `SysconfVar::PAGE_SIZE`. An error and "no value" both come back as
/// `None`. The value depends on the machine; what holds of every outcome is
/// that a value of `-1` is never handed back, since `sysconf` maps it to
/// `None` or to an error.
#[verifier::external_body]
fn query_page_size() -> (r: Option<i64>)
    ensures
        r matches Some(v) ==> v != -1,
{
    match nix::unistd::sysconf(nix::unistd::SysconfVar::PAGE_SIZE) {
        Ok(v) => v,
        Err(_) => None,
    }
}

/// Whether `offset` is a multiple of `align`, as `usize::is_multiple_of` decides
/// it (only zero is a multiple of zero).
pub open spec fn spec_is_multiple_of(offset: usize, align: usize) -> bool {
    if align == 0 {
        offset == 0
    } else {
        offset % align == 0
    }
}

/// Where a resource of `size` bytes aligned to `align` lies at `offset` in a
/// page of `page_size` bytes mapped at `base`, or why it cannot be accessed there.
pub open spec fn spec_access(
    page_size: usize,
    base: usize,
    offset: usize,
    size: usize,
    align: usize,
) -> Result<usize, PartialErrorModel> {
    if offset + size > page_size {
        Err(PartialErrorModel { error_type: ErrorType::ShmAccessOutOfBounds, details: None })
    } else if !spec_is_multiple_of(offset, align) {
        Err(PartialErrorModel { error_type: ErrorType::ShmMisalignedAccess, details: None })
    } else {
        Ok((base + offset) as usize)
    }
}

/// What a [`ShmConsumer`] holds, as plain values: the system's page size and,
/// for each loaded page, the address at which it is mapped.
pub struct ShmConsumerModel {
    pub page_size: usize,
    pub pages: Map<usize, usize>,
}

/// The page size is positive, and every mapped page starts above address
/// zero and ends within the address space.
pub open spec fn spec_pages_valid(page_size: usize, pages: Map<usize, usize>) -> bool {
    &&& page_size > 0
    &&& forall|p: usize| #[trigger]
        pages.contains_key(p) ==> 0 < pages[p] && pages[p] + page_size <= usize::MAX
}

/// The pages of shared memory that this process has mapped, by page number.
pub struct ShmConsumer {
    page_size: usize,
    pages: HashMap<usize, usize>,
}

impl View for ShmConsumer {
    type V = ShmConsumerModel;

    closed spec fn view(&self) -> ShmConsumerModel {
        ShmConsumerModel { page_size: self.page_size, pages: self.pages@ }
    }
}

/// The message given when a page file does not have the size of a page.
pub open spec fn spec_page_size_mismatch() -> Seq<char> {
    "Size of received page file does not match the system's page size"@
}

impl ShmConsumer {
    /// The page size is positive, and every mapped page lies, away from
    /// address zero, within the address space.
    pub open spec fn wf(&self) -> bool {
        spec_pages_valid(self@.page_size, self@.pages)
    }

    /// A consumer with no page loaded, from the answer to the page-size query:
    /// an answer of no value, of zero, of a negative size or of one beyond
    /// `usize` gives `GetPageSizeFailed`.
    pub fn from_page_size(query: Option<i64>) -> (r: Result<Self, PartialError>)
        ensures
            match query {
                Some(v) if 0 < v <= usize::MAX => r matches Ok(c) && c.wf() && c@.page_size == v
                    && c@.pages == Map::<usize, usize>::empty(),
                _ => r matches Err(e) && e@ == (PartialErrorModel {
                    error_type: ErrorType::GetPageSizeFailed,
                    details: None,
                }),
            },
    {
        match query {
            Some(v) => {
                if v <= 0 || v as u64 > usize::MAX as u64 {
                    return Err(PartialError::new(ErrorType::GetPageSizeFailed));
                }
                Ok(Self { page_size: v as usize, pages: HashMap::new() })
            },
            None => Err(PartialError::new(ErrorType::GetPageSizeFailed)),
        }
    }

    /// A consumer with no page loaded, for the page size of this system.
    /// When the system reports no page size, a page size of zero, or a
    /// negative one, the result is `GetPageSizeFailed`.
    pub fn new() -> (r: Result<Self, PartialError>)
        ensures
            match r {
                Ok(c) => c.wf() && c@.pages == Map::<usize, usize>::empty(),
                Err(e) => e@ == (PartialErrorModel {
                    error_type: ErrorType::GetPageSizeFailed,
                    details: None,
                }),
            },
    {
        Self::from_page_size(query_page_size())
    }

    /// The system's page size.
    pub fn page_size(&self) -> (r: usize)
        ensures
            r == self@.page_size,
    {
        self.page_size
    }

    /// Whether the page with this number is mapped.
    pub fn is_loaded(&self, page: usize) -> (r: bool)
        ensures
            r == self@.pages.contains_key(page),
    {
        self.pages.contains_key(&page)
    }

    /// Checks the size that the file of a page reports (`st_size`, read as
    /// an unsigned size): it must be the page size, else `SharedMemoryError`.
    pub fn check_page_file(&self, file_size: i64) -> (r: Result<(), PartialError>)
        ensures
            (file_size as usize) == self@.page_size ==> r is Ok,
            (file_size as usize) != self@.page_size ==> (r matches Err(e) && e@ == (
            PartialErrorModel {
                error_type: ErrorType::SharedMemoryError,
                details: Some(spec_page_size_mismatch()),
            })),
    {
        #[verifier::truncate]
        let size = file_size as usize;
        if size != self.page_size {
            return Err(
                PartialError::with_details(
                    ErrorType::SharedMemoryError,
                    String::from_str(
                        "Size of received page file does not match the system's page size",
                    ),
                ),
            );
        }
        Ok(())
    }

    /// Records that `page` is now mapped at `base`.
    pub fn add_page(&mut self, page: usize, base: usize)
        requires
            old(self).wf(),
            !old(self)@.pages.contains_key(page),
            0 < base,
            base + old(self)@.page_size <= usize::MAX,
        ensures
            final(self).wf(),
            final(self)@.page_size == old(self)@.page_size,
            final(self)@.pages == old(self)@.pages.insert(page, base),
    {
        self.pages.insert(page, base);
    }

    /// The address of a resource of `size` bytes aligned to `align` at
    /// `offset` in the mapped page `page`.
    pub fn access_resource(&self, page: usize, offset: usize, size: usize, align: usize) -> (r:
        Result<usize, PartialError>)
        requires
            self.wf(),
            self@.pages.contains_key(page),
            offset + size <= usize::MAX,
        ensures
            result_view(r) == spec_access(
                self@.page_size,
                self@.pages[page],
                offset,
                size,
                align,
            ),
    {
        if offset + size > self.page_size {
            return Err(PartialError::new(ErrorType::ShmAccessOutOfBounds));
        }
        let aligned = if align == 0 {
            offset == 0
        } else {
            offset % align == 0
        };
        if !aligned {
            return Err(PartialError::new(ErrorType::ShmMisalignedAccess));
        }
        let base = *self.pages.get(&page).unwrap();
        Ok(base + offset)
    }

    /// Takes a resource in the shared memory page `page`: the page is
    /// recorded as mapped at `new_base` unless it already is mapped, and the
    /// resource's address in it is returned as [`ShmConsumer::access_resource`]
    /// computes it.
    pub fn consume(
        &mut self,
        page: usize,
        new_base: Option<usize>,
        offset: usize,
        size: usize,
        align: usize,
    ) -> (r: Result<usize, PartialError>)
        requires
            old(self).wf(),
            offset + size <= usize::MAX,
            !old(self)@.pages.contains_key(page) ==> (new_base matches Some(b) && 0 < b
                && b + old(self)@.page_size <= usize::MAX),
        ensures
            final(self).wf(),
            final(self)@.page_size == old(self)@.page_size,
            final(self)@.pages == if old(self)@.pages.contains_key(page) {
                old(self)@.pages
            } else {
                old(self)@.pages.insert(page, new_base.unwrap())
            },
            result_view(r) == spec_access(
                final(self)@.page_size,
                final(self)@.pages[page],
                offset,
                size,
                align,
            ),
    {
        if !self.is_loaded(page) {
            match new_base {
                Some(b) => self.add_page(page, b),
                None => {},
            }
        }
        self.access_resource(page, offset, size, align)
    }
}

/// Locating a resource in a page: it fails as out of bounds exactly when the
/// resource would reach past the end of the page; otherwise it fails as
/// misaligned exactly when its offset is not a multiple of the alignment (for
/// an alignment of zero, when the offset is not zero); and otherwise it lies
/// at the page's base plus its offset.
pub proof fn lemma_access_outcomes(
    page_size: usize,
    base: usize,
    offset: usize,
    size: usize,
    align: usize,
)
    requires
        base + page_size <= usize::MAX,
    ensures
        (spec_access(page_size, base, offset, size, align) == Err::<usize, PartialErrorModel>(
            PartialErrorModel { error_type: ErrorType::ShmAccessOutOfBounds, details: None },
        )) <==> offset + size > page_size,
        (spec_access(page_size, base, offset, size, align) == Err::<usize, PartialErrorModel>(
            PartialErrorModel { error_type: ErrorType::ShmMisalignedAccess, details: None },
        )) <==> (offset + size <= page_size && (if align == 0 {
            offset != 0
        } else {
            offset % align != 0
        })),
        offset + size <= page_size && align > 0 && offset % align == 0 ==> (spec_access(
            page_size,
            base,
            offset,
            size,
            align,
        ) matches Ok(a) && a == base + offset),
        offset + size <= page_size && align == 0 && offset == 0 ==> spec_access(
            page_size,
            base,
            offset,
            size,
            align,
        ) == Ok::<usize, PartialErrorModel>(base),
{
}

/// Once a page is recorded, accessing a resource in it gives an address
/// inside that page, never before its base and never past its end.
pub proof fn lemma_access_within_page(
    page_size: usize,
    base: usize,
    offset: usize,
    size: usize,
    align: usize,
)
    requires
        base + page_size <= usize::MAX,
        spec_access(page_size, base, offset, size, align) is Ok,
    ensures
        spec_access(page_size, base, offset, size, align) matches Ok(a) && base <= a && a + size
            <= base + page_size,
{
}

} // verus!
