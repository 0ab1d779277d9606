//! Classification of the page/size query pair.
//!
//! A pagination request is either fully set (both bounds present), fully
//! empty (both absent), or partially set (exactly one present). Partial
//! specification is ambiguous and is rejected before storage is reached,
//! never silently defaulted.

use vstd::prelude::*;

verus! {

/// The optional page/size bounds of a list request, as they arrive from the
/// query string.
#[derive(Clone, Copy, Debug, PartialEq, Eq)]
pub struct Pagination {
    pub page: Option<u64>,
    pub size: Option<u64>,
}

/// The three consistency classes a pagination pair can fall in.
#[derive(Clone, Copy, Debug, PartialEq, Eq, Structural)]
pub enum PaginationClass {
    FullySet,
    FullyEmpty,
    PartiallySet,
}

impl Pagination {
    /// Both bounds are present.
    pub open spec fn spec_fully_set(&self) -> bool {
        self.page is Some && self.size is Some
    }

    /// Both bounds are absent.
    pub open spec fn spec_fully_empty(&self) -> bool {
        self.page is None && self.size is None
    }

    /// Exactly one bound is present.
    pub open spec fn spec_partially_set(&self) -> bool {
        (self.page is Some) != (self.size is Some)
    }

    /// The class the pair falls in.
    pub open spec fn spec_classify(&self) -> PaginationClass {
        if self.spec_fully_set() {
            PaginationClass::FullySet
        } else if self.spec_fully_empty() {
            PaginationClass::FullyEmpty
        } else {
            PaginationClass::PartiallySet
        }
    }

    pub fn is_fully_set(&self) -> (r: bool)
        ensures
            r == self.spec_fully_set(),
    {
        self.page.is_some() && self.size.is_some()
    }

    pub fn is_fully_empty(&self) -> (r: bool)
        ensures
            r == self.spec_fully_empty(),
    {
        self.page.is_none() && self.size.is_none()
    }

    /// Decide which of the three classes the pair falls in.
    pub fn classify(&self) -> (r: PaginationClass)
        ensures
            r == self.spec_classify(),
            r == PaginationClass::FullySet <==> self.spec_fully_set(),
            r == PaginationClass::FullyEmpty <==> self.spec_fully_empty(),
            r == PaginationClass::PartiallySet <==> self.spec_partially_set(),
    {
        if self.is_fully_set() {
            PaginationClass::FullySet
        } else if self.is_fully_empty() {
            PaginationClass::FullyEmpty
        } else {
            PaginationClass::PartiallySet
        }
    }
}

/// Every pagination pair falls in exactly one of the three classes, and the
/// class reported by classification holds exactly when its defining condition
/// does: fully set when both bounds are present, fully empty when both are
/// absent, partially set otherwise.
pub proof fn lemma_classification_exclusive(p: Pagination)
    ensures
        p.spec_fully_set() || p.spec_fully_empty() || p.spec_partially_set(),
        !(p.spec_fully_set() && p.spec_fully_empty()),
        !(p.spec_fully_set() && p.spec_partially_set()),
        !(p.spec_fully_empty() && p.spec_partially_set()),
        (p.spec_classify() == PaginationClass::FullySet) <==> p.spec_fully_set(),
        (p.spec_classify() == PaginationClass::FullyEmpty) <==> p.spec_fully_empty(),
        (p.spec_classify() == PaginationClass::PartiallySet) <==> p.spec_partially_set(),
{
}

} // verus!
