//! The per-domain ingestion rules: which buffers become documents, and how
//! many pages a domain may contribute.
use crate::codec::{decode, spec_decode, PageRecord, RejectReason};
use vstd::prelude::*;

verus! {

/// Most pages indexed from one domain in one run.
pub const MAX_PAGES_PER_DOMAIN: usize = 10000;

/// Pages counted after one more buffer of a domain is offered, starting
/// from `pages`.
pub open spec fn pages_after_one(pages: nat, b: Seq<u8>) -> nat {
    if pages < MAX_PAGES_PER_DOMAIN && spec_decode(b) is Ok {
        pages + 1
    } else {
        pages
    }
}

/// Pages counted after the buffers `bs` are offered in order to a fresh
/// domain.
pub open spec fn pages_after(bs: Seq<Seq<u8>>) -> nat
    decreases bs.len(),
{
    if bs.len() == 0 {
        0
    } else {
        pages_after_one(pages_after(bs.drop_last()), bs.last())
    }
}

/// What became of one buffer offered to a domain.
#[derive(Clone, Debug, PartialEq, Eq)]
pub enum Ingested {
    /// It decoded: submit the record to the index.
    Submit(PageRecord),
    /// It did not decode: report the reason and go on with the next file.
    Rejected(RejectReason),
    /// The domain already holds its cap: it was not looked at.
    DomainFull,
}

/// The tally of one domain during a run.
#[derive(Clone, Debug, PartialEq, Eq)]
pub struct DomainIndexInfo {
    pub domain: String,
    pub pages_indexed: usize,
}

impl DomainIndexInfo {
    /// The tally never passes the cap.
    pub open spec fn wf(&self) -> bool {
        self.pages_indexed <= MAX_PAGES_PER_DOMAIN
    }

    /// A domain with no page indexed yet.
    pub fn new(domain: String) -> (r: DomainIndexInfo)
        ensures
            r.domain@ == domain@,
            r.pages_indexed == 0,
            r.wf(),
    {
        DomainIndexInfo { domain, pages_indexed: 0 }
    }

    /// Whether the domain has reached its cap, so that its remaining files
    /// are to be left alone.
    pub fn is_full(&self) -> (r: bool)
        ensures
            r == (self.pages_indexed >= MAX_PAGES_PER_DOMAIN),
    {
        self.pages_indexed >= MAX_PAGES_PER_DOMAIN
    }

    /// Offers the contents of one file of the domain: decodes it unless the
    /// domain is full, and counts it when it becomes a document.
    pub fn ingest(&mut self, buf: &[u8]) -> (r: Ingested)
        requires
            old(self).wf(),
        ensures
            final(self).wf(),
            final(self).domain == old(self).domain,
            final(self).pages_indexed == pages_after_one(old(self).pages_indexed as nat, buf@),
            old(self).pages_indexed >= MAX_PAGES_PER_DOMAIN ==> r == Ingested::DomainFull,
            old(self).pages_indexed < MAX_PAGES_PER_DOMAIN ==> match spec_decode(buf@) {
                Ok(p) => r is Submit && r->Submit_0@ == p,
                Err(e) => r == Ingested::Rejected(e),
            },
    {
        if self.is_full() {
            return Ingested::DomainFull;
        }
        match decode(buf) {
            Ok(p) => {
                self.pages_indexed = self.pages_indexed + 1;
                Ingested::Submit(p)
            },
            Err(e) => Ingested::Rejected(e),
        }
    }
}

/// However many buffers a domain offers, valid or not, its count of pages
/// never passes `MAX_PAGES_PER_DOMAIN`.
pub proof fn lemma_domain_cap(bs: Seq<Seq<u8>>)
    ensures
        pages_after(bs) <= MAX_PAGES_PER_DOMAIN,
    decreases bs.len(),
{
    if bs.len() > 0 {
        lemma_domain_cap(bs.drop_last());
    }
}

/// Offering buffers one by one to `ingest` counts as `pages_after` says.
pub proof fn lemma_pages_after_push(bs: Seq<Seq<u8>>, b: Seq<u8>)
    ensures
        pages_after(bs.push(b)) == pages_after_one(pages_after(bs), b),
{
    assert(bs.push(b).drop_last() =~= bs);
}

} // verus!
