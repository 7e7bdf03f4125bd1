//! Walking the sites of a form along the object stream.
//!
//! The controls of a form lie one behind the other in the object stream, each
//! with the size that its site records. The iterator yields the sites in
//! order and, for each, the range of the object stream that holds its control.
use vstd::prelude::*;
use crate::controls::user_form::class_table::SiteClassInfo;
use crate::controls::user_form::ole_site_concrete::{Clsid, OleSiteConcrete};
use crate::controls::user_form::{FormControl, Site};
use crate::properties::{FormEmbeddedActiveXControl, FormEmbeddedActiveXControlCached};

verus! {

/// Why the control of a site cannot be named.
#[derive(Clone, Copy, Debug, PartialEq, Eq, Hash, Structural)]
pub enum SiteError {
    /// The site stores the invalid class cache index.
    InvalidClsid,
    /// The site refers to an entry that the class table does not have.
    MissingClassTableEntry(u16),
    /// The site refers to no cached control.
    UnknownCachedControl(u16),
}

/// The number of bytes that the controls of the first `n` sites take in the
/// object stream.
pub open spec fn object_stream_offset(sites: Seq<Site>, n: int) -> int
    decreases n,
{
    if n <= 0 {
        0
    } else {
        object_stream_offset(sites, n - 1) + sites[n - 1].spec_ole().object_stream_size
    }
}

/// The kind of control that `clsid` names in a form with the class table `classes`.
pub open spec fn spec_control_kind<'a>(clsid: Clsid, classes: Seq<SiteClassInfo>) -> Result<
    FormEmbeddedActiveXControl<'a>,
    SiteError,
> {
    match clsid {
        Clsid::ClassTable(i) => if i < classes.len() {
            Ok(FormEmbeddedActiveXControl::ControlNonCached(&classes[i as int]))
        } else {
            Err(SiteError::MissingClassTableEntry(i))
        },
        Clsid::Invalid => Err(SiteError::InvalidClsid),
        Clsid::Global(i) => match FormEmbeddedActiveXControlCached::spec_from_u16(i) {
            Some(c) => Ok(FormEmbeddedActiveXControl::ControlCached(c)),
            None => Err(SiteError::UnknownCachedControl(i)),
        },
    }
}

/// Names the kind of control of a site.
pub fn control_kind<'a>(clsid: Clsid, classes: &'a [SiteClassInfo]) -> (r: Result<
    FormEmbeddedActiveXControl<'a>,
    SiteError,
>)
    ensures
        r == spec_control_kind(clsid, classes@),
{
    match clsid {
        Clsid::ClassTable(i) => {
            if (i as usize) < classes.len() {
                Ok(FormEmbeddedActiveXControl::ControlNonCached(&classes[i as usize]))
            } else {
                Err(SiteError::MissingClassTableEntry(i))
            }
        },
        Clsid::Invalid => Err(SiteError::InvalidClsid),
        Clsid::Global(i) => match FormEmbeddedActiveXControlCached::from_u16(i) {
            Some(c) => Ok(FormEmbeddedActiveXControl::ControlCached(c)),
            None => Err(SiteError::UnknownCachedControl(i)),
        },
    }
}

impl FormControl {
    /// The size of the object stream of the form: the sum of the sizes of
    /// its controls.
    pub open spec fn spec_object_stream_len(&self) -> int {
        object_stream_offset(self.sites@, self.sites@.len() as int)
    }

    /// The size of the object stream of the form, or `None` when it does not
    /// fit the address space of this machine.
    pub fn object_stream_len(&self) -> (r: Option<usize>)
        ensures
            r == (if self.spec_object_stream_len() <= usize::MAX {
                Some(self.spec_object_stream_len() as usize)
            } else {
                None
            }),
    {
        let mut total: usize = 0;
        let mut i: usize = 0;
        while i < self.sites.len()
            invariant
                i <= self.sites@.len(),
                total == object_stream_offset(self.sites@, i as int),
            decreases self.sites@.len() - i,
        {
            let size = self.sites[i].ole().object_stream_size as usize;
            if usize::MAX - total < size {
                proof {
                    lemma_offset_monotone(self.sites@, i + 1, self.sites@.len() as int);
                }
                return None;
            }
            total = total + size;
            i = i + 1;
        }
        Some(total)
    }

    /// An iterator over the sites of the form, in front of the first site.
    pub fn site_iter(&self) -> (it: SiteIter<'_>)
        requires
            self.spec_object_stream_len() <= usize::MAX,
        ensures
            it.wf(),
            it.sites@ == self.sites@,
            it.classes@ == self.site_classes@,
            it.index == 0,
            it.start == 0,
            it.end == 0,
    {
        SiteIter {
            sites: self.sites.as_slice(),
            classes: self.site_classes.as_slice(),
            index: 0,
            start: 0,
            end: 0,
        }
    }
}

/// The offsets of the controls in the object stream do not decrease.
pub proof fn lemma_offset_monotone(sites: Seq<Site>, i: int, j: int)
    requires
        0 <= i <= j,
    ensures
        0 <= object_stream_offset(sites, i) <= object_stream_offset(sites, j),
    decreases j,
{
    if j > 0 {
        if i < j {
            lemma_offset_monotone(sites, i, j - 1);
        } else {
            lemma_offset_monotone(sites, i - 1, j - 1);
        }
    }
}

/// The range of the object stream that holds the control of site `i`.
pub open spec fn object_stream_range(sites: Seq<Site>, i: int) -> (int, int) {
    (object_stream_offset(sites, i), object_stream_offset(sites, i + 1))
}

/// The ranges of the controls partition the object stream: the range of a
/// site has the size that the site records, each range begins where the one
/// before it ends, the first begins at zero, the last ends at the sum of all
/// sizes, and the ranges of two different sites do not overlap.
pub proof fn lemma_object_stream_partition(sites: Seq<Site>, i: int, j: int)
    requires
        0 <= i < j < sites.len(),
    ensures
        object_stream_range(sites, 0).0 == 0,
        object_stream_range(sites, i).1 - object_stream_range(sites, i).0
            == sites[i].spec_ole().object_stream_size,
        object_stream_range(sites, i + 1).0 == object_stream_range(sites, i).1,
        object_stream_range(sites, i).1 <= object_stream_range(sites, j).0,
        object_stream_range(sites, sites.len() - 1).1 == object_stream_offset(
            sites,
            sites.len() as int,
        ),
{
    lemma_offset_monotone(sites, i + 1, j);
}

/// An iterator over the sites of a form.
///
/// `index` counts the sites that were yielded; `start..end` is the range of
/// the object stream that holds the control of the site yielded last.
#[derive(Clone, Copy, Debug)]
pub struct SiteIter<'a> {
    pub sites: &'a [Site],
    pub classes: &'a [SiteClassInfo],
    pub index: usize,
    pub start: usize,
    pub end: usize,
}

impl<'a> SiteIter<'a> {
    /// The iterator stands behind `index` sites, its range is that of the
    /// last of them, and the whole object stream fits the address space.
    pub open spec fn wf(&self) -> bool {
        &&& self.index <= self.sites@.len()
        &&& object_stream_offset(self.sites@, self.sites@.len() as int) <= usize::MAX
        &&& self.end == object_stream_offset(self.sites@, self.index as int)
        &&& self.index > 0 ==> self.start == object_stream_offset(self.sites@, self.index - 1)
        &&& self.index == 0 ==> self.start == 0
    }

    /// The range of the object stream that holds the control of the site
    /// yielded last: its first byte and the byte behind its last.
    pub fn range(&self) -> (r: (usize, usize))
        ensures
            r == (self.start, self.end),
    {
        (self.start, self.end)
    }

    /// Yields the next site: the kind of its control, its depth and the site
    /// itself, and moves the range behind the range that it had. `None`
    /// behind the last site. A site whose control cannot be named is yielded
    /// as an error, and the iterator has passed it all the same.
    pub fn next(&mut self) -> (r: Option<
        Result<(FormEmbeddedActiveXControl<'a>, u8, &'a OleSiteConcrete), SiteError>,
    >)
        requires
            old(self).wf(),
        ensures
            final(self).wf(),
            final(self).sites == old(self).sites,
            final(self).classes == old(self).classes,
            old(self).index >= old(self).sites@.len() ==> r.is_none() && *final(self) == *old(self),
            old(self).index < old(self).sites@.len() ==> {
                let site = old(self).sites@[old(self).index as int];
                &&& final(self).index == old(self).index + 1
                &&& final(self).start == old(self).end
                &&& final(self).end == old(self).end + site.spec_ole().object_stream_size
                &&& (final(self).start as int, final(self).end as int) == object_stream_range(
                    old(self).sites@,
                    old(self).index as int,
                )
                &&& match spec_control_kind(site.spec_ole().clsid_cache_index, old(self).classes@) {
                    Ok(kind) => r == Some(
                        Ok::<(FormEmbeddedActiveXControl<'a>, u8, &'a OleSiteConcrete), SiteError>(
                            (kind, site.depth, &site.spec_ole()),
                        ),
                    ),
                    Err(e) => r == Some(
                        Err::<(FormEmbeddedActiveXControl<'a>, u8, &'a OleSiteConcrete), SiteError>(e),
                    ),
                }
            },
    {
        if self.index >= self.sites.len() {
            return None;
        }
        let sites: &'a [Site] = self.sites;
        let classes: &'a [SiteClassInfo] = self.classes;
        let site: &'a Site = &sites[self.index];
        let ole: &'a OleSiteConcrete = site.ole();
        proof {
            lemma_offset_monotone(self.sites@, self.index + 1, self.sites@.len() as int);
        }
        self.start = self.end;
        self.end = self.end + ole.object_stream_size as usize;
        self.index = self.index + 1;
        match control_kind(ole.clsid_cache_index, classes) {
            Ok(kind) => Some(Ok((kind, site.depth, ole))),
            Err(e) => Some(Err(e)),
        }
    }
}

} // verus!
