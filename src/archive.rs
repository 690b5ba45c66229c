//! Resolving a (target, reaction, library) triple to one dataset of the
//! archive: the listing query, the selection of sections by library, and the
//! point-series request for the first match.

use vstd::prelude::*;

verus! {

/// A candidate measurement record returned by the archive's listing query.
#[derive(Debug, Clone)]
pub struct Section {
    pub target: String,
    pub z: u32,
    pub a: u32,
    pub nsub: u32,
    pub mt: u32,
    pub mf: u32,
    pub r: String,
    pub rc: String,
    pub eval_id: u32,
    pub sect_id: u32,
    pub pen_sect_id: u32,
    pub lib_id: u32,
    pub lib_name: String,
    pub date: String,
    pub auth: String,
}

/// The body of the archive's listing response.
#[derive(Debug, Clone)]
pub struct E4Response {
    pub format: String,
    pub now: String,
    pub program: String,
    pub req: u32,
    pub sections: Vec<Section>,
}

/// The sections of `sections` whose library name is `lib`, in their order.
pub open spec fn sections_of_library(sections: Seq<Section>, lib: Seq<char>) -> Seq<Section>
    decreases sections.len(),
{
    if sections.len() == 0 {
        Seq::empty()
    } else {
        let rest = sections_of_library(sections.drop_last(), lib);
        if sections.last().lib_name@ == lib {
            rest.push(sections.last())
        } else {
            rest
        }
    }
}

/// Keeps the sections whose library name equals `lib_name` exactly, in
/// listing order.
pub fn select_by_library(sections: Vec<Section>, lib_name: &str) -> (r: Vec<Section>)
    ensures
        r@ == sections_of_library(sections@, lib_name@),
{
    let lib: String = lib_name.to_owned();
    let ghost all = sections@;
    let mut out: Vec<Section> = Vec::new();
    for s in it: sections.into_iter()
        invariant
            it.seq() == all,
            lib@ == lib_name@,
            out@ == sections_of_library(all.take(it.index() as int), lib_name@),
    {
        proof {
            let k = it.index() as int;
            assert(all.take(k + 1).drop_last() == all.take(k));
        }
        if s.lib_name == lib {
            out.push(s);
        }
    }
    proof {
        assert(all.take(all.len() as int) == all);
    }
    out
}

/// Keeps the listing's sections of library `lib_name`, the rest of the
/// response unchanged.
pub fn filter_by_library(response: E4Response, lib_name: &str) -> (r: E4Response)
    ensures
        r.sections@ == sections_of_library(response.sections@, lib_name@),
        r.format == response.format,
        r.now == response.now,
        r.program == response.program,
        r.req == response.req,
{
    let E4Response { format, now, program, req, sections } = response;
    let filtered = select_by_library(sections, lib_name);
    E4Response { format, now, program, req, sections: filtered }
}

/// Selection by library keeps exactly the sections of that library: each
/// kept section has the library name asked for, each section of that library
/// is kept, and nothing is kept when no section has it.
pub proof fn lemma_selection_is_exact(sections: Seq<Section>, lib: Seq<char>)
    ensures
        forall|i: int|
            0 <= i < sections_of_library(sections, lib).len() ==> (#[trigger] sections_of_library(
                sections,
                lib,
            )[i]).lib_name@ == lib,
        forall|j: int|
            0 <= j < sections.len() && (#[trigger] sections[j]).lib_name@ == lib ==> sections_of_library(
                sections,
                lib,
            ).contains(sections[j]),
        (forall|j: int| 0 <= j < sections.len() ==> (#[trigger] sections[j]).lib_name@ != lib)
            ==> sections_of_library(sections, lib).len() == 0,
    decreases sections.len(),
{
    if sections.len() > 0 {
        let init = sections.drop_last();
        lemma_selection_is_exact(init, lib);
        let rest = sections_of_library(init, lib);
        let r = sections_of_library(sections, lib);
        assert forall|i: int| 0 <= i < r.len() implies (#[trigger] r[i]).lib_name@ == lib by {
            if i < rest.len() {
                assert(r[i] == rest[i]);
            }
        }
        assert forall|j: int|
            0 <= j < sections.len() && (#[trigger] sections[j]).lib_name@ == lib implies r.contains(
            sections[j],
        ) by {
            if j < sections.len() - 1 {
                assert(init[j] == sections[j]);
                let k = choose|k: int| 0 <= k < rest.len() && rest[k] == init[j];
                assert(r[k] == rest[k]);
            } else {
                assert(r[r.len() - 1] == sections[j]);
            }
        }
        if forall|j: int| 0 <= j < sections.len() ==> (#[trigger] sections[j]).lib_name@ != lib {
            assert forall|j: int| 0 <= j < init.len() implies (#[trigger] init[j]).lib_name@
                != lib by {
                assert(init[j] == sections[j]);
            }
            assert(sections[sections.len() - 1] == sections.last());
        }
    }
}

/// Which archive call failed.
#[derive(Debug, Clone, Copy, PartialEq, Eq, Structural)]
pub enum Endpoint {
    /// The listing of candidate sections.
    Listing,
    /// The point series of one section.
    PointSeries,
}

/// Why a (target, reaction, library) triple could not be resolved to a dataset.
#[derive(Debug, Clone, Copy, PartialEq, Eq, Structural)]
pub enum ArchiveError {
    /// The request to the endpoint failed, or its body could not be read.
    Transport(Endpoint),
    /// The listing holds no section of the library asked for.
    NoMatch,
    /// The point-series response holds no dataset.
    EmptyDataset,
}

/// The parameters of the listing query.
#[derive(Debug, Clone)]
pub struct ListingQuery {
    pub target: String,
    pub reaction: String,
    pub quantity: String,
}

/// The quantity code of a cross section.
pub open spec fn cross_section_quantity() -> Seq<char> {
    seq!['S', 'I', 'G']
}

/// The listing query for the cross sections of `reaction` on `target`.
pub fn listing_query(target: &str, reaction: &str) -> (r: ListingQuery)
    ensures
        r.target@ == target@,
        r.reaction@ == reaction@,
        r.quantity@ == cross_section_quantity(),
{
    proof {
        reveal_strlit("SIG");
    }
    ListingQuery {
        target: target.to_owned(),
        reaction: reaction.to_owned(),
        quantity: "SIG".to_owned(),
    }
}

/// The identifiers with which the point series of one section is requested.
#[derive(Debug, Clone, Copy, PartialEq, Eq, Structural)]
pub struct PointSeriesQuery {
    pub sect_id: u32,
    pub pen_sect_id: u32,
}

/// What follows a listing: the point-series request for the first section of
/// library `lib`, in listing order, or `NoMatch` where there is none.
pub open spec fn next_after_listing(sections: Seq<Section>, lib: Seq<char>) -> Result<
    PointSeriesQuery,
    ArchiveError,
> {
    let matching = sections_of_library(sections, lib);
    if matching.len() == 0 {
        Err(ArchiveError::NoMatch)
    } else {
        Ok(PointSeriesQuery { sect_id: matching[0].sect_id, pen_sect_id: matching[0].pen_sect_id })
    }
}

/// Decides, from a listing that arrived, which point series to request for
/// library `lib_name`: that of the first section of the library.
pub fn point_series_query(listing: E4Response, lib_name: &str) -> (r: Result<
    PointSeriesQuery,
    ArchiveError,
>)
    ensures
        r == next_after_listing(listing.sections@, lib_name@),
        r == Err::<PointSeriesQuery, ArchiveError>(ArchiveError::NoMatch) <==> (forall|j: int|
            0 <= j < listing.sections@.len() ==> (#[trigger] listing.sections@[j]).lib_name@
                != lib_name@),
{
    proof {
        lemma_selection_is_exact(listing.sections@, lib_name@);
    }
    let filtered = filter_by_library(listing, lib_name);
    if filtered.sections.len() == 0 {
        Err(ArchiveError::NoMatch)
    } else {
        let first = &filtered.sections[0];
        Ok(PointSeriesQuery { sect_id: first.sect_id, pen_sect_id: first.pen_sect_id })
    }
}

/// Decides, from the datasets of a point-series response, the dataset
/// returned: the first one, or `EmptyDataset` where there is none.
pub fn first_dataset<T>(datasets: Vec<T>) -> (r: Result<T, ArchiveError>)
    ensures
        datasets@.len() == 0 ==> r == Err::<T, ArchiveError>(ArchiveError::EmptyDataset),
        datasets@.len() > 0 ==> r == Ok::<T, ArchiveError>(datasets@[0]),
{
    if datasets.len() == 0 {
        Err(ArchiveError::EmptyDataset)
    } else {
        let mut datasets = datasets;
        Ok(datasets.remove(0))
    }
}

} // verus!
