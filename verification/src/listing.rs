use vstd::prelude::*;

verus! {

/// One entry of a directory listing: a file name and whether the entry is a
/// directory. Listings are recomputed from the filesystem for every frame;
/// an entry whose metadata could not be read is skipped by the reader and
/// never reaches this type.
pub struct DirEntry {
    pub name: String,
    pub is_directory: bool,
}

/// The abstract value of one entry: the name's characters and the flag.
pub ghost struct EntryModel {
    pub name: Seq<char>,
    pub is_directory: bool,
}

impl DirEntry {
    pub open spec fn model(&self) -> EntryModel {
        EntryModel { name: self.name@, is_directory: self.is_directory }
    }
}

/// The abstract value of a whole listing.
pub open spec fn listing_model(s: Seq<DirEntry>) -> Seq<EntryModel> {
    s.map_values(|e: DirEntry| e.model())
}

/// Neither the requested directory nor the working directory could be
/// listed; to the navigator this is fatal.
#[derive(Clone, Copy, PartialEq, Eq, Structural, Debug)]
pub struct ListingUnavailable;

/// Chooses the listing a frame works on. `primary` holds the requested
/// directory's entries when that directory could be read; `fallback` holds
/// the working directory's entries, gathered only after the first read
/// failed. A directory that cannot be read thus falls back to the working
/// directory without surfacing an error; only when both reads failed is the
/// failure reported.
pub fn resolve_listing(primary: Option<Vec<DirEntry>>, fallback: Option<Vec<DirEntry>>) -> (r:
    Result<Vec<DirEntry>, ListingUnavailable>)
    ensures
        primary matches Some(v) ==> (r matches Ok(o) && o@ == v@),
        primary is None && fallback is Some ==> (r matches Ok(o) && o@ == fallback.unwrap()@),
        primary is None && fallback is None ==> r is Err,
{
    match primary {
        Some(v) => Ok(v),
        None => match fallback {
            Some(v) => Ok(v),
            None => Err(ListingUnavailable),
        },
    }
}

} // verus!
