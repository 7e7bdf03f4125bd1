//! Pictures. The decoder only records whether a picture is there; the bitmap
//! itself stays a run of bytes.
use vstd::prelude::*;

verus! {

/// A picture in the standard picture format, as its undecoded bytes.
#[derive(Clone, Debug, PartialEq, Eq)]
pub struct StdPicture {
    pub data: Vec<u8>,
}

/// A picture together with the class that renders it.
#[derive(Clone, Debug, PartialEq, Eq)]
pub enum GuidAndPicture {
    /// No picture.
    Empty,
    StdPicture(StdPicture),
}

/// The mathematical value of a [`GuidAndPicture`].
pub enum GuidAndPictureModel {
    Empty,
    StdPicture(Seq<u8>),
}

impl View for GuidAndPicture {
    type V = GuidAndPictureModel;

    open spec fn view(&self) -> GuidAndPictureModel {
        match self {
            GuidAndPicture::Empty => GuidAndPictureModel::Empty,
            GuidAndPicture::StdPicture(p) => GuidAndPictureModel::StdPicture(p.data@),
        }
    }
}

impl GuidAndPicture {
    /// No picture.
    #[allow(non_snake_case)]
    pub fn EMPTY() -> (p: GuidAndPicture)
        ensures
            p@ == GuidAndPictureModel::Empty,
    {
        GuidAndPicture::Empty
    }
}

} // verus!
