use vstd::prelude::*;

verus! {

/// A file-system path, carried through unchanged.
#[verifier::external_type_specification]
#[verifier::external_body]
pub struct ExPathBuf(std::path::PathBuf);

/// An empty path (`std::path::PathBuf::new`). The path is opaque here, so nothing is
/// stated of it.
#[verifier::external_body]
fn empty_path() -> (r: std::path::PathBuf) {
    std::path::PathBuf::new()
}

/// A copy of a path (`Clone::clone` of `std::path::PathBuf`). The path is opaque here, so
/// nothing is stated of the copy.
pub assume_specification[ <std::path::PathBuf as Clone>::clone ](p: &std::path::PathBuf) -> std::path::PathBuf;

/// What the properties panel shows of an image: its size, file data and camera data.
#[derive(Clone, Debug)]
pub struct ImageProperties {
    pub path: std::path::PathBuf,
    pub width: u32,
    pub height: u32,
    pub size: u64,
    pub name: String,
    pub date: String,
    pub bits: Option<u32>,
    pub make: String,
    pub model: String,
    pub focal_length: String,
    pub f_number: String,
    pub iso: Option<u32>,
}

impl Default for ImageProperties {
    /// No image: an empty path, zero sizes, empty texts and no optional data.
    fn default() -> (r: Self)
        ensures
            r.width == 0,
            r.height == 0,
            r.size == 0,
            r.name@.len() == 0,
            r.date@.len() == 0,
            r.bits is None,
            r.make@.len() == 0,
            r.model@.len() == 0,
            r.focal_length@.len() == 0,
            r.f_number@.len() == 0,
            r.iso is None,
    {
        Self {
            path: empty_path(),
            width: 0,
            height: 0,
            size: 0,
            name: String::new(),
            date: String::new(),
            bits: None,
            make: String::new(),
            model: String::new(),
            focal_length: String::new(),
            f_number: String::new(),
            iso: None,
        }
    }
}

} // verus!
