use vstd::prelude::*;

use crate::strutil::copy_str;

verus! {

/// A failure while reading or resolving a manifest. Each variant keeps
/// the piece of context a caller needs: the offending path or the
/// offending key.
#[derive(Debug, Clone)]
pub enum ManifestError {
    /// The manifest path names nothing on disk.
    ManifestNotFound(String),
    /// The path is no regular manifest file, or its text does not parse.
    InvalidManifest(String),
    /// A required field is absent.
    MissingField(String),
    /// A required field has the wrong shape.
    InvalidField(String),
    /// A path inside a dependency specification could not be
    /// canonicalized; carries the joined path that failed.
    PathResolution(String),
}

/// The mathematical shape of a `ManifestError`.
pub enum ManifestErrorV {
    ManifestNotFound(Seq<char>),
    InvalidManifest(Seq<char>),
    MissingField(Seq<char>),
    InvalidField(Seq<char>),
    PathResolution(Seq<char>),
}

impl View for ManifestError {
    type V = ManifestErrorV;

    open spec fn view(&self) -> ManifestErrorV {
        match self {
            ManifestError::ManifestNotFound(s) => ManifestErrorV::ManifestNotFound(s@),
            ManifestError::InvalidManifest(s) => ManifestErrorV::InvalidManifest(s@),
            ManifestError::MissingField(s) => ManifestErrorV::MissingField(s@),
            ManifestError::InvalidField(s) => ManifestErrorV::InvalidField(s@),
            ManifestError::PathResolution(s) => ManifestErrorV::PathResolution(s@),
        }
    }
}

impl ManifestError {
    /// A short description, for the caller that reports the failure.
    pub fn message(&self) -> (r: String)
        ensures
            match self@ {
                ManifestErrorV::ManifestNotFound(s) => r@ == "could not locate the manifest; `"@
                    + s + "` does not exist"@,
                ManifestErrorV::InvalidManifest(s) => r@ == "invalid manifest `"@ + s + "`"@,
                ManifestErrorV::MissingField(s) => r@ == "could not find `"@ + s
                    + "` in the manifest"@,
                ManifestErrorV::InvalidField(s) => r@ == "invalid `"@ + s + "` in the manifest"@,
                ManifestErrorV::PathResolution(s) => r@ == "could not canonicalize `"@ + s + "`"@,
            },
    {
        match self {
            ManifestError::ManifestNotFound(s) => {
                let mut r = copy_str("could not locate the manifest; `");
                r.append(s.as_str());
                r.append("` does not exist");
                r
            },
            ManifestError::InvalidManifest(s) => {
                let mut r = copy_str("invalid manifest `");
                r.append(s.as_str());
                r.append("`");
                r
            },
            ManifestError::MissingField(s) => {
                let mut r = copy_str("could not find `");
                r.append(s.as_str());
                r.append("` in the manifest");
                r
            },
            ManifestError::InvalidField(s) => {
                let mut r = copy_str("invalid `");
                r.append(s.as_str());
                r.append("` in the manifest");
                r
            },
            ManifestError::PathResolution(s) => {
                let mut r = copy_str("could not canonicalize `");
                r.append(s.as_str());
                r.append("`");
                r
            },
        }
    }
}

} // verus!
