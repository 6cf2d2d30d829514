//! The validation engine: the rules that a manifest has to meet beyond the
//! types of its fields.

use vstd::prelude::*;
use crate::manifest::Source;

verus! {

/// A rule that a `Source` breaks.
#[derive(Clone, Copy, Debug, PartialEq, Eq, Structural)]
pub enum ValidationError {
    /// A download is given, but no directory to download into.
    DownloadDirectoryRequired,
    /// A directory to download into is given, but no download.
    DownloadIsRequired,
}

impl ValidationError {
    /// The code under which the error is reported.
    pub open spec fn code_text(self) -> Seq<char> {
        match self {
            ValidationError::DownloadDirectoryRequired => "download_directory_required"@,
            ValidationError::DownloadIsRequired => "download_is_required"@,
        }
    }

    /// The code under which the error is reported.
    pub fn code(&self) -> (code: &'static str)
        ensures
            code@ == self.code_text(),
    {
        match self {
            ValidationError::DownloadDirectoryRequired => "download_directory_required",
            ValidationError::DownloadIsRequired => "download_is_required",
        }
    }
}

/// The rule on a `Source`: a download and the directory to download into are
/// given together or not at all. Names the error where one is given without
/// the other.
pub open spec fn source_download_rule(source: Source) -> Result<(), ValidationError> {
    if source.download is Some && source.download_directory is None {
        Err(ValidationError::DownloadDirectoryRequired)
    } else if source.download is None && source.download_directory is Some {
        Err(ValidationError::DownloadIsRequired)
    } else {
        Ok(())
    }
}

/// Checks that a download and the directory to download into are given
/// together or not at all.
pub fn validate_source_download(data: &Source) -> (checked: Result<(), ValidationError>)
    ensures
        checked == source_download_rule(*data),
        checked is Ok <==> (data.download is Some <==> data.download_directory is Some),
{
    if data.download_directory.is_none() && data.download.is_some() {
        return Err(ValidationError::DownloadDirectoryRequired);
    }
    if data.download_directory.is_some() && data.download.is_none() {
        return Err(ValidationError::DownloadIsRequired);
    }
    Ok(())
}

impl Source {
    /// Checks every rule on a `Source` and lists the errors found.
    ///
    /// Succeeds exactly where a download and the directory to download into
    /// are both given or both left out; otherwise fails with the one error
    /// that names what is missing.
    pub fn validate(&self) -> (checked: Result<(), Vec<ValidationError>>)
        ensures
            checked is Ok <==> (self.download is Some <==> self.download_directory is Some),
            match checked {
                Ok(_) => source_download_rule(*self) is Ok,
                Err(errors) => source_download_rule(*self) is Err && errors@
                    == seq![source_download_rule(*self)->Err_0],
            },
    {
        match validate_source_download(self) {
            Ok(_) => Ok(()),
            Err(error) => {
                let mut errors: Vec<ValidationError> = Vec::new();
                errors.push(error);
                Err(errors)
            },
        }
    }
}

} // verus!
