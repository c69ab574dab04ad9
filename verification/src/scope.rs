use vstd::prelude::*;

verus! {

/// Identifies an OAuth2 authorization scope.
/// A scope is needed when requesting an authorization token.
#[derive(PartialEq, Eq, Structural, Ord, PartialOrd, Hash, Debug, Clone, Copy)]
pub enum Scope {
    /// See, edit, create, and delete all of your Google Drive files
    Drive,
    /// See, edit, create, and delete only the specific Google Drive files you use with this app
    DriveFile,
    /// See and download all your Google Drive files
    DriveReadonly,
    /// See, edit, create, and delete all your Google Slides presentations
    Presentation,
    /// See all your Google Slides presentations
    PresentationReadonly,
    /// See, edit, create, and delete all your Google Sheets spreadsheets
    Spreadsheet,
    /// See all your Google Sheets spreadsheets
    SpreadsheetReadonly,
}

/// The URL that names a scope.
pub open spec fn scope_url(s: Scope) -> Seq<char> {
    match s {
        Scope::Drive => "https://www.googleapis.com/auth/drive"@,
        Scope::DriveFile => "https://www.googleapis.com/auth/drive.file"@,
        Scope::DriveReadonly => "https://www.googleapis.com/auth/drive.readonly"@,
        Scope::Presentation => "https://www.googleapis.com/auth/presentations"@,
        Scope::PresentationReadonly => "https://www.googleapis.com/auth/presentations.readonly"@,
        Scope::Spreadsheet => "https://www.googleapis.com/auth/spreadsheets"@,
        Scope::SpreadsheetReadonly => "https://www.googleapis.com/auth/spreadsheets.readonly"@,
    }
}

impl AsRef<str> for Scope {
    fn as_ref(&self) -> (res: &str)
        ensures
            res@ == scope_url(*self),
    {
        match *self {
            Scope::Drive => "https://www.googleapis.com/auth/drive",
            Scope::DriveFile => "https://www.googleapis.com/auth/drive.file",
            Scope::DriveReadonly => "https://www.googleapis.com/auth/drive.readonly",
            Scope::Presentation => "https://www.googleapis.com/auth/presentations",
            Scope::PresentationReadonly => "https://www.googleapis.com/auth/presentations.readonly",
            Scope::Spreadsheet => "https://www.googleapis.com/auth/spreadsheets",
            Scope::SpreadsheetReadonly => "https://www.googleapis.com/auth/spreadsheets.readonly",
        }
    }
}

impl Default for Scope {
    fn default() -> (s: Scope)
        ensures
            s == Scope::DriveReadonly,
    {
        Scope::DriveReadonly
    }
}

} // verus!
