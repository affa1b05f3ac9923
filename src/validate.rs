use vstd::prelude::*;
use vstd::string::StringExecFns;

use crate::errors::ByteStashyError;

verus! {

/// The scheme of the URL `s` and whether it has a host, when `s` parses as an
/// absolute URL.
pub uninterp spec fn parsed_url(s: Seq<char>) -> Option<(Seq<char>, bool)>;

/// Relies on url::Url::parse, with `Url::scheme` and `Url::has_host` read off
/// the parsed value.
#[verifier::external_body]
fn parse_url(s: &str) -> (r: Option<(String, bool)>)
    ensures
        r is Some <==> parsed_url(s@) is Some,
        r matches Some(p) ==> (p.0@, p.1) == parsed_url(s@).unwrap(),
{
    url::Url::parse(s).ok().map(|u| (u.scheme().to_string(), u.has_host()))
}

/// What `validate_api_url` owes for the text `s`.
pub open spec fn api_url_checked(s: Seq<char>, r: Result<(), ByteStashyError>) -> bool {
    match parsed_url(s) {
        None => r matches Err(ByteStashyError::InvalidInput(m)) && m@
            == "invalid URL, make sure it starts with 'http://' or 'https://'"@,
        Some((scheme, has_host)) => if scheme != "http"@ && scheme != "https"@ {
            r matches Err(ByteStashyError::InvalidInput(m)) && m@
                == "URL must use http or https scheme"@
        } else if !has_host {
            r matches Err(ByteStashyError::InvalidInput(m)) && m@ == "URL must have a valid host"@
        } else {
            r is Ok
        },
    }
}

/// Check that `url` is an absolute http or https URL with a host.
pub fn validate_api_url(url: &str) -> (r: Result<(), ByteStashyError>)
    ensures
        api_url_checked(url@, r),
{
    match parse_url(url) {
        None => Err(
            ByteStashyError::invalid_input(
                "invalid URL, make sure it starts with 'http://' or 'https://'",
            ),
        ),
        Some((scheme, has_host)) => {
            if scheme != String::from_str("http") && scheme != String::from_str("https") {
                Err(ByteStashyError::invalid_input("URL must use http or https scheme"))
            } else if !has_host {
                Err(ByteStashyError::invalid_input("URL must have a valid host"))
            } else {
                Ok(())
            }
        },
    }
}

/// What a local path turned out to be.
#[derive(PartialEq, Eq, Structural, Clone, Copy, Debug)]
pub enum PathKind {
    Missing,
    NotAFile,
    File,
}

/// What `validate_files` owes: the first path that is missing or not a file
/// is named in the error; an empty list is refused.
pub open spec fn files_checked(
    files: Seq<String>,
    kinds: Seq<PathKind>,
    r: Result<(), ByteStashyError>,
) -> bool {
    if files.len() == 0 {
        r matches Err(ByteStashyError::InvalidInput(m)) && m@ == "Provide at least one file"@
    } else if forall|k: int| 0 <= k < kinds.len() ==> kinds[k] == PathKind::File {
        r is Ok
    } else {
        exists|k: int|
            {
                &&& 0 <= k < kinds.len()
                &&& forall|j: int| 0 <= j < k ==> kinds[j] == PathKind::File
                &&& #[trigger] kinds[k] != PathKind::File
                &&& (r matches Err(ByteStashyError::InvalidInput(m)) && m@ == if kinds[k]
                    == PathKind::Missing {
                    "File does not exist: "@ + files[k]@
                } else {
                    "Path is not a file: "@ + files[k]@
                })
            }
    }
}

/// Check a list of files to upload before anything is sent. `kinds[i]` tells
/// what `files[i]` is on disk.
pub fn validate_files(files: &Vec<String>, kinds: &Vec<PathKind>) -> (r: Result<
    (),
    ByteStashyError,
>)
    requires
        files.len() == kinds.len(),
    ensures
        files_checked(files@, kinds@, r),
{
    if files.len() == 0 {
        return Err(ByteStashyError::invalid_input("Provide at least one file"));
    }
    let mut i: usize = 0;
    while i < files.len()
        invariant
            i <= files.len(),
            files.len() == kinds.len(),
            forall|j: int| 0 <= j < i ==> kinds[j] == PathKind::File,
        decreases files.len() - i,
    {
        if kinds[i] != PathKind::File {
            let mut m = if kinds[i] == PathKind::Missing {
                String::from_str("File does not exist: ")
            } else {
                String::from_str("Path is not a file: ")
            };
            m.append(files[i].as_str());
            let r = Err(ByteStashyError::InvalidInput(m));
            assert(files_checked(files@, kinds@, r)) by {
                assert(kinds@[i as int] != PathKind::File);
            }
            return r;
        }
        i = i + 1;
    }
    Ok(())
}

} // verus!
