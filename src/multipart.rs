use vstd::prelude::*;
use vstd::string::{StrSliceExecFns, StringExecFns};

use crate::errors::ByteStashyError;

verus! {

/// One text field of a multipart form.
pub struct FormField {
    pub name: String,
    pub value: String,
}

/// One file part of a multipart form, sent under the field name `files`.
pub struct FilePart {
    /// The local path the content is streamed from.
    pub path: String,
    /// The name the server is told the file has.
    pub file_name: String,
}

/// The shape of a multipart upload: the text fields, then the file parts in
/// the order given.
pub struct UploadPlan {
    pub fields: Vec<FormField>,
    pub files: Vec<FilePart>,
}

impl FormField {
    pub open spec fn view(&self) -> (Seq<char>, Seq<char>) {
        (self.name@, self.value@)
    }
}

/// The index of the last `/` in `p`, or -1 when there is none.
pub open spec fn last_slash(p: Seq<char>) -> int
    decreases p.len(),
{
    if p.len() == 0 {
        -1
    } else if p.last() == '/' {
        p.len() - 1
    } else {
        last_slash(p.drop_last())
    }
}

/// The text after the last `/` of `p` (all of `p` when it has none).
pub open spec fn final_component(p: Seq<char>) -> Seq<char> {
    p.subrange(last_slash(p) + 1, p.len() as int)
}

pub open spec fn is_dot_name(c: Seq<char>) -> bool {
    (c.len() == 1 && c[0] == '.') || (c.len() == 2 && c[0] == '.' && c[1] == '.')
}

/// The file name an upload of path `p` carries: its final component, or
/// `unknown` when that is empty (a path ending in a separator), `.` or `..`.
pub open spec fn upload_name(p: Seq<char>) -> Seq<char> {
    let c = final_component(p);
    if c.len() == 0 || is_dot_name(c) {
        "unknown"@
    } else {
        c
    }
}

/// The text fields of an upload, in the order they are sent.
pub open spec fn upload_fields(
    title: Seq<char>,
    description: Seq<char>,
    is_public: bool,
    categories: Seq<char>,
) -> Seq<(Seq<char>, Seq<char>)> {
    seq![
        ("title"@, title),
        ("description"@, description),
        ("is_public"@, if is_public { "true"@ } else { "false"@ }),
        ("categories"@, categories),
    ]
}

/// `plan` holds the text fields of an upload and one file part per path, in
/// order, each named after its path.
pub open spec fn plan_for(
    title: Seq<char>,
    description: Seq<char>,
    is_public: bool,
    categories: Seq<char>,
    paths: Seq<String>,
    plan: UploadPlan,
) -> bool {
    &&& plan.fields@.map_values(|f: FormField| f@) == upload_fields(
        title,
        description,
        is_public,
        categories,
    )
    &&& plan.files.len() == paths.len()
    &&& forall|k: int|
        0 <= k < paths.len() ==> #[trigger] plan.files[k].path@ == paths[k]@
            && plan.files[k].file_name@ == upload_name(paths[k]@)
}

/// `e` names the first path that could not be opened, with its cause.
pub open spec fn first_open_failure(
    paths: Seq<String>,
    open_failures: Seq<Option<String>>,
    e: ByteStashyError,
) -> bool {
    exists|k: int|
        {
            &&& 0 <= k < paths.len()
            &&& forall|j: int| 0 <= j < k ==> open_failures[j] is None
            &&& #[trigger] open_failures[k] is Some
            &&& (e matches ByteStashyError::FileOperation { path: p, cause: c } && p@ == paths[k]@
                && c@ == open_failures[k].unwrap()@)
        }
}

proof fn lemma_last_slash(p: Seq<char>, i: int)
    requires
        0 <= i <= p.len(),
        i == 0 || p[i - 1] == '/',
        forall|j: int| i <= j < p.len() ==> p[j] != '/',
    ensures
        last_slash(p) == i - 1,
    decreases p.len(),
{
    if p.len() > 0 && p.last() != '/' {
        lemma_last_slash(p.drop_last(), i);
    }
}

/// The name under which the file at `path` is uploaded.
pub fn file_name_for(path: &str) -> (r: String)
    ensures
        r@ == upload_name(path@),
{
    let n = path.unicode_len();
    let mut i: usize = n;
    while i > 0 && path.get_char(i - 1) != '/'
        invariant
            i <= n,
            n == path@.len(),
            forall|j: int| i <= j < n ==> path@[j] != '/',
        decreases i,
    {
        i = i - 1;
    }
    proof {
        lemma_last_slash(path@, i as int);
    }
    let c = path.substring_char(i, n);
    let k = n - i;
    if k == 0 || (k == 1 && c.get_char(0) == '.') || (k == 2 && c.get_char(0) == '.'
        && c.get_char(1) == '.') {
        String::from_str("unknown")
    } else {
        String::from_str(c)
    }
}

/// Plan a multipart upload. `open_failures[i]` is the reason the file at
/// `paths[i]` could not be opened, or `None` when it opened. The first path
/// that failed aborts the whole plan; with no failure the plan holds the four
/// text fields and one file part per path, in order.
pub fn build_upload(
    title: &str,
    description: &str,
    is_public: bool,
    categories: &str,
    paths: &Vec<String>,
    open_failures: &Vec<Option<String>>,
) -> (r: Result<UploadPlan, ByteStashyError>)
    requires
        paths.len() == open_failures.len(),
    ensures
        r is Ok <==> forall|k: int| 0 <= k < paths.len() ==> open_failures[k] is None,
        paths.len() == 0 ==> (r matches Ok(plan) && plan.files.len() == 0),
        r matches Ok(plan) ==> plan_for(title@, description@, is_public, categories@, paths@, plan),
        r matches Err(e) ==> first_open_failure(paths@, open_failures@, e),
{
    let mut fields: Vec<FormField> = Vec::new();
    fields.push(FormField { name: String::from_str("title"), value: String::from_str(title) });
    fields.push(
        FormField { name: String::from_str("description"), value: String::from_str(description) },
    );
    let flag = if is_public {
        String::from_str("true")
    } else {
        String::from_str("false")
    };
    fields.push(FormField { name: String::from_str("is_public"), value: flag });
    fields.push(
        FormField { name: String::from_str("categories"), value: String::from_str(categories) },
    );
    assert(fields@.map_values(|f: FormField| f@) =~= upload_fields(
        title@,
        description@,
        is_public,
        categories@,
    ));
    let mut files: Vec<FilePart> = Vec::new();
    let mut i: usize = 0;
    while i < paths.len()
        invariant
            i <= paths.len(),
            paths.len() == open_failures.len(),
            files.len() == i,
            forall|j: int| 0 <= j < i ==> open_failures[j] is None,
            forall|j: int|
                0 <= j < i ==> #[trigger] files[j].path@ == paths[j]@ && files[j].file_name@
                    == upload_name(paths[j]@),
        decreases paths.len() - i,
    {
        match &open_failures[i] {
            Some(cause) => {
                return Err(ByteStashyError::file_operation(paths[i].as_str(), cause.as_str()));
            },
            None => {},
        }
        let name = file_name_for(paths[i].as_str());
        files.push(FilePart { path: paths[i].clone(), file_name: name });
        i = i + 1;
    }
    Ok(UploadPlan { fields, files })
}

} // verus!
