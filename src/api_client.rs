use vstd::prelude::*;
use vstd::string::{StringExecFns, StringSliceAdditionalSpecFns};

use crate::config::{loaded, Config, CredentialStore};
use crate::errors::ByteStashyError;
use crate::json::{json_u64_member, json_valid, u64_member};
use crate::multipart::{build_upload, first_open_failure, plan_for};
use crate::request::{decimal, form_encoded, form_urlencode, push_decimal, Header, Method, Request, RequestBody};
use crate::response::{classified, classify};

verus! {

/// A client bound to one server and one API key. Each method builds the
/// request of one operation; the responses go through the shared classifier.
pub struct APIClient {
    pub api_url: String,
    pub api_key: String,
}

/// The sort orders the search accepts.
pub open spec fn valid_sort(s: Seq<char>) -> bool {
    s == "newest"@ || s == "oldest"@ || s == "alpha-asc"@ || s == "alpha-desc"@
}

/// The URL of a search on the server at `base`: the form-encoded query, then
/// the sort order and the code flag when they are given.
pub open spec fn search_url(
    base: Seq<char>,
    query: Seq<u8>,
    sort: Option<Seq<char>>,
    search_code: bool,
) -> Seq<char> {
    let q = base + "/api/v1/snippets/search?q="@ + form_encoded(query);
    let s = match sort {
        Some(v) => q + "&sort="@ + v,
        None => q,
    };
    if search_code {
        s + "&searchCode=true"@
    } else {
        s
    }
}

pub open spec fn str_opt_view(o: Option<&str>) -> Option<Seq<char>> {
    match o {
        Some(s) => Some(s@),
        None => None,
    }
}

impl APIClient {
    /// The headers every request of this client carries.
    pub open spec fn key_headers(&self) -> Seq<(Seq<char>, Seq<char>)> {
        seq![("x-api-key"@, self.api_key@)]
    }

    /// The URL of the snippet with this id.
    pub open spec fn snippet_url(&self, id: u64) -> Seq<char> {
        self.api_url@ + "/api/v1/snippets/"@ + decimal(id as nat)
    }

    /// A client for the credential in the store. Nothing saved is an error
    /// here, since every operation needs a key.
    pub fn new(store: &CredentialStore) -> (r: Result<APIClient, ByteStashyError>)
        ensures
            match loaded(store@) {
                None => r matches Err(ByteStashyError::Credential { .. }),
                Some(None) => r matches Err(ByteStashyError::Credential { message }) && message@
                    == "No saved api key found. Run `bytestashy login <api-url>`."@,
                Some(Some(c)) => r matches Ok(client) && client.api_url@ == c.0
                    && client.api_key@ == c.1,
            },
    {
        match Config::load(store) {
            Err(e) => Err(e),
            Ok(None) => Err(
                ByteStashyError::Credential {
                    message: String::from_str(
                        "No saved api key found. Run `bytestashy login <api-url>`.",
                    ),
                },
            ),
            Ok(Some(cfg)) => Ok(APIClient { api_url: cfg.api_url, api_key: cfg.api_key }),
        }
    }

    fn api_key_header(&self) -> (r: Vec<Header>)
        ensures
            r@.map_values(|h: Header| h@) == self.key_headers(),
    {
        let mut headers: Vec<Header> = Vec::new();
        headers.push(Header { name: String::from_str("x-api-key"), value: self.api_key.clone() });
        assert(headers@.map_values(|h: Header| h@) =~= self.key_headers());
        headers
    }

    fn snippet_request(&self, method: Method, id: u64, body: RequestBody) -> (r: Request)
        ensures
            r.method == method,
            r.url@ == self.snippet_url(id),
            r.header_view() == self.key_headers(),
            r.body == body,
    {
        let mut url = self.api_url.clone();
        url.append("/api/v1/snippets/");
        push_decimal(&mut url, id);
        Request { method, url, headers: self.api_key_header(), body }
    }

    /// GET the whole collection of snippets.
    pub fn list(&self) -> (r: Request)
        ensures
            r.method == Method::Get,
            r.url@ == self.api_url@ + "/api/v1/snippets"@,
            r.header_view() == self.key_headers(),
            r.body is Empty,
    {
        let mut url = self.api_url.clone();
        url.append("/api/v1/snippets");
        Request { method: Method::Get, url, headers: self.api_key_header(), body: RequestBody::Empty }
    }

    /// GET one snippet by id.
    pub fn get_snippet(&self, id: u64) -> (r: Request)
        ensures
            r.method == Method::Get,
            r.url@ == self.snippet_url(id),
            r.header_view() == self.key_headers(),
            r.body is Empty,
    {
        self.snippet_request(Method::Get, id, RequestBody::Empty)
    }

    /// DELETE one snippet by id.
    pub fn delete_snippet(&self, id: u64) -> (r: Request)
        ensures
            r.method == Method::Delete,
            r.url@ == self.snippet_url(id),
            r.header_view() == self.key_headers(),
            r.body is Empty,
    {
        self.snippet_request(Method::Delete, id, RequestBody::Empty)
    }

    /// POST a new snippet as a multipart upload. At least one file is
    /// needed, and every file must have opened (`open_failures[i]` is why
    /// `file_paths[i]` did not); otherwise nothing is sent.
    pub fn create_snippet(
        &self,
        title: &str,
        description: &str,
        is_public: bool,
        categories: &str,
        file_paths: &Vec<String>,
        open_failures: &Vec<Option<String>>,
    ) -> (r: Result<Request, ByteStashyError>)
        requires
            file_paths.len() == open_failures.len(),
        ensures
            file_paths.len() == 0 ==> (r matches Err(ByteStashyError::InvalidInput(m)) && m@
                == "Provide at least one file"@),
            file_paths.len() > 0 ==> (r is Ok <==> forall|k: int|
                0 <= k < file_paths.len() ==> open_failures[k] is None),
            file_paths.len() > 0 ==> (r matches Err(e) ==> first_open_failure(
                file_paths@,
                open_failures@,
                e,
            )),
            r matches Ok(req) ==> {
                &&& req.method == Method::Post
                &&& req.url@ == self.api_url@ + "/api/v1/snippets/push"@
                &&& req.header_view() == self.key_headers()
                &&& req.body matches RequestBody::Multipart(plan) && plan_for(
                    title@,
                    description@,
                    is_public,
                    categories@,
                    file_paths@,
                    plan,
                )
            },
    {
        if file_paths.len() == 0 {
            return Err(ByteStashyError::invalid_input("Provide at least one file"));
        }
        let plan = build_upload(title, description, is_public, categories, file_paths, open_failures)?;
        let mut url = self.api_url.clone();
        url.append("/api/v1/snippets/push");
        Ok(
            Request {
                method: Method::Post,
                url,
                headers: self.api_key_header(),
                body: RequestBody::Multipart(plan),
            },
        )
    }

    /// PUT a full replacement of a snippet: the files given replace its
    /// fragments. The same checks as for creation apply.
    pub fn update_snippet(
        &self,
        id: u64,
        title: &str,
        description: &str,
        is_public: bool,
        categories: &str,
        file_paths: &Vec<String>,
        open_failures: &Vec<Option<String>>,
    ) -> (r: Result<Request, ByteStashyError>)
        requires
            file_paths.len() == open_failures.len(),
        ensures
            file_paths.len() == 0 ==> (r matches Err(ByteStashyError::InvalidInput(m)) && m@
                == "Provide at least one file"@),
            file_paths.len() > 0 ==> (r is Ok <==> forall|k: int|
                0 <= k < file_paths.len() ==> open_failures[k] is None),
            file_paths.len() > 0 ==> (r matches Err(e) ==> first_open_failure(
                file_paths@,
                open_failures@,
                e,
            )),
            r matches Ok(req) ==> {
                &&& req.method == Method::Put
                &&& req.url@ == self.snippet_url(id)
                &&& req.header_view() == self.key_headers()
                &&& req.body matches RequestBody::Multipart(plan) && plan_for(
                    title@,
                    description@,
                    is_public,
                    categories@,
                    file_paths@,
                    plan,
                )
            },
    {
        if file_paths.len() == 0 {
            return Err(ByteStashyError::invalid_input("Provide at least one file"));
        }
        let plan = build_upload(title, description, is_public, categories, file_paths, open_failures)?;
        Ok(self.snippet_request(Method::Put, id, RequestBody::Multipart(plan)))
    }

    /// GET a search. An unknown sort order is refused before any request is
    /// built; a valid one is passed on as it is, and the query is form-encoded.
    pub fn search_snippets(&self, query: &str, sort: Option<&str>, search_code: bool) -> (r: Result<
        Request,
        ByteStashyError,
    >)
        ensures
            r is Ok <==> (sort matches Some(s) ==> valid_sort(s@)),
            r matches Err(e) ==> (e matches ByteStashyError::InvalidInput(m) && m@
                == "Sort must be one of: newest, oldest, alpha-asc, alpha-desc"@),
            r matches Ok(req) ==> {
                &&& req.method == Method::Get
                &&& req.url@ == search_url(
                    self.api_url@,
                    query.spec_bytes(),
                    str_opt_view(sort),
                    search_code,
                )
                &&& req.header_view() == self.key_headers()
                &&& req.body is Empty
            },
    {
        let mut url = self.api_url.clone();
        url.append("/api/v1/snippets/search?q=");
        url.append(form_urlencode(query).as_str());
        match sort {
            Some(s) => {
                let v = String::from_str(s);
                if v != String::from_str("newest") && v != String::from_str("oldest") && v
                    != String::from_str("alpha-asc") && v != String::from_str("alpha-desc") {
                    return Err(
                        ByteStashyError::invalid_input(
                            "Sort must be one of: newest, oldest, alpha-asc, alpha-desc",
                        ),
                    );
                }
                url.append("&sort=");
                url.append(s);
            },
            None => {},
        }
        if search_code {
            url.append("&searchCode=true");
        }
        Ok(Request { method: Method::Get, url, headers: self.api_key_header(), body: RequestBody::Empty })
    }

    /// The id of the snippet a create or update response describes. A
    /// success without an `id` number is a protocol error; every other
    /// failure is the classifier's.
    pub fn snippet_id_from(status: u16, body: &str) -> (r: Result<u64, ByteStashyError>)
        ensures
            (status == 200 || status == 201) && json_valid(body@) ==> match json_u64_member(
                body@,
                "id"@,
            ) {
                Some(id) => r == Ok::<u64, ByteStashyError>(id),
                None => r matches Err(ByteStashyError::Protocol { message }) && message@
                    == "the response holds no snippet id"@,
            },
            !((status == 200 || status == 201) && json_valid(body@)) ==> (r matches Err(e)
                && classified(status, body@, Err(e))),
    {
        match classify(status, body) {
            Err(e) => Err(e),
            Ok(text) => match u64_member(text.as_str(), "id") {
                Some(id) => Ok(id),
                None => Err(
                    ByteStashyError::Protocol {
                        message: String::from_str("the response holds no snippet id"),
                    },
                ),
            },
        }
    }

    /// The id a delete response reports, if any. A 204 carries no body and
    /// reports none; every other failure is the classifier's.
    pub fn deleted_id_from(status: u16, body: &str) -> (r: Result<Option<u64>, ByteStashyError>)
        ensures
            status == 204 ==> r == Ok::<Option<u64>, ByteStashyError>(None),
            (status == 200 || status == 201) && json_valid(body@) ==> r == Ok::<
                Option<u64>,
                ByteStashyError,
            >(json_u64_member(body@, "id"@)),
            status != 204 && !((status == 200 || status == 201) && json_valid(body@)) ==> (r matches Err(e)
                && classified(status, body@, Err(e))),
    {
        if status == 204 {
            return Ok(None);
        }
        match classify(status, body) {
            Err(e) => Err(e),
            Ok(text) => Ok(u64_member(text.as_str(), "id")),
        }
    }
}

} // verus!
