use vstd::prelude::*;
use vstd::string::StrSliceExecFns;
use vstd::string::StringExecFns;
use vstd::string::StringSliceAdditionalSpecFns;

use crate::errors::TraceixError;
use crate::json::encode_one_field;
use crate::json::json_one_field;
use crate::sdk_version;

verus! {

/// Which hash-search endpoint variant a search targets.
#[derive(Clone, Copy, Debug, PartialEq, Eq, Structural)]
pub enum SearchType {
    Capa,
    Exif,
}

/// Facts about the running build that go into the `User-Agent` header:
/// the operating system, the processor architecture, and this library's
/// own version. They are fixed for the life of a process, so the caller
/// gathers them once, at construction.
#[derive(Clone, Debug)]
pub struct BuildInfo {
    pub os: String,
    pub arch: String,
    pub lib_version: String,
}

/// What a request carries besides its headers.
pub enum RequestBody {
    /// No body at all.
    Empty,
    /// A JSON document, already encoded.
    Json(Vec<u8>),
    /// One multipart form field streaming a local file.
    FileUpload { path: String, part_name: String, file_name: String, mime: String },
}

/// Everything the transport needs to perform one call: the full URL,
/// the two header values every request carries, and the body.
/// A `Json` body is sent with `content-type: application/json`.
pub struct RequestPlan {
    pub url: String,
    pub api_key: String,
    pub user_agent: String,
    pub body: RequestBody,
}

/// True when the telemetry opt-out is in force: the environment value
/// exists and is exactly `1`.
pub open spec fn telemetry_disabled(telemetry_env: Option<&str>) -> bool {
    match telemetry_env {
        Some(v) => v@ == "1"@,
        None => false,
    }
}

/// The `User-Agent` header value: `Traceix/<sdk-version>`, with an
/// ` (<os>-<arch> v<library-version>)` suffix unless telemetry is disabled.
pub open spec fn user_agent_chars(
    disabled: bool,
    os: Seq<char>,
    arch: Seq<char>,
    lib_version: Seq<char>,
) -> Seq<char> {
    let prefix = "Traceix/"@ + "0.0.0.1"@;
    if disabled {
        prefix
    } else {
        prefix + " ("@ + os + "-"@ + arch + " v"@ + lib_version + ")"@
    }
}

/// The key a client is constructed with: the explicit argument when it is
/// present and non-empty, otherwise whatever the environment supplied.
pub open spec fn resolved_key(api_key: Option<String>, env_api_key: Option<String>) -> Option<
    String,
> {
    match api_key {
        Some(k) => if k@.len() > 0 {
            Some(k)
        } else {
            env_api_key
        },
        None => env_api_key,
    }
}

/// The longest suffix of `p` that holds no `/`.
pub open spec fn tail_component(p: Seq<char>) -> Seq<char>
    decreases p.len(),
{
    if p.len() == 0 {
        Seq::empty()
    } else if p[p.len() - 1] == '/' {
        Seq::empty()
    } else {
        tail_component(p.drop_last()).push(p[p.len() - 1])
    }
}

/// The filename advertised for an uploaded file: the part of the path
/// after the last `/`; where that is empty, `.`, or `..`, the literal
/// `file` stands in.
pub open spec fn upload_name(p: Seq<char>) -> Seq<char> {
    let t = tail_component(p);
    if t.len() == 0 || t == "."@ || t == ".."@ {
        "file"@
    } else {
        t
    }
}

proof fn lemma_tail_component(p: Seq<char>, start: int)
    requires
        0 <= start <= p.len(),
        start == 0 || p[start - 1] == '/',
        forall|j: int| start <= j < p.len() ==> p[j] != '/',
    ensures
        tail_component(p) == p.subrange(start, p.len() as int),
    decreases p.len(),
{
    if p.len() == 0 {
        assert(tail_component(p) =~= p.subrange(start, p.len() as int));
    } else if start == p.len() {
        assert(p[p.len() - 1] == '/');
        assert(tail_component(p) =~= p.subrange(start, p.len() as int));
    } else {
        assert(p[p.len() - 1] != '/');
        lemma_tail_component(p.drop_last(), start);
        assert(p.drop_last().subrange(start, p.len() - 1).push(p[p.len() - 1]) =~= p.subrange(
            start,
            p.len() as int,
        ));
    }
}

fn str_is_one(v: &str) -> (b: bool)
    ensures
        b == (v@ == "1"@),
{
    proof {
        reveal_strlit("1");
    }
    let n = v.unicode_len();
    if n != 1 {
        false
    } else if v.get_char(0) == '1' {
        proof {
            assert(v@ =~= "1"@);
        }
        true
    } else {
        false
    }
}

/// The filename a path advertises when its file is uploaded.
pub fn upload_file_name(path: &str) -> (r: String)
    ensures
        r@ == upload_name(path@),
{
    proof {
        reveal_strlit(".");
        reveal_strlit("..");
    }
    let n = path.unicode_len();
    let mut start: usize = 0;
    let mut i: usize = 0;
    while i < n
        invariant
            n == path@.len(),
            i <= n,
            start <= i,
            start == 0 || path@[start - 1] == '/',
            forall|j: int| start <= j < i ==> path@[j] != '/',
        decreases n - i,
    {
        if path.get_char(i) == '/' {
            start = i + 1;
        }
        i = i + 1;
    }
    proof {
        lemma_tail_component(path@, start as int);
    }
    let t = path.substring_char(start, n);
    let tlen = t.unicode_len();
    if tlen == 0 {
        "file".to_owned()
    } else if tlen == 1 && t.get_char(0) == '.' {
        proof {
            assert(t@ =~= "."@);
        }
        "file".to_owned()
    } else if tlen == 2 && t.get_char(0) == '.' && t.get_char(1) == '.' {
        proof {
            assert(t@ =~= ".."@);
        }
        "file".to_owned()
    } else {
        proof {
            assert(t@ != "."@);
            assert(t@ != ".."@);
        }
        t.to_owned()
    }
}

/// The client: an API key resolved at construction, the fixed service
/// origin, and the build facts that the `User-Agent` header reports.
/// It is immutable once constructed.
pub struct TraceixSdk {
    api_key: String,
    base_url: String,
    build: BuildInfo,
}

impl TraceixSdk {
    /// The stored API key, as every request's `x-api-key` header carries it.
    pub closed spec fn spec_api_key(&self) -> Seq<char> {
        self.api_key@
    }

    /// The origin every request URL starts with.
    pub closed spec fn spec_base_url(&self) -> Seq<char> {
        self.base_url@
    }

    /// The build facts given at construction.
    pub closed spec fn spec_build(&self) -> BuildInfo {
        self.build
    }

    /// What construction establishes: a non-empty key and the fixed origin.
    pub open spec fn wf(&self) -> bool {
        &&& self.spec_api_key().len() > 0
        &&& self.spec_base_url() == "https://ai.perkinsfund.org"@
    }

    /// The `User-Agent` value a request sends, given the telemetry
    /// environment value read for that request.
    pub open spec fn spec_user_agent(&self, telemetry_env: Option<&str>) -> Seq<char> {
        user_agent_chars(
            telemetry_disabled(telemetry_env),
            self.spec_build().os@,
            self.spec_build().arch@,
            self.spec_build().lib_version@,
        )
    }

    /// The clauses every plan meets: URL is the origin plus the path, and
    /// the two headers hold the stored key and the `User-Agent` value.
    pub open spec fn plan_matches(
        &self,
        plan: RequestPlan,
        path: Seq<char>,
        telemetry_env: Option<&str>,
    ) -> bool {
        &&& plan.url@ == self.spec_base_url() + path
        &&& plan.api_key@ == self.spec_api_key()
        &&& plan.user_agent@ == self.spec_user_agent(telemetry_env)
    }

    /// Builds a client. The key is the explicit argument when it is present
    /// and non-empty; otherwise the value of the `TRACEIX_API_KEY`
    /// environment variable, which the caller reads and passes in. A key
    /// that still comes out missing or empty is refused.
    pub fn new(api_key: Option<String>, env_api_key: Option<String>, build: BuildInfo) -> (r:
        Result<TraceixSdk, TraceixError>)
        ensures
            r is Ok <==> (resolved_key(api_key, env_api_key) matches Some(k) && k@.len() > 0),
            r matches Ok(sdk) ==> (resolved_key(api_key, env_api_key) matches Some(k)
                && sdk.spec_api_key() == k@ && sdk.wf() && sdk.spec_build() == build),
            r matches Err(e) ==> e == TraceixError::NoApiKey,
    {
        let resolved = match api_key {
            Some(k) => if !k.as_str().is_empty() {
                Some(k)
            } else {
                env_api_key
            },
            None => env_api_key,
        };
        match resolved {
            Some(k) => if !k.as_str().is_empty() {
                Ok(
                    TraceixSdk {
                        api_key: k,
                        base_url: "https://ai.perkinsfund.org".to_owned(),
                        build,
                    },
                )
            } else {
                Err(TraceixError::NoApiKey)
            },
            None => Err(TraceixError::NoApiKey),
        }
    }

    /// The `User-Agent` header value for one request, from the telemetry
    /// environment value read fresh for that request.
    pub fn build_user_agent(&self, telemetry_env: Option<&str>) -> (r: String)
        ensures
            r@ == self.spec_user_agent(telemetry_env),
    {
        let disabled = match telemetry_env {
            Some(v) => str_is_one(v),
            None => false,
        };
        let mut ua = "Traceix/".to_owned();
        ua.append(sdk_version());
        if !disabled {
            ua.append(" (");
            ua.append(self.build.os.as_str());
            ua.append("-");
            ua.append(self.build.arch.as_str());
            ua.append(" v");
            ua.append(self.build.lib_version.as_str());
            ua.append(")");
        }
        proof {
            assert(ua@ =~= self.spec_user_agent(telemetry_env));
        }
        ua
    }

    fn build_url(&self, path: &str) -> (r: String)
        ensures
            r@ == self.spec_base_url() + path@,
    {
        self.base_url.clone().concat(path)
    }

    fn plan_with_body(&self, path: &str, telemetry_env: Option<&str>, body: RequestBody) -> (r:
        RequestPlan)
        ensures
            self.plan_matches(r, path@, telemetry_env),
            r.body == body,
    {
        RequestPlan {
            url: self.build_url(path),
            api_key: self.api_key.clone(),
            user_agent: self.build_user_agent(telemetry_env),
            body,
        }
    }

    fn plan_file_upload(&self, path: &str, filename: &str, telemetry_env: Option<&str>) -> (r:
        RequestPlan)
        ensures
            self.plan_matches(r, path@, telemetry_env),
            r.body matches RequestBody::FileUpload { path: p, part_name, file_name, mime }
                && p@ == filename@ && part_name@ == "file"@ && file_name@ == upload_name(filename@)
                && mime@ == "application/octet-stream"@,
    {
        let body = RequestBody::FileUpload {
            path: filename.to_owned(),
            part_name: "file".to_owned(),
            file_name: upload_file_name(filename),
            mime: "application/octet-stream".to_owned(),
        };
        self.plan_with_body(path, telemetry_env, body)
    }

    /// The plan for the AI-prediction upload of one local file.
    pub fn plan_ai_prediction(&self, filename: &str, telemetry_env: Option<&str>) -> (r:
        RequestPlan)
        ensures
            self.plan_matches(r, "/api/traceix/v1/upload"@, telemetry_env),
            r.body matches RequestBody::FileUpload { path: p, part_name, file_name, mime }
                && p@ == filename@ && part_name@ == "file"@ && file_name@ == upload_name(filename@)
                && mime@ == "application/octet-stream"@,
    {
        self.plan_file_upload("/api/traceix/v1/upload", filename, telemetry_env)
    }

    /// The plan for the CAPA extraction upload of one local file.
    pub fn plan_capa_extraction(&self, filename: &str, telemetry_env: Option<&str>) -> (r:
        RequestPlan)
        ensures
            self.plan_matches(r, "/api/traceix/v1/capa"@, telemetry_env),
            r.body matches RequestBody::FileUpload { path: p, part_name, file_name, mime }
                && p@ == filename@ && part_name@ == "file"@ && file_name@ == upload_name(filename@)
                && mime@ == "application/octet-stream"@,
    {
        self.plan_file_upload("/api/traceix/v1/capa", filename, telemetry_env)
    }

    /// The plan for the EXIF extraction upload of one local file.
    pub fn plan_exif_extraction(&self, filename: &str, telemetry_env: Option<&str>) -> (r:
        RequestPlan)
        ensures
            self.plan_matches(r, "/api/traceix/v1/exif"@, telemetry_env),
            r.body matches RequestBody::FileUpload { path: p, part_name, file_name, mime }
                && p@ == filename@ && part_name@ == "file"@ && file_name@ == upload_name(filename@)
                && mime@ == "application/octet-stream"@,
    {
        self.plan_file_upload("/api/traceix/v1/exif", filename, telemetry_env)
    }

    /// The plan for a status check. An empty identifier is refused before
    /// any request is assembled; otherwise the body is `{"uuid":"<uuid>"}`.
    pub fn plan_check_status(&self, uuid: &str, telemetry_env: Option<&str>) -> (r: Result<
        RequestPlan,
        TraceixError,
    >)
        ensures
            r is Ok <==> uuid@.len() > 0,
            r matches Err(e) ==> e == TraceixError::NoUuidProvided,
            r matches Ok(plan) ==> ({
                &&& self.plan_matches(plan, "/api/v1/traceix/status"@, telemetry_env)
                &&& plan.body matches RequestBody::Json(b) && b@ == json_one_field(
                    "uuid".spec_bytes(),
                    uuid.spec_bytes(),
                )
            }),
    {
        if uuid.is_empty() {
            return Err(TraceixError::NoUuidProvided);
        }
        let body = encode_one_field("uuid".as_bytes(), uuid.as_bytes());
        Ok(self.plan_with_body("/api/v1/traceix/status", telemetry_env, RequestBody::Json(body)))
    }

    /// The plan for a hash search: the CAPA or the EXIF search path, as the
    /// search type selects, with body `{"sha256":"<hash>"}`.
    pub fn plan_hash_search(
        &self,
        file_hash: &str,
        search_type: SearchType,
        telemetry_env: Option<&str>,
    ) -> (r: RequestPlan)
        ensures
            search_type == SearchType::Capa ==> self.plan_matches(
                r,
                "/api/traceix/v1/capa/search"@,
                telemetry_env,
            ),
            search_type == SearchType::Exif ==> self.plan_matches(
                r,
                "/api/traceix/v1/exif/search"@,
                telemetry_env,
            ),
            r.body matches RequestBody::Json(b) && b@ == json_one_field(
                "sha256".spec_bytes(),
                file_hash.spec_bytes(),
            ),
    {
        let path = match search_type {
            SearchType::Capa => "/api/traceix/v1/capa/search",
            SearchType::Exif => "/api/traceix/v1/exif/search",
        };
        let body = encode_one_field("sha256".as_bytes(), file_hash.as_bytes());
        self.plan_with_body(path, telemetry_env, RequestBody::Json(body))
    }

    /// The plan for listing all public IPFS datasets: a bare POST.
    pub fn plan_list_all_ipfs_datasets(&self, telemetry_env: Option<&str>) -> (r: RequestPlan)
        ensures
            self.plan_matches(r, "/api/traceix/v1/ipfs/listall"@, telemetry_env),
            r.body == RequestBody::Empty,
    {
        self.plan_with_body("/api/traceix/v1/ipfs/listall", telemetry_env, RequestBody::Empty)
    }

    /// The plan for fetching a public IPFS dataset by content identifier;
    /// an empty identifier is forwarded as it is.
    pub fn plan_get_public_ipfs_dataset(&self, cid: &str, telemetry_env: Option<&str>) -> (r:
        RequestPlan)
        ensures
            self.plan_matches(r, "/api/traceix/v1/ipfs/search"@, telemetry_env),
            r.body matches RequestBody::Json(b) && b@ == json_one_field(
                "cid".spec_bytes(),
                cid.spec_bytes(),
            ),
    {
        let body = encode_one_field("cid".as_bytes(), cid.as_bytes());
        self.plan_with_body("/api/traceix/v1/ipfs/search", telemetry_env, RequestBody::Json(body))
    }

    /// The plan for searching the public IPFS datasets by file hash.
    pub fn plan_search_ipfs_dataset_by_hash(&self, file_hash: &str, telemetry_env: Option<&str>)
        -> (r: RequestPlan)
        ensures
            self.plan_matches(r, "/api/traceix/v1/ipfs/find"@, telemetry_env),
            r.body matches RequestBody::Json(b) && b@ == json_one_field(
                "sha_hash".spec_bytes(),
                file_hash.spec_bytes(),
            ),
    {
        let body = encode_one_field("sha_hash".as_bytes(), file_hash.as_bytes());
        self.plan_with_body("/api/traceix/v1/ipfs/find", telemetry_env, RequestBody::Json(body))
    }
}

} // verus!
