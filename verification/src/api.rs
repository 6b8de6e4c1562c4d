//! What is sent to the Immich API and what comes back.
use vstd::prelude::*;

use crate::json::{json_array, json_array_at, json_quoted, json_string, opt_texts};
use crate::sync::{can_be_name, file_name, file_name_of, portable};
use crate::text::{
    decimal, decimal_text, ends_in, has_end, opt_str, opt_text, texts, trim_end, trim_start,
    without_end, without_start,
};
use crate::workers::asset_info::{AssetInfo, AssetInfoView};

verus! {

/// The reply to an upload.
#[derive(Debug, PartialEq, Eq)]
pub struct UploadResponse {
    pub id: Option<String>,
}

/// The reply to a bulk upload check.
#[derive(Debug, PartialEq, Eq)]
pub struct BulkUploadCheckResponse {
    pub results: Vec<BulkCheckResult>,
}

/// What the server says of one checked asset: under `action`, whether it would
/// `reject` an upload, and under `asset_id`, as which asset it knows the content.
#[derive(Debug, PartialEq, Eq)]
pub struct BulkCheckResult {
    pub id: String,
    pub action: String,
    pub asset_id: Option<String>,
}

/// One asset to be checked.
#[derive(Debug, PartialEq, Eq)]
pub struct BulkCheckInput {
    pub id: String,
    pub checksum_hex: String,
}

/// What a check result says.
pub struct CheckView {
    pub id: Seq<char>,
    pub action: Seq<char>,
    pub asset_id: Option<Seq<char>>,
}

impl View for BulkCheckResult {
    type V = CheckView;

    open spec fn view(&self) -> CheckView {
        CheckView { id: self.id@, action: self.action@, asset_id: opt_text(self.asset_id) }
    }
}

/// What a check input says.
pub struct InputView {
    pub id: Seq<char>,
    pub checksum_hex: Seq<char>,
}

impl View for BulkCheckInput {
    type V = InputView;

    open spec fn view(&self) -> InputView {
        InputView { id: self.id@, checksum_hex: self.checksum_hex@ }
    }
}

/// The version of a server.
#[derive(Debug, Clone, Copy, PartialEq, Eq, Structural)]
pub struct ServerVersion {
    pub major: u32,
    pub minor: u32,
    pub patch: u32,
}

/// What a request does.
#[derive(Debug, Clone, Copy, PartialEq, Eq, Structural)]
pub enum HttpMethod {
    Get,
    Post,
    Delete,
}

/// A request, with its JSON body, if any.
#[derive(Debug, PartialEq, Eq)]
pub struct ApiRequest {
    pub method: HttpMethod,
    pub url: String,
    pub body: Option<String>,
}

/// The form of an upload: its text fields in order, and the name under which the content
/// of the file follows them as `file_field`.
#[derive(Debug, PartialEq, Eq)]
pub struct UploadForm {
    pub url: String,
    pub fields: Vec<(String, String)>,
    pub file_field: String,
    pub file_name: String,
}

/// What a request says.
pub struct RequestView {
    pub method: HttpMethod,
    pub url: Seq<char>,
    pub body: Option<Seq<char>>,
}

impl View for ApiRequest {
    type V = RequestView;

    open spec fn view(&self) -> RequestView {
        RequestView { method: self.method, url: self.url@, body: opt_text(self.body) }
    }
}

/// What a list of form fields says.
pub open spec fn fields_view(fields: Seq<(String, String)>) -> Seq<(Seq<char>, Seq<char>)> {
    fields.map_values(|field: (String, String)| (field.0@, field.1@))
}

/// The text without the slashes at its start and its end.
pub open spec fn trim_slashes(text: Seq<char>) -> Seq<char> {
    trim_end(trim_start(text, '/'), '/')
}

/// Where the API of a server is: under `/api`, which the URL of the server may name or
/// not, and end in slashes or not.
pub open spec fn api_base(server_url: Seq<char>) -> Seq<char> {
    let base = trim_end(server_url, '/');
    if ends_in(base, "/api"@) {
        base
    } else {
        base + "/api"@
    }
}

/// The URL of a path of the API.
pub open spec fn api_url(base_url: Seq<char>, path: Seq<char>) -> Seq<char> {
    base_url + "/"@ + trim_slashes(path)
}

/// Whether a text can be the value of an HTTP header: it has no control characters but
/// the tab.
pub open spec fn header_text(text: Seq<char>) -> bool {
    forall|i: int|
        0 <= i < text.len() ==> (#[trigger] text[i] as int == 9 || text[i] as int >= 32
            && text[i] as int != 127)
}

/// Whether `reqwest::header::HeaderValue::from_str` takes a text: it refuses the control
/// characters below the space, but for the tab, and the one behind the tilde.
#[verifier::external_body]
fn is_header_value(text: &str) -> (r: bool)
    ensures
        r == header_text(text@),
{
    reqwest::header::HeaderValue::from_str(text).is_ok()
}

/// The API of a server, as one user sees it.
#[derive(Debug, PartialEq, Eq)]
pub struct ImmichAPI {
    pub base_url: String,
    pub api_key: String,
}

impl ImmichAPI {
    /// Whether a key can be sent to the server.
    pub fn accepts_key(api_key: &str) -> (r: bool)
        ensures
            r == header_text(api_key@),
    {
        is_header_value(api_key)
    }

    /// The API of a server under a key.
    pub fn new(base_url: &str, api_key: &str) -> (r: ImmichAPI)
        requires
            header_text(api_key@),
        ensures
            r.base_url@ == api_base(base_url@),
            r.api_key@ == api_key@,
    {
        let base: String = without_end(base_url, '/');
        let base_url: String = if has_end(base.as_str(), "/api") {
            base
        } else {
            base.concat("/api")
        };
        ImmichAPI { base_url, api_key: api_key.to_owned() }
    }

    /// The headers that every request carries.
    pub fn headers(&self) -> (r: Vec<(String, String)>)
        ensures
            fields_view(r@) == seq![
                ("accept"@, "application/json"@),
                ("x-api-key"@, self.api_key@),
            ],
    {
        let mut r: Vec<(String, String)> = Vec::new();
        r.push(("accept".to_owned(), "application/json".to_owned()));
        r.push(("x-api-key".to_owned(), self.api_key.clone()));
        assert(fields_view(r@) =~= seq![
            ("accept"@, "application/json"@),
            ("x-api-key"@, self.api_key@),
        ]);
        r
    }

    /// The URL of a path of the API. Slashes around the path do not matter.
    pub fn url(&self, path: &str) -> (r: String)
        requires
            trim_slashes(path@).len() > 0,
        ensures
            r@ == api_url(self.base_url@, path@),
    {
        let start: String = without_start(path, '/');
        let trimmed: String = without_end(start.as_str(), '/');
        self.base_url.clone().concat("/").concat(trimmed.as_str())
    }

    /// The request for the assets with a file name.
    pub fn search_assets_request(&self, filename: &str) -> (r: ApiRequest)
        ensures
            r@ == (RequestView {
                method: HttpMethod::Post,
                url: api_url(self.base_url@, "search/metadata"@),
                body: Some("{\"originalFileName\":"@ + json_quoted(filename@) + "}"@),
            }),
    {
        proof {
            reveal_strlit("search/metadata");
        }
        let name: String = json_string(filename);
        ApiRequest {
            method: HttpMethod::Post,
            url: self.url("search/metadata"),
            body: Some("{\"originalFileName\":".to_owned().concat(name.as_str()).concat("}")),
        }
    }

    /// The request to empty the trash.
    pub fn empty_trash_request(&self) -> (r: ApiRequest)
        ensures
            r@ == (RequestView {
                method: HttpMethod::Post,
                url: api_url(self.base_url@, "trash/empty"@),
                body: None,
            }),
    {
        proof {
            reveal_strlit("trash/empty");
        }
        ApiRequest { method: HttpMethod::Post, url: self.url("trash/empty"), body: None }
    }

    /// The request to delete an asset.
    pub fn delete_asset_request(&self, asset_id: &str) -> (r: ApiRequest)
        ensures
            r@ == (RequestView {
                method: HttpMethod::Delete,
                url: api_url(self.base_url@, "assets"@),
                body: Some("{\"ids\":["@ + json_quoted(asset_id@) + "]}"@),
            }),
    {
        proof {
            reveal_strlit("assets");
        }
        let id: String = json_string(asset_id);
        ApiRequest {
            method: HttpMethod::Delete,
            url: self.url("assets"),
            body: Some("{\"ids\":[".to_owned().concat(id.as_str()).concat("]}")),
        }
    }

    /// The request for the version of the server.
    pub fn server_version_request(&self) -> (r: ApiRequest)
        ensures
            r@ == (RequestView {
                method: HttpMethod::Get,
                url: api_url(self.base_url@, "server/version"@),
                body: None,
            }),
    {
        proof {
            reveal_strlit("server/version");
        }
        ApiRequest { method: HttpMethod::Get, url: self.url("server/version"), body: None }
    }

    /// The request to check which of some assets the server has.
    pub fn bulk_upload_check_request(&self, assets: &[BulkCheckInput]) -> (r: ApiRequest)
        ensures
            r@ == (RequestView {
                method: HttpMethod::Post,
                url: api_url(self.base_url@, "assets/bulk-upload-check"@),
                body: Some(
                    "{\"assets\":["@ + check_items(
                        assets@.map_values(|input: BulkCheckInput| input@),
                    ) + "]}"@,
                ),
            }),
    {
        proof {
            reveal_strlit("assets/bulk-upload-check");
        }
        let ghost inputs = assets@.map_values(|input: BulkCheckInput| input@);
        let mut items: String = String::new();
        let mut i: usize = 0;
        while i < assets.len()
            invariant
                i <= assets.len(),
                inputs == assets@.map_values(|input: BulkCheckInput| input@),
                items@ == check_items(inputs.take(i as int)),
            decreases assets.len() - i,
        {
            let ghost done = inputs.take(i + 1);
            assert(done.drop_last() =~= inputs.take(i as int));
            assert(done.last() == assets@[i as int]@);
            if i > 0 {
                items.append(",");
            }
            let checksum: String = json_string(assets[i].checksum_hex.as_str());
            let id: String = json_string(assets[i].id.as_str());
            let item: String = "{\"checksum\":".to_owned().concat(checksum.as_str()).concat(
                ",\"id\":",
            ).concat(id.as_str()).concat("}");
            items.append(item.as_str());
            assert(i == 0 ==> items@ =~= check_item(done.last()));
            i = i + 1;
        }
        assert(inputs.take(assets.len() as int) =~= inputs);
        ApiRequest {
            method: HttpMethod::Post,
            url: self.url("assets/bulk-upload-check"),
            body: Some("{\"assets\":[".to_owned().concat(items.as_str()).concat("]}")),
        }
    }

    /// The form that uploads the file under a path, by its file name.
    pub fn upload_asset_form(&self, path: &str, info: &AssetInfo) -> (r: Result<
        UploadForm,
        ApiError,
    >)
        ensures
            portable(path@) ==> is_upload_form(
                r,
                self.base_url@,
                path@,
                file_name_of(path@),
                info@,
            ),
            exists|name: Option<Seq<char>>| #[trigger]
                can_be_name(path@, name) && is_upload_form(
                    r,
                    self.base_url@,
                    path@,
                    name,
                    info@,
                ),
    {
        let name: Option<String> = file_name(path);
        match &name {
            Some(name) => self.upload_form_named(path, Some(name.as_str()), info),
            None => self.upload_form_named(path, None, info),
        }
    }

    /// The form that uploads a file with this name. A file without a name cannot be
    /// uploaded; `path` says which file it is.
    pub fn upload_form_named(&self, path: &str, file_name: Option<&str>, info: &AssetInfo) -> (r:
        Result<UploadForm, ApiError>)
        ensures
            is_upload_form(
                r,
                self.base_url@,
                path@,
                opt_str(file_name),
                info@,
            ),
    {
        let name: String = match file_name {
            Some(name) => name.to_owned(),
            None => {
                return Err(ApiError::InvalidFileName { path: path.to_owned() });
            },
        };
        proof {
            reveal_strlit("assets");
        }
        let mut fields: Vec<(String, String)> = Vec::new();
        fields.push(("deviceAssetId".to_owned(), info.device_asset_id.clone()));
        fields.push(("deviceId".to_owned(), "sync-service".to_owned()));
        fields.push(("fileCreatedAt".to_owned(), info.file_created_at.clone()));
        fields.push(("fileModifiedAt".to_owned(), info.file_modified_at.clone()));
        assert(fields_view(fields@) =~= seq![
            ("deviceAssetId"@, info.device_asset_id@),
            ("deviceId"@, "sync-service"@),
            ("fileCreatedAt"@, info.file_created_at@),
            ("fileModifiedAt"@, info.file_modified_at@),
        ]);
        Ok(
            UploadForm {
                url: self.url("assets"),
                fields,
                file_field: "assetData".to_owned(),
                file_name: name,
            },
        )
    }
}

/// Whether a result is the form that uploads a file with this name, or the error where it
/// has none.
pub open spec fn is_upload_form(
    result: Result<UploadForm, ApiError>,
    base_url: Seq<char>,
    path: Seq<char>,
    file_name: Option<Seq<char>>,
    info: AssetInfoView,
) -> bool {
    match result {
        Ok(form) => {
            &&& file_name == Some(form.file_name@)
            &&& form.url@ == api_url(base_url, "assets"@)
            &&& form.file_field@ == "assetData"@
            &&& fields_view(form.fields@) == seq![
                ("deviceAssetId"@, info.device_asset_id),
                ("deviceId"@, "sync-service"@),
                ("fileCreatedAt"@, info.file_created_at),
                ("fileModifiedAt"@, info.file_modified_at),
            ]
        },
        Err(error) => file_name is None && error@ == (ApiErrorView::InvalidFileName { path }),
    }
}

/// One asset of a bulk check, as JSON.
pub open spec fn check_item(input: InputView) -> Seq<char> {
    "{\"checksum\":"@ + json_quoted(input.checksum_hex) + ",\"id\":"@ + json_quoted(input.id)
        + "}"@
}

/// The assets of a bulk check, as the items of a JSON array.
pub open spec fn check_items(inputs: Seq<InputView>) -> Seq<char>
    decreases inputs.len(),
{
    if inputs.len() == 0 {
        Seq::empty()
    } else if inputs.len() == 1 {
        check_item(inputs[0])
    } else {
        check_items(inputs.drop_last()) + ","@ + check_item(inputs.last())
    }
}

/// What is wrong with a request or its reply.
#[derive(Debug, PartialEq, Eq)]
pub enum ApiError {
    /// The file to be uploaded has no name that is text.
    InvalidFileName { path: String },
    /// The server refused the request.
    Status { operation: Operation, status: u16, body: String },
    /// The server refused to delete an asset.
    NotDeleted { asset_id: String, status: u16, body: String },
    /// The reply could not be read.
    Malformed { reply: Reply, body: String },
}

/// What was asked of the server.
#[derive(Debug, Clone, Copy, PartialEq, Eq, Structural)]
pub enum Operation {
    Search,
    EmptyTrash,
    ServerVersion,
    BulkUploadCheck,
}

/// What a reply is about.
#[derive(Debug, Clone, Copy, PartialEq, Eq, Structural)]
pub enum Reply {
    Upload,
    Search,
    ServerVersion,
    BulkUploadCheck,
}

/// What an API error says.
pub enum ApiErrorView {
    InvalidFileName { path: Seq<char> },
    Status { operation: Operation, status: u16, body: Seq<char> },
    NotDeleted { asset_id: Seq<char>, status: u16, body: Seq<char> },
    Malformed { reply: Reply, body: Seq<char> },
}

impl View for ApiError {
    type V = ApiErrorView;

    open spec fn view(&self) -> ApiErrorView {
        match *self {
            ApiError::InvalidFileName { path } => ApiErrorView::InvalidFileName { path: path@ },
            ApiError::Status { operation, status, body } => ApiErrorView::Status {
                operation,
                status,
                body: body@,
            },
            ApiError::NotDeleted { asset_id, status, body } => ApiErrorView::NotDeleted {
                asset_id: asset_id@,
                status,
                body: body@,
            },
            ApiError::Malformed { reply, body } => ApiErrorView::Malformed {
                reply,
                body: body@,
            },
        }
    }
}

/// How a request is called in the message about its refusal.
pub open spec fn request_name(operation: Operation) -> Seq<char> {
    match operation {
        Operation::Search => "POST search/metadata"@,
        Operation::EmptyTrash => "POST trash/empty"@,
        Operation::ServerVersion => "GET server/version"@,
        Operation::BulkUploadCheck => "bulk-upload-check"@,
    }
}

/// How a reply is called in the message that it could not be read.
pub open spec fn reply_name(reply: Reply) -> Seq<char> {
    match reply {
        Reply::Upload => "upload"@,
        Reply::Search => "search"@,
        Reply::ServerVersion => "server version"@,
        Reply::BulkUploadCheck => "bulk-upload-check"@,
    }
}

impl ApiErrorView {
    /// The message of an error.
    pub open spec fn message(self) -> Seq<char> {
        match self {
            ApiErrorView::InvalidFileName { path } => "Invalid file name: "@ + path,
            ApiErrorView::Status { operation, status, body } => request_name(operation)
                + " returned status "@ + decimal_text(status as nat) + ". Response: "@ + body,
            ApiErrorView::NotDeleted { asset_id, status, body } => "Failed to delete asset "@
                + asset_id + ", status code "@ + decimal_text(status as nat) + ". Response: "@
                + body,
            ApiErrorView::Malformed { reply, body } => "Failed to parse "@ + reply_name(reply)
                + " response: "@ + body,
        }
    }
}

impl ApiError {
    /// The message of the error.
    pub fn message(&self) -> (r: String)
        ensures
            r@ == self@.message(),
    {
        match self {
            ApiError::InvalidFileName { path } => "Invalid file name: ".to_owned().concat(
                path.as_str(),
            ),
            ApiError::Status { operation, status, body } => {
                let name: &str = match operation {
                    Operation::Search => "POST search/metadata",
                    Operation::EmptyTrash => "POST trash/empty",
                    Operation::ServerVersion => "GET server/version",
                    Operation::BulkUploadCheck => "bulk-upload-check",
                };
                let code: String = decimal(*status as u64);
                name.to_owned().concat(" returned status ").concat(code.as_str()).concat(
                    ". Response: ",
                ).concat(body.as_str())
            },
            ApiError::NotDeleted { asset_id, status, body } => {
                let code: String = decimal(*status as u64);
                "Failed to delete asset ".to_owned().concat(asset_id.as_str()).concat(
                    ", status code ",
                ).concat(code.as_str()).concat(". Response: ").concat(body.as_str())
            },
            ApiError::Malformed { reply, body } => {
                let name: &str = match reply {
                    Reply::Upload => "upload",
                    Reply::Search => "search",
                    Reply::ServerVersion => "server version",
                    Reply::BulkUploadCheck => "bulk-upload-check",
                };
                "Failed to parse ".to_owned().concat(name).concat(" response: ").concat(
                    body.as_str(),
                )
            },
        }
    }
}

/// What the reply to an upload comes to, given what its body says, if that could be
/// read. A refused upload is no error: it has no response.
pub fn upload_reply(status: u16, body: &str, parsed: Option<UploadResponse>) -> (r: Result<
    Option<UploadResponse>,
    ApiError,
>)
    ensures
        match r {
            Ok(None) => status != 200 && status != 201,
            Ok(Some(response)) => (status == 200 || status == 201) && parsed == Some(response),
            Err(error) => (status == 200 || status == 201) && parsed is None && error@ == (
            ApiErrorView::Malformed { reply: Reply::Upload, body: body@ }),
        },
{
    if status != 200 && status != 201 {
        return Ok(None);
    }
    match parsed {
        Some(response) => Ok(Some(response)),
        None => Err(ApiError::Malformed { reply: Reply::Upload, body: body.to_owned() }),
    }
}

/// What the reply to a search comes to, given what its body holds under the items of the
/// found assets: `None` if the body is no JSON, `Some(None)` if it has no such list.
pub open spec fn found_assets(
    status: u16,
    body: Seq<char>,
    found: Option<Option<Seq<Seq<char>>>>,
) -> Result<Seq<Seq<char>>, ApiErrorView> {
    if status != 200 {
        Err(ApiErrorView::Status { operation: Operation::Search, status, body })
    } else {
        match found {
            None => Err(ApiErrorView::Malformed { reply: Reply::Search, body }),
            Some(None) => Ok(Seq::empty()),
            Some(Some(items)) => Ok(items),
        }
    }
}

/// What a list of found assets, or an error in place of it, says.
pub open spec fn found_view(found: Result<Vec<String>, ApiError>) -> Result<
    Seq<Seq<char>>,
    ApiErrorView,
> {
    match found {
        Ok(items) => Ok(texts(items@)),
        Err(error) => Err(error@),
    }
}

/// What a JSON body that may be none, and may lack a list, holds.
pub open spec fn body_view(found: Option<Option<Vec<String>>>) -> Option<Option<Seq<Seq<char>>>> {
    match found {
        Some(list) => Some(opt_texts(list)),
        None => None,
    }
}

/// What the reply to a search comes to, given what its body holds.
pub fn search_outcome(status: u16, body: &str, found: Option<Option<Vec<String>>>) -> (r: Result<
    Vec<String>,
    ApiError,
>)
    ensures
        found_view(r) == found_assets(status, body@, body_view(found)),
{
    if status != 200 {
        return Err(
            ApiError::Status { operation: Operation::Search, status, body: body.to_owned() },
        );
    }
    match found {
        None => Err(ApiError::Malformed { reply: Reply::Search, body: body.to_owned() }),
        Some(None) => {
            let none: Vec<String> = Vec::new();
            assert(texts(none@) =~= Seq::empty());
            Ok(none)
        },
        Some(Some(items)) => Ok(items),
    }
}

/// The found assets in the reply to a search, each as JSON text.
pub fn search_reply(status: u16, body: &str) -> (r: Result<Vec<String>, ApiError>)
    ensures
        found_view(r) == found_assets(
            status,
            body@,
            json_array(body@, "assets"@, "items"@),
        ),
{
    let found: Option<Option<Vec<String>>> = match json_array_at(body, "assets", "items") {
        Ok(list) => Some(list),
        Err(_) => None,
    };
    search_outcome(status, body, found)
}

/// Whether the trash was emptied.
pub fn empty_trash_reply(status: u16, body: &str) -> (r: Result<(), ApiError>)
    ensures
        match r {
            Ok(_) => status == 200,
            Err(error) => status != 200 && error@ == (ApiErrorView::Status {
                operation: Operation::EmptyTrash,
                status,
                body: body@,
            }),
        },
{
    if status != 200 {
        return Err(
            ApiError::Status { operation: Operation::EmptyTrash, status, body: body.to_owned() },
        );
    }
    Ok(())
}

/// Whether an asset was deleted.
pub fn delete_asset_reply(asset_id: &str, status: u16, body: &str) -> (r: Result<(), ApiError>)
    ensures
        match r {
            Ok(_) => status == 204,
            Err(error) => status != 204 && error@ == (ApiErrorView::NotDeleted {
                asset_id: asset_id@,
                status,
                body: body@,
            }),
        },
{
    if status != 204 {
        return Err(
            ApiError::NotDeleted { asset_id: asset_id.to_owned(), status, body: body.to_owned() },
        );
    }
    Ok(())
}

/// The version in the reply to a request for it, given what its body says, if that could
/// be read.
pub fn server_version_reply(status: u16, body: &str, parsed: Option<ServerVersion>) -> (r: Result<
    ServerVersion,
    ApiError,
>)
    ensures
        match r {
            Ok(version) => status == 200 && parsed == Some(version),
            Err(error) => if status != 200 {
                error@ == (ApiErrorView::Status {
                    operation: Operation::ServerVersion,
                    status,
                    body: body@,
                })
            } else {
                parsed is None && error@ == (ApiErrorView::Malformed {
                    reply: Reply::ServerVersion,
                    body: body@,
                })
            },
        },
{
    if status != 200 {
        return Err(
            ApiError::Status {
                operation: Operation::ServerVersion,
                status,
                body: body.to_owned(),
            },
        );
    }
    match parsed {
        Some(version) => Ok(version),
        None => Err(ApiError::Malformed { reply: Reply::ServerVersion, body: body.to_owned() }),
    }
}

/// The results in the reply to a bulk check, given what its body says, if that could be
/// read.
pub fn bulk_upload_check_reply(
    status: u16,
    body: &str,
    parsed: Option<BulkUploadCheckResponse>,
) -> (r: Result<BulkUploadCheckResponse, ApiError>)
    ensures
        match r {
            Ok(response) => status == 200 && parsed == Some(response),
            Err(error) => if status != 200 {
                error@ == (ApiErrorView::Status {
                    operation: Operation::BulkUploadCheck,
                    status,
                    body: body@,
                })
            } else {
                parsed is None && error@ == (ApiErrorView::Malformed {
                    reply: Reply::BulkUploadCheck,
                    body: body@,
                })
            },
        },
{
    if status != 200 {
        return Err(
            ApiError::Status {
                operation: Operation::BulkUploadCheck,
                status,
                body: body.to_owned(),
            },
        );
    }
    match parsed {
        Some(response) => Ok(response),
        None => Err(ApiError::Malformed { reply: Reply::BulkUploadCheck, body: body.to_owned() }),
    }
}

/// A version in dotted form.
pub open spec fn version_text(version: ServerVersion) -> Seq<char> {
    decimal_text(version.major as nat) + "."@ + decimal_text(version.minor as nat) + "."@
        + decimal_text(version.patch as nat)
}

impl ServerVersion {
    /// The version in dotted form.
    pub fn text(&self) -> (r: String)
        ensures
            r@ == version_text(*self),
    {
        let major: String = decimal(self.major as u64);
        let minor: String = decimal(self.minor as u64);
        let patch: String = decimal(self.patch as u64);
        major.concat(".").concat(minor.as_str()).concat(".").concat(patch.as_str())
    }
}

/// Something that the log is told.
#[derive(Debug, PartialEq, Eq)]
pub enum Notice {
    Info(String),
    Warning(String),
}

/// What a notice says.
pub enum NoticeView {
    Info(Seq<char>),
    Warning(Seq<char>),
}

impl View for Notice {
    type V = NoticeView;

    open spec fn view(&self) -> NoticeView {
        match *self {
            Notice::Info(text) => NoticeView::Info(text@),
            Notice::Warning(text) => NoticeView::Warning(text@),
        }
    }
}

/// What the log is told of the server at startup: its version, with a warning if that is
/// one whose support ends, or the message of what went wrong.
pub open spec fn version_notice_of(version: Result<ServerVersion, Seq<char>>) -> NoticeView {
    match version {
        Ok(version) => if version.major == 2 {
            NoticeView::Warning(
                "Immich server v"@ + version_text(version)
                    + " detected. Immich v2 support is deprecated and will be removed in 0.3.x releases — please upgrade to Immich v3"@,
            )
        } else {
            NoticeView::Info("Immich server v"@ + version_text(version) + " detected"@)
        },
        Err(message) => NoticeView::Warning(
            "Could not determine Immich server version: "@ + message,
        ),
    }
}

/// What the log is told of the server at startup.
pub fn version_notice(version: Result<ServerVersion, String>) -> (r: Notice)
    ensures
        r@ == version_notice_of(
            match version {
                Ok(version) => Ok(version),
                Err(message) => Err(message@),
            },
        ),
{
    match version {
        Ok(version) => {
            let start: String = "Immich server v".to_owned().concat(version.text().as_str());
            if version.major == 2 {
                Notice::Warning(
                    start.concat(
                        " detected. Immich v2 support is deprecated and will be removed in 0.3.x releases — please upgrade to Immich v3",
                    ),
                )
            } else {
                Notice::Info(start.concat(" detected"))
            }
        },
        Err(message) => Notice::Warning(
            "Could not determine Immich server version: ".to_owned().concat(message.as_str()),
        ),
    }
}

} // verus!
