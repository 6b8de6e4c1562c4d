//! What holds of every URL of the API, and of what is sent there and comes back.
use vstd::prelude::*;

use crate::api::{
    api_base, api_url, check_items, fields_view, found_assets, header_text, is_upload_form,
    trim_slashes, version_notice_of, version_text, ApiError, ApiErrorView, InputView, NoticeView,
    Operation, Reply, ServerVersion, UploadForm,
};
use crate::json::json_quoted;
use crate::text::{decimal_text, ends_in, trim_end, trim_start};
use crate::workers::asset_info::AssetInfoView;

verus! {

/// Wherever the server is, its API is under `/api`.
pub proof fn the_api_is_under_its_path(server_url: Seq<char>)
    ensures
        ends_in(api_base(server_url), "/api"@),
{
    let base = trim_end(server_url, '/');
    if !ends_in(base, "/api"@) {
        assert((base + "/api"@).skip(base.len() as int) =~= "/api"@);
    }
}

/// The URL of the API is itself a URL of the server: to name `/api` again changes
/// nothing.
pub proof fn the_api_path_is_added_once(server_url: Seq<char>)
    ensures
        api_base(api_base(server_url)) == api_base(server_url),
{
    let base = api_base(server_url);
    the_api_is_under_its_path(server_url);
    reveal_strlit("/api");
    assert(base.last() == base.skip(base.len() - 4).last());
    assert(base.last() == 'i');
    assert(trim_end(base, '/') == base);
}

/// A slash behind the URL of the server changes nothing.
pub proof fn a_trailing_slash_does_not_matter(server_url: Seq<char>)
    ensures
        api_base(server_url.push('/')) == api_base(server_url),
{
    assert(server_url.push('/').drop_last() =~= server_url);
}

proof fn trimming_the_start_keeps_the_end(path: Seq<char>)
    ensures
        trim_start(path.push('/'), '/') == (if trim_start(path, '/').len() == 0 {
            Seq::empty()
        } else {
            trim_start(path, '/').push('/')
        }),
    decreases path.len(),
{
    if path.len() == 0 {
        assert(path.push('/').drop_first() =~= Seq::empty());
        assert(trim_start(Seq::<char>::empty(), '/') =~= Seq::empty());
    } else if path[0] == '/' {
        trimming_the_start_keeps_the_end(path.drop_first());
        assert(path.push('/').drop_first() =~= path.drop_first().push('/'));
    }
}

/// Slashes around a path of the API change nothing.
pub proof fn slashes_around_a_path_do_not_matter(base_url: Seq<char>, path: Seq<char>)
    ensures
        api_url(base_url, seq!['/'] + path) == api_url(base_url, path),
        api_url(base_url, path.push('/')) == api_url(base_url, path),
{
    assert((seq!['/'] + path).drop_first() =~= path);
    trimming_the_start_keeps_the_end(path);
    let start = trim_start(path, '/');
    if start.len() > 0 {
        assert(start.push('/').drop_last() =~= start);
    }
}

/// A URL of the API starts where the API is.
pub proof fn urls_are_under_the_api(base_url: Seq<char>, path: Seq<char>)
    ensures
        api_url(base_url, path).take(base_url.len() as int) == base_url,
        api_url(base_url, path).skip(base_url.len() as int) == "/"@ + trim_slashes(path),
{
    assert(api_url(base_url, path).take(base_url.len() as int) =~= base_url);
    assert(api_url(base_url, path).skip(base_url.len() as int) =~= "/"@ + trim_slashes(path));
}

/// A server that is named without `/api` has its API under it, and one that is named with it
/// has it there.
pub proof fn the_api_path_follows_the_server(server_url: Seq<char>)
    requires
        server_url.len() > 0 ==> server_url.last() != '/',
    ensures
        ends_in(server_url, "/api"@) ==> api_base(server_url) == server_url,
        !ends_in(server_url, "/api"@) ==> api_base(server_url) == server_url + "/api"@,
{
}

/// A path without slashes around it follows the API behind one slash.
pub proof fn paths_follow_the_api(base_url: Seq<char>, path: Seq<char>)
    requires
        path.len() > 0,
        path[0] != '/',
        path.last() != '/',
    ensures
        api_url(base_url, path) == base_url + "/"@ + path,
{
}

/// A key can be sent if and only if each of its characters can: the tab, and every one from
/// the space on but the delete character.
pub proof fn keys_are_judged_by_character(a: Seq<char>, b: Seq<char>, c: char)
    ensures
        header_text(a + b) == (header_text(a) && header_text(b)),
        header_text(seq![c]) == (c as int == 9 || (c as int >= 32 && c as int != 127)),
        header_text(Seq::empty()),
{
    let both = a + b;
    assert forall|i: int| 0 <= i < a.len() implies a[i] == both[i] by {}
    assert forall|i: int| 0 <= i < b.len() implies b[i] == both[a.len() + i] by {}
    if header_text(both) {
        assert forall|i: int| 0 <= i < a.len() implies (#[trigger] a[i] as int == 9 || a[i] as int
            >= 32 && a[i] as int != 127) by {
            assert(both[i] == a[i]);
        }
        assert forall|i: int| 0 <= i < b.len() implies (#[trigger] b[i] as int == 9 || b[i] as int
            >= 32 && b[i] as int != 127) by {
            assert(both[a.len() + i] == b[i]);
        }
    }
    if header_text(a) && header_text(b) {
        assert forall|i: int| 0 <= i < both.len() implies (#[trigger] both[i] as int == 9
            || both[i] as int >= 32 && both[i] as int != 127) by {
            if i < a.len() {
                assert(both[i] == a[i]);
            } else {
                assert(both[i] == b[i - a.len()]);
            }
        }
    }
    assert(seq![c][0] == c);
}

/// The assets of a check are listed one by one, in order, with a comma between two of them:
/// each with its checksum and its ID, under these names.
pub proof fn each_asset_of_a_check_is_listed(a: Seq<InputView>, b: Seq<InputView>, input: InputView)
    ensures
        check_items(Seq::empty()) == Seq::<char>::empty(),
        check_items(seq![input]) == "{\"checksum\":"@ + json_quoted(input.checksum_hex)
            + ",\"id\":"@ + json_quoted(input.id) + "}"@,
        a.len() > 0 && b.len() > 0 ==> check_items(a + b) == check_items(a) + ","@ + check_items(b),
    decreases b.len(),
{
    if a.len() > 0 && b.len() > 0 {
        let all = a + b;
        assert(all.last() == b.last());
        if b.len() == 1 {
            assert(all.drop_last() =~= a);
            assert(b.last() == b[0]);
        } else {
            each_asset_of_a_check_is_listed(a, b.drop_last(), input);
            assert(all.drop_last() =~= a + b.drop_last());
        }
        assert(check_items(all) =~= check_items(a) + ","@ + check_items(b));
    }
}

/// A file is uploaded under its name if and only if it has one, with what is told of it in
/// these fields, in this order.
pub proof fn upload_forms_hold_what_is_told(
    result: Result<UploadForm, ApiError>,
    base_url: Seq<char>,
    path: Seq<char>,
    file_name: Option<Seq<char>>,
    info: AssetInfoView,
)
    requires
        is_upload_form(result, base_url, path, file_name, info),
    ensures
        result is Ok <==> file_name is Some,
        result is Ok ==> {
            let form = result->Ok_0;
            let fields = fields_view(form.fields@);
            &&& form.file_name@ == file_name->0
            &&& form.file_field@ == "assetData"@
            &&& form.url@ == base_url + "/assets"@
            &&& fields.len() == 4
            &&& fields[0] == ("deviceAssetId"@, info.device_asset_id)
            &&& fields[1] == ("deviceId"@, "sync-service"@)
            &&& fields[2] == ("fileCreatedAt"@, info.file_created_at)
            &&& fields[3] == ("fileModifiedAt"@, info.file_modified_at)
        },
        result is Err ==> result->Err_0@ == (ApiErrorView::InvalidFileName { path }),
{
    reveal_strlit("assets");
    reveal_strlit("/");
    reveal_strlit("/assets");
    paths_follow_the_api(base_url, "assets"@);
    assert("/"@ + "assets"@ =~= "/assets"@);
    assert(base_url + "/"@ + "assets"@ =~= base_url + ("/"@ + "assets"@));
}

/// A search succeeds if and only if the server answers with status 200 and JSON, and then
/// finds what the list in it holds, or nothing where there is no list.
pub proof fn a_search_finds_what_is_listed(
    status: u16,
    body: Seq<char>,
    found: Option<Option<Seq<Seq<char>>>>,
)
    ensures
        found_assets(status, body, found) is Ok <==> status == 200 && found is Some,
        status == 200 && found is Some && found->0 is Some ==> found_assets(
            status,
            body,
            found,
        )->Ok_0 == found->0->0,
        status == 200 && found is Some && found->0 is None ==> found_assets(
            status,
            body,
            found,
        )->Ok_0.len() == 0,
        status != 200 ==> found_assets(status, body, found)->Err_0 == (ApiErrorView::Status {
            operation: Operation::Search,
            status,
            body,
        }),
        status == 200 && found is None ==> found_assets(status, body, found)->Err_0 == (
        ApiErrorView::Malformed { reply: Reply::Search, body }),
{
}

/// The message of an error says what was asked, the status, and what the server replied.
pub proof fn messages_say_what_went_wrong(
    path: Seq<char>,
    status: u16,
    body: Seq<char>,
    operation: Operation,
    reply: Reply,
)
    ensures
        (ApiErrorView::InvalidFileName { path }).message() == "Invalid file name: "@ + path,
        (ApiErrorView::NotDeleted { asset_id: path, status, body }).message()
            == "Failed to delete asset "@ + path + ", status code "@ + decimal_text(status as nat)
            + ". Response: "@ + body,
        (ApiErrorView::Status { operation, status, body }).message() == (match operation {
            Operation::Search => "POST search/metadata"@,
            Operation::EmptyTrash => "POST trash/empty"@,
            Operation::ServerVersion => "GET server/version"@,
            Operation::BulkUploadCheck => "bulk-upload-check"@,
        }) + " returned status "@ + decimal_text(status as nat) + ". Response: "@ + body,
        (ApiErrorView::Malformed { reply, body }).message() == "Failed to parse "@ + (match reply {
            Reply::Upload => "upload"@,
            Reply::Search => "search"@,
            Reply::ServerVersion => "server version"@,
            Reply::BulkUploadCheck => "bulk-upload-check"@,
        }) + " response: "@ + body,
{
}

/// A server is warned about if and only if its major version is 2, whatever its minor version
/// and patch, or if its version could not be had. The notice names the version, or says why.
pub proof fn old_servers_are_warned_about(
    version: ServerVersion,
    other: ServerVersion,
    message: Seq<char>,
)
    ensures
        version_text(version) == decimal_text(version.major as nat) + "."@ + decimal_text(
            version.minor as nat,
        ) + "."@ + decimal_text(version.patch as nat),
        version_notice_of(Ok(version)) is Warning <==> version.major == 2,
        version.major == 2 ==> version_notice_of(Ok(version))->Warning_0 == "Immich server v"@
            + version_text(version)
            + " detected. Immich v2 support is deprecated and will be removed in 0.3.x releases — please upgrade to Immich v3"@,
        version.major != 2 ==> version_notice_of(Ok(version))->Info_0 == "Immich server v"@
            + version_text(version) + " detected"@,
        version_notice_of(Err(message)) == NoticeView::Warning(
            "Could not determine Immich server version: "@ + message,
        ),
        version.major == other.major ==> (version_notice_of(Ok(version)) is Warning
            == version_notice_of(Ok(other)) is Warning),
{
}

} // verus!
