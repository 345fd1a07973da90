//! The upload side of the gateway: what a form holds, whether it is let in,
//! under which token its file is stored, and how it enters the registry.

use vstd::prelude::*;
use vstd::string::StringExecFns;
use crate::config::{download_url, text_or, AppConfig, NANOS_PER_SEC};
use crate::entry::{Entry, EntryView};
use crate::error::AppError;
use crate::model::{after_create, keyed_by_id};
use crate::platform::{
    file_extension, fresh_id, has_no_slash, is_hyphenated_hex, is_lower_hex, join_location,
    joined_path, path_extension,
};
use crate::registry::{Conflict, Registry};
use crate::text::{join3, same_text, text_of};

verus! {

/// What a field of the upload form is for.
#[derive(Clone, Copy, Debug, PartialEq, Eq, Structural)]
pub enum FieldKind {
    /// The field named `password`: the upload secret.
    Password,
    /// The field named `file`: the payload.
    File,
    /// Any other field: passed over.
    Other,
}

/// What the field with the name `name` is for.
pub open spec fn kind_of(name: Option<Seq<char>>) -> FieldKind {
    match name {
        Some(n) => if n == "password"@ {
            FieldKind::Password
        } else if n == "file"@ {
            FieldKind::File
        } else {
            FieldKind::Other
        },
        None => FieldKind::Other,
    }
}

/// What the field with the name `name` is for.
pub fn field_kind(name: Option<&str>) -> (kind: FieldKind)
    ensures
        kind == kind_of(
            match name {
                Some(n) => Some(n@),
                None => None,
            },
        ),
{
    match name {
        Some(n) => if same_text(n, "password") {
            FieldKind::Password
        } else if same_text(n, "file") {
            FieldKind::File
        } else {
            FieldKind::Other
        },
        None => FieldKind::Other,
    }
}

/// The file that an upload carries.
#[derive(Debug, PartialEq, Eq)]
pub struct FilePart {
    /// The name the file was sent under.
    pub filename: String,
    /// The content type the file was sent with.
    pub content_type: Option<String>,
    /// The payload.
    pub data: Vec<u8>,
}

/// What has been read of an upload form so far.
#[derive(Debug, PartialEq, Eq)]
pub struct UploadForm {
    /// The secret of the last `password` field, if it could be read.
    pub password: Option<String>,
    /// The last `file` field.
    pub file: Option<FilePart>,
}

impl UploadForm {
    /// A form of which nothing has been read.
    pub fn new() -> (form: UploadForm)
        ensures
            form.password is None,
            form.file is None,
    {
        UploadForm { password: None, file: None }
    }

    /// Takes in a `password` field: `text` is its content, or nothing where
    /// the content could not be read. An earlier secret is forgotten.
    pub fn set_password(&mut self, text: Option<String>)
        ensures
            final(self).password == text,
            final(self).file == old(self).file,
    {
        self.password = text;
    }

    /// Takes in a `file` field. A file sent without a name is called
    /// `upload.bin`. An earlier file is forgotten.
    pub fn set_file(
        &mut self,
        file_name: Option<String>,
        content_type: Option<String>,
        data: Vec<u8>,
    )
        ensures
            final(self).password == old(self).password,
            final(self).file matches Some(file) && file.filename@ == text_or(
                file_name,
                "upload.bin"@,
            ) && file.content_type == content_type && file.data == data,
    {
        let filename: String = match file_name {
            Some(name) => name,
            None => String::from_str("upload.bin"),
        };
        self.file = Some(FilePart { filename, content_type, data });
    }
}

/// Whether an upload that carries `password` is let in: always while the
/// upload page is off, else only where it carries a secret and that secret is
/// the configured one. While the page is on, an upload without a secret is
/// turned away whatever the configured secret is, the empty one included.
pub open spec fn admits(config: &AppConfig, password: Option<String>) -> bool {
    !config.upload_page_enabled || (password matches Some(p) && p@ == config.upload_password@)
}

/// Whether an upload that carries `password` is let in.
pub fn is_admitted(config: &AppConfig, password: &Option<String>) -> (ok: bool)
    ensures
        ok == admits(config, *password),
{
    if !config.upload_page_enabled {
        return true;
    }
    match password {
        Some(p) => same_text(p.as_str(), config.upload_password.as_str()),
        None => false,
    }
}

/// Lets an upload in or turns it away, before anything is stored.
///
/// A wrong or missing secret is `Unauthorized`, whatever else the form holds.
/// A form that is let in but holds no file is `NoFileProvided`. Otherwise the
/// file comes back.
pub fn check_upload(config: &AppConfig, form: UploadForm) -> (checked: Result<
    FilePart,
    AppError,
>)
    ensures
        checked == if !admits(config, form.password) {
            Err::<FilePart, AppError>(AppError::Unauthorized)
        } else {
            match form.file {
                Some(file) => Ok(file),
                None => Err(AppError::NoFileProvided),
            }
        },
{
    if !is_admitted(config, &form.password) {
        return Err(AppError::Unauthorized);
    }
    match form.file {
        Some(file) => Ok(file),
        None => Err(AppError::NoFileProvided),
    }
}

/// The download token for the identifier `id`: where tokens carry the
/// extension and the file has one that is not empty, the identifier, a dot and
/// the extension; else the identifier alone.
pub open spec fn token_of(id: Seq<char>, extension: Option<Seq<char>>, use_suffix: bool) -> Seq<
    char,
> {
    match extension {
        Some(ext) => if use_suffix && ext.len() > 0 {
            id + "."@ + ext
        } else {
            id
        },
        None => id,
    }
}

/// The download token for the identifier `id` of a file with the extension
/// `extension`.
pub fn download_token(id: String, extension: &Option<String>, use_suffix: bool) -> (token: String)
    ensures
        token@ == token_of(id@, text_of(*extension), use_suffix),
{
    match extension {
        Some(ext) => if use_suffix && !ext.as_str().is_empty() {
            join3(id.as_str(), ".", ext.as_str())
        } else {
            id
        },
        None => id,
    }
}

/// An upload that was let in and has its token: what is to be written, and
/// where.
#[derive(Debug, PartialEq, Eq)]
pub struct UploadPlan {
    /// The download token.
    pub token: String,
    /// Where the payload is to be written.
    pub location: String,
    /// The name the file was sent under.
    pub display_name: String,
    /// The content type the file was sent with.
    pub content_type: Option<String>,
    /// The payload.
    pub payload: Vec<u8>,
}

/// Whether `token` is the download token of some fresh identifier, for a file
/// with the extension `extension`.
pub open spec fn is_fresh_token(
    token: Seq<char>,
    extension: Option<Seq<char>>,
    use_suffix: bool,
) -> bool {
    exists|id: Seq<char>|
        is_hyphenated_hex(id) && token == #[trigger] token_of(id, extension, use_suffix)
}

/// The plan for storing `file` under `token` at `location`.
pub fn plan_upload(file: FilePart, token: String, location: String) -> (plan: UploadPlan)
    ensures
        plan.token == token,
        plan.location == location,
        plan.display_name == file.filename,
        plan.content_type == file.content_type,
        plan.payload == file.data,
{
    UploadPlan {
        token,
        location,
        display_name: file.filename,
        content_type: file.content_type,
        payload: file.data,
    }
}

/// Decides an upload before anything is stored.
///
/// A wrong or missing secret is `Unauthorized` and a missing file
/// `NoFileProvided`, as [`check_upload`] says. An upload that passes gets a
/// fresh identifier, the token made from it, which holds no `/`, and its place
/// under the storage directory. The registry is not touched: the payload is
/// written first.
pub fn begin_upload(config: &AppConfig, form: UploadForm) -> (begun: Result<UploadPlan, AppError>)
    ensures
        !admits(config, form.password) ==> begun == Err::<UploadPlan, AppError>(
            AppError::Unauthorized,
        ),
        admits(config, form.password) && form.file is None ==> begun == Err::<
            UploadPlan,
            AppError,
        >(AppError::NoFileProvided),
        admits(config, form.password) && form.file is Some ==> begun is Ok,
        begun matches Ok(plan) ==> {
            let file = form.file->0;
            &&& is_fresh_token(
                plan.token@,
                path_extension(file.filename@),
                config.use_filename_suffix,
            )
            &&& has_no_slash(plan.token@)
            &&& plan.location@ == joined_path(config.storage_dir@, plan.token@)
            &&& plan.display_name == file.filename
            &&& plan.content_type == file.content_type
            &&& plan.payload == file.data
        },
{
    let file = match check_upload(config, form) {
        Ok(file) => file,
        Err(error) => {
            return Err(error);
        },
    };
    let id = fresh_id();
    let ghost fresh = id@;
    let extension = if config.use_filename_suffix {
        file_extension(file.filename.as_str())
    } else {
        None
    };
    let token = download_token(id, &extension, config.use_filename_suffix);
    assert(token@ == token_of(
        fresh,
        path_extension(file.filename@),
        config.use_filename_suffix,
    ));
    assert(has_no_slash(token@)) by {
        reveal_strlit(".");
        assert(has_no_slash(fresh)) by {
            assert forall|i: int| 0 <= i < fresh.len() implies fresh[i] != '/' by {
                assert(if i == 8 || i == 13 || i == 18 || i == 23 {
                    fresh[i] == '-'
                } else {
                    is_lower_hex(fresh[i])
                });
            }
        }
    }
    let location = join_location(config.storage_dir.as_str(), token.as_str());
    Ok(plan_upload(file, token, location))
}

/// What the client is told of a finished upload.
#[derive(Debug, PartialEq, Eq)]
pub struct UploadResponse {
    /// The download link.
    pub url: String,
    /// The lifetime of the upload, in whole minutes.
    pub expires_in_minutes: u64,
    /// The number of downloads the upload is good for.
    pub remaining_downloads: u32,
}

/// The entry that the upload planned in `plan` becomes when its payload has
/// been written at time `now`: it lives for the configured time and is good
/// for the configured number of downloads.
pub open spec fn entry_of(config: &AppConfig, plan: UploadPlan, now: u64) -> EntryView {
    EntryView {
        id: plan.token@,
        location: plan.location@,
        display_name: plan.display_name@,
        content_type: text_of(plan.content_type),
        expires_at: (now + config.ttl_nanos()) as u128,
        remaining_downloads: config.max_downloads,
    }
}

/// Publishes an upload whose payload has been written, at time `now`.
///
/// The entry enters the registry unless its token is already live, which is a
/// `Conflict` and leaves the registry as it was.
pub fn complete_upload(
    registry: &mut Registry,
    config: &AppConfig,
    plan: UploadPlan,
    now: u64,
) -> (done: Result<UploadResponse, Conflict>)
    ensures
        final(registry)@ == after_create(old(registry)@, entry_of(config, plan, now)),
        keyed_by_id(final(registry)@),
        done is Err <==> old(registry)@.contains_key(plan.token@),
        done matches Ok(response) ==> response.url@ == download_url(config.base_url@, plan.token@)
            && response.expires_in_minutes == config.ttl_minutes()
            && response.remaining_downloads == config.max_downloads,
{
    let url = config.build_download_url(plan.token.as_str());
    let lifetime: u128 = config.ttl_secs as u128 * NANOS_PER_SEC;
    let entry = Entry {
        id: plan.token,
        location: plan.location,
        display_name: plan.display_name,
        content_type: plan.content_type,
        expires_at: now as u128 + lifetime,
        remaining_downloads: config.max_downloads,
    };
    match registry.create(entry) {
        Ok(()) => Ok(
            UploadResponse {
                url,
                expires_in_minutes: config.ttl_secs / 60,
                remaining_downloads: config.max_downloads,
            },
        ),
        Err(conflict) => Err(conflict),
    }
}

} // verus!
