//! The data shapes of the store: users and their credentials, file and
//! folder metadata records, request and response bodies, and the session
//! cookie.

use vstd::prelude::*;

verus! {

/// Public projection of a stored user: everything but the password hash.
#[derive(Debug, Clone, PartialEq)]
pub struct UserDto {
    pub id: Option<i32>,
    pub username: String,
    pub email_address: String,
    pub folder_id: String,
    /// Whether the account has been activated; accounts start inactive.
    pub active: bool,
}

/// A stored user row: credentials plus the root-folder id that names the
/// user's storage namespace.
#[derive(Debug, Clone, PartialEq)]
pub struct User {
    pub id: Option<i32>,
    pub username: String,
    pub password: String,
    pub email_address: String,
    pub folder_id: String,
    pub active: bool,
}

/// The row shape handed to the credential store when inserting a user.
#[derive(Debug, Clone, PartialEq)]
pub struct CreateUser {
    pub id: Option<i32>,
    pub username: String,
    pub password: String,
    pub email_address: String,
    pub folder_id: String,
    pub active: bool,
}

/// Registration input as the credential store takes it.
#[derive(Debug, Clone, PartialEq)]
pub struct NewUserDto {
    pub username: String,
    pub password: String,
    pub email_address: String,
}

/// Registration request body.
#[derive(Debug, Clone, PartialEq)]
pub struct RegisterUserDto {
    pub username: String,
    pub email: String,
    pub password: String,
}

/// Login request body.
#[derive(Debug, Clone, PartialEq)]
pub struct LoginRequestDto {
    pub username: String,
    pub password: String,
}

/// Login response body: the token is also set as a cookie.
#[derive(Debug, Clone, PartialEq)]
pub struct LoginResponseDto {
    pub status: String,
    pub token: String,
    pub user: UserDto,
}

/// The claims carried by a session token: subject (stringified user id),
/// issued-at and expiry, both in seconds.
#[derive(Debug, Clone, PartialEq)]
pub struct TokenClaims {
    pub sub: String,
    pub exp: u64,
    pub iat: u64,
}

/// A session cookie as the transport layer should set it.
#[derive(Debug, Clone, PartialEq)]
pub struct SessionCookie {
    pub name: String,
    pub value: String,
    pub path: String,
    /// Max-Age in seconds; negative clears the cookie.
    pub max_age: i64,
    pub http_only: bool,
}

/// A file metadata record. The owner and the containing folder scope every
/// access; media type and original filename are patched in at upload time.
#[derive(Debug, Clone, PartialEq)]
pub struct FileDto {
    pub id: String,
    pub owner_id: i32,
    pub access_level: i32,
    pub title: String,
    pub folder_id: String,
    pub media_type: Option<String>,
    pub orginal_filename: Option<String>,
    pub description: Option<String>,
    pub created_at: Option<i64>,
    pub updated_at: Option<i64>,
    pub created_by: i32,
    pub updated_by: i32,
    pub active: bool,
}

/// File-creation request body; the file id is generated, never supplied.
#[derive(Debug, Clone, PartialEq)]
pub struct CreateFileDto {
    pub access_level: i32,
    pub title: String,
    pub folder_id: String,
    pub media_type: String,
    pub description: Option<String>,
}

/// A folder metadata record.
#[derive(Debug, Clone, PartialEq)]
pub struct FolderDto {
    pub id: String,
    pub owner_id: i32,
    pub parent_folder_id: String,
    pub title: String,
    pub description: Option<String>,
    pub created_at: Option<i64>,
    pub updated_at: Option<i64>,
    pub created_by: i32,
    pub updated_by: i32,
    pub active: bool,
}

/// Folder-creation request body; the folder id is generated, never supplied.
#[derive(Debug, Clone, PartialEq)]
pub struct CreateFolderDto {
    pub title: String,
    pub parent_folder_id: String,
    pub description: Option<String>,
}

/// Optional filters of a file-listing request.
#[derive(Debug, Clone, PartialEq)]
pub struct QueryParams {
    pub folder_id: Option<String>,
}

/// Outcome body of a creation endpoint.
#[derive(Debug, Clone, PartialEq)]
pub struct CreateResponseDto {
    pub success: bool,
    pub message: Option<String>,
    pub id: Option<String>,
}

impl CreateResponseDto {
    pub fn ok_msg(message: String) -> (r: Self)
        ensures
            r.success,
            r.message == Some(message),
            r.id is None,
    {
        CreateResponseDto { success: true, message: Some(message), id: None }
    }

    pub fn ok() -> (r: Self)
        ensures
            r.success,
            r.message is None,
            r.id is None,
    {
        CreateResponseDto { success: true, message: None, id: None }
    }

    pub fn err(message: String) -> (r: Self)
        ensures
            !r.success,
            r.message == Some(message),
            r.id is None,
    {
        CreateResponseDto { success: false, message: Some(message), id: None }
    }

    pub fn ok_with_id(id: String) -> (r: Self)
        ensures
            r.success,
            r.message is None,
            r.id == Some(id),
    {
        CreateResponseDto { success: true, message: None, id: Some(id) }
    }
}

/// What a download hands back: the bytes and the response headers' worth
/// of metadata.
#[derive(Debug, Clone, PartialEq)]
pub struct DownloadResult {
    pub content: Vec<u8>,
    pub media_type: String,
    pub file_name: String,
}

/// The spec-level view of an optional string.
pub open spec fn opt_str_view(o: Option<String>) -> Option<Seq<char>> {
    match o {
        Some(s) => Some(s@),
        None => None,
    }
}

/// Clone an optional string, exactly.
pub fn clone_opt_string(o: &Option<String>) -> (r: Option<String>)
    ensures
        r == *o,
{
    match o {
        Some(s) => Some(s.clone()),
        None => None,
    }
}

/// Clone a file record, exactly.
pub fn clone_file(f: &FileDto) -> (r: FileDto)
    ensures
        r == *f,
{
    FileDto {
        id: f.id.clone(),
        owner_id: f.owner_id,
        access_level: f.access_level,
        title: f.title.clone(),
        folder_id: f.folder_id.clone(),
        media_type: clone_opt_string(&f.media_type),
        orginal_filename: clone_opt_string(&f.orginal_filename),
        description: clone_opt_string(&f.description),
        created_at: f.created_at,
        updated_at: f.updated_at,
        created_by: f.created_by,
        updated_by: f.updated_by,
        active: f.active,
    }
}

/// Clone a folder record, exactly.
pub fn clone_folder(f: &FolderDto) -> (r: FolderDto)
    ensures
        r == *f,
{
    FolderDto {
        id: f.id.clone(),
        owner_id: f.owner_id,
        parent_folder_id: f.parent_folder_id.clone(),
        title: f.title.clone(),
        description: clone_opt_string(&f.description),
        created_at: f.created_at,
        updated_at: f.updated_at,
        created_by: f.created_by,
        updated_by: f.updated_by,
        active: f.active,
    }
}

} // verus!
