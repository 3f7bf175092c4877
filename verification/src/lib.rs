//! Typed requests and responses for the Uptobox file-hosting API.
//!
//! The library says what each call sends ([`request`], [`input`]) and what
//! each answer means ([`util`], [`model`]); it sends nothing itself. A caller
//! takes a [`Request`] from the [`Uptobox`] client, sends it, and hands the
//! status and the body of the answer back to [`Uptobox::parse_body`] and
//! [`Request::read`].

pub mod error;
pub mod input;
pub mod json;
pub mod model;
pub mod payload;
pub mod request;
pub mod util;

pub use error::{Error, UptoboxResult};
pub use input::get_download_url::GetDownloadUrl;
pub use input::get_files::{GetFiles, OrderBy, OrderDir};
pub use input::get_files_from_public_folder::GetFilesFromPublicFolder;
pub use input::update_file::UpdateFile;
pub use model::get_account::GetAccountResponse;
pub use model::get_account_payments::GetAccountPaymentsResponse;
pub use model::get_download_url::{GetDownloadUrlLink, GetDownloadUrlResponse, GetDownloadUrlWait};
pub use model::get_files::{GetFilesCurrentFolder, GetFilesFiles, GetFilesFolders, GetFilesResponse};
pub use model::get_files_from_public_folder::GetFilesFromPublicFolderResponse;
pub use model::get_files_informations::{GetFilesInformationsError, GetFilesInformationsResponse};
pub use model::get_upload_url::GetUploadUrlResponse;
pub use request::{Method, Request, Uptobox};
pub use util::{deserialize, DeserializeCheck, ErrorDeserialize};
