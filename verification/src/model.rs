//! What the service answers, call by call.

pub mod generic;
pub mod get_account;
pub mod get_account_payments;
pub mod get_download_url;
pub mod get_files;
pub mod get_files_from_public_folder;
pub mod get_files_informations;
pub mod get_upload_url;
