//! What is sent to the service, call by call.

pub mod get_download_url;
pub mod get_files;
pub mod get_files_from_public_folder;
pub mod update_file;
