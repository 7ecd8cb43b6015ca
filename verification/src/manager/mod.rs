//! What the manager of an account decides.
pub mod attachment_laws;
pub mod attachments;
pub mod chat_folder_laws;
pub mod chat_folders;
pub mod group_laws;
pub mod groups;
pub mod import;
pub mod import_laws;
pub mod receive;
pub mod receive_laws;
pub mod registered;
pub mod registered_laws;
pub mod save;
pub mod save_laws;
pub mod send;
pub mod send_laws;
pub mod storage;
pub mod storage_laws;
