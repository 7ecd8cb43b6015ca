//! What a client knows about: contacts, groups, calls, chat folders and messages.
pub mod access;
pub mod call_laws;
pub mod calls;
pub mod chat_folder_laws;
pub mod chat_folders;
pub mod contact_laws;
pub mod contacts;
pub mod group_laws;
pub mod groups;
pub mod messages;
pub mod profile;
