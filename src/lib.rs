//! A memory-safe object layer over notmuch's handle-based C interface.
//!
//! The native library hands out opaque handles that must be destroyed exactly
//! once, children before the objects they depend on. This crate holds the
//! decisions of that layer as verified code over plain values: which handles
//! are alive, which destroy calls are due, how plural cursors advance, how
//! atomic sections and freeze regions nest, and how status codes map to
//! errors. The foreign calls themselves are made by the caller, which hands
//! their outcomes (status codes, pointer addresses, strings) to this crate.

pub mod config_list;
pub mod config_pairs;
pub mod config_values;
pub mod cstr;
pub mod cursor;
pub mod database;
pub mod directory;
pub mod error;
pub mod filenames;
pub mod flags;
pub mod index_opts;
pub mod message;
pub mod message_properties;
pub mod messages;
pub mod native;
pub mod query;
pub mod registry;
pub mod section;
pub mod status;
pub mod tags;
pub mod thread;
pub mod threads;
pub mod utils;

pub use config_list::ConfigList;
pub use config_pairs::ConfigPairs;
pub use config_values::ConfigValues;
pub use cstr::{c_string, c_string_opt, split_string};
pub use cursor::Cursor;
pub use database::{path_argument, AtomicOperation, Database, Revision};
pub use directory::Directory;
pub use error::{Error, Result};
pub use filenames::Filenames;
pub use flags::{DatabaseMode, DecryptionPolicy, Exclude, MessageFlag, Sort};
pub use index_opts::IndexOpts;
pub use message::{FrozenMessage, Message};
pub use message_properties::MessageProperties;
pub use messages::Messages;
pub use native::{
    ConfigListPtr, ConfigPairsPtr, ConfigValuesPtr, DatabasePtr, DirectoryPtr, FilenamesPtr,
    IndexOptsPtr, MessagePropertiesPtr, MessagePtr, MessagesPtr, QueryPtr, TagsPtr, ThreadPtr,
    ThreadsPtr,
};
pub use query::Query;
pub use registry::{Handle, Kind, Mode, Node, Op, Registry, RegistryError};
pub use status::{notmuch_status_t, Status};
pub use tags::Tags;
pub use thread::Thread;
pub use threads::Threads;
pub use utils::{ToStr, ToString};
