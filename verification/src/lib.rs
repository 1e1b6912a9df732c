//! Launch tracking and alerting logic: the launch records exchanged between
//! the data service and the posting bot, the rules that decide which launches
//! are stored, updated and announced, the countdown alerts, and the text of
//! every post.

pub mod text;
pub mod time;
pub mod model;
pub mod alerts;
pub mod sync;
pub mod auth;
pub mod posts;
pub mod notify;
pub mod store;
