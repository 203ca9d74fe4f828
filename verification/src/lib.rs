//! The decisions of a scanner that looks for existing imgur albums.
//!
//! The scanner hands the ids of a file to workers, asks for the page of each album, and keeps the
//! data of the albums that are worth keeping. Everything it decides stands here, without input and
//! output: [`producer`], [`worker`] and [`collector`] are state machines that say what is to be
//! done next and take what came of it. What holds of them, at each step and over a whole run, stands
//! in the modules whose names end in `_laws`.

pub mod album;
pub mod album_laws;
pub mod collector;
pub mod collector_laws;
pub mod collector_step_laws;
pub mod counters;
pub mod http;
pub mod messages;
pub mod producer;
pub mod producer_laws;
pub mod producer_step_laws;
pub mod proxies;
pub mod proxy_laws;
pub mod results;
pub mod setting_laws;
pub mod settings;
pub mod text;
pub mod text_laws;
pub mod view_laws;
pub mod worker;
pub mod worker_laws;
pub mod worker_step_laws;
