//! Core logic of a small blog server: timestamps, cache records, resource
//! paths, visitor permits, failed-attempt bans, page view models and the
//! configuration model, each with its contract proved by Verus.

pub mod article;
pub mod cache;
pub mod cleanup;
pub mod config;
pub mod db;
pub mod failed_attempts;
pub mod markdown;
pub mod path;
pub mod resource;
pub mod text;
pub mod time;
pub mod visitor;
