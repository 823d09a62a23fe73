//! The decisions of a World of Warcraft session recorder.
//!
//! The recorder watches the combat logs, captures the screen while an activity
//! runs, keeps a library of recordings and uploads them to a guild's cloud.
//! This crate holds what decides: when a capture starts and ends, what becomes
//! of its files, which settings are usable, what is uploaded and in what
//! order, and what the user is shown. It touches no file, thread, socket or
//! widget. Work on those is named by a step or an effect, whoever runs the
//! crate performs it and hands back what came of it, and the next decision
//! follows from that.
//!
//! - [`coordinator`] is the state of the running recorder; [`capture`],
//!   [`queues`], [`index`], [`configure`], [`commands`], [`lifecycle`],
//!   [`sequence`] and [`snapshot`] are what happens to it, and [`recordings`]
//!   states what holds over several of these.
//! - [`media_jobs`], [`media_work`], [`ffmpeg_run`] and [`child_watch`] turn a
//!   capture into a recording and cut clips from it.
//! - [`cloud`], [`access`], [`transfer`], [`upload`] and [`metadata`] are the
//!   upload; [`json`] and [`encoding`] are what it is written in.
//! - [`config`], [`config_write`], [`paths`], [`layout`] and [`setup`] are the
//!   settings.
//! - [`ui`] is what the status card, the settings dialog and the library show.
//!
//! What these promise over all inputs stands beside them as laws:
//! [`recordings`], [`keeping`] and [`telling`] for the state, [`joining`] and
//! [`clips`] for the media, [`uploaded`] and [`sending`] for the cloud,
//! [`checked`] for the settings, [`workings`] for the workers and the
//! surroundings, [`spelling`] for texts and paths, and `listing` and `showing`
//! in [`ui`] for what the user sees.
use vstd::prelude::*;

pub mod access;
pub mod activity;
pub mod calendar;
pub mod capture;
pub mod checked;
pub mod child_watch;
pub mod clips;
pub mod cloud;
pub mod commands;
pub mod config;
pub mod config_write;
pub mod configure;
pub mod coordinator;
pub mod domain;
pub mod encoding;
pub mod ffmpeg_run;
pub mod index;
pub mod instants;
pub mod joining;
pub mod json;
pub mod keeping;
pub mod layout;
pub mod lifecycle;
pub mod media_jobs;
pub mod media_work;
pub mod metadata;
pub mod names;
pub mod parser;
pub mod paths;
pub mod queues;
pub mod recorder;
pub mod recordings;
pub mod sending;
pub mod sequence;
pub mod setup;
pub mod snapshot;
pub mod spelling;
pub mod telling;
pub mod test_recording;
pub mod text;
pub mod transfer;
pub mod ui;
pub mod upload;
pub mod uploaded;
pub mod workings;

verus! {

/// The package version, shown in the UI and used to decide whether the
/// release notes for this build have already been seen.
pub const VERSION: &'static str = "1.0.10";

} // verus!
