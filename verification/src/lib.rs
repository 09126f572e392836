//! Core of a small feed aggregator: a set of named content feeds is checked
//! for health, fetched concurrently, merged into one ordered collection, and
//! then cycled through forever, one item at a time, towards an output sink.
//!
//! This crate holds the verified logic: the data model, URL construction,
//! configuration validation, the health precheck, the fetch decision and
//! fan-in merge, and the display cycle state machine. The surrounding
//! process (HTTP requests, configuration files, the worker pool, the sink
//! writes) hands these functions plain values and acts on what they return.

pub mod config;
pub mod display;
pub mod feed;
pub mod fetch;
pub mod health;
pub mod urls;
