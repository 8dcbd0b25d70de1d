//! Windowed time-series loading engine for candle (kline) charts.
//!
//! The library turns a user-chosen time range and candle interval into a
//! bounded sequence of page-sized fetch requests against a rows-per-call
//! limited market-data source, drives those requests to completion, tracks
//! progress and failure, and folds the completed dataset into the extrema
//! that a rendering layer needs for its axes.
//!
//! The actual network fetch, the UI that raises intents, and the rendering
//! of the result are external collaborators: they exchange plain values
//! with this crate and are not part of it.

pub mod candle;
pub mod data;
pub mod loading;
pub mod plan;
pub mod session;
pub mod window;
