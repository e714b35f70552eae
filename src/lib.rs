//! A terminal dashboard core that mirrors a desktop media player: a rate-limited
//! playback-state synchronizer, a tiered cover-art resolver and a hit-test
//! dispatcher for the on-screen controls.
use vstd::prelude::*;

pub mod track;
pub mod sync;
pub mod cover;
pub mod controls;
pub mod ticker;
