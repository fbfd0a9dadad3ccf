pub mod buffer;
pub mod debounce;
pub mod delay;
pub mod delay_every;
pub mod dematerialize;
pub mod distinct;
pub mod distinct_until_changed;
pub mod end_with;
pub mod inspect_done;
pub mod into_ref_stream;
pub mod materialize;
pub mod pairwise;
pub mod race;
pub mod sample;
pub mod share;
pub mod start_with;
pub mod switch_map;
pub mod throttle;
pub mod timing;
pub mod window;
