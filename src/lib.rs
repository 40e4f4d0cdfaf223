//! Traffic-signal controller logic: lamp output masking, the per-approach
//! phase machine, pedestrian call latching and the mode supervisor that hands
//! crossing permits between operating modes.
pub mod approach;
pub mod lamps;
pub mod mode_reader;
pub mod supervisor;
pub mod timed_output_masker;
pub mod trafficlight;
