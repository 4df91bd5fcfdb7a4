//! Editing and staging of episodic video files: interval planning, cut /
//! packetize / concatenate plans for the external toolchain, and the
//! three-tier settings cascade.
pub mod command;
pub mod episode;
pub mod interval;
pub mod media;
pub mod part;
pub mod paths;
pub mod remover;
pub mod settings;
pub mod spliter;
pub mod text;
pub mod toolchain;
pub mod upload;
pub mod video;
