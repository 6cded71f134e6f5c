//! Core of a media playback engine: decoder planning and the feed/drain
//! protocol, frame routing through hardware download and scaling, the
//! pull-style decode loop, the play/pause protocol of the playback tasks,
//! packet dispatch, the presentation clock, the sample ring between the
//! audio decoder and the output device, and the packing of decoded RGB
//! pictures into arrays.
//!
//! Everything that touches a codec, a device or a thread is done by the
//! caller; the functions here decide what is to be done and say so in
//! their contracts.

pub mod time;
pub mod clock;
pub mod resize;
pub mod error;
pub mod source;
pub mod decode;
pub mod control;
pub mod dispatch;
pub mod audio;
pub mod render;
pub mod frame;
