//! Streaming speech-to-text pipeline core: sample normalisation, channel
//! downmixing, recognizer session bookkeeping, the capture cycle and the
//! chatbox message that carries each transcript.

pub mod cycle;
pub mod downmix;
pub mod message;
pub mod normalize;
pub mod session;

pub use cycle::{CaptureCycle, CycleAction, CycleEvent, CyclePhase, DEFAULT_WINDOW_SECS};
pub use downmix::{channel_layout, downmix, stereo_to_mono, ChannelLayout};
pub use message::{announcement, chatbox_message};
pub use normalize::{denormalize_u16, normalize_i16, normalize_u16, prepare_i16, prepare_u16};
pub use session::{DecodingState, RecognizerSession, SessionPhase};
