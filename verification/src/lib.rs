//! Driver core for Cherry RGB keyboards: the packet codec, the per-key colour
//! table and the packet scripts of the device operations.

pub mod checksum;
pub mod color;
pub mod devices;
pub mod error;
pub mod hexcodec;
pub mod key_leds;
pub mod models;
pub mod numbers;
pub mod packet;
pub mod profile;
pub mod protocol;
pub mod request;
pub mod wire;

pub use checksum::calc_checksum;
pub use color::OwnRGB8;
pub use devices::{find_devices, is_supported, pick_device, CHERRY_USB_VID};
pub use error::{CherryRgbError, ColorParseError, DecodeError};
pub use key_leds::{CustomKeyLeds, ProfileKey, CHUNK_SIZE, TOTAL_KEYS};
pub use models::{
    Brightness, Keymap, LightingMode, Payload, PayloadType, PayloadView, Speed, UsbPollingRate,
};
pub use numbers::get_u16_from_string;
pub use packet::{Packet, PacketView};
pub use profile::{
    read_color_profile, read_commented_color_profile, strip_comments, ProfileEntry, ProfileError,
};
pub use request::{parse_request, Request, RequestView};
pub use wire::ToVec;
