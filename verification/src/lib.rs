pub mod engine;
pub mod events;
pub mod pixel;
pub mod sprite;

pub use events::{
    GsnAction, GsnButton, GsnEvent, GsnKey, GsnModifiers, GsnWindowMode, MousePos, NativeAction,
    NativeEvent, NativeMouseButton, map_action, map_keys, map_mouse_button, translate_event,
};
pub use engine::GsnEngine;
pub use pixel::{Pixel, pixel_rgb, new_pixel, white, black, red, green, blue};
pub use sprite::GsnSprite;
