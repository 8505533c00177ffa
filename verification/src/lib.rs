pub mod text;
pub mod hotkey_parser;
pub mod lang;
pub mod texts;
pub mod history;
pub mod shape;
pub mod navigator;
pub mod mode;
pub mod hotkeys;
pub mod launch;
pub mod config;
pub mod device;
pub mod capture;
pub mod feature;
pub mod screenshot;
pub mod screenshot_feature;
pub mod image_meta;
pub mod image_decode;
pub mod window_state;
pub mod ocr_state;
pub mod platform;
pub mod magnifier;
pub mod viewer;
