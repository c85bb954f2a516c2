pub mod led_pattern;
pub mod selector;
