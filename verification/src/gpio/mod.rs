pub mod adc;
pub mod button;
pub mod pwm;
pub mod relay;
pub mod switch;
