//! Brightness control for internal panels and external monitors: the rules that
//! turn native display reports into a device list, a percentage into the value a
//! backend takes, and a slider position into a hardware write or a dimming
//! overlay.

pub mod brightness;
pub mod enumerate;
pub mod events;
pub mod gamma;
pub mod monitors;
pub mod overlay;
