//! Theme capabilities: every producer reads its colors through a scheme
//! trait, and a theme is a type implementing all of them.  `DefaultColors`
//! supplies the fallbacks the scheme traits default to.

use vstd::prelude::*;

use crate::colors::Color;
use crate::modules::{
    CargoScheme, CmdScheme, CwdScheme, ExitCodeScheme, GitScheme, HostScheme,
    LastCmdDurationScheme, PythonEnvScheme, ReadOnlyScheme, SpacerScheme, TimeScheme, UserScheme,
};

mod custom;
mod light;
mod rainbow;
mod simple;

pub use custom::{CustomTheme, ThemeColor, ThemeEntry, ThemeValue};
pub use light::LightTheme;
pub use rainbow::RainbowTheme;
pub use simple::SimpleTheme;

verus! {

/// The base colors every theme must supply; the secondary and alert pairs
/// default to them.
pub trait DefaultColors {
    fn default_bg() -> Color;

    fn default_fg() -> Color;

    fn secondary_bg() -> Color {
        Self::default_bg()
    }

    fn secondary_fg() -> Color {
        Self::default_fg()
    }

    fn alert_bg() -> Color {
        Self::default_bg()
    }

    fn alert_fg() -> Color {
        Self::default_fg()
    }
}

/// A theme usable by every configured producer.
pub trait CompleteTheme:
    DefaultColors
    + CmdScheme
    + CwdScheme
    + LastCmdDurationScheme
    + ExitCodeScheme
    + GitScheme
    + PythonEnvScheme
    + ReadOnlyScheme
    + SpacerScheme
    + HostScheme
    + UserScheme
    + CargoScheme
    + TimeScheme {

}

} // verus!
