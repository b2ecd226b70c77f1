//! A light theme of greys, leaving most producers on the default pair.

use vstd::prelude::*;

use crate::colors::{dark_grey, light_grey, Color};
use crate::modules::{
    CargoScheme, CmdScheme, CwdScheme, ExitCodeScheme, GitScheme, HostScheme,
    LastCmdDurationScheme, PythonEnvScheme, ReadOnlyScheme, SpacerScheme, TimeScheme, UserScheme,
};
use crate::themes::{CompleteTheme, DefaultColors};

verus! {

pub struct LightTheme;

impl DefaultColors for LightTheme {
    fn default_bg() -> Color {
        dark_grey()
    }

    fn default_fg() -> Color {
        light_grey()
    }
}

impl CmdScheme for LightTheme {

}

impl CwdScheme for LightTheme {
    fn path_bg_colors() -> (r: Vec<Color>)
        ensures
            r@.len() > 0,
    {
        let mut colors: Vec<Color> = Vec::new();
        colors.push(dark_grey());
        colors
    }
}

impl LastCmdDurationScheme for LightTheme {

}

impl ExitCodeScheme for LightTheme {

}

impl GitScheme for LightTheme {

}

impl PythonEnvScheme for LightTheme {

}

impl ReadOnlyScheme for LightTheme {

}

impl SpacerScheme for LightTheme {

}

impl HostScheme for LightTheme {

}

impl UserScheme for LightTheme {

}

impl CargoScheme for LightTheme {

}

impl TimeScheme for LightTheme {

}

impl CompleteTheme for LightTheme {

}

} // verus!
