//! Configuration records handed in by the caller at startup.
//!
//! Loading these from files or the environment happens outside the
//! library; the validator and the initializer receive the parsed values.

use vstd::prelude::*;

verus! {

/// Where the service listens.
#[derive(Debug)]
pub struct Webserver {
    pub hostname: String,
    pub port: i32,
}

/// Where the persistent store lives.
#[derive(Debug)]
pub struct Database {
    pub database_url: String,
}

/// Mathematical image of a [`GpioConfig`].
pub ghost struct GpioConfigView {
    pub gpios_in_use: Option<Seq<i32>>,
    pub gpios_mode_output: Option<Seq<i32>>,
    pub gpios_mode_input: Option<Seq<i32>>,
    pub gpios_level_low: Option<Seq<i32>>,
    pub gpios_level_high: Option<Seq<i32>>,
}

/// The startup pin-role assignment: five optional lists of GPIO ids.
/// An absent list assigns nothing.
#[derive(Debug)]
pub struct GpioConfig {
    pub gpios_in_use: Option<Vec<i32>>,
    pub gpios_mode_output: Option<Vec<i32>>,
    pub gpios_mode_input: Option<Vec<i32>>,
    pub gpios_level_low: Option<Vec<i32>>,
    pub gpios_level_high: Option<Vec<i32>>,
}

impl View for GpioConfig {
    type V = GpioConfigView;

    open spec fn view(&self) -> GpioConfigView {
        GpioConfigView {
            gpios_in_use: match self.gpios_in_use {
                Some(v) => Some(v@),
                None => None,
            },
            gpios_mode_output: match self.gpios_mode_output {
                Some(v) => Some(v@),
                None => None,
            },
            gpios_mode_input: match self.gpios_mode_input {
                Some(v) => Some(v@),
                None => None,
            },
            gpios_level_low: match self.gpios_level_low {
                Some(v) => Some(v@),
                None => None,
            },
            gpios_level_high: match self.gpios_level_high {
                Some(v) => Some(v@),
                None => None,
            },
        }
    }
}

/// Everything the service is started with.
#[derive(Debug)]
pub struct Settings {
    pub webserver: Webserver,
    pub database: Database,
    pub gpioconfig: GpioConfig,
}

} // verus!
