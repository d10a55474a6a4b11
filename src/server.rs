//! Plain types of the HTTP surface: errors, the options of the manager
//! routes, and what the server says about itself.
use vstd::prelude::*;

verus! {

/// An error of the HTTP surface.
#[derive(Debug)]
pub enum Error {
    BadRequest(String),
    Internal(String),
}

impl Error {
    /// The HTTP status of the error: 400 for a bad request, 500 otherwise.
    pub fn status_code(&self) -> (r: u16)
        ensures
            self is BadRequest ==> r == 400,
            self is Internal ==> r == 500,
    {
        match self {
            Error::BadRequest(_) => 400,
            Error::Internal(_) => 500,
        }
    }
}

/// Manager requests that take no device id.
#[derive(Clone, Copy, Debug, PartialEq, Eq, Structural)]
pub enum DeviceManagerGetOptionsV1 {
    AutoCreate,
    List,
    Search,
}

/// Manager requests about one device.
#[derive(Clone, Copy, Debug, PartialEq, Eq, Structural)]
pub enum DeviceManagerPostOptionsV1 {
    Delete,
    Info,
    EnableContinuousMode,
    DisableContinuousMode,
}

/// Where the cockpit extras of the server are found.
#[derive(Debug)]
pub struct Extras {
    pub cockpit: &'static str,
}

/// What the server tells an extension manager about itself.
#[derive(Debug)]
pub struct ServerMetadata {
    pub name: &'static str,
    pub description: &'static str,
    pub icon: &'static str,
    pub company: &'static str,
    pub version: &'static str,
    pub new_page: bool,
    pub webpage: &'static str,
    pub api: &'static str,
    pub extras: Extras,
}

impl Default for ServerMetadata {
    fn default() -> (r: Self)
        ensures
            r.name@ == "Ping Viewer Next"@,
            r.description@ == "A ping protocol extension for expose devices to web."@,
            r.icon@ == "mdi-compass-outline"@,
            r.company@ == "BlueRobotics"@,
            r.version@ == "0.0.0"@,
            r.webpage@ == "https://github.com/RaulTrombin/navigator-assistant"@,
            r.api@ == "/docs"@,
            r.extras.cockpit@ == "/cockpit_extras.json"@,
            !r.new_page,
    {
        ServerMetadata {
            name: "Ping Viewer Next",
            description: "A ping protocol extension for expose devices to web.",
            icon: "mdi-compass-outline",
            company: "BlueRobotics",
            version: "0.0.0",
            new_page: false,
            webpage: "https://github.com/RaulTrombin/navigator-assistant",
            api: "/docs",
            extras: Extras { cockpit: "/cockpit_extras.json" },
        }
    }
}

/// A widget that the cockpit can show for a device.
#[derive(Debug)]
pub struct CockpitWidget {
    pub name: String,
    pub config_iframe_url: Option<String>,
    pub iframe_url: String,
    pub iframe_icon: String,
    pub version: String,
}

/// The widgets offered to the cockpit.
#[derive(Debug)]
pub struct CockpitExtras {
    pub target_system: String,
    pub target_cockpit_api_version: String,
    pub widgets: Vec<CockpitWidget>,
}

} // verus!
