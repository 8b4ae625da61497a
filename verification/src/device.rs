//! Client device types, and the parsing of a required device-type field.
use vstd::prelude::*;

use crate::error::{AppError, AppErrorSpec};
use crate::text::{
    concat2, decimal, lemma_parse_i32_decimal, opt_str_view, parse_i32, parse_i32_spec, trim,
    trim_ws,
};

verus! {

/// The kinds of client that Bitwarden distinguishes, by their numbers 0 to 25.
#[derive(Debug, Clone, Copy, PartialEq, Eq, Structural)]
pub enum DeviceType {
    Android,
    Ios,
    ChromeExtension,
    FirefoxExtension,
    OperaExtension,
    EdgeExtension,
    WindowsDesktop,
    MacOsDesktop,
    LinuxDesktop,
    ChromeBrowser,
    FirefoxBrowser,
    OperaBrowser,
    EdgeBrowser,
    IeBrowser,
    UnknownBrowser,
    AndroidAmazon,
    Uwp,
    SafariBrowser,
    VivaldiBrowser,
    VivaldiExtension,
    SafariExtension,
    Sdk,
    Server,
    WindowsCli,
    MacOsCli,
    LinuxCli,
}

/// The numbers that name a device type.
pub open spec fn is_device_code(n: int) -> bool {
    0 <= n <= 25
}

/// The number of `DeviceType::UnknownBrowser`.
pub open spec fn unknown_browser_code() -> i32 {
    14
}

/// Strict parsing: a decimal number that names a device type.
pub open spec fn strict_device_code(s: Seq<char>) -> Option<i32> {
    match parse_i32_spec(s) {
        Some(n) => if is_device_code(n as int) {
            Some(n)
        } else {
            None
        },
        None => None,
    }
}

/// Lenient parsing: the strict result, or the unknown browser.
pub open spec fn lenient_device_code(s: Seq<char>) -> i32 {
    match strict_device_code(s) {
        Some(n) => n,
        None => unknown_browser_code(),
    }
}

impl DeviceType {
    pub open spec fn code(self) -> i32 {
        match self {
            DeviceType::Android => 0,
            DeviceType::Ios => 1,
            DeviceType::ChromeExtension => 2,
            DeviceType::FirefoxExtension => 3,
            DeviceType::OperaExtension => 4,
            DeviceType::EdgeExtension => 5,
            DeviceType::WindowsDesktop => 6,
            DeviceType::MacOsDesktop => 7,
            DeviceType::LinuxDesktop => 8,
            DeviceType::ChromeBrowser => 9,
            DeviceType::FirefoxBrowser => 10,
            DeviceType::OperaBrowser => 11,
            DeviceType::EdgeBrowser => 12,
            DeviceType::IeBrowser => 13,
            DeviceType::UnknownBrowser => 14,
            DeviceType::AndroidAmazon => 15,
            DeviceType::Uwp => 16,
            DeviceType::SafariBrowser => 17,
            DeviceType::VivaldiBrowser => 18,
            DeviceType::VivaldiExtension => 19,
            DeviceType::SafariExtension => 20,
            DeviceType::Sdk => 21,
            DeviceType::Server => 22,
            DeviceType::WindowsCli => 23,
            DeviceType::MacOsCli => 24,
            DeviceType::LinuxCli => 25,
        }
    }

    pub fn as_i32(self) -> (r: i32)
        ensures
            r == self.code(),
            is_device_code(r as int),
    {
        match self {
            DeviceType::Android => 0,
            DeviceType::Ios => 1,
            DeviceType::ChromeExtension => 2,
            DeviceType::FirefoxExtension => 3,
            DeviceType::OperaExtension => 4,
            DeviceType::EdgeExtension => 5,
            DeviceType::WindowsDesktop => 6,
            DeviceType::MacOsDesktop => 7,
            DeviceType::LinuxDesktop => 8,
            DeviceType::ChromeBrowser => 9,
            DeviceType::FirefoxBrowser => 10,
            DeviceType::OperaBrowser => 11,
            DeviceType::EdgeBrowser => 12,
            DeviceType::IeBrowser => 13,
            DeviceType::UnknownBrowser => 14,
            DeviceType::AndroidAmazon => 15,
            DeviceType::Uwp => 16,
            DeviceType::SafariBrowser => 17,
            DeviceType::VivaldiBrowser => 18,
            DeviceType::VivaldiExtension => 19,
            DeviceType::SafariExtension => 20,
            DeviceType::Sdk => 21,
            DeviceType::Server => 22,
            DeviceType::WindowsCli => 23,
            DeviceType::MacOsCli => 24,
            DeviceType::LinuxCli => 25,
        }
    }

    /// The device type of a number, if the number names one.
    pub fn from_i32(n: i32) -> (r: Option<DeviceType>)
        ensures
            r is Some <==> is_device_code(n as int),
            r matches Some(d) ==> d.code() == n,
    {
        match n {
            0 => Some(DeviceType::Android),
            1 => Some(DeviceType::Ios),
            2 => Some(DeviceType::ChromeExtension),
            3 => Some(DeviceType::FirefoxExtension),
            4 => Some(DeviceType::OperaExtension),
            5 => Some(DeviceType::EdgeExtension),
            6 => Some(DeviceType::WindowsDesktop),
            7 => Some(DeviceType::MacOsDesktop),
            8 => Some(DeviceType::LinuxDesktop),
            9 => Some(DeviceType::ChromeBrowser),
            10 => Some(DeviceType::FirefoxBrowser),
            11 => Some(DeviceType::OperaBrowser),
            12 => Some(DeviceType::EdgeBrowser),
            13 => Some(DeviceType::IeBrowser),
            14 => Some(DeviceType::UnknownBrowser),
            15 => Some(DeviceType::AndroidAmazon),
            16 => Some(DeviceType::Uwp),
            17 => Some(DeviceType::SafariBrowser),
            18 => Some(DeviceType::VivaldiBrowser),
            19 => Some(DeviceType::VivaldiExtension),
            20 => Some(DeviceType::SafariExtension),
            21 => Some(DeviceType::Sdk),
            22 => Some(DeviceType::Server),
            23 => Some(DeviceType::WindowsCli),
            24 => Some(DeviceType::MacOsCli),
            25 => Some(DeviceType::LinuxCli),
            _ => None,
        }
    }

    /// The device type that a decimal number names; `None` for anything else.
    pub fn parse_strict(s: &str) -> (r: Option<DeviceType>)
        ensures
            match r {
                Some(d) => strict_device_code(s@) == Some(d.code()),
                None => strict_device_code(s@) is None,
            },
    {
        match parse_i32(s) {
            Some(n) => DeviceType::from_i32(n),
            None => None,
        }
    }

    /// The device type that a string names, the unknown browser where it names none.
    pub fn from_str(s: &str) -> (r: DeviceType)
        ensures
            r.code() == lenient_device_code(s@),
            forall|n: i32| parse_i32_spec(s@) == Some(n) && 0 <= n <= 25 ==> r.code() == n,
            !(parse_i32_spec(s@) is Some && 0 <= parse_i32_spec(s@)->0 <= 25) ==> r
                == DeviceType::UnknownBrowser,
    {
        match DeviceType::parse_strict(s) {
            Some(d) => d,
            None => DeviceType::UnknownBrowser,
        }
    }
}

/// Each device type is known by its own number, as the clients send it.
pub proof fn lemma_device_type_numbers()
    ensures
        DeviceType::Android.code() == 0,
        DeviceType::Ios.code() == 1,
        DeviceType::ChromeExtension.code() == 2,
        DeviceType::FirefoxExtension.code() == 3,
        DeviceType::OperaExtension.code() == 4,
        DeviceType::EdgeExtension.code() == 5,
        DeviceType::WindowsDesktop.code() == 6,
        DeviceType::MacOsDesktop.code() == 7,
        DeviceType::LinuxDesktop.code() == 8,
        DeviceType::ChromeBrowser.code() == 9,
        DeviceType::FirefoxBrowser.code() == 10,
        DeviceType::OperaBrowser.code() == 11,
        DeviceType::EdgeBrowser.code() == 12,
        DeviceType::IeBrowser.code() == 13,
        DeviceType::UnknownBrowser.code() == 14,
        DeviceType::AndroidAmazon.code() == 15,
        DeviceType::Uwp.code() == 16,
        DeviceType::SafariBrowser.code() == 17,
        DeviceType::VivaldiBrowser.code() == 18,
        DeviceType::VivaldiExtension.code() == 19,
        DeviceType::SafariExtension.code() == 20,
        DeviceType::Sdk.code() == 21,
        DeviceType::Server.code() == 22,
        DeviceType::WindowsCli.code() == 23,
        DeviceType::MacOsCli.code() == 24,
        DeviceType::LinuxCli.code() == 25,
{
}

/// Every number from 0 to 25 names a device type, read back from its decimal
/// text by both parsings; each device type is read back from the decimal text
/// of its own number, and no two device types share a number.
pub proof fn lemma_device_code_roundtrip(n: nat)
    requires
        n <= 25,
    ensures
        strict_device_code(decimal(n)) == Some(n as i32),
        lenient_device_code(decimal(n)) == n as i32,
        forall|d: DeviceType| 0 <= #[trigger] d.code() <= 25,
        forall|d: DeviceType|
            lenient_device_code(decimal(#[trigger] d.code() as nat)) == d.code(),
        forall|a: DeviceType, b: DeviceType| a.code() == b.code() ==> a == b,
{
    lemma_parse_i32_decimal(n);
    assert forall|d: DeviceType|
        lenient_device_code(decimal(#[trigger] d.code() as nat)) == d.code() by {
        lemma_parse_i32_decimal(d.code() as nat);
    }
}

/// The lenient parsing gives the unknown browser only for text that names no
/// other device type: a text that names a device type gives its number.
pub proof fn lemma_lenient_device_code(s: Seq<char>)
    ensures
        0 <= lenient_device_code(s) <= 25,
        forall|n: i32| parse_i32_spec(s) == Some(n) && 0 <= n <= 25 ==> lenient_device_code(s) == n,
        lenient_device_code(s) != 14 ==> parse_i32_spec(s) == Some(lenient_device_code(s)),
{
}

/// The outcome of reading a required device-type field.
pub open spec fn required_device_type(raw: Option<Seq<char>>, field_name: Seq<char>) -> Result<
    i32,
    AppErrorSpec,
> {
    match raw {
        Some(s) if trim_ws(s).len() > 0 => match strict_device_code(trim_ws(s)) {
            Some(n) => Ok(n),
            None => Err(AppErrorSpec::BadRequest("Invalid "@ + field_name)),
        },
        _ => Err(AppErrorSpec::BadRequest("Missing "@ + field_name)),
    }
}

/// Reads a required device-type field: the number of the device type that
/// its trimmed text names, or a bad request naming the field as missing
/// (absent or blank) or invalid.
pub fn parse_required_device_type(raw: Option<&str>, field_name: &str) -> (r: Result<i32, AppError>)
    ensures
        match r {
            Ok(n) => required_device_type(opt_str_view(raw), field_name@) == Ok::<i32, AppErrorSpec>(n),
            Err(e) => required_device_type(opt_str_view(raw), field_name@) == Err::<i32, AppErrorSpec>(e@),
        },
        r matches Ok(n) ==> is_device_code(n as int),
{
    let value = match raw {
        Some(s) => {
            let t = trim(s);
            if t.is_empty() {
                return Err(AppError::BadRequest(concat2("Missing ", field_name)));
            }
            t
        },
        None => {
            return Err(AppError::BadRequest(concat2("Missing ", field_name)));
        },
    };
    match DeviceType::parse_strict(value) {
        Some(d) => Ok(d.as_i32()),
        None => Err(AppError::BadRequest(concat2("Invalid ", field_name))),
    }
}

} // verus!
