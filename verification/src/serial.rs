//! The port capability surface: discovery and configuration types, and
//! the transport-agnostic [`SerialPort`] contract every backend obeys.

pub mod memory;

use vstd::prelude::*;

use crate::data::Message;
use crate::error::Error;
use crate::text::str_eq;
use vstd::string::StringExecFns;

pub use memory::{MemorySerialPort, PortState};

verus! {

/// The view of an optional string: its characters, if present.
pub open spec fn opt_view(o: Option<String>) -> Option<Seq<char>> {
    match o {
        Some(s) => Some(s@),
        None => None,
    }
}

/// Specification-level shape of a [`PortType`].
pub enum SpecPortType {
    Usb {
        vendor_id: Option<u16>,
        product_id: Option<u16>,
        manufacturer: Option<Seq<char>>,
        product: Option<Seq<char>>,
        serial_number: Option<Seq<char>>,
    },
    Bluetooth,
    Pci,
    Other(Seq<char>),
}

/// The kind of transport behind a discoverable port.
#[derive(Debug)]
pub enum PortType {
    Usb {
        vendor_id: Option<u16>,
        product_id: Option<u16>,
        manufacturer: Option<String>,
        product: Option<String>,
        serial_number: Option<String>,
    },
    Bluetooth,
    Pci,
    /// Unknown or other port type; the string may be a platform-supplied
    /// description.
    Other(String),
}

impl View for PortType {
    type V = SpecPortType;

    open spec fn view(&self) -> SpecPortType {
        match self {
            PortType::Usb { vendor_id, product_id, manufacturer, product, serial_number } =>
                SpecPortType::Usb {
                    vendor_id: *vendor_id,
                    product_id: *product_id,
                    manufacturer: opt_view(*manufacturer),
                    product: opt_view(*product),
                    serial_number: opt_view(*serial_number),
                },
            PortType::Bluetooth => SpecPortType::Bluetooth,
            PortType::Pci => SpecPortType::Pci,
            PortType::Other(s) => SpecPortType::Other(s@),
        }
    }
}

/// Equality of optional strings, by their characters.
fn opt_str_eq(a: &Option<String>, b: &Option<String>) -> (r: bool)
    ensures
        r == (opt_view(*a) == opt_view(*b)),
{
    match (a, b) {
        (Some(x), Some(y)) => str_eq(x.as_str(), y.as_str()),
        (None, None) => true,
        _ => false,
    }
}

/// Equality of optional identifiers.
fn opt_u16_eq(a: &Option<u16>, b: &Option<u16>) -> (r: bool)
    ensures
        r == (*a == *b),
{
    match (a, b) {
        (Some(x), Some(y)) => *x == *y,
        (None, None) => true,
        _ => false,
    }
}

impl PartialEq for PortType {
    fn eq(&self, other: &Self) -> (r: bool)
        ensures
            r == (self@ == other@),
    {
        match (self, other) {
            (
                PortType::Usb {
                    vendor_id: v1,
                    product_id: p1,
                    manufacturer: m1,
                    product: n1,
                    serial_number: s1,
                },
                PortType::Usb {
                    vendor_id: v2,
                    product_id: p2,
                    manufacturer: m2,
                    product: n2,
                    serial_number: s2,
                },
            ) => opt_u16_eq(v1, v2) && opt_u16_eq(p1, p2) && opt_str_eq(m1, m2) && opt_str_eq(
                n1,
                n2,
            ) && opt_str_eq(s1, s2),
            (PortType::Bluetooth, PortType::Bluetooth) => true,
            (PortType::Pci, PortType::Pci) => true,
            (PortType::Other(a), PortType::Other(b)) => str_eq(a.as_str(), b.as_str()),
            _ => false,
        }
    }
}

impl vstd::std_specs::cmp::PartialEqSpecImpl for PortType {
    open spec fn obeys_eq_spec() -> bool {
        true
    }

    open spec fn eq_spec(&self, other: &Self) -> bool {
        self@ == other@
    }
}

impl Clone for PortType {
    fn clone(&self) -> (r: Self)
        ensures
            r@ == self@,
    {
        match self {
            PortType::Usb { vendor_id, product_id, manufacturer, product, serial_number } => {
                let manufacturer = match manufacturer {
                    Some(s) => Some(s.clone()),
                    None => None,
                };
                let product = match product {
                    Some(s) => Some(s.clone()),
                    None => None,
                };
                let serial_number = match serial_number {
                    Some(s) => Some(s.clone()),
                    None => None,
                };
                PortType::Usb {
                    vendor_id: *vendor_id,
                    product_id: *product_id,
                    manufacturer,
                    product,
                    serial_number,
                }
            },
            PortType::Bluetooth => PortType::Bluetooth,
            PortType::Pci => PortType::Pci,
            PortType::Other(s) => PortType::Other(s.clone()),
        }
    }
}

/// Specification-level shape of a [`PortInfo`].
pub struct SpecPortInfo {
    pub port: Seq<char>,
    pub port_type: SpecPortType,
    pub description: Option<Seq<char>>,
}

/// Static information about a discoverable port, independent of whether
/// it is open.
#[derive(Debug)]
pub struct PortInfo {
    /// Port name (e.g. `COM1`, `/dev/ttyUSB0`).
    pub port: String,
    /// The kind of transport behind the port.
    pub port_type: PortType,
    /// Optional human-friendly description.
    pub description: Option<String>,
}

impl View for PortInfo {
    type V = SpecPortInfo;

    open spec fn view(&self) -> SpecPortInfo {
        SpecPortInfo {
            port: self.port@,
            port_type: self.port_type@,
            description: opt_view(self.description),
        }
    }
}

impl PortInfo {
    pub fn new(port: String, port_type: PortType) -> (r: Self)
        ensures
            r.port@ == port@,
            r.port_type@ == port_type@,
            r.description is None,
    {
        PortInfo { port, port_type, description: None }
    }
}

impl PartialEq for PortInfo {
    fn eq(&self, other: &Self) -> (r: bool)
        ensures
            r == (self@ == other@),
    {
        let r = str_eq(self.port.as_str(), other.port.as_str()) && self.port_type.eq(
            &other.port_type,
        ) && opt_str_eq(&self.description, &other.description);
        proof {
            if self@.port == other@.port && self@.port_type == other@.port_type
                && self@.description == other@.description {
                assert(self@ == other@);
            }
        }
        r
    }
}

impl vstd::std_specs::cmp::PartialEqSpecImpl for PortInfo {
    open spec fn obeys_eq_spec() -> bool {
        true
    }

    open spec fn eq_spec(&self, other: &Self) -> bool {
        self@ == other@
    }
}

impl Clone for PortInfo {
    fn clone(&self) -> (r: Self)
        ensures
            r@ == self@,
    {
        let description = match &self.description {
            Some(s) => Some(s.clone()),
            None => None,
        };
        PortInfo { port: self.port.clone(), port_type: self.port_type.clone(), description }
    }
}

impl Default for PortInfo {
    /// A blank port description.
    fn default() -> (r: Self)
        ensures
            r.port@ == Seq::<char>::empty(),
            r.port_type@ == SpecPortType::Other(Seq::<char>::empty()),
            r.description is None,
    {
        PortInfo::new(String::new(), PortType::Other(String::new()))
    }
}

/// Configuration used to open a port.
#[derive(Debug, Clone, Copy, PartialEq, Eq, Structural)]
pub struct PortConfig {
    pub baud_rate: u32,
    /// Data bits per character; 5 to 8.
    pub data_bits: u8,
    /// Stop bits per character; 1 or 2.
    pub stop_bits: u8,
}

impl PortConfig {
    /// The enumerated sets a port can actually be opened with.
    pub open spec fn valid(&self) -> bool {
        5 <= self.data_bits <= 8 && 1 <= self.stop_bits <= 2
    }

    pub fn new(baud_rate: u32, data_bits: u8, stop_bits: u8) -> (r: Self)
        ensures
            r.baud_rate == baud_rate,
            r.data_bits == data_bits,
            r.stop_bits == stop_bits,
    {
        PortConfig { baud_rate, data_bits, stop_bits }
    }

    /// Check the configuration against the enumerated data-bit and
    /// stop-bit sets; values outside them are rejected, never clamped.
    pub fn validate(&self) -> (r: Result<(), Error>)
        ensures
            r is Ok <==> self.valid(),
            r matches Err(e) ==> e is ConfigError,
    {
        if self.data_bits < 5 || self.data_bits > 8 {
            Err(Error::ConfigError(String::from_str("Invalid data bits")))
        } else if self.stop_bits < 1 || self.stop_bits > 2 {
            Err(Error::ConfigError(String::from_str("Invalid stop bits")))
        } else {
            Ok(())
        }
    }
}

impl Default for PortConfig {
    /// 9600 baud, 8 data bits, 1 stop bit.
    fn default() -> (r: Self)
        ensures
            r == (PortConfig { baud_rate: 9600u32, data_bits: 8u8, stop_bits: 1u8 }),
            r.valid(),
    {
        PortConfig::new(9600, 8, 1)
    }
}

/// `m` and `p` joined with a space, or whichever is present, or empty.
pub open spec fn spec_combo(m: Option<Seq<char>>, p: Option<Seq<char>>) -> Seq<char> {
    match (m, p) {
        (Some(m), Some(p)) => m + seq![' '] + p,
        (Some(m), None) => m,
        (None, Some(p)) => p,
        (None, None) => Seq::empty(),
    }
}

/// What [`port_info_from_fields`] builds, over the views of its
/// arguments.
pub open spec fn spec_port_info_from_fields(
    default_name: Seq<char>,
    default_type: SpecPortType,
    name: Option<Seq<char>>,
    path: Option<Seq<char>>,
    vendor_id: Option<u16>,
    product_id: Option<u16>,
    manufacturer: Option<Seq<char>>,
    product: Option<Seq<char>>,
    serial_number: Option<Seq<char>>,
) -> SpecPortInfo {
    if name is Some {
        SpecPortInfo { port: name.unwrap(), port_type: default_type, description: None }
    } else if path is Some {
        SpecPortInfo { port: path.unwrap(), port_type: default_type, description: None }
    } else {
        let has_usb = vendor_id is Some || product_id is Some;
        let ptype = if has_usb {
            SpecPortType::Usb { vendor_id, product_id, manufacturer, product, serial_number }
        } else {
            default_type
        };
        let port1 = if has_usb && default_name.len() == 0 {
            spec_combo(manufacturer, product)
        } else {
            default_name
        };
        let desc = spec_combo(manufacturer, product);
        let desc_ok = (manufacturer is Some || product is Some) && desc.len() > 0;
        let port2 = if desc_ok && port1.len() == 0 {
            desc
        } else {
            port1
        };
        SpecPortInfo {
            port: port2,
            port_type: ptype,
            description: if desc_ok {
                Some(desc)
            } else {
                None
            },
        }
    }
}

/// A copy of an optional string.
fn opt_str_clone(o: &Option<String>) -> (r: Option<String>)
    ensures
        opt_view(r) == opt_view(*o),
{
    match o {
        Some(s) => Some(s.clone()),
        None => None,
    }
}

/// `m` and `p` joined with a space, or whichever is present, or empty.
fn combo(m: &Option<String>, p: &Option<String>) -> (r: String)
    ensures
        r@ == spec_combo(opt_view(*m), opt_view(*p)),
{
    match (m, p) {
        (Some(m), Some(p)) => {
            proof {
                reveal_strlit(" ");
            }
            let r = m.clone().concat(" ").concat(p.as_str());
            proof {
                assert(r@ =~= m@ + seq![' '] + p@);
            }
            r
        },
        (Some(m), None) => m.clone(),
        (None, Some(p)) => p.clone(),
        (None, None) => String::new(),
    }
}

/// Compose discovery information from the optional fields a platform
/// exposes for a device. An explicit `name` or `path` wins as the port
/// identifier; a vendor or product id makes the port a USB port carrying
/// the metadata fields; a manufacturer/product pair doubles as the
/// description and as a fallback identifier.
pub fn port_info_from_fields(
    default_name: String,
    default_type: PortType,
    name: Option<String>,
    path: Option<String>,
    vendor_id: Option<u16>,
    product_id: Option<u16>,
    manufacturer: Option<String>,
    product: Option<String>,
    serial_number: Option<String>,
) -> (r: PortInfo)
    ensures
        r@ == spec_port_info_from_fields(
            default_name@,
            default_type@,
            opt_view(name),
            opt_view(path),
            vendor_id,
            product_id,
            opt_view(manufacturer),
            opt_view(product),
            opt_view(serial_number),
        ),
{
    let mut info = PortInfo::new(default_name, default_type);
    match name {
        Some(n) => {
            info.port = n;
            return info;
        },
        None => {},
    }
    match path {
        Some(p) => {
            info.port = p;
            return info;
        },
        None => {},
    }
    let has_usb = vendor_id.is_some() || product_id.is_some();
    if has_usb {
        info.port_type = PortType::Usb {
            vendor_id,
            product_id,
            manufacturer: opt_str_clone(&manufacturer),
            product: opt_str_clone(&product),
            serial_number: opt_str_clone(&serial_number),
        };
        if info.port.as_str().is_empty() {
            info.port = combo(&manufacturer, &product);
        }
    }
    if manufacturer.is_some() || product.is_some() {
        let desc = combo(&manufacturer, &product);
        if !desc.as_str().is_empty() {
            if info.port.as_str().is_empty() {
                info.port = desc.clone();
            }
            info.description = Some(desc);
        }
    }
    info
}

/// Builder-style configuration every port type supports.
pub trait SerialPortConfig: Sized {
    /// The port's discovery information.
    spec fn spec_info(&self) -> PortInfo;

    /// The port's configuration.
    spec fn spec_config(&self) -> PortConfig;

    /// Replace the port name, where applicable.
    fn with_port(self, port: String) -> (r: Self)
        ensures
            r.spec_info().port@ == port@,
            r.spec_info().port_type == self.spec_info().port_type,
            r.spec_info().description == self.spec_info().description,
            r.spec_config() == self.spec_config(),
    ;

    /// Replace the entire port configuration.
    fn with_config(self, config: PortConfig) -> (r: Self)
        ensures
            r.spec_config() == config,
            r.spec_info() == self.spec_info(),
    ;
}

/// The port lifecycle contract: Unopened, then Open after a successful
/// `open`, then Closed after `close`. Reads and writes are valid only
/// while open; `close` always leaves the port closed; a failed operation
/// never leaves the state torn.
pub trait SerialPort: SerialPortConfig {
    /// Whether the port currently holds its transport resource.
    spec fn spec_is_open(&self) -> bool;

    /// Obtain a port instance for the described device. On transports
    /// where the user picks a device interactively, `info` is advisory.
    /// The instance starts unopened.
    fn request_port(info: PortInfo, config: PortConfig) -> (r: Result<Self, Error>)
        ensures
            r matches Ok(p) ==> !p.spec_is_open(),
    ;

    /// Acquire the transport resource. A configuration outside the
    /// enumerated data/stop-bit sets is rejected with a configuration
    /// error; a failed open leaves the port as it was.
    fn open(&mut self) -> (r: Result<(), Error>)
        ensures
            r is Ok ==> final(self).spec_is_open(),
            r is Err ==> final(self).spec_is_open() == old(self).spec_is_open(),
            !old(self).spec_config().valid() ==> (r matches Err(e) && e is ConfigError),
            final(self).spec_info() == old(self).spec_info(),
            final(self).spec_config() == old(self).spec_config(),
    ;

    /// Release the transport resource, best-effort. Never fails, and the
    /// port is closed afterwards whatever state it was in — so closing
    /// twice in a row succeeds both times.
    fn close(&mut self) -> (r: Result<(), Error>)
        ensures
            r is Ok,
            !final(self).spec_is_open(),
            final(self).spec_info() == old(self).spec_info(),
            final(self).spec_config() == old(self).spec_config(),
    ;

    /// Read pending data as one message. Valid only while open: on a
    /// port that is not open the result is a read error, never silent
    /// success. A failed read leaves the port open.
    fn read(&mut self) -> (r: Result<Message, Error>)
        ensures
            !old(self).spec_is_open() ==> (r matches Err(e) && e is ReadError),
            final(self).spec_is_open() == old(self).spec_is_open(),
            r matches Ok(m) ==> m.direction == crate::data::Direction::In,
            final(self).spec_info() == old(self).spec_info(),
            final(self).spec_config() == old(self).spec_config(),
    ;

    /// Write a message's payload. Valid only while open: on a port that
    /// is not open the result is a write error, never silent success. A
    /// failed write leaves the port open.
    fn write(&mut self, message: Message) -> (r: Result<(), Error>)
        ensures
            !old(self).spec_is_open() ==> (r matches Err(e) && e is WriteError),
            final(self).spec_is_open() == old(self).spec_is_open(),
            final(self).spec_info() == old(self).spec_info(),
            final(self).spec_config() == old(self).spec_config(),
    ;

    /// Flush buffered output, best-effort; transports without a native
    /// flush primitive succeed as a no-op. Never changes the state.
    fn flush(&mut self) -> (r: Result<(), Error>)
        ensures
            final(self).spec_is_open() == old(self).spec_is_open(),
            final(self).spec_info() == old(self).spec_info(),
            final(self).spec_config() == old(self).spec_config(),
    ;

    /// The port configuration; valid in every state.
    fn config(&self) -> (r: &PortConfig)
        ensures
            *r == self.spec_config(),
    ;

    /// The port discovery information; valid in every state.
    fn info(&self) -> (r: &PortInfo)
        ensures
            *r == self.spec_info(),
    ;

    /// Whether the port is open, without side effects.
    fn is_open(&self) -> (r: bool)
        ensures
            r == self.spec_is_open(),
    ;

    /// Enumerate the currently visible, permitted devices, without
    /// prompting the user.
    fn list_ports() -> Result<Vec<PortInfo>, Error>;
}

} // verus!
