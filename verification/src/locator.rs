//! Device discovery: which of the serial ports that the system lists is the
//! controller.
//!
//! With a port name given by the user, only the port of that name will do.
//! Without one, a USB port is taken when it has the canonical ids of the
//! device, or, in relaxed mode, the ids of a whitelisted board, or when it
//! advertises the canonical product name. The first such port is chosen.

use crate::error::ViewerError;
use crate::usb::UsbDefinition;
use vstd::prelude::*;

verus! {

/// Vendor id of the device.
pub const B0XX_VID: u16 = 9025;

/// Product id of the device.
pub const B0XX_PID: u16 = 32822;

/// Product name that the device advertises.
pub const B0XX_PRODUCT: &'static str = "Arduino_Leonardo";

/// What a USB port tells of the device behind it.
#[derive(Clone, Debug, PartialEq, Eq)]
pub struct UsbPortInfo {
    pub vid: u16,
    pub pid: u16,
    pub product: Option<String>,
}

/// The kind of a serial port.
#[derive(Clone, Debug, PartialEq, Eq)]
pub enum PortKind {
    /// A port on the USB bus.
    Usb(UsbPortInfo),
    /// Any other port: it carries no ids.
    Other,
}

/// One serial port, as the system lists it.
#[derive(Clone, Debug, PartialEq, Eq)]
pub struct PortDescriptor {
    pub port_name: String,
    pub port_type: PortKind,
}

/// Whether a pair of ids is among the whitelisted boards.
pub open spec fn whitelisted(whitelist: Seq<UsbDefinition>, vid: u16, pid: u16) -> bool {
    exists|i: int| 0 <= i < whitelist.len() && (#[trigger] whitelist[i]).spec_matches(vid, pid)
}

/// Whether a USB port is the device, going by what it tells of itself.
pub open spec fn usb_port_matches(
    info: UsbPortInfo,
    relaxed: bool,
    whitelist: Seq<UsbDefinition>,
) -> bool {
    ||| info.vid == B0XX_VID && info.pid == B0XX_PID
    ||| relaxed && whitelisted(whitelist, info.vid, info.pid)
    ||| info.product matches Some(product) && product@ == B0XX_PRODUCT@
}

/// Whether a port is the one to open.
pub open spec fn port_matches(
    port: PortDescriptor,
    custom_tty: Option<String>,
    relaxed: bool,
    whitelist: Seq<UsbDefinition>,
) -> bool {
    match custom_tty {
        Some(name) => port.port_name@ == name@,
        None => match port.port_type {
            PortKind::Usb(info) => usb_port_matches(info, relaxed, whitelist),
            PortKind::Other => false,
        },
    }
}

/// Whether the port at a position is the first that matches.
pub open spec fn is_first_match(
    ports: Seq<PortDescriptor>,
    position: int,
    custom_tty: Option<String>,
    relaxed: bool,
    whitelist: Seq<UsbDefinition>,
) -> bool {
    &&& 0 <= position < ports.len()
    &&& port_matches(ports[position], custom_tty, relaxed, whitelist)
    &&& forall|j: int|
        0 <= j < position ==> !port_matches(#[trigger] ports[j], custom_tty, relaxed, whitelist)
}

/// Whether no port matches.
pub open spec fn no_port_matches(
    ports: Seq<PortDescriptor>,
    custom_tty: Option<String>,
    relaxed: bool,
    whitelist: Seq<UsbDefinition>,
) -> bool {
    forall|j: int|
        0 <= j < ports.len() ==> !port_matches(#[trigger] ports[j], custom_tty, relaxed, whitelist)
}

/// Looks a pair of ids up in the whitelist.
pub fn is_whitelisted(whitelist: &Vec<UsbDefinition>, vid: u16, pid: u16) -> (listed: bool)
    ensures
        listed == whitelisted(whitelist@, vid, pid),
{
    let mut i: usize = 0;
    while i < whitelist.len()
        invariant
            i <= whitelist@.len(),
            forall|j: int| 0 <= j < i ==> !(#[trigger] whitelist@[j]).spec_matches(vid, pid),
        decreases whitelist@.len() - i,
    {
        if whitelist[i].matches(vid, pid) {
            return true;
        }
        i += 1;
    }
    false
}

impl UsbPortInfo {
    /// Whether this USB port is the device.
    pub fn is_b0xx(&self, relaxed: bool, whitelist: &Vec<UsbDefinition>) -> (matches: bool)
        ensures
            matches == usb_port_matches(*self, relaxed, whitelist@),
    {
        if self.vid == B0XX_VID && self.pid == B0XX_PID {
            return true;
        }
        if relaxed && is_whitelisted(whitelist, self.vid, self.pid) {
            return true;
        }
        match &self.product {
            Some(product) => {
                let canonical = B0XX_PRODUCT.to_owned();
                *product == canonical
            },
            None => false,
        }
    }
}

impl PortDescriptor {
    /// Whether this port is the one to open.
    pub fn is_b0xx(
        &self,
        custom_tty: &Option<String>,
        relaxed: bool,
        whitelist: &Vec<UsbDefinition>,
    ) -> (matches: bool)
        ensures
            matches == port_matches(*self, *custom_tty, relaxed, whitelist@),
    {
        match custom_tty {
            Some(name) => self.port_name == *name,
            None => match &self.port_type {
                PortKind::Usb(info) => info.is_b0xx(relaxed, whitelist),
                PortKind::Other => false,
            },
        }
    }
}

/// Finds the position of the port to open among those that the system lists:
/// the first that matches. Without a match the device is reported as not found.
pub fn locate(
    ports: &Vec<PortDescriptor>,
    custom_tty: &Option<String>,
    relaxed: bool,
    whitelist: &Vec<UsbDefinition>,
) -> (found: Result<usize, ViewerError>)
    ensures
        match found {
            Ok(position) => is_first_match(
                ports@,
                position as int,
                *custom_tty,
                relaxed,
                whitelist@,
            ),
            Err(e) => e == ViewerError::B0xxNotFound && no_port_matches(
                ports@,
                *custom_tty,
                relaxed,
                whitelist@,
            ),
        },
{
    let mut i: usize = 0;
    while i < ports.len()
        invariant
            i <= ports@.len(),
            forall|j: int|
                0 <= j < i ==> !port_matches(#[trigger] ports@[j], *custom_tty, relaxed, whitelist@),
        decreases ports@.len() - i,
    {
        if ports[i].is_b0xx(custom_tty, relaxed, whitelist) {
            return Ok(i);
        }
        i += 1;
    }
    Err(ViewerError::B0xxNotFound)
}

/// A port with the canonical ids of the device matches whenever the user
/// named no port, whatever the mode and the whitelist, and whichever other
/// ports are listed beside it.
pub proof fn lemma_canonical_port_matches(
    port: PortDescriptor,
    relaxed: bool,
    whitelist: Seq<UsbDefinition>,
)
    requires
        port.port_type matches PortKind::Usb(info) && info.vid == B0XX_VID && info.pid == B0XX_PID,
    ensures
        port_matches(port, None, relaxed, whitelist),
{
}

/// In relaxed mode a port with the ids of a whitelisted board matches
/// whenever the user named no port.
pub proof fn lemma_whitelisted_port_matches(
    port: PortDescriptor,
    whitelist: Seq<UsbDefinition>,
    entry: int,
)
    requires
        0 <= entry < whitelist.len(),
        port.port_type matches PortKind::Usb(info) && whitelist[entry].spec_matches(
            info.vid,
            info.pid,
        ),
    ensures
        port_matches(port, None, true, whitelist),
{
}

/// There is one first match at most, so discovery has one answer.
pub proof fn lemma_first_match_is_unique(
    ports: Seq<PortDescriptor>,
    one: int,
    other: int,
    custom_tty: Option<String>,
    relaxed: bool,
    whitelist: Seq<UsbDefinition>,
)
    requires
        is_first_match(ports, one, custom_tty, relaxed, whitelist),
        is_first_match(ports, other, custom_tty, relaxed, whitelist),
    ensures
        one == other,
{
}

/// A port that matches is the one selected when no port before it matches,
/// whatever else is listed.
pub proof fn lemma_match_among_unrelated_is_selected(
    ports: Seq<PortDescriptor>,
    position: int,
    custom_tty: Option<String>,
    relaxed: bool,
    whitelist: Seq<UsbDefinition>,
)
    requires
        0 <= position < ports.len(),
        port_matches(ports[position], custom_tty, relaxed, whitelist),
        forall|j: int|
            0 <= j < ports.len() && j != position ==> !port_matches(
                #[trigger] ports[j],
                custom_tty,
                relaxed,
                whitelist,
            ),
    ensures
        is_first_match(ports, position, custom_tty, relaxed, whitelist),
        !no_port_matches(ports, custom_tty, relaxed, whitelist),
{
}

/// Discovery succeeds exactly when some listed port matches.
pub proof fn lemma_match_is_found(
    ports: Seq<PortDescriptor>,
    position: int,
    custom_tty: Option<String>,
    relaxed: bool,
    whitelist: Seq<UsbDefinition>,
)
    requires
        0 <= position < ports.len(),
        port_matches(ports[position], custom_tty, relaxed, whitelist),
    ensures
        !no_port_matches(ports, custom_tty, relaxed, whitelist),
        exists|first: int|
            0 <= first <= position && is_first_match(ports, first, custom_tty, relaxed, whitelist),
    decreases position,
{
    if exists|j: int|
        0 <= j < position && port_matches(#[trigger] ports[j], custom_tty, relaxed, whitelist) {
        let j = choose|j: int|
            0 <= j < position && port_matches(#[trigger] ports[j], custom_tty, relaxed, whitelist);
        lemma_match_is_found(ports, j, custom_tty, relaxed, whitelist);
    } else {
        assert(is_first_match(ports, position, custom_tty, relaxed, whitelist));
    }
}

} // verus!
