//! What the node is set up with at boot: its role, its memory budgets, its
//! link-layer address and the settings of the collaborators it is composed
//! with. All of it is fixed at build time.

use crate::arena::{CENTRAL_ARENA_BYTES, PERIPHERAL_ARENA_BYTES};
use crate::screen::{PANEL_COLS, PANEL_ROWS};
use crate::tier::Tier;
use vstd::prelude::*;

verus! {

/// The part a node plays in the split keyboard.
#[derive(Clone, Copy, Debug, PartialEq, Eq, Structural)]
pub enum Role {
    /// The half that talks to the host, runs the keymap and drives the
    /// display.
    Central,
    PeripheralLeft,
    PeripheralRight,
}

/// Bytes of a flash sector.
pub const SECTOR_BYTES: u32 = 4096;

/// Where the boot loader begins; storage ends below it.
pub const BOOT_LOADER_START: u32 = 0xF4000;

/// Where the storage region begins.
pub const STORAGE_START: u32 = 0xA0000;

/// Interrupt level of the radio's timing-critical handlers: the most
/// urgent.
pub const RADIO_LEVEL: u8 = 0;

/// Interrupt level of the battery measurement.
pub const ADC_LEVEL: u8 = 3;

/// Interrupt level from which the medium tier runs: the least urgent of the
/// interrupt levels.
pub const MEDIUM_TIER_LEVEL: u8 = 7;

/// The two bits that mark a link-layer address as random and static.
pub const STATIC_ADDRESS_BITS: u8 = 0xc0;

/// The link-layer address made from the two words of the device
/// identifier, least significant byte first: the four bytes of `low`, the
/// low byte of `high`, and the second byte of `high` with the two bits of a
/// random static address set.
pub open spec fn address_bytes(low: u32, high: u32) -> Seq<u8> {
    seq![
        (low % 256) as u8,
        (low / 256 % 256) as u8,
        (low / 65536 % 256) as u8,
        (low / 16777216) as u8,
        (high % 256) as u8,
        ((high / 256 % 256) as u8) | STATIC_ADDRESS_BITS,
    ]
}

/// The node's link-layer address, from the two words of the device
/// identifier that the chip holds.
pub fn ble_addr(low: u32, high: u32) -> (addr: [u8; 6])
    ensures
        addr@ == address_bytes(low, high),
        addr@[5] >= STATIC_ADDRESS_BITS,
{
    let word: u64 = (((high as u64) << 32) | (low as u64)) | 0x0000_c000_0000_0000;
    let b0: u64 = word & 0xff;
    let b1: u64 = (word >> 8) & 0xff;
    let b2: u64 = (word >> 16) & 0xff;
    let b3: u64 = (word >> 24) & 0xff;
    let b4: u64 = (word >> 32) & 0xff;
    let b5: u64 = (word >> 40) & 0xff;
    assert(b0 == low % 256 && b1 == low / 256 % 256 && b2 == low / 65536 % 256 && b3 == low
        / 16777216 && b4 == high % 256 && b5 < 256 && b5 as u8 == ((high / 256 % 256) as u8)
        | 0xc0u8 && b5 >= 0xc0) by (bit_vector)
        requires
            word == (((high as u64) << 32) | (low as u64)) | 0x0000_c000_0000_0000u64,
            b0 == word & 0xff,
            b1 == (word >> 8) & 0xff,
            b2 == (word >> 16) & 0xff,
            b3 == (word >> 24) & 0xff,
            b4 == (word >> 32) & 0xff,
            b5 == (word >> 40) & 0xff,
    ;
    let addr: [u8; 6] = [b0 as u8, b1 as u8, b2 as u8, b3 as u8, b4 as u8, b5 as u8];
    assert(addr@ =~= address_bytes(low, high));
    addr
}

/// What the link-layer controller is asked to support.
#[derive(Clone, Copy, Debug, PartialEq, Eq, Structural)]
pub struct LinkConfig {
    pub scan: bool,
    pub central: bool,
    pub advertise: bool,
    pub peripheral: bool,
    pub data_length_central: bool,
    pub data_length_peripheral: bool,
    pub phy_update_central: bool,
    pub phy_update_peripheral: bool,
    pub two_megabit_phy: bool,
    /// Links on which this node is the central.
    pub central_links: u8,
    /// Links on which this node is the peripheral.
    pub peripheral_links: u8,
    /// Largest packet sent and received, in bytes.
    pub packet_bytes: u16,
    /// Outgoing buffers for each link.
    pub tx_buffers: u8,
    /// Incoming buffers for each link.
    pub rx_buffers: u8,
    /// Bytes of memory that the controller is given.
    pub memory_bytes: usize,
}

/// Bytes of a link-layer packet.
pub const PACKET_BYTES: u16 = 251;

/// Buffers for each link and direction.
pub const LINK_BUFFERS: u8 = 3;

/// The link-layer settings of a role. Every node advertises and is the
/// peripheral of one link; the central node also scans and is the central
/// of one link to each half.
pub open spec fn link_plan(role: Role) -> LinkConfig {
    let central = role == Role::Central;
    LinkConfig {
        scan: central,
        central,
        advertise: true,
        peripheral: true,
        data_length_central: central,
        data_length_peripheral: true,
        phy_update_central: central,
        phy_update_peripheral: true,
        two_megabit_phy: true,
        central_links: if central {
            2
        } else {
            0
        },
        peripheral_links: 1,
        packet_bytes: PACKET_BYTES,
        tx_buffers: LINK_BUFFERS,
        rx_buffers: LINK_BUFFERS,
        memory_bytes: if central {
            15472
        } else {
            4624
        },
    }
}

/// The link-layer settings of a role.
pub fn link_config(role: Role) -> (config: LinkConfig)
    ensures
        config == link_plan(role),
{
    match role {
        Role::Central => LinkConfig {
            scan: true,
            central: true,
            advertise: true,
            peripheral: true,
            data_length_central: true,
            data_length_peripheral: true,
            phy_update_central: true,
            phy_update_peripheral: true,
            two_megabit_phy: true,
            central_links: 2,
            peripheral_links: 1,
            packet_bytes: PACKET_BYTES,
            tx_buffers: LINK_BUFFERS,
            rx_buffers: LINK_BUFFERS,
            memory_bytes: 15472,
        },
        _ => LinkConfig {
            scan: false,
            central: false,
            advertise: true,
            peripheral: true,
            data_length_central: false,
            data_length_peripheral: true,
            phy_update_central: false,
            phy_update_peripheral: true,
            two_megabit_phy: true,
            central_links: 0,
            peripheral_links: 1,
            packet_bytes: PACKET_BYTES,
            tx_buffers: LINK_BUFFERS,
            rx_buffers: LINK_BUFFERS,
            memory_bytes: 4624,
        },
    }
}

/// A node asks for the central's features exactly when it holds links as a
/// central, and every node can be reached: it advertises and holds one link
/// as a peripheral.
pub proof fn link_plan_is_consistent(role: Role)
    ensures
        link_plan(role).central <==> link_plan(role).central_links > 0,
        link_plan(role).scan == link_plan(role).central,
        link_plan(role).data_length_central ==> link_plan(role).central,
        link_plan(role).phy_update_central ==> link_plan(role).central,
        link_plan(role).advertise && link_plan(role).peripheral,
        link_plan(role).peripheral_links == 1,
{
}

/// Bytes of the arena of a role.
pub fn arena_bytes(role: Role) -> (bytes: usize)
    ensures
        bytes == if role == Role::Central {
            CENTRAL_ARENA_BYTES
        } else {
            PERIPHERAL_ARENA_BYTES
        },
{
    match role {
        Role::Central => CENTRAL_ARENA_BYTES,
        _ => PERIPHERAL_ARENA_BYTES,
    }
}

/// The part of flash that holds the keymap and the addresses of the paired
/// halves.
#[derive(Clone, Copy, Debug, PartialEq, Eq, Structural)]
pub struct StorageRegion {
    pub start: u32,
    pub sectors: u32,
}

impl StorageRegion {
    /// The first address after the region.
    pub open spec fn end(self) -> int {
        self.start + self.sectors * SECTOR_BYTES
    }
}

/// The storage region of a role: six sectors on the central node, thirty-two
/// on a peripheral. It begins on a sector boundary and ends below the boot
/// loader.
pub fn storage_region(role: Role) -> (region: StorageRegion)
    ensures
        region.start == STORAGE_START,
        region.sectors == if role == Role::Central {
            6u32
        } else {
            32u32
        },
        region.start as int % SECTOR_BYTES as int == 0,
        region.end() <= BOOT_LOADER_START,
{
    let sectors: u32 = match role {
        Role::Central => 6,
        _ => 32,
    };
    StorageRegion { start: STORAGE_START, sectors }
}

/// How the node names itself to the host.
#[derive(Clone, Copy, Debug)]
pub struct Identity {
    pub vendor_id: u16,
    pub product_id: u16,
    pub manufacturer: &'static str,
    pub product_name: &'static str,
    pub serial_number: &'static str,
}

/// The identity of the keyboard.
pub fn identity() -> (id: Identity)
    ensures
        id.vendor_id == 0x4c4b,
        id.product_id == 0x4643,
        id.manufacturer@ == "LegitCamper"@,
        id.product_name@ == "RMK Keyboard"@,
        id.serial_number@ == "na"@,
{
    Identity {
        vendor_id: 0x4c4b,
        product_id: 0x4643,
        manufacturer: "LegitCamper",
        product_name: "RMK Keyboard",
        serial_number: "na",
    }
}

/// The panel of the status display.
#[derive(Clone, Copy, Debug, PartialEq, Eq, Structural)]
pub struct Panel {
    pub cols: usize,
    pub rows: usize,
    /// Whether the panel is mounted with its long side across.
    pub horizontal: bool,
    /// Whether the panel takes red first; blue first otherwise.
    pub red_first: bool,
}

/// The panel of the status display: as large as the status screen, mounted
/// with its long side across, red first.
pub fn panel() -> (panel: Panel)
    ensures
        panel == (Panel {
            cols: PANEL_COLS,
            rows: PANEL_ROWS,
            horizontal: true,
            red_first: true,
        }),
{
    Panel { cols: PANEL_COLS, rows: PANEL_ROWS, horizontal: true, red_first: true }
}

/// The interrupt level from which a tier runs; the low tier runs in thread
/// mode, below every interrupt.
pub fn tier_level(tier: Tier) -> (level: Option<u8>)
    ensures
        level == match tier {
            Tier::Medium => Some(MEDIUM_TIER_LEVEL),
            Tier::Low => None::<u8>,
        },
{
    match tier {
        Tier::Medium => Some(MEDIUM_TIER_LEVEL),
        Tier::Low => None,
    }
}

/// Whether code at `first` interrupts code at `second`: an interrupt level
/// interrupts thread mode and every level of a larger number.
pub open spec fn interrupts(first: Option<u8>, second: Option<u8>) -> bool {
    match (first, second) {
        (Some(a), Some(b)) => a < b,
        (Some(_), None) => true,
        (None, _) => false,
    }
}

/// Whether code at `first` interrupts code at `second`.
pub fn outranks(first: Option<u8>, second: Option<u8>) -> (yes: bool)
    ensures
        yes == interrupts(first, second),
{
    match (first, second) {
        (Some(a), Some(b)) => a < b,
        (Some(_), None) => true,
        (None, _) => false,
    }
}

/// The medium tier runs above the low tier and below the radio: the radio's
/// handlers and the battery measurement interrupt it, it interrupts the low
/// tier, and the low tier interrupts nothing.
pub proof fn medium_tier_sits_between_radio_and_thread_mode()
    ensures
        interrupts(Some(RADIO_LEVEL), Some(MEDIUM_TIER_LEVEL)),
        interrupts(Some(ADC_LEVEL), Some(MEDIUM_TIER_LEVEL)),
        interrupts(Some(MEDIUM_TIER_LEVEL), None),
        forall|other: Option<u8>| !interrupts(None, other),
{
}

} // verus!
