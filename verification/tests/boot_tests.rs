use splitnode::boot::{
    arena_bytes, ble_addr, identity, link_config, outranks, panel, storage_region, tier_level,
    LinkConfig, Panel, Role, StorageRegion, ADC_LEVEL, BOOT_LOADER_START, MEDIUM_TIER_LEVEL,
    RADIO_LEVEL, SECTOR_BYTES,
};
use splitnode::tier::Tier;

#[test]
fn address_is_the_identifier_least_significant_byte_first() {
    assert_eq!(ble_addr(0x1234_5678, 0x0000_1234), [0x78, 0x56, 0x34, 0x12, 0x34, 0xd2]);
}

#[test]
fn address_carries_the_static_random_bits() {
    assert_eq!(ble_addr(0, 0), [0, 0, 0, 0, 0, 0xc0]);
    assert_eq!(ble_addr(0xffff_ffff, 0xffff_ffff), [0xff, 0xff, 0xff, 0xff, 0xff, 0xff]);
    assert_eq!(ble_addr(1, 0x3f00)[5], 0xff);
    assert_eq!(ble_addr(1, 0x0100)[5], 0xc1);
}

#[test]
fn address_ignores_the_upper_half_of_the_high_word() {
    assert_eq!(ble_addr(0x0102_0304, 0xabcd_0506), ble_addr(0x0102_0304, 0x0000_0506));
    assert_eq!(ble_addr(0x0102_0304, 0xabcd_0506), [4, 3, 2, 1, 6, 0xc5]);
}

#[test]
fn the_central_node_scans_and_holds_two_central_links() {
    assert_eq!(
        link_config(Role::Central),
        LinkConfig {
            scan: true,
            central: true,
            advertise: true,
            peripheral: true,
            data_length_central: true,
            data_length_peripheral: true,
            phy_update_central: true,
            phy_update_peripheral: true,
            two_megabit_phy: true,
            central_links: 2,
            peripheral_links: 1,
            packet_bytes: 251,
            tx_buffers: 3,
            rx_buffers: 3,
            memory_bytes: 15472,
        }
    );
}

#[test]
fn a_peripheral_node_only_advertises() {
    let expected = LinkConfig {
        scan: false,
        central: false,
        advertise: true,
        peripheral: true,
        data_length_central: false,
        data_length_peripheral: true,
        phy_update_central: false,
        phy_update_peripheral: true,
        two_megabit_phy: true,
        central_links: 0,
        peripheral_links: 1,
        packet_bytes: 251,
        tx_buffers: 3,
        rx_buffers: 3,
        memory_bytes: 4624,
    };
    assert_eq!(link_config(Role::PeripheralLeft), expected);
    assert_eq!(link_config(Role::PeripheralRight), expected);
}

#[test]
fn arena_budget_depends_on_the_role() {
    assert_eq!(arena_bytes(Role::Central), 5 * 1024);
    assert_eq!(arena_bytes(Role::PeripheralLeft), 0);
    assert_eq!(arena_bytes(Role::PeripheralRight), 0);
}

#[test]
fn storage_ends_below_the_boot_loader() {
    assert_eq!(storage_region(Role::Central), StorageRegion { start: 0xA0000, sectors: 6 });
    assert_eq!(storage_region(Role::PeripheralLeft), StorageRegion { start: 0xA0000, sectors: 32 });
    assert_eq!(storage_region(Role::PeripheralRight), StorageRegion { start: 0xA0000, sectors: 32 });
    for role in [Role::Central, Role::PeripheralLeft, Role::PeripheralRight] {
        let region = storage_region(role);
        assert!(region.start + region.sectors * SECTOR_BYTES <= BOOT_LOADER_START);
    }
}

#[test]
fn identity_names_the_keyboard() {
    let id = identity();
    assert_eq!(id.vendor_id, 0x4c4b);
    assert_eq!(id.product_id, 0x4643);
    assert_eq!(id.manufacturer, "LegitCamper");
    assert_eq!(id.product_name, "RMK Keyboard");
    assert_eq!(id.serial_number, "na");
}

#[test]
fn the_panel_is_240_by_280() {
    assert_eq!(panel(), Panel { cols: 240, rows: 280, horizontal: true, red_first: true });
}

#[test]
fn interrupt_levels_order_the_tiers() {
    assert_eq!(tier_level(Tier::Medium), Some(7));
    assert_eq!(tier_level(Tier::Low), None);
    assert!(outranks(Some(RADIO_LEVEL), tier_level(Tier::Medium)));
    assert!(outranks(Some(ADC_LEVEL), Some(MEDIUM_TIER_LEVEL)));
    assert!(outranks(tier_level(Tier::Medium), tier_level(Tier::Low)));
    assert!(!outranks(tier_level(Tier::Low), tier_level(Tier::Medium)));
    assert!(!outranks(Some(7), Some(7)));
    assert!(!outranks(None, None));
}
