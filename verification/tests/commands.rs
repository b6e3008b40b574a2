use weather_station::commands::{
    ddram_address, geometry_is_valid, LCD_BLINKON, LCD_CLEARDISPLAY, LCD_CURSORON,
    LCD_DISPLAYCONTROL, LCD_DISPLAYON, LCD_ENTRYLEFT, LCD_ENTRYMODESET, LCD_FUNCTIONSET,
    LCD_RETURNHOME, LCD_ROW_OFFSETS, LCD_SETDDRAMADDR,
};
use weather_station::pins::{BoardPins, LcdPins};

#[test]
fn command_bytes_are_those_of_the_controller() {
    assert_eq!(LCD_CLEARDISPLAY, 0x01);
    assert_eq!(LCD_RETURNHOME, 0x02);
    assert_eq!(LCD_ENTRYMODESET, 0x04);
    assert_eq!(LCD_DISPLAYCONTROL, 0x08);
    assert_eq!(LCD_FUNCTIONSET, 0x20);
    assert_eq!(LCD_SETDDRAMADDR, 0x80);
    assert_eq!(LCD_DISPLAYON, 0x04);
    assert_eq!(LCD_CURSORON, 0x02);
    assert_eq!(LCD_BLINKON, 0x01);
    assert_eq!(LCD_ENTRYLEFT, 0x02);
}

#[test]
fn row_offsets_are_fixed() {
    assert_eq!(LCD_ROW_OFFSETS, [0x00, 0x40, 0x14, 0x54]);
}

#[test]
fn address_adds_column_to_row_offset() {
    assert_eq!(ddram_address(0, 0), 0x00);
    assert_eq!(ddram_address(15, 0), 0x0F);
    assert_eq!(ddram_address(0, 1), 0x40);
    assert_eq!(ddram_address(7, 1), 0x47);
    assert_eq!(ddram_address(0, 2), 0x14);
    assert_eq!(ddram_address(19, 2), 0x27);
    assert_eq!(ddram_address(0, 3), 0x54);
    assert_eq!(ddram_address(19, 3), 0x67);
    assert_eq!(ddram_address(171, 3), 0xFF);
}

#[test]
fn geometry_needs_cells_and_addresses_within_a_byte() {
    assert!(geometry_is_valid(16, 2));
    assert!(geometry_is_valid(20, 4));
    assert!(geometry_is_valid(1, 1));
    assert!(geometry_is_valid(255, 1));
    assert!(!geometry_is_valid(0, 2));
    assert!(!geometry_is_valid(16, 0));
    assert!(!geometry_is_valid(16, 5));
    // 0x40 + 191 = 255 still fits, 0x40 + 192 does not
    assert!(geometry_is_valid(192, 2));
    assert!(!geometry_is_valid(193, 2));
    assert!(geometry_is_valid(192, 3));
    // 0x54 + 171 = 255
    assert!(geometry_is_valid(172, 4));
    assert!(!geometry_is_valid(173, 4));
}

#[test]
fn display_signals_map_to_their_pins() {
    assert_eq!(LcdPins::RESET.mcp_pin(), 15);
    assert_eq!(LcdPins::ENABLE.mcp_pin(), 13);
    assert_eq!(LcdPins::D4.mcp_pin(), 12);
    assert_eq!(LcdPins::D5.mcp_pin(), 11);
    assert_eq!(LcdPins::D6.mcp_pin(), 10);
    assert_eq!(LcdPins::D7.mcp_pin(), 9);
    assert_eq!(LcdPins::RED.mcp_pin(), 6);
    assert_eq!(LcdPins::GREEN.mcp_pin(), 7);
    assert_eq!(LcdPins::BLUE.mcp_pin(), 8);
    assert_eq!(LcdPins::RW.mcp_pin(), 14);
    assert_eq!(LcdPins::PINS, [15, 13, 12, 11, 10, 9, 6, 7, 8, 14]);
}

#[test]
fn buttons_map_to_their_pins() {
    assert_eq!(BoardPins::LEFT_BUTTON.mcp_pin(), 4);
    assert_eq!(BoardPins::RIGHT_BUTTON.mcp_pin(), 1);
    assert_eq!(BoardPins::UP_BUTTON.mcp_pin(), 3);
    assert_eq!(BoardPins::DOWN_BUTTON.mcp_pin(), 2);
    assert_eq!(BoardPins::SELECT_BUTTON.mcp_pin(), 0);
    assert_eq!(BoardPins::PINS, [4, 1, 3, 2, 0]);
}

#[test]
fn display_and_button_pins_do_not_overlap() {
    for display_pin in LcdPins::PINS {
        assert!(display_pin < 16);
        assert!(!BoardPins::PINS.contains(&display_pin));
    }
    for (i, a) in LcdPins::PINS.iter().enumerate() {
        for b in &LcdPins::PINS[i + 1..] {
            assert_ne!(a, b);
        }
    }
}
