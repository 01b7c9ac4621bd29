use drive_by_wire::buttons::button_index;
use drive_by_wire::buttons::Button;
use drive_by_wire::config::erase_write_sector;
use drive_by_wire::config::resonable_defaults;
use drive_by_wire::config::write_flash;
use drive_by_wire::config::DbwConfig;
use drive_by_wire::config::FlashBlock;
use drive_by_wire::config::BLOCK_SIZE;

fn all_gears() -> Vec<Button> {
    vec![Button::P, Button::R, Button::N, Button::D]
}

#[test]
fn round_trip_every_valid_pair() {
    for gear in all_gears() {
        for valet in [false, true] {
            let mut flash = FlashBlock::erased();
            let config = DbwConfig {
                active_button: gear,
                valet_mode: valet,
            };
            write_flash(&mut flash, config);
            let back = DbwConfig::read(&flash);
            assert_eq!(back, config);
        }
    }
}

#[test]
fn erased_block_reads_park_valet_off() {
    let flash = FlashBlock::erased();
    let config = DbwConfig::read(&flash);
    assert_eq!(config.active_button, Button::P);
    assert!(!config.valet_mode);
    assert_eq!(config, resonable_defaults());
}

#[test]
fn corrupt_bytes_read_as_safe_defaults() {
    for gear_byte in [4u8, 17, 200, 255] {
        for valet_byte in [2u8, 9, 254, 255] {
            let mut bytes = vec![0u8; BLOCK_SIZE];
            bytes[0] = gear_byte;
            bytes[1] = valet_byte;
            let flash = FlashBlock::from_bytes(bytes);
            let config = DbwConfig::read(&flash);
            assert_eq!(config.active_button, Button::P);
            assert!(!config.valet_mode);
        }
    }
}

#[test]
fn write_supersedes_previous_record() {
    let mut flash = FlashBlock::erased();
    write_flash(
        &mut flash,
        DbwConfig {
            active_button: Button::D,
            valet_mode: true,
        },
    );
    write_flash(
        &mut flash,
        DbwConfig {
            active_button: Button::R,
            valet_mode: false,
        },
    );
    let back = DbwConfig::read(&flash);
    assert_eq!(back.active_button, Button::R);
    assert!(!back.valet_mode);
}

#[test]
fn record_bytes_are_fixed_width_indices() {
    let config = DbwConfig {
        active_button: Button::N,
        valet_mode: true,
    };
    assert_eq!(config.as_array(), [2u8, 1u8]);
    let config = DbwConfig {
        active_button: Button::P,
        valet_mode: false,
    };
    assert_eq!(config.as_array(), [0u8, 0u8]);
}

#[test]
fn gear_indices_are_the_documented_encoding() {
    assert_eq!(button_index(Button::P), 0);
    assert_eq!(button_index(Button::R), 1);
    assert_eq!(button_index(Button::N), 2);
    assert_eq!(button_index(Button::D), 3);
    assert_eq!(button_index(Button::UNSET), 4);
}

#[test]
fn prepared_sector_reads_as_initial_record() {
    let mut flash = FlashBlock::erased();
    erase_write_sector(&mut flash);
    for offset in [0usize, 1, 2, BLOCK_SIZE - 1] {
        assert_eq!(flash.read_byte(offset), 0);
    }
    let config = DbwConfig::read(&flash);
    assert_eq!(config.active_button, Button::P);
    assert!(!config.valet_mode);
}
